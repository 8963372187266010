//! Types nested in `TensorSliceProto`.
use vstd::prelude::*;

verus! {

/// Extent of the slice in one dimension.
///
/// Either both or no attributes must be set.  When no attribute is set
/// means: All data in that dimension.
#[derive(Clone, Debug, PartialEq, Default)]
pub struct Extent {
    /// Start index of the slice, starting at 0.
    pub start: i64,
    /// Length of the slice: if the length is missing or -1 we will
    /// interpret this as "everything in this dimension".  We use
    /// "oneof" to preserve information about whether the length is
    /// present without changing the serialization format from the
    /// prior proto2 version of this proto.
    pub has_length: Option<HasLength>,
}

/// Length of the slice: if the length is missing or -1 we will
/// interpret this as "everything in this dimension".  We use
/// "oneof" to preserve information about whether the length is
/// present without changing the serialization format from the
/// prior proto2 version of this proto.
#[derive(Clone, Debug, PartialEq)]
pub enum HasLength {
    Length(i64),
}

} // verus!
