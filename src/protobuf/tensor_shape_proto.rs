//! Types nested in `TensorShapeProto`.
use vstd::prelude::*;

verus! {

/// One dimension of the tensor.
#[derive(Clone, Debug, PartialEq, Default)]
pub struct Dim {
    /// Size of the tensor in that dimension.
    /// This value must be >= -1, but values of -1 are reserved for "unknown"
    /// shapes (values of -1 mean "unknown" dimension).  Certain wrappers
    /// that work with TensorShapeProto may fail at runtime when deserializing
    /// a TensorShapeProto containing a dim value of -1.
    pub size: i64,
    /// Optional name of the tensor dimension.
    pub name: String,
}

} // verus!
