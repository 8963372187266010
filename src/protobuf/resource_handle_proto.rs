//! Types nested in `ResourceHandleProto`.
use vstd::prelude::*;

verus! {

/// Protocol buffer representing a pair of (data type, tensor shape).
#[derive(Clone, Debug, PartialEq, Default)]
pub struct DtypeAndShape {
    pub dtype: i32,
    pub shape: Option<super::TensorShapeProto>,
}

} // verus!
