//! The value kinds of `summary::Value`.
use vstd::prelude::*;

verus! {

/// Value associated with the tag.
#[derive(Debug, PartialEq)]
pub enum Value {
    /// Each value is the bit pattern of an IEEE 754 binary32 number.
    SimpleValue(u32),
    ObsoleteOldStyleHistogram(Vec<u8>),
    Image(super::summary::Image),
    Histo(super::HistogramProto),
    Audio(super::summary::Audio),
    Tensor(super::TensorProto),
}

} // verus!
