//! Types nested in `Feature`.
use vstd::prelude::*;

verus! {

/// Each feature can be exactly one kind.
#[derive(Clone, Debug, PartialEq)]
pub enum Kind {
    BytesList(super::BytesList),
    FloatList(super::FloatList),
    Int64List(super::Int64List),
}

} // verus!
