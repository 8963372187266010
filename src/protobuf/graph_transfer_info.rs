//! Types nested in `GraphTransferInfo`.
use vstd::prelude::*;

verus! {

#[derive(Clone, Copy, Debug, PartialEq, Eq, Hash, PartialOrd, Ord, Default)]
pub enum Destination {
    #[default]
    Nop,
    Hexagon,
}

} // verus!
