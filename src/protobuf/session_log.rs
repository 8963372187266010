//! Types nested in `SessionLog`.
use vstd::prelude::*;

verus! {

#[derive(Clone, Copy, Debug, PartialEq, Eq, Hash, PartialOrd, Ord, Default)]
pub enum SessionStatus {
    #[default]
    StatusUnspecified,
    Start,
    Stop,
    Checkpoint,
}

} // verus!
