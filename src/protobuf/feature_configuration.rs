//! Types nested in `FeatureConfiguration`.
use vstd::prelude::*;

verus! {

#[derive(Debug, PartialEq)]
pub enum Config {
    FixedLenFeature(super::FixedLenFeatureProto),
    VarLenFeature(super::VarLenFeatureProto),
}

} // verus!
