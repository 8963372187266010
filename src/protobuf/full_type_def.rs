//! Types nested in `FullTypeDef`.
use vstd::prelude::*;

verus! {

/// Literal values of this type object, if the the type admits one.
/// For example, a type variable admits a string attribute - its name.
/// Shape-related types may admit int attributes - their static shape values.
/// Fields for more data types to be added as needed.
#[derive(Clone, Debug, PartialEq)]
pub enum Attr {
    S(String),
    /// TODO(mdan): list/tensor, map? Need to reconcile with TFT_RECORD, etc.
    I(i64),
}

} // verus!
