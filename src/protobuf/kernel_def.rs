//! Types nested in `KernelDef`.
use vstd::prelude::*;

verus! {

#[derive(Debug, PartialEq, Default)]
pub struct AttrConstraint {
    /// Name of an attr from the Op.
    pub name: String,
    /// A list of values that this kernel supports for this attr.
    /// Like OpDef.AttrDef.allowed_values, except for kernels instead of Ops.
    pub allowed_values: Option<super::AttrValue>,
}

} // verus!
