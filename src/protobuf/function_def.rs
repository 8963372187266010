//! Types nested in `FunctionDef`.
use std::collections::HashMap;
use vstd::prelude::*;

verus! {

/// Attributes for function arguments. These attributes are the same set of
/// valid attributes as to _Arg nodes.
#[derive(Debug, PartialEq, Default)]
pub struct ArgAttrs {
    pub attr: HashMap<String, super::AttrValue>,
}

} // verus!
