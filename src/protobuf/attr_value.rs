//! Types nested in `AttrValue`.
use vstd::prelude::*;

verus! {

#[derive(Debug, PartialEq, Default)]
pub struct ListValue {
    /// "list(string)"
    pub s: Vec<Vec<u8>>,
    /// "list(int)"
    pub i: Vec<i64>,
    /// "list(float)"
    /// Each value is the bit pattern of an IEEE 754 binary32 number.
    pub f: Vec<u32>,
    /// "list(bool)"
    pub b: Vec<bool>,
    /// "list(type)"
    pub type_: Vec<i32>,
    /// "list(shape)"
    pub shape: Vec<super::TensorShapeProto>,
    /// "list(tensor)"
    pub tensor: Vec<super::TensorProto>,
    /// "list(attr)"
    pub func: Vec<super::NameAttrList>,
}

#[derive(Debug, PartialEq)]
pub enum Value {
    /// "string"
    S(Vec<u8>),
    /// "int"
    I(i64),
    /// "float"
    /// Each value is the bit pattern of an IEEE 754 binary32 number.
    F(u32),
    /// "bool"
    B(bool),
    /// "type"
    Type(i32),
    /// "shape"
    Shape(super::TensorShapeProto),
    /// "tensor"
    Tensor(super::TensorProto),
    /// any "list(...)"
    List(ListValue),
    /// "func" represents a function. func.name is a function's name or
    /// a primitive op's name. func.attr.first is the name of an attr
    /// defined for that function. func.attr.second is the value for
    /// that attr in the instantiation.
    Func(super::NameAttrList),
    /// This is a placeholder only used in nodes defined inside a
    /// function.  It indicates the attr value will be supplied when
    /// the function is instantiated.  For example, let us suppose a
    /// node "N" in function "FN". "N" has an attr "A" with value
    /// placeholder = "foo". When FN is instantiated with attr "foo"
    /// set to "bar", the instantiated node N's attr A will have been
    /// given the value "bar".
    Placeholder(String),
}

} // verus!
