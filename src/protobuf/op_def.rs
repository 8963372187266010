//! Types nested in `OpDef`.
use vstd::prelude::*;

verus! {

/// For describing inputs and outputs.
#[derive(Debug, PartialEq, Default)]
pub struct ArgDef {
    /// Name for the input/output.  Should match the regexp "\[a-z][a-z0-9_\]*".
    pub name: String,
    /// Human readable description.
    pub description: String,
    /// Describes the type of one or more tensors that are accepted/produced
    /// by this input/output arg.  The only legal combinations are:
    /// * For a single tensor: either the "type" field is set or the
    ///   "type_attr" field is set to the name of an attr with type "type".
    /// * For a sequence of tensors with the same type: the "number_attr"
    ///   field will be set to the name of an attr with type "int", and
    ///   either the "type" or "type_attr" field will be set as for
    ///   single tensors.
    /// * For a sequence of tensors, the "type_list_attr" field will be set
    ///   to the name of an attr with type "list(type)".
    pub type_: i32,
    /// if specified, attr must have type "type"
    pub type_attr: String,
    /// if specified, attr must have type "int"
    pub number_attr: String,
    /// If specified, attr must have type "list(type)", and none of
    /// type, type_attr, and number_attr may be specified.
    pub type_list_attr: String,
    /// The handle data for resource inputs.
    pub handle_data: Vec<super::resource_handle_proto::DtypeAndShape>,
    /// For inputs: if true, the inputs are required to be refs.
    ///   By default, inputs can be either refs or non-refs.
    /// For outputs: if true, outputs are refs, otherwise they are not.
    pub is_ref: bool,
    /// Experimental. Full type declaration for this argument.
    /// The full type specification combines type, type_attr, type_list_attr,
    /// etc. into a unified representation.
    /// This declaration may contain non-concrete types (for example,
    /// Tensor<TypeVar<'T'>> is a valid type declaration.
    ///
    /// Note: this is a transient field. The long-term aim is to represent the
    /// entire OpDef as a single type: a callable. In that context, this field is
    /// just the type of a single argument.
    pub experimental_full_type: Option<super::FullTypeDef>,
}

/// Description of the graph-construction-time configuration of this
/// Op.  That is to say, this describes the attr fields that will
/// be specified in the NodeDef.
#[derive(Debug, PartialEq, Default)]
pub struct AttrDef {
    /// A descriptive name for the argument.  May be used, e.g. by the
    /// Python client, as a keyword argument name, and so should match
    /// the regexp "\[a-z][a-z0-9_\]+".
    pub name: String,
    /// One of the type names from attr_value.proto ("string", "list(string)",
    /// "int", etc.).
    pub type_: String,
    /// A reasonable default for this attribute if the user does not supply
    /// a value.  If not specified, the user must supply a value.
    pub default_value: Option<super::AttrValue>,
    /// Human-readable description.
    pub description: String,
    /// For type == "int", this is a minimum value.  For "list(___)"
    /// types, this is the minimum length.
    pub has_minimum: bool,
    pub minimum: i64,
    /// The set of allowed values.  Has type that is the "list" version
    /// of the "type" field above (uses the "list" field of AttrValue).
    /// If type == "type" or "list(type)" above, then the "type" field
    /// of "allowed_values.list" has the set of allowed DataTypes.
    /// If type == "string" or "list(string)", then the "s" field of
    /// "allowed_values.list" has the set of allowed strings.
    pub allowed_values: Option<super::AttrValue>,
}

} // verus!
