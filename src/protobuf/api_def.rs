//! Types nested in `ApiDef`.
use vstd::prelude::*;

verus! {

/// If you specify any endpoint, this will replace all of the
/// inherited endpoints.  The first endpoint should be the
/// "canonical" endpoint, and should not be deprecated (unless all
/// endpoints are deprecated).
#[derive(Clone, Debug, PartialEq, Default)]
pub struct Endpoint {
    /// Name should be either like "CamelCaseName" or
    /// "Package.CamelCaseName". Client-language-specific ApiDefs may
    /// use a snake_case convention instead of CamelCase.
    pub name: String,
    /// Set if this endpoint is deprecated. If set to true, a message suggesting
    /// to use a non-deprecated endpoint instead will be printed. If all
    /// endpoints are deprecated, set deprecation_message in ApiDef instead.
    pub deprecated: bool,
    /// Major version when an endpoint will be deleted. For e.g. set this
    /// value to 2 if endpoint should be removed in TensorFlow 2.0 and
    /// deprecated in versions before that.
    pub deprecation_version: i32,
}

#[derive(Clone, Debug, PartialEq, Default)]
pub struct Arg {
    pub name: String,
    /// Change the name used to access this arg in the API from what
    /// is used in the GraphDef.  Note that these names in `backticks`
    /// will also be replaced in the summary & description fields.
    pub rename_to: String,
    /// Note: this will replace any inherited arg doc. There is no
    /// current way of modifying arg descriptions (other than replacing
    /// them entirely) as can be done with op descriptions.
    pub description: String,
}

/// Description of the graph-construction-time configuration of this
/// Op.  That is to say, this describes the attr fields that will
/// be specified in the NodeDef.
#[derive(Debug, PartialEq, Default)]
pub struct Attr {
    pub name: String,
    /// Change the name used to access this attr in the API from what
    /// is used in the GraphDef.  Note that these names in `backticks`
    /// will also be replaced in the summary & description fields.
    pub rename_to: String,
    /// Specify a new default value to use for this attr.  This default
    /// will be used when creating new graphs, as opposed to the
    /// default in the OpDef, which will be used when interpreting old
    /// GraphDefs.
    pub default_value: Option<super::AttrValue>,
    /// Note: this will replace any inherited attr doc, there is no current
    /// way of modifying attr descriptions as can be done with op descriptions.
    pub description: String,
}

#[derive(Clone, Copy, Debug, PartialEq, Eq, Hash, PartialOrd, Ord, Default)]
pub enum Visibility {
    /// Normally this is "VISIBLE" unless you are inheriting a
    /// different value from another ApiDef.
    #[default]
    DefaultVisibility,
    /// Publicly visible in the API.
    Visible,
    /// Do not include this op in the generated API. If visibility is
    /// set to 'SKIP', other fields are ignored for this op.
    Skip,
    /// Hide this op by putting it into an internal namespace (or whatever
    /// is appropriate in the target language).
    Hidden,
}

} // verus!
