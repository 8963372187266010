//! Types nested in `SummaryMetadata`.
use vstd::prelude::*;

verus! {

#[derive(Clone, Debug, PartialEq, Default)]
pub struct PluginData {
    /// The name of the plugin this data pertains to.
    pub plugin_name: String,
    /// The content to store for the plugin. The best practice is for this to be
    /// a binary serialized protocol buffer.
    pub content: Vec<u8>,
}

} // verus!
