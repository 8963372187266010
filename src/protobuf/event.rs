//! Types nested in `Event`.
use vstd::prelude::*;

verus! {

#[derive(Debug, PartialEq)]
pub enum What {
    /// An event file was started, with the specified version.
    /// This is use to identify the contents of the record IO files
    /// easily.  Current version is "brain.Event:2".  All versions
    /// start with "brain.Event:".
    FileVersion(String),
    /// An encoded version of a GraphDef.
    GraphDef(Vec<u8>),
    /// A summary was generated.
    Summary(super::Summary),
    /// The user output a log message. This was theoretically used by the defunct
    /// tensorboard_logging module, which has since been removed; this field is
    /// now deprecated and should not be used.
    LogMessage(super::LogMessage),
    /// The state of the session which can be used for restarting after crashes.
    SessionLog(super::SessionLog),
    /// The metadata returned by running a session.run() call.
    TaggedRunMetadata(super::TaggedRunMetadata),
    /// An encoded version of a MetaGraphDef.
    MetaGraphDef(Vec<u8>),
}

} // verus!
