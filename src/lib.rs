//! Random-access and sequential retrieval of length-framed records stored
//! across one or more container files.
pub mod dataset;
pub mod error;
pub mod frame;
pub mod image_ext;
pub mod index;
pub mod protobuf;
pub mod scan;
