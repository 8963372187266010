use vstd::prelude::*;

verus! {

/// The failures that building an index or reading a record can meet.
#[derive(Clone, Debug, PartialEq, Eq)]
pub enum Error {
    /// Opening, reading or seeking a file failed.
    Io(String),
    /// A frame starts but cannot be completed, or its checksum does not match.
    Corruption(String),
    /// The record codec rejected the bytes of one record.
    Decode(String),
    /// A value could not be turned into another representation.
    Conversion(String),
}

impl Error {
    /// A corruption error with the given description.
    pub fn corruption(desc: &str) -> (r: Error)
        ensures
            r is Corruption,
            r->Corruption_0@ == desc@,
    {
        Error::Corruption(desc.to_owned())
    }

    /// A conversion error with the given description.
    pub fn conversion(desc: &str) -> (r: Error)
        ensures
            r is Conversion,
            r->Conversion_0@ == desc@,
    {
        Error::Conversion(desc.to_owned())
    }

    /// Whether this error stems from the content of a container.
    pub fn is_corruption(&self) -> (r: bool)
        ensures
            r == (self is Corruption),
    {
        match self {
            Error::Corruption(_) => true,
            _ => false,
        }
    }
}

} // verus!
