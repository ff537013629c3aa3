//! The library's error type and its messages.
use vstd::prelude::*;

verus! {

/// Errors of reading or writing a mesh.
#[derive(Debug)]
pub enum Error {
    /// The CGNS library reported an error; the payload is its message.
    Cgns(String),
    /// A mesh element kind that cannot be written as a CGNS section; the payload is the
    /// kind's name.
    UnsupportedElementType(String),
    /// No unstructured zone with a readable element section was found.
    NoZone,
    /// An array did not have the expected shape; the payload says why.
    Shape(String),
}

impl Error {
    /// The human-readable message of the error.
    pub open spec fn message_spec(self) -> Seq<char> {
        match self {
            Error::Cgns(e) => "CGNS: "@ + e@,
            Error::UnsupportedElementType(s) => "unsupported element type: "@ + s@,
            Error::NoZone => "no unstructured zone found"@,
            Error::Shape(s) => "array shape error: "@ + s@,
        }
    }

    /// Formats the error as a human-readable message.
    pub fn message(&self) -> (m: String)
        ensures
            m@ == self.message_spec(),
    {
        match self {
            Error::Cgns(e) => String::from_str("CGNS: ").concat(e.as_str()),
            Error::UnsupportedElementType(s) => {
                String::from_str("unsupported element type: ").concat(s.as_str())
            },
            Error::NoZone => String::from_str("no unstructured zone found"),
            Error::Shape(s) => String::from_str("array shape error: ").concat(s.as_str()),
        }
    }
}

} // verus!
