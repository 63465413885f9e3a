//! What can go wrong while generating.
use vstd::prelude::*;
use vstd::string::*;

verus! {

/// A failure of generation. The first failure aborts the whole run.
#[derive(Debug)]
pub enum Error {
    /// A type name was referenced but never registered.
    UnknownType(String),
    /// The input document is malformed.
    InvalidIR(String),
    /// A layout was asked for that does not exist: the size of void
    /// or of a buffer of open length, alone or inside a composite, or
    /// of a buffer or a composite too large to address.
    UnsupportedLayout,
}

/// What an [`Error::UnknownType`] says of the type called `name`.
pub open spec fn unknown_type_message(name: Seq<char>) -> Seq<char> {
    "Unknown type: "@ + name
}

/// The error for a type name that is not registered.
pub fn unknown_type(name: &str) -> (e: Error)
    ensures
        e matches Error::UnknownType(n) && n@ == name@,
{
    Error::UnknownType(String::from_str(name))
}

impl Error {
    /// The text shown to the user for this error.
    pub open spec fn message_text(&self) -> Seq<char> {
        match self {
            Error::UnknownType(name) => unknown_type_message(name@),
            Error::InvalidIR(reason) => "Invalid IR: "@ + reason@,
            Error::UnsupportedLayout => "Unsupported layout"@,
        }
    }

    /// The text shown to the user for this error.
    pub fn message(&self) -> (s: String)
        ensures
            s@ == self.message_text(),
    {
        match self {
            Error::UnknownType(name) => String::from_str("Unknown type: ").concat(name.as_str()),
            Error::InvalidIR(reason) => String::from_str("Invalid IR: ").concat(reason.as_str()),
            Error::UnsupportedLayout => String::from_str("Unsupported layout"),
        }
    }
}

} // verus!
