//! Why a declaration cannot be bound.
use vstd::prelude::*;
use vstd::string::*;

verus! {

/// A declaration that bindings cannot be generated for.
#[derive(Clone, Copy, Debug, PartialEq, Eq, Structural)]
pub enum Error {
    Asyncness,
    Reciever,
    UnsupportedType,
    Generics,
    WhereClause,
    MissingReceiver,
    UnsupportedAttribute,
}

impl Error {
    /// What the error says.
    pub open spec fn text(self) -> Seq<char> {
        match self {
            Error::Asyncness => "async functions are not supported"@,
            Error::Reciever => "methods are not supported"@,
            Error::UnsupportedType => "unsupported type"@,
            Error::Generics => "generics are not supported"@,
            Error::WhereClause => "where clauses are not supported"@,
            Error::MissingReceiver => "methods must take the value itself"@,
            Error::UnsupportedAttribute => "unsupported attribute"@,
        }
    }

    /// What the error says.
    pub fn message(&self) -> (s: String)
        ensures
            s@ == self.text(),
    {
        String::from_str(
            match self {
                Error::Asyncness => "async functions are not supported",
                Error::Reciever => "methods are not supported",
                Error::UnsupportedType => "unsupported type",
                Error::Generics => "generics are not supported",
                Error::WhereClause => "where clauses are not supported",
                Error::MissingReceiver => "methods must take the value itself",
                Error::UnsupportedAttribute => "unsupported attribute",
            },
        )
    }
}

} // verus!
