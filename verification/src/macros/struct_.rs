//! Binding a native struct: it becomes a custom type under its name.
use vstd::prelude::*;
use vstd::string::*;
use crate::macros::syntax::ItemStruct;
use crate::macros::util::Error;

verus! {

/// The name under which a struct becomes a custom type. Fails where
/// the struct has generic parameters or a `where` clause.
pub fn handle(declared: &ItemStruct) -> (r: Result<String, Error>)
    ensures
        r is Ok <==> !declared.generics && !declared.where_clause,
        r matches Ok(name) ==> name@ == declared.ident@,
        r matches Err(e) ==> e == (if declared.generics {
            Error::Generics
        } else {
            Error::WhereClause
        }),
{
    if declared.generics {
        return Err(Error::Generics);
    }
    if declared.where_clause {
        return Err(Error::WhereClause);
    }
    Ok(declared.ident.clone())
}

} // verus!
