//! Case conversions of identifiers.
//!
//! The conversions are the `inflector` crate's and std's. Verus does not
//! look into them: each result is known only by a name, as a function
//! of the text that went in.
use vstd::prelude::*;

verus! {

/// What `inflector` makes of a text in PascalCase.
pub uninterp spec fn pascal_case(text: Seq<char>) -> Seq<char>;

/// What `inflector` makes of a text in camelCase.
pub uninterp spec fn camel_case(text: Seq<char>) -> Seq<char>;

/// What `inflector` makes of a text in snake_case.
pub uninterp spec fn snake_case(text: Seq<char>) -> Seq<char>;

/// What `inflector` makes of a text in SCREAMING_SNAKE_CASE.
pub uninterp spec fn screaming_snake_case(text: Seq<char>) -> Seq<char>;

/// What `str::to_lowercase` makes of a text.
pub uninterp spec fn lower_case(text: Seq<char>) -> Seq<char>;

/// What `str::to_uppercase` makes of a text.
pub uninterp spec fn upper_case(text: Seq<char>) -> Seq<char>;

/// Calls `inflector::cases::pascalcase::to_pascal_case`. Trusted: the
/// result depends on the characters of `text` alone.
#[verifier::external_body]
pub(crate) fn to_pascal_case(text: &str) -> (r: String)
    ensures
        r@ == pascal_case(text@),
{
    inflector::cases::pascalcase::to_pascal_case(text)
}

/// Calls `inflector::cases::camelcase::to_camel_case`. Trusted: the
/// result depends on the characters of `text` alone.
#[verifier::external_body]
pub(crate) fn to_camel_case(text: &str) -> (r: String)
    ensures
        r@ == camel_case(text@),
{
    inflector::cases::camelcase::to_camel_case(text)
}

/// Calls `inflector::cases::snakecase::to_snake_case`. Trusted: the
/// result depends on the characters of `text` alone.
#[verifier::external_body]
pub(crate) fn to_snake_case(text: &str) -> (r: String)
    ensures
        r@ == snake_case(text@),
{
    inflector::cases::snakecase::to_snake_case(text)
}

/// Calls `inflector::cases::screamingsnakecase::to_screaming_snake_case`.
/// Trusted: the result depends on the characters of `text` alone.
#[verifier::external_body]
pub(crate) fn to_screaming_snake_case(text: &str) -> (r: String)
    ensures
        r@ == screaming_snake_case(text@),
{
    inflector::cases::screamingsnakecase::to_screaming_snake_case(text)
}

/// Calls `str::to_lowercase`. Trusted: the result depends on the
/// characters of `text` alone.
#[verifier::external_body]
pub(crate) fn to_lower_case(text: &str) -> (r: String)
    ensures
        r@ == lower_case(text@),
{
    text.to_lowercase()
}

/// Calls `str::to_uppercase`. Trusted: the result depends on the
/// characters of `text` alone.
#[verifier::external_body]
pub(crate) fn to_upper_case(text: &str) -> (r: String)
    ensures
        r@ == upper_case(text@),
{
    text.to_uppercase()
}

} // verus!
