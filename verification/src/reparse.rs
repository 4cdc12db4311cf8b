//! The nested re-parse facility: the text of a `source` or visibility value
//! must itself be a syntactically valid type or visibility specifier. That
//! check is delegated to an outside parser; the library only depends on its
//! verdict, which is a function of the characters alone.

use vstd::prelude::*;

verus! {

/// Whether a character sequence is valid Rust type syntax, as the outside
/// parser judges it.
pub uninterp spec fn type_parses(s: Seq<char>) -> bool;

/// Whether a character sequence is valid Rust visibility syntax, as the
/// outside parser judges it.
pub uninterp spec fn vis_parses(s: Seq<char>) -> bool;

/// Relies on `syn::parse_str::<syn::Type>`: it deterministically either
/// parses the whole string as a type or reports an error, so its verdict
/// depends on the characters alone.
#[verifier::external_body]
pub(crate) fn is_type_text(s: &str) -> (r: bool)
    ensures
        r == type_parses(s@),
{
    syn::parse_str::<syn::Type>(s).is_ok()
}

/// Relies on `syn::parse_str::<syn::Visibility>`: it deterministically
/// either parses the whole string as a visibility specifier or reports an
/// error, so its verdict depends on the characters alone.
#[verifier::external_body]
pub(crate) fn is_vis_text(s: &str) -> (r: bool)
    ensures
        r == vis_parses(s@),
{
    syn::parse_str::<syn::Visibility>(s).is_ok()
}

} // verus!
