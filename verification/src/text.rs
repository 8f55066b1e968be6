//! Text operations taken from the standard library.
//!
//! Changing the case of a text and trimming it follow Unicode tables that
//! are far too long to restate here. Each operation therefore gets a name
//! for its result, and the functions below are trusted to return exactly
//! that result: their bodies are not verified.

use vstd::prelude::*;

verus! {

/// The upper-case form of `text`, as `str::to_uppercase` computes it.
pub uninterp spec fn uppercased(text: Seq<char>) -> Seq<char>;

/// The lower-case form of `text`, as `str::to_lowercase` computes it.
pub uninterp spec fn lowercased(text: Seq<char>) -> Seq<char>;

/// `text` without its leading and trailing white space, as `str::trim`
/// computes it.
pub uninterp spec fn trimmed(text: Seq<char>) -> Seq<char>;

/// Calls `str::to_uppercase`. Trusted: the result is the upper-case form of
/// the argument, which depends on the argument alone.
#[verifier::external_body]
pub(crate) fn uppercase(text: &str) -> (upper: String)
    ensures
        upper@ == uppercased(text@),
{
    text.to_uppercase()
}

/// Calls `str::to_lowercase`. Trusted: the result is the lower-case form of
/// the argument, which depends on the argument alone.
#[verifier::external_body]
pub(crate) fn lowercase(text: &str) -> (lower: String)
    ensures
        lower@ == lowercased(text@),
{
    text.to_lowercase()
}

/// Calls `str::trim`. Trusted: the result is the argument without its
/// leading and trailing white space, which depends on the argument alone.
#[verifier::external_body]
pub(crate) fn trim(text: &str) -> (inner: &str)
    ensures
        inner@ == trimmed(text@),
{
    text.trim()
}

} // verus!
