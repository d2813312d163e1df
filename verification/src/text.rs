//! Text functions offered to the embedded runtime.

use vstd::prelude::*;

verus! {

/// The uppercase form of a text under Unicode's case mapping, as the standard
/// library computes it. A single character may map to several.
pub uninterp spec fn uppercase_of(text: Seq<char>) -> Seq<char>;

/// Calls `str::to_uppercase` of the standard library.
///
/// Trusted: the returned string is taken to be the Unicode uppercase form of
/// `text`, which depends on the characters of `text` and on nothing else.
/// Nothing is claimed about what that form is for any given text.
#[verifier::external_body]
fn uppercase(text: &str) -> (upper: String)
    ensures
        upper@ == uppercase_of(text@),
{
    text.to_uppercase()
}

/// Converts a string to uppercase.
///
/// The argument is text that has already been read out of the runtime. A
/// runtime string that is not valid UTF-8 has no such text: the caller stops
/// there and never gets here.
pub fn to_uppercase(s: &str) -> (upper: String)
    ensures
        upper@ == uppercase_of(s@),
{
    uppercase(s)
}

} // verus!
