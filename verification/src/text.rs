//! Literal substring matching on text.

use vstd::prelude::*;

verus! {

/// Whether `needle` occurs in `text` as a run of consecutive characters.
/// No case folding and no normalisation: characters are compared as they are.
/// The empty needle occurs in every text.
pub open spec fn occurs_in(needle: Seq<char>, text: Seq<char>) -> bool {
    exists|start: int|
        0 <= start <= text.len() - needle.len() && #[trigger] text.subrange(
            start,
            start + needle.len(),
        ) == needle
}

/// `str::contains` with a string pattern: whether the pattern matches a sub-slice
/// of the text. The standard library searches the UTF-8 bytes; a match of one
/// well-formed string inside another always starts and ends on character
/// boundaries, so it is a run of whole characters.
#[verifier::external_body]
fn str_contains(text: &str, needle: &str) -> (found: bool)
    ensures
        found == occurs_in(needle@, text@),
{
    text.contains(needle)
}

/// Whether `needle` occurs in `text`.
pub fn contains(text: &String, needle: &String) -> (found: bool)
    ensures
        found == occurs_in(needle@, text@),
{
    str_contains(text.as_str(), needle.as_str())
}

} // verus!
