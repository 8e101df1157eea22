//! Text primitives that the rest of the crate builds on.
//!
//! Lower-casing, substring search and splitting are left to the standard
//! library, whose results are named or stated here so that the decisions taken
//! on them can be specified.

use vstd::prelude::*;

verus! {

/// The lower-case form that `str::to_lowercase` gives a string.
pub uninterp spec fn lowercase_of(text: Seq<char>) -> Seq<char>;

/// The lines that `str::lines` finds in a text, in order, without their line
/// endings.
pub uninterp spec fn lines_of(text: Seq<char>) -> Seq<Seq<char>>;

/// The words that `str::split_whitespace` finds in a text, in order.
pub uninterp spec fn words_of(text: Seq<char>) -> Seq<Seq<char>>;

/// The character sequences of a list of strings.
pub open spec fn texts(strings: Seq<String>) -> Seq<Seq<char>> {
    strings.map_values(|s: String| s@)
}

/// Whether `needle` occurs in `haystack` as a contiguous run of characters.
pub open spec fn occurs_in(needle: Seq<char>, haystack: Seq<char>) -> bool {
    exists|at: int|
        0 <= at && at + needle.len() <= haystack.len() && #[trigger] haystack.subrange(
            at,
            at + needle.len(),
        ) == needle
}

/// Calls `str::to_lowercase`. Nothing is claimed of the result but that it is
/// the same for the same text.
#[verifier::external_body]
pub(crate) fn to_lowercase(text: &str) -> (lower: String)
    ensures
        lower@ == lowercase_of(text@),
{
    text.to_lowercase()
}

/// Calls `str::contains` with a string pattern, which reports whether the
/// pattern matches a sub-slice of the text. Both are valid UTF-8, so a match on
/// bytes is a match on whole characters.
#[verifier::external_body]
pub(crate) fn contains(haystack: &str, needle: &str) -> (found: bool)
    ensures
        found == occurs_in(needle@, haystack@),
{
    haystack.contains(needle)
}

/// Calls `str::lines` and copies each line into a string of its own. Nothing
/// is claimed of the lines but that they are the same for the same text.
#[verifier::external_body]
pub(crate) fn lines(text: &str) -> (found: Vec<String>)
    ensures
        texts(found@) == lines_of(text@),
{
    text.lines().map(String::from).collect()
}

/// Calls `str::split_whitespace` and copies each word into a string of its
/// own. Nothing is claimed of the words but that they are the same for the
/// same text.
#[verifier::external_body]
pub(crate) fn split_whitespace(text: &str) -> (found: Vec<String>)
    ensures
        texts(found@) == words_of(text@),
{
    text.split_whitespace().map(String::from).collect()
}

} // verus!
