//! What the library takes from the standard library's `str` without proof:
//! line splitting, substring search and lowercasing. The contracts in this
//! file are believed, not verified; each says what the standard library
//! documents of the function that it names.

use crate::text::{is_substring, lines_of};
use vstd::prelude::*;

verus! {

/// The lowercase form of a string, as `str::to_lowercase` computes it. It
/// follows Unicode's rules for whole strings, so it is not taken character
/// by character: a letter's lowercase form may depend on its neighbours, and
/// one character may become several.
pub uninterp spec fn lowercase(text: Seq<char>) -> Seq<char>;

/// `str::to_lowercase`. Believed of it: the result is the lowercase form of
/// `text`, a function of the characters of `text` alone, and the lowercase
/// form of the empty string is empty.
pub assume_specification[ str::to_lowercase ](text: &str) -> (lowered: String)
    ensures
        lowered@ == lowercase(text@),
        text@.len() == 0 ==> lowered@.len() == 0,
;

/// `str::lines`, gathered into a vector. Believed of it: the slices that it
/// yields spell, in order, the lines of `text` as `lines_of` defines them.
#[verifier::external_body]
pub(crate) fn split_lines<'a>(text: &'a str) -> (lines: Vec<&'a str>)
    ensures
        lines.deep_view() == lines_of(text@),
{
    text.lines().collect()
}

/// `str::contains` with a string for its pattern. Believed of it: it says
/// whether `needle` occurs in `hay` as a contiguous run of characters, so
/// that the empty `needle` occurs in every `hay`.
#[verifier::external_body]
pub(crate) fn contains(hay: &str, needle: &str) -> (found: bool)
    ensures
        found == is_substring(needle@, hay@),
{
    hay.contains(needle)
}

} // verus!
