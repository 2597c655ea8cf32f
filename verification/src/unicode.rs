//! Unicode character classes and text segmentation, as the standard library
//! and `unicode-segmentation` compute them.
use unicode_segmentation::UnicodeSegmentation;
use vstd::prelude::*;

verus! {

/// The Unicode `White_Space` property, which `char::is_whitespace` and
/// `str::trim` go by: U+0009 to U+000D, U+0020, U+0085, U+00A0, U+1680,
/// U+2000 to U+200A, U+2028, U+2029, U+202F, U+205F and U+3000.
pub open spec fn white_space(c: char) -> bool {
    let u = c as u32;
    (0x09 <= u && u <= 0x0d) || u == 0x20 || u == 0x85 || u == 0xa0 || u == 0x1680 || (0x2000 <= u
        && u <= 0x200a) || u == 0x2028 || u == 0x2029 || u == 0x202f || u == 0x205f || u == 0x3000
}

/// What `char::is_uppercase` returns for `c` (the Unicode `Uppercase` property).
pub uninterp spec fn uppercase(c: char) -> bool;

/// What `char::is_lowercase` returns for `c` (the Unicode `Lowercase` property).
pub uninterp spec fn lowercase(c: char) -> bool;

/// What `char::is_numeric` returns for `c` (general categories `Nd`, `Nl`, `No`).
pub uninterp spec fn numeric(c: char) -> bool;

/// What `char::is_alphanumeric` returns for `c` (`Alphabetic` or numeric).
pub uninterp spec fn alphanumeric(c: char) -> bool;

/// The number of extended grapheme clusters that
/// `UnicodeSegmentation::graphemes(s, true)` yields for the text `s`.
pub uninterp spec fn extended_grapheme_count(s: Seq<char>) -> nat;

/// Whether `c` is whitespace, as `char::is_whitespace` decides.
pub fn is_whitespace(c: char) -> (r: bool)
    ensures
        r == white_space(c),
{
    let u = c as u32;
    (0x09 <= u && u <= 0x0d) || u == 0x20 || u == 0x85 || u == 0xa0 || u == 0x1680 || (0x2000 <= u
        && u <= 0x200a) || u == 0x2028 || u == 0x2029 || u == 0x202f || u == 0x205f || u == 0x3000
}

/// Calls `char::is_uppercase`; the result is only named.
#[verifier::external_body]
pub(crate) fn is_uppercase(c: char) -> (r: bool)
    ensures
        r == uppercase(c),
{
    c.is_uppercase()
}

/// Calls `char::is_lowercase`; the result is only named.
#[verifier::external_body]
pub(crate) fn is_lowercase(c: char) -> (r: bool)
    ensures
        r == lowercase(c),
{
    c.is_lowercase()
}

/// Calls `char::is_numeric`; the result is only named.
#[verifier::external_body]
pub(crate) fn is_numeric(c: char) -> (r: bool)
    ensures
        r == numeric(c),
{
    c.is_numeric()
}

/// Calls `char::is_alphanumeric`; the result is only named.
#[verifier::external_body]
pub(crate) fn is_alphanumeric(c: char) -> (r: bool)
    ensures
        r == alphanumeric(c),
{
    c.is_alphanumeric()
}

/// Counts what `UnicodeSegmentation::graphemes(s, true)` yields (extended
/// grapheme clusters, UAX #29). The iterator splits the text into non-empty
/// slices, so there are no more clusters than characters; the segmentation
/// rules themselves are not restated here.
#[verifier::external_body]
pub(crate) fn grapheme_count(s: &str) -> (r: usize)
    ensures
        r as nat == extended_grapheme_count(s@),
        r <= s@.len(),
{
    s.graphemes(true).count()
}

/// Whether every character of `s` is whitespace (so that trimming leaves nothing).
pub open spec fn is_blank(s: Seq<char>) -> bool {
    forall|i: int| 0 <= i < s.len() ==> white_space(#[trigger] s[i])
}

/// Decides whether `s.trim()` is empty: `trim` strips leading and trailing
/// whitespace, so nothing is left exactly when every character is whitespace.
pub fn trims_to_empty(s: &str) -> (r: bool)
    ensures
        r == is_blank(s@),
{
    let mut blank = true;
    for c in it: s.chars()
        invariant
            it.seq() == s@,
            blank == forall|i: int| 0 <= i < it.index() ==> white_space(#[trigger] s@[i]),
    {
        if !is_whitespace(c) {
            blank = false;
        }
    }
    blank
}

} // verus!
