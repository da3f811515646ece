//! Mathematical vocabulary for text, and the string functions of the
//! standard library that the engine relies on.

use vstd::prelude::*;

verus! {

/// `needle` occurs in `hay` as a contiguous run of characters.
pub open spec fn contains_seq(hay: Seq<char>, needle: Seq<char>) -> bool {
    exists|i: int|
        0 <= i && i + needle.len() <= hay.len() && #[trigger] hay.subrange(
            i,
            i + needle.len(),
        ) == needle
}

/// `text` is a single line with its terminator removed: it does not end in a
/// line feed or a carriage return.
pub open spec fn is_line(text: Seq<char>) -> bool {
    text.len() == 0 || (text.last() != '\n' && text.last() != '\r')
}

/// The lowercase form of `text`, as `str::to_lowercase` of the standard
/// library computes it from the Unicode tables. It depends on `text` alone.
pub uninterp spec fn lowercase(text: Seq<char>) -> Seq<char>;

/// Trusted: `str::to_lowercase` returns the lowercase form of its argument.
/// Nothing is claimed about which characters that form holds.
pub assume_specification[ str::to_lowercase ](s: &str) -> (lowered: String)
    ensures
        lowered@ == lowercase(s@),
;

/// Trusted: `str::contains`, given a string slice as its pattern, reports
/// whether the pattern occurs somewhere in the haystack as a contiguous run
/// of characters.
#[verifier::external_body]
pub(crate) fn contains(hay: &str, needle: &str) -> (found: bool)
    ensures
        found == contains_seq(hay@, needle@),
{
    hay.contains(needle)
}

} // verus!
