//! Reading texts: window titles, lines of input, messages of errors.

use vstd::prelude::*;
use vstd::utf8::encode_utf8;

verus! {

/// What `str::to_lowercase` makes of a text: its lower-case form as Unicode
/// defines it.
pub uninterp spec fn lowercased(text: Seq<char>) -> Seq<char>;

/// `str::to_lowercase` returns the lower-case form of a text.
#[verifier::external_body]
pub(crate) fn to_lowercase(text: &str) -> (lower: String)
    ensures
        lower@ == lowercased(text@),
{
    text.to_lowercase()
}

/// Whether `needle` occurs in `text` as a run of adjacent characters. The
/// empty text occurs everywhere.
pub open spec fn occurs_in(needle: Seq<char>, text: Seq<char>) -> bool {
    exists|i: int|
        0 <= i <= text.len() - needle.len() && #[trigger] text.subrange(i, i + needle.len())
            == needle
}

/// `str::contains` with a text as its pattern tells whether the pattern
/// matches a part of the text.
#[verifier::external_body]
pub(crate) fn contains(text: &str, needle: &str) -> (found: bool)
    ensures
        found == occurs_in(needle@, text@),
{
    text.contains(needle)
}

/// The number of bytes that a text takes in UTF-8, as `str::len` tells it.
pub open spec fn byte_len(text: Seq<char>) -> usize {
    encode_utf8(text).len() as usize
}

/// What `str::trim` leaves of a text: the text without the white space at
/// its start and at its end, as Unicode defines white space.
pub uninterp spec fn trimmed(text: Seq<char>) -> Seq<char>;

/// `str::trim` returns the text without leading and trailing white space.
#[verifier::external_body]
pub(crate) fn trim(text: &str) -> (rest: &str)
    ensures
        rest@ == trimmed(text@),
{
    text.trim()
}

/// The number that `str::parse::<u32>` reads from a text; `None` where the
/// text is not the decimal form of a number of that type.
pub uninterp spec fn parsed_u32(text: Seq<char>) -> Option<u32>;

/// `str::parse::<u32>` reads a number from its decimal form.
#[verifier::external_body]
pub(crate) fn parse_u32(text: &str) -> (number: Option<u32>)
    ensures
        number == parsed_u32(text@),
{
    text.parse::<u32>().ok()
}

/// The number that `str::parse::<usize>` reads from a text; `None` where
/// the text is not the decimal form of a number of that type.
pub uninterp spec fn parsed_usize(text: Seq<char>) -> Option<usize>;

/// `str::parse::<usize>` reads a number from its decimal form.
#[verifier::external_body]
pub(crate) fn parse_usize(text: &str) -> (number: Option<usize>)
    ensures
        number == parsed_usize(text@),
{
    text.parse::<usize>().ok()
}

/// Whether one of the words occurs in the text.
pub open spec fn any_occurs_in(words: Seq<Seq<char>>, text: Seq<char>) -> bool {
    exists|i: int| 0 <= i < words.len() && occurs_in(#[trigger] words[i], text)
}

/// The texts of a list of words.
pub open spec fn word_texts(words: Seq<&'static str>) -> Seq<Seq<char>> {
    Seq::new(words.len(), |i: int| words[i]@)
}

/// Tells whether one of the words occurs in the text.
pub fn contains_any(text: &str, words: &Vec<&'static str>) -> (found: bool)
    ensures
        found == any_occurs_in(word_texts(words@), text@),
{
    let mut i: usize = 0;
    while i < words.len()
        invariant
            i <= words.len(),
            forall|j: int| 0 <= j < i ==> !occurs_in(#[trigger] word_texts(words@)[j], text@),
        decreases words.len() - i,
    {
        if contains(text, words[i]) {
            assert(occurs_in(word_texts(words@)[i as int], text@));
            return true;
        }
        i = i + 1;
    }
    false
}

} // verus!
