//! Classes of characters, as the standard library knows them.

use vstd::prelude::*;
use vstd::string::StrSliceExecFns;

verus! {

/// `c` has the Unicode property `Uppercase`, as `char::is_uppercase` tells.
pub uninterp spec fn char_is_uppercase(c: char) -> bool;

/// `c` has the Unicode property `Lowercase`, as `char::is_lowercase` tells.
pub uninterp spec fn char_is_lowercase(c: char) -> bool;

/// `c` is in one of the Unicode number categories, as `char::is_numeric`
/// tells.
pub uninterp spec fn char_is_numeric(c: char) -> bool;

/// `c` is alphabetic or numeric, as `char::is_alphanumeric` tells.
pub uninterp spec fn char_is_alphanumeric(c: char) -> bool;

/// `char::is_uppercase`.
#[verifier::external_body]
pub(crate) fn is_uppercase(c: char) -> (answer: bool)
    ensures
        answer == char_is_uppercase(c),
{
    c.is_uppercase()
}

/// `char::is_lowercase`.
#[verifier::external_body]
pub(crate) fn is_lowercase(c: char) -> (answer: bool)
    ensures
        answer == char_is_lowercase(c),
{
    c.is_lowercase()
}

/// `char::is_numeric`.
#[verifier::external_body]
pub(crate) fn is_numeric(c: char) -> (answer: bool)
    ensures
        answer == char_is_numeric(c),
{
    c.is_numeric()
}

/// `char::is_alphanumeric`.
#[verifier::external_body]
pub(crate) fn is_alphanumeric(c: char) -> (answer: bool)
    ensures
        answer == char_is_alphanumeric(c),
{
    c.is_alphanumeric()
}

/// `text` in upper case, as `str::to_uppercase` writes it.
pub uninterp spec fn str_uppercase(text: Seq<char>) -> Seq<char>;

/// `text` in lower case, as `str::to_lowercase` writes it.
pub uninterp spec fn str_lowercase(text: Seq<char>) -> Seq<char>;

/// `str::to_uppercase`.
#[verifier::external_body]
pub(crate) fn to_uppercase(text: &str) -> (upper: String)
    ensures
        upper@ == str_uppercase(text@),
{
    text.to_uppercase()
}

/// `str::to_lowercase`.
#[verifier::external_body]
pub(crate) fn to_lowercase(text: &str) -> (lower: String)
    ensures
        lower@ == str_lowercase(text@),
{
    text.to_lowercase()
}

/// `c` has the Unicode property `White_Space`, as `char::is_whitespace`
/// tells.
pub uninterp spec fn char_is_whitespace(c: char) -> bool;

/// `char::is_whitespace`.
#[verifier::external_body]
pub(crate) fn is_whitespace(c: char) -> (answer: bool)
    ensures
        answer == char_is_whitespace(c),
{
    c.is_whitespace()
}

/// Every character of `text` is whitespace.
pub open spec fn all_whitespace(text: Seq<char>) -> bool {
    forall|i: int| 0 <= i < text.len() ==> char_is_whitespace(#[trigger] text[i])
}

/// What stands in `text` from `from` up to `to` is `text` without the
/// whitespace at its ends: only whitespace stands before and behind, and
/// what is left begins and ends with something else, or is empty.
pub open spec fn trims_to(text: Seq<char>, from: int, to: int) -> bool {
    &&& 0 <= from <= to <= text.len()
    &&& all_whitespace(text.take(from))
    &&& all_whitespace(text.skip(to))
    &&& from < to ==> !char_is_whitespace(text[from]) && !char_is_whitespace(text[to - 1])
}

/// `text` without the whitespace at its ends, as `str::trim` gives it.
pub open spec fn trimmed(text: Seq<char>) -> Seq<char> {
    let (from, to) = choose|from: int, to: int| trims_to(text, from, to);
    text.subrange(from, to)
}

/// There is one way to trim a text: any bounds that trim it cut out the
/// same characters.
pub proof fn lemma_trim_unique(text: Seq<char>, from: int, to: int)
    requires
        trims_to(text, from, to),
    ensures
        trimmed(text) == text.subrange(from, to),
{
    let (other_from, other_to) = choose|a: int, b: int| trims_to(text, a, b);
    assert(trims_to(text, other_from, other_to));
    if from < to {
        // the first and last kept characters are no whitespace, so they lie
        // within the other bounds
        assert(other_from <= from) by {
            if other_from > from {
                assert(text.take(other_from)[from] == text[from]);
            }
        }
        assert(other_to >= to) by {
            if other_to < to {
                assert(text.skip(other_to)[to - 1 - other_to] == text[to - 1]);
            }
        }
        assert(other_from < other_to);
        assert(other_from >= from) by {
            if other_from < from {
                assert(text.take(from)[other_from] == text[other_from]);
            }
        }
        assert(other_to <= to) by {
            if other_to > to {
                assert(text.skip(to)[other_to - 1 - to] == text[other_to - 1]);
            }
        }
    } else {
        // all of the text is whitespace
        assert forall|i: int| 0 <= i < text.len() implies char_is_whitespace(text[i]) by {
            if i < from {
                assert(text.take(from)[i] == text[i]);
            } else {
                assert(text.skip(to)[i - to] == text[i]);
            }
        }
        assert(other_from == other_to);
    }
    assert(text.subrange(other_from, other_to) =~= text.subrange(from, to));
}

/// Takes the whitespace off both ends of a text.
pub fn trim<'a>(text: &'a str) -> (kept: &'a str)
    ensures
        kept@ == trimmed(text@),
{
    broadcast use vstd::string::group_string_axioms;

    let len: usize = text.unicode_len();
    let mut i: usize = 0;
    let mut from: usize = 0;
    let mut to: usize = 0;
    let mut seen: bool = false;
    for c in it: text.chars()
        invariant
            it.seq() == text@,
            len == text@.len(),
            i == it.index(),
            i <= len,
            !seen ==> forall|j: int| 0 <= j < i ==> char_is_whitespace(#[trigger] text@[j]),
            seen ==> {
                &&& from < to <= i
                &&& !char_is_whitespace(text@[from as int])
                &&& !char_is_whitespace(text@[to - 1])
                &&& forall|j: int| 0 <= j < from ==> char_is_whitespace(#[trigger] text@[j])
                &&& forall|j: int| to <= j < i ==> char_is_whitespace(#[trigger] text@[j])
            },
    {
        assert(i < len);
        assert(c == text@[i as int]);
        if !is_whitespace(c) {
            if !seen {
                from = i;
                seen = true;
            }
            to = i + 1;
        }
        i += 1;
    }
    assert(i == len);
    if !seen {
        from = len;
        to = len;
    }
    proof {
        assert forall|j: int| 0 <= j < text@.take(from as int).len() implies char_is_whitespace(
            #[trigger] text@.take(from as int)[j],
        ) by {
            assert(text@.take(from as int)[j] == text@[j]);
        }
        assert forall|j: int| 0 <= j < text@.skip(to as int).len() implies char_is_whitespace(
            #[trigger] text@.skip(to as int)[j],
        ) by {
            assert(text@.skip(to as int)[j] == text@[j + to]);
        }
        lemma_trim_unique(text@, from as int, to as int);
    }
    text.substring_char(from, to)
}

/// `needle` stands somewhere in `haystack`.
pub open spec fn is_substring(needle: Seq<char>, haystack: Seq<char>) -> bool {
    exists|at: int|
        0 <= at <= haystack.len() - needle.len() && #[trigger] haystack.subrange(
            at,
            at + needle.len(),
        ) == needle
}

/// `str::contains` with a string for a pattern: true exactly where the
/// pattern stands somewhere in the text.
#[verifier::external_body]
pub(crate) fn contains(haystack: &str, needle: &str) -> (found: bool)
    ensures
        found == is_substring(needle@, haystack@),
{
    haystack.contains(needle)
}

} // verus!
