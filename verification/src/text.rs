//! Searching and trimming text, by characters.
//!
//! Texts are compared character by character, so what the functions here find
//! is stated over sequences of characters. Two questions are put to the
//! standard library, whose answers are taken on trust: whether a character is
//! alphanumeric, and whether it is white space.

use vstd::prelude::*;

verus! {

/// Whether `c` is alphanumeric as the standard library has it: a letter or a
/// number of any script.
pub uninterp spec fn is_alphanumeric(c: char) -> bool;

/// Whether `c` is white space as the standard library has it.
pub uninterp spec fn is_whitespace(c: char) -> bool;

/// `char::is_alphanumeric` of the standard library. Nothing is claimed of the
/// answer but that it depends on the character alone.
#[verifier::external_body]
pub(crate) fn alphanumeric(c: char) -> (answer: bool)
    ensures
        answer == is_alphanumeric(c),
{
    c.is_alphanumeric()
}

/// `char::is_whitespace` of the standard library. Nothing is claimed of the
/// answer but that it depends on the character alone.
#[verifier::external_body]
pub(crate) fn whitespace(c: char) -> (answer: bool)
    ensures
        answer == is_whitespace(c),
{
    c.is_whitespace()
}

/// `pattern` stands in `text` at position `at`.
pub open spec fn occurs_at(text: Seq<char>, pattern: Seq<char>, at: int) -> bool {
    0 <= at && at + pattern.len() <= text.len() && text.subrange(at, at + pattern.len())
        == pattern
}

/// `pattern` stands somewhere in `text`.
pub open spec fn occurs_in(text: Seq<char>, pattern: Seq<char>) -> bool {
    exists|at: int| occurs_at(text, pattern, at)
}

/// `text` begins with `pattern`.
pub open spec fn begins_with(text: Seq<char>, pattern: Seq<char>) -> bool {
    occurs_at(text, pattern, 0)
}

/// `text` ends with `pattern`.
pub open spec fn ends_with(text: Seq<char>, pattern: Seq<char>) -> bool {
    occurs_at(text, pattern, text.len() - pattern.len())
}

/// For each character of `text`, whether it is white space.
pub open spec fn blanks(text: Seq<char>) -> Seq<bool> {
    Seq::new(text.len(), |i: int| is_whitespace(text[i]))
}

/// How many marks stand at the beginning of `blank` without a gap.
pub open spec fn leading(blank: Seq<bool>) -> nat
    decreases blank.len(),
{
    if blank.len() > 0 && blank.first() {
        1 + leading(blank.drop_first())
    } else {
        0
    }
}

/// How many marks stand at the end of `blank` without a gap.
pub open spec fn trailing(blank: Seq<bool>) -> nat
    decreases blank.len(),
{
    if blank.len() > 0 && blank.last() {
        1 + trailing(blank.drop_last())
    } else {
        0
    }
}

/// Where the part between the leading and the trailing marks begins and
/// ends. Where every position is marked, the part is empty.
pub open spec fn kept(blank: Seq<bool>) -> (int, int) {
    if leading(blank) == blank.len() {
        (blank.len() as int, blank.len() as int)
    } else {
        (leading(blank) as int, blank.len() - trailing(blank))
    }
}

/// `text` without the white space at its two ends.
pub open spec fn trimmed(text: Seq<char>) -> Seq<char> {
    text.subrange(kept(blanks(text)).0, kept(blanks(text)).1)
}

/// `text` without `suffix` at its end, as often as it stands there.
pub open spec fn without_suffixes(text: Seq<char>, suffix: Seq<char>) -> Seq<char>
    decreases text.len(),
{
    if suffix.len() > 0 && ends_with(text, suffix) {
        without_suffixes(text.subrange(0, text.len() - suffix.len()), suffix)
    } else {
        text
    }
}

/// The characters of `text`, in order.
pub fn chars_of(text: &str) -> (chars: Vec<char>)
    ensures
        chars@ == text@,
{
    let mut chars: Vec<char> = Vec::new();
    for c in it: text.chars()
        invariant
            it.seq() == text@,
            chars@ == it.seq().take(it.index()),
    {
        chars.push(c);
    }
    chars
}

/// Whether `pattern` stands in `text` at position `at`.
pub fn matches_at(text: &Vec<char>, pattern: &Vec<char>, at: usize) -> (found: bool)
    ensures
        found == occurs_at(text@, pattern@, at as int),
{
    if at > text.len() || pattern.len() > text.len() - at {
        return false;
    }
    let mut k: usize = 0;
    while k < pattern.len()
        invariant
            k <= pattern.len(),
            at + pattern.len() <= text.len(),
            forall|j: int| 0 <= j < k ==> text@[at + j] == pattern@[j],
        decreases pattern.len() - k,
    {
        if text[at + k] != pattern[k] {
            assert(text@.subrange(at as int, at + pattern.len())[k as int] != pattern@[k as int]);
            return false;
        }
        k += 1;
    }
    assert(text@.subrange(at as int, at + pattern.len()) =~= pattern@);
    true
}

/// Whether `pattern` stands somewhere in `text`. The empty pattern stands in
/// every text.
pub fn contains(text: &str, pattern: &str) -> (found: bool)
    ensures
        found == occurs_in(text@, pattern@),
{
    let hay = chars_of(text);
    let needle = chars_of(pattern);
    if needle.len() > hay.len() {
        return false;
    }
    let last: usize = hay.len() - needle.len();
    let mut at: usize = 0;
    loop
        invariant
            hay@ == text@,
            needle@ == pattern@,
            at <= last,
            last == hay.len() - needle.len(),
            forall|a: int| 0 <= a < at ==> !occurs_at(hay@, needle@, a),
        decreases last - at,
    {
        if matches_at(&hay, &needle, at) {
            return true;
        }
        if at == last {
            return false;
        }
        at += 1;
    }
}

/// Whether `text` begins with `pattern`.
pub fn has_prefix(text: &str, pattern: &str) -> (found: bool)
    ensures
        found == begins_with(text@, pattern@),
{
    let hay = chars_of(text);
    let needle = chars_of(pattern);
    matches_at(&hay, &needle, 0)
}

/// Whether `text` ends with `pattern`.
pub fn has_suffix(text: &str, pattern: &str) -> (found: bool)
    ensures
        found == ends_with(text@, pattern@),
{
    let hay = chars_of(text);
    let needle = chars_of(pattern);
    if needle.len() > hay.len() {
        return false;
    }
    matches_at(&hay, &needle, hay.len() - needle.len())
}

/// For each character of `text`, whether it is white space.
pub fn blank_marks(text: &Vec<char>) -> (blank: Vec<bool>)
    ensures
        blank@ == blanks(text@),
{
    let mut blank: Vec<bool> = Vec::new();
    let mut i: usize = 0;
    while i < text.len()
        invariant
            i <= text.len(),
            blank.len() == i,
            forall|j: int| 0 <= j < i ==> blank@[j] == is_whitespace(text@[j]),
        decreases text.len() - i,
    {
        blank.push(whitespace(text[i]));
        i += 1;
    }
    assert(blank@ =~= blanks(text@));
    blank
}

/// Where the part between the leading and the trailing marks begins and ends.
pub fn kept_range(blank: &Vec<bool>) -> (bounds: (usize, usize))
    ensures
        bounds.0 <= bounds.1 <= blank.len(),
        (bounds.0 as int, bounds.1 as int) == kept(blank@),
{
    let mut from: usize = 0;
    assert(blank@.subrange(0, blank.len() as int) =~= blank@);
    while from < blank.len() && blank[from]
        invariant
            from <= blank.len(),
            leading(blank@) == from + leading(blank@.subrange(from as int, blank.len() as int)),
        decreases blank.len() - from,
    {
        assert(blank@.subrange(from as int, blank.len() as int).drop_first() =~= blank@.subrange(
            from + 1,
            blank.len() as int,
        ));
        from += 1;
    }
    if from == blank.len() {
        return (from, from);
    }
    let mut to: usize = blank.len();
    while to > from + 1 && blank[to - 1]
        invariant
            from < to <= blank.len(),
            !blank@[from as int],
            trailing(blank@) == blank.len() - to + trailing(blank@.subrange(0, to as int)),
        decreases to,
    {
        assert(blank@.subrange(0, to as int).drop_last() =~= blank@.subrange(0, to - 1));
        to -= 1;
    }
    assert(!blank@.subrange(0, to as int).last());
    (from, to)
}

/// Where `text` begins and ends once the white space at its two ends is left
/// out.
pub fn trim_bounds(text: &Vec<char>) -> (bounds: (usize, usize))
    ensures
        bounds.0 <= bounds.1 <= text.len(),
        text@.subrange(bounds.0 as int, bounds.1 as int) == trimmed(text@),
{
    let blank = blank_marks(text);
    kept_range(&blank)
}

/// Whether `text`, without the white space at its two ends, is `word`.
pub fn trimmed_is(text: &str, word: &str) -> (same: bool)
    ensures
        same == (trimmed(text@) == word@),
{
    let hay = chars_of(text);
    let needle = chars_of(word);
    let (from, to) = trim_bounds(&hay);
    if to - from != needle.len() {
        return false;
    }
    matches_at(&hay, &needle, from)
}

/// How many characters of `text` are left once `suffix` is taken from its end
/// as often as it stands there.
pub fn length_without_suffixes(text: &Vec<char>, suffix: &Vec<char>) -> (length: usize)
    ensures
        length <= text.len(),
        text@.subrange(0, length as int) == without_suffixes(text@, suffix@),
{
    let mut length: usize = text.len();
    assert(text@.subrange(0, length as int) =~= text@);
    if suffix.len() == 0 {
        return length;
    }
    while length >= suffix.len() && matches_at(text, suffix, length - suffix.len())
        invariant
            length <= text.len(),
            suffix.len() > 0,
            without_suffixes(text@, suffix@) == without_suffixes(
                text@.subrange(0, length as int),
                suffix@,
            ),
        decreases length,
    {
        let ghost head = text@.subrange(0, length as int);
        assert(head.subrange(length - suffix.len(), length as int) =~= text@.subrange(
            length - suffix.len(),
            length as int,
        ));
        assert(ends_with(head, suffix@));
        assert(head.subrange(0, length - suffix.len()) =~= text@.subrange(
            0,
            length - suffix.len(),
        ));
        length -= suffix.len();
    }
    let ghost head = text@.subrange(0, length as int);
    assert(!ends_with(head, suffix@)) by {
        if length >= suffix.len() {
            assert(head.subrange(length - suffix.len(), length as int) =~= text@.subrange(
                length - suffix.len(),
                length as int,
            ));
        }
    }
    length
}

/// Whether `left` and `right` are the same text.
pub fn same_text(left: &str, right: &str) -> (same: bool)
    ensures
        same == (left@ == right@),
{
    left.to_owned() == right.to_owned()
}

} // verus!
