//! Text as sequences of characters: searching and splitting.

use vstd::prelude::*;
use vstd::string::*;
use vstd::std_specs::iter::IteratorSpec;
use crate::conf::texts;

verus! {

/// `needle` stands in `hay` at position `at`.
pub open spec fn occurs_at(hay: Seq<char>, needle: Seq<char>, at: int) -> bool {
    0 <= at && at + needle.len() <= hay.len() && hay.subrange(at, at + needle.len()) == needle
}

/// `needle` stands somewhere in `hay`. Upper and lower case differ; the empty
/// text stands in every text.
pub open spec fn contains(hay: Seq<char>, needle: Seq<char>) -> bool {
    exists|at: int| occurs_at(hay, needle, at)
}

/// White space as Unicode defines it (the property `White_Space`).
pub open spec fn is_space(c: char) -> bool {
    let n = c as u32;
    (0x09 <= n <= 0x0D) || n == 0x20 || n == 0x85 || n == 0xA0 || n == 0x1680 || (0x2000 <= n
        <= 0x200A) || n == 0x2028 || n == 0x2029 || n == 0x202F || n == 0x205F || n == 0x3000
}

/// The first position from `from` on that holds no white space, or the
/// text's length.
pub open spec fn word_start(text: Seq<char>, from: int) -> int
    decreases text.len() - from,
{
    if 0 <= from < text.len() && is_space(text[from]) {
        word_start(text, from + 1)
    } else {
        from
    }
}

/// The first position from `from` on that holds white space, or the text's
/// length.
pub open spec fn word_end(text: Seq<char>, from: int) -> int
    decreases text.len() - from,
{
    if 0 <= from < text.len() && !is_space(text[from]) {
        word_end(text, from + 1)
    } else {
        from
    }
}

/// The words of `text` from position `from` on: the longest runs of
/// characters that are no white space, in their order.
pub open spec fn words_from(text: Seq<char>, from: int) -> Seq<Seq<char>>
    decreases text.len() - from,
    when 0 <= from
    via words_from_decreases
{
    let start = word_start(text, from);
    if start >= text.len() {
        Seq::empty()
    } else {
        let end = word_end(text, start);
        seq![text.subrange(start, end)] + words_from(text, end)
    }
}

#[via_fn]
proof fn words_from_decreases(text: Seq<char>, from: int) {
    let start = word_start(text, from);
    word_start_bounds(text, from);
    if start < text.len() {
        word_end_bounds(text, start);
    }
}

/// The words of a text.
pub open spec fn words(text: Seq<char>) -> Seq<Seq<char>> {
    words_from(text, 0)
}

/// A word's start lies at or after the position asked from, within the text.
pub proof fn word_start_bounds(text: Seq<char>, from: int)
    requires
        0 <= from,
    ensures
        from <= word_start(text, from),
        from <= text.len() ==> word_start(text, from) <= text.len(),
        word_start(text, from) < text.len() ==> !is_space(text[word_start(text, from)]),
    decreases text.len() - from,
{
    if from < text.len() && is_space(text[from]) {
        word_start_bounds(text, from + 1);
    }
}

/// A word that starts on a character that is no white space is not empty and
/// ends within the text.
pub proof fn word_end_bounds(text: Seq<char>, from: int)
    requires
        0 <= from,
    ensures
        from <= word_end(text, from),
        from <= text.len() ==> word_end(text, from) <= text.len(),
        from < text.len() && !is_space(text[from]) ==> from < word_end(text, from),
    decreases text.len() - from,
{
    if from < text.len() && !is_space(text[from]) {
        word_end_bounds(text, from + 1);
    }
}

/// Between a word's start and its end stands no white space.
pub proof fn word_holds_no_space(text: Seq<char>, from: int, at: int)
    requires
        0 <= from <= at < word_end(text, from),
    ensures
        at < text.len(),
        !is_space(text[at]),
    decreases text.len() - from,
{
    if from < at {
        word_holds_no_space(text, from + 1, at);
    }
}

/// Every word of a text holds at least one character and no white space:
/// splitting the words again would change nothing.
pub proof fn words_are_solid(text: Seq<char>, from: int, i: int)
    requires
        0 <= from,
        0 <= i < words_from(text, from).len(),
    ensures
        words_from(text, from)[i].len() > 0,
        forall|k: int|
            0 <= k < words_from(text, from)[i].len() ==> !is_space(
                #[trigger] words_from(text, from)[i][k],
            ),
    decreases text.len() - from,
{
    let start = word_start(text, from);
    word_start_bounds(text, from);
    if start < text.len() {
        let end = word_end(text, start);
        word_end_bounds(text, start);
        if i == 0 {
            let word = text.subrange(start, end);
            assert(words_from(text, from)[0] == word);
            assert forall|k: int| 0 <= k < word.len() implies !is_space(#[trigger] word[k]) by {
                word_holds_no_space(text, start, start + k);
            }
        } else {
            assert(words_from(text, from)[i] == words_from(text, end)[i - 1]);
            words_are_solid(text, end, i - 1);
        }
    }
}

/// Whether a character is white space.
pub fn is_whitespace(c: char) -> (space: bool)
    ensures
        space == is_space(c),
{
    let n: u32 = c as u32;
    (0x09 <= n && n <= 0x0D) || n == 0x20 || n == 0x85 || n == 0xA0 || n == 0x1680 || (0x2000
        <= n && n <= 0x200A) || n == 0x2028 || n == 0x2029 || n == 0x202F || n == 0x205F || n
        == 0x3000
}

/// The characters of a text, one by one.
pub fn to_chars(text: &str) -> (chars: Vec<char>)
    ensures
        chars@ == text@,
{
    broadcast use vstd::string::group_string_axioms;

    let mut rest = text.chars();
    let mut chars: Vec<char> = Vec::new();
    assert(chars@ + rest.remaining() =~= text@);
    loop
        invariant
            rest.obeys_prophetic_iter_laws(),
            rest.decrease() is Some,
            chars@ + rest.remaining() == text@,
        decreases rest.decrease()->0,
    {
        match rest.next() {
            Some(c) => {
                chars.push(c);
                assert(chars@ + rest.remaining() =~= text@);
            },
            None => {
                assert(chars@ =~= text@);
                return chars;
            },
        }
    }
}

/// Whether `needle` stands in `hay` at position `at`.
pub fn matches_at(hay: &Vec<char>, needle: &Vec<char>, at: usize) -> (found: bool)
    requires
        at + needle.len() <= hay.len(),
    ensures
        found == occurs_at(hay@, needle@, at as int),
{
    let mut k: usize = 0;
    while k < needle.len()
        invariant
            k <= needle.len(),
            at + needle.len() <= hay.len(),
            forall|j: int| 0 <= j < k ==> hay[at + j] == needle[j],
        decreases needle.len() - k,
    {
        if hay[at + k] != needle[k] {
            assert(hay@.subrange(at as int, at + needle.len())[k as int] == hay[at + k]);
            return false;
        }
        k += 1;
    }
    assert(hay@.subrange(at as int, at + needle.len()) =~= needle@);
    true
}

/// Whether `needle` stands somewhere in `hay`.
pub fn contains_text(hay: &str, needle: &str) -> (found: bool)
    ensures
        found == contains(hay@, needle@),
{
    let hay_chars = to_chars(hay);
    let needle_chars = to_chars(needle);
    if needle_chars.len() > hay_chars.len() {
        assert(forall|at: int| !occurs_at(hay@, needle@, at));
        return false;
    }
    let last: usize = hay_chars.len() - needle_chars.len();
    let mut at: usize = 0;
    loop
        invariant
            hay_chars@ == hay@,
            needle_chars@ == needle@,
            last + needle_chars.len() == hay_chars.len(),
            at <= last,
            forall|k: int| 0 <= k < at ==> !occurs_at(hay@, needle@, k),
        decreases last - at,
    {
        if matches_at(&hay_chars, &needle_chars, at) {
            return true;
        }
        if at == last {
            assert(forall|k: int| !occurs_at(hay@, needle@, k));
            return false;
        }
        at += 1;
    }
}

/// Splits a text at white space into its words. A text of white space alone
/// has no words.
pub fn split_words(text: &str) -> (list: Vec<String>)
    ensures
        texts(list@) == words(text@),
{
    let chars = to_chars(text);
    let len: usize = chars.len();
    let mut list: Vec<String> = Vec::new();
    let mut from: usize = 0;
    assert(texts(list@) + words_from(text@, 0) =~= words(text@));
    loop
        invariant
            chars@ == text@,
            len == chars.len(),
            from <= len,
            texts(list@) + words_from(text@, from as int) == words(text@),
        decreases len - from,
    {
        let mut start: usize = from;
        while start < len && is_whitespace(chars[start])
            invariant
                chars@ == text@,
                len == chars.len(),
                from <= start <= len,
                word_start(text@, from as int) == word_start(text@, start as int),
            decreases len - start,
        {
            start += 1;
        }
        if start >= len {
            assert(words_from(text@, from as int) =~= Seq::<Seq<char>>::empty());
            assert(texts(list@) =~= words(text@));
            return list;
        }
        let mut end: usize = start + 1;
        while end < len && !is_whitespace(chars[end])
            invariant
                chars@ == text@,
                len == chars.len(),
                start < end <= len,
                word_end(text@, start as int) == word_end(text@, end as int),
            decreases len - end,
        {
            end += 1;
        }
        let word = text.substring_char(start, end).to_owned();
        proof {
            assert(word_start(text@, from as int) == start);
            assert(word_end(text@, start as int) == end);
            assert(words_from(text@, from as int) == seq![text@.subrange(start as int, end as int)]
                + words_from(text@, end as int));
            assert(texts(list@.push(word)) =~= texts(list@) + seq![word@]);
            assert((texts(list@) + seq![word@]) + words_from(text@, end as int) =~= texts(list@) + (
            seq![word@] + words_from(text@, end as int)));
        }
        list.push(word);
        from = end;
    }
}

} // verus!
