//! The two things the client does to a line of input before it looks at it:
//! it takes the white space off both ends and folds the letters to lower
//! case. What counts as white space and what a letter's lower case is are
//! Unicode's business and are taken from the standard library.

use vstd::prelude::*;

verus! {

/// Whether a character is white space, as `char::is_whitespace` tells it.
pub uninterp spec fn white_space(c: char) -> bool;

/// The lower case of a text, as `str::to_lowercase` gives it.
pub uninterp spec fn lowercased(text: Seq<char>) -> Seq<char>;

/// `char::is_whitespace`. Trusted: the answer depends on the character
/// alone.
#[verifier::external_body]
pub(crate) fn is_whitespace(c: char) -> (yes: bool)
    ensures
        yes == white_space(c),
{
    c.is_whitespace()
}

/// `str::to_lowercase`. Trusted: the result depends on the text alone.
#[verifier::external_body]
pub(crate) fn to_lowercase(text: &str) -> (lower: String)
    ensures
        lower@ == lowercased(text@),
{
    text.to_lowercase()
}

/// A text without the white space at its start.
pub open spec fn trim_start(text: Seq<char>) -> Seq<char>
    decreases text.len(),
{
    if text.len() > 0 && white_space(text.first()) {
        trim_start(text.drop_first())
    } else {
        text
    }
}

/// A text without the white space at its end.
pub open spec fn trim_end(text: Seq<char>) -> Seq<char>
    decreases text.len(),
{
    if text.len() > 0 && white_space(text.last()) {
        trim_end(text.drop_last())
    } else {
        text
    }
}

/// A text without the white space at either end.
pub open spec fn trimmed(text: Seq<char>) -> Seq<char> {
    trim_end(trim_start(text))
}

/// Where the white space at the start of a text ends, its start is just
/// what the trimming takes off.
pub proof fn lemma_trim_start(text: Seq<char>, from: int)
    requires
        0 <= from <= text.len(),
        forall|i: int| 0 <= i < from ==> white_space(#[trigger] text[i]),
        from < text.len() ==> !white_space(text[from]),
    ensures
        trim_start(text) == text.subrange(from, text.len() as int),
    decreases from,
{
    if from == 0 {
        assert(text.subrange(0, text.len() as int) =~= text);
    } else {
        let rest = text.drop_first();
        assert forall|i: int| 0 <= i < from - 1 implies white_space(#[trigger] rest[i]) by {
            assert(rest[i] == text[i + 1]);
        }
        lemma_trim_start(rest, from - 1);
        assert(rest.subrange(from - 1, rest.len() as int) =~= text.subrange(
            from,
            text.len() as int,
        ));
    }
}

/// Where the white space at the end of a text begins, its end is just what
/// the trimming takes off.
pub proof fn lemma_trim_end(text: Seq<char>, to: int)
    requires
        0 <= to <= text.len(),
        forall|i: int| to <= i < text.len() ==> white_space(#[trigger] text[i]),
        0 < to ==> !white_space(text[to - 1]),
    ensures
        trim_end(text) == text.subrange(0, to),
    decreases text.len() - to,
{
    if to == text.len() {
        assert(text.subrange(0, to) =~= text);
    } else {
        let rest = text.drop_last();
        lemma_trim_end(rest, to);
        assert(rest.subrange(0, to) =~= text.subrange(0, to));
    }
}

/// The part of a line that is left when the white space at both ends is
/// taken off.
pub fn trim(line: &str) -> (kept: &str)
    ensures
        kept@ == trimmed(line@),
{
    let length = line.unicode_len();
    let mut start: usize = 0;
    let mut end: usize = 0;
    let mut count: usize = 0;
    for c in iter: line.chars()
        invariant
            count == iter.index(),
            iter.seq() == line@,
            length == line@.len(),
            start <= count,
            forall|i: int| 0 <= i < start ==> white_space(#[trigger] line@[i]),
            forall|i: int| end <= i < count ==> white_space(#[trigger] line@[i]),
            end == 0 ==> start == count,
            end > 0 ==> start < end <= count && !white_space(line@[start as int]) && !white_space(
                line@[end - 1],
            ),
    {
        if !is_whitespace(c) {
            end = count + 1;
        } else if end == 0 {
            start = count + 1;
        }
        count += 1;
    }
    if end == 0 {
        start = 0;
    }
    proof {
        let rest = line@.subrange(start as int, length as int);
        if end == 0 {
            lemma_trim_start(line@, length as int);
            assert(trim_start(line@) =~= line@.subrange(0, 0));
        } else {
            lemma_trim_start(line@, start as int);
            lemma_trim_end(rest, end - start);
            assert(rest.subrange(0, end - start) =~= line@.subrange(start as int, end as int));
        }
    }
    line.substring_char(start, end)
}

} // verus!
