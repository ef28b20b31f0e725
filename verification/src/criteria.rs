//! The outer form of query criteria: where a criterion starts and ends, and in which
//! notation it is written.

use vstd::prelude::*;
use vstd::string::StringSliceAdditionalSpecFns;

verus! {

/// The notation of a criterion.
#[derive(Clone, Copy, Debug, PartialEq, Eq, Structural)]
pub enum CriterionForm {
    /// A list of criteria in JSON: the text starts with `[`.
    JsonList,
    /// One criterion in JSON: the text starts with `{`.
    JsonItem,
    /// One criterion as separated values: any other text without white space.
    Csv,
}

/// A piece of a text that holds criteria: its notation, and the bytes of the text that it
/// takes, from `start` up to, not including, `end`.
#[derive(Clone, Copy, Debug, PartialEq, Eq, Structural)]
pub struct CriterionPart {
    /// The notation of the piece.
    pub form: CriterionForm,
    /// Where the piece starts.
    pub start: usize,
    /// Where the piece ends.
    pub end: usize,
}

/// The width of the white-space character that starts at `at` in a text in UTF-8, or zero
/// where none starts there.
///
/// White space is: tab to carriage return and space; next line and no-break space; Ogham
/// space mark; en quad to hair space, line and paragraph separator and narrow no-break
/// space; medium mathematical space; ideographic space.
pub open spec fn whitespace_len(text: Seq<u8>, at: int) -> int {
    if at < 0 || at >= text.len() {
        0
    } else if 0x09 <= text[at] <= 0x0d || text[at] == 0x20 {
        1
    } else if at + 1 < text.len() && text[at] == 0xc2 && (text[at + 1] == 0x85 || text[at + 1]
        == 0xa0) {
        2
    } else if at + 2 < text.len() && is_wide_whitespace(text[at], text[at + 1], text[at + 2]) {
        3
    } else {
        0
    }
}

/// The three bytes are a white-space character of three bytes.
pub open spec fn is_wide_whitespace(first: u8, second: u8, third: u8) -> bool {
    ||| first == 0xe1 && second == 0x9a && third == 0x80
    ||| first == 0xe2 && second == 0x80 && (0x80 <= third <= 0x8a || third == 0xa8 || third
        == 0xa9 || third == 0xaf)
    ||| first == 0xe2 && second == 0x81 && third == 0x9f
    ||| first == 0xe3 && second == 0x80 && third == 0x80
}

/// The width of the white-space character that ends at `end`, or zero where none ends
/// there.
pub open spec fn whitespace_len_before(text: Seq<u8>, end: int) -> int {
    if end >= 1 && whitespace_len(text.subrange(0, end), end - 1) == 1 {
        1
    } else if end >= 2 && whitespace_len(text.subrange(0, end), end - 2) == 2 {
        2
    } else if end >= 3 && whitespace_len(text.subrange(0, end), end - 3) == 3 {
        3
    } else {
        0
    }
}

/// The first position from `at` on at which no white space starts.
pub open spec fn skip_whitespace(text: Seq<u8>, at: int) -> int
    decreases text.len() - at,
{
    if whitespace_len(text, at) > 0 {
        skip_whitespace(text, at + whitespace_len(text, at))
    } else {
        at
    }
}

/// The last position down to `start` at which no white space ends.
pub open spec fn skip_whitespace_back(text: Seq<u8>, start: int, end: int) -> int
    decreases end,
{
    let width = whitespace_len_before(text, end);
    if width > 0 && end - width >= start {
        skip_whitespace_back(text, start, end - width)
    } else {
        end
    }
}

/// The first position from `at` on, and before `end`, at which white space starts, or `end`.
pub open spec fn word_end(text: Seq<u8>, at: int, end: int) -> int
    decreases end - at,
{
    if at >= end || whitespace_len(text, at) > 0 {
        at
    } else {
        word_end(text, at + 1, end)
    }
}

/// The words between `at` and `end`: the stretches without white space, in order.
pub open spec fn words(text: Seq<u8>, at: int, end: int) -> Seq<CriterionPart>
    decreases end - at,
    via words_decreases
{
    let start = skip_whitespace(text, at);
    if at < 0 || at > text.len() || start >= end {
        Seq::empty()
    } else {
        let stop = word_end(text, start + 1, end);
        seq![CriterionPart { form: CriterionForm::Csv, start: start as usize, end: stop as usize }]
            + words(text, stop, end)
    }
}

#[via_fn]
proof fn words_decreases(text: Seq<u8>, at: int, end: int) {
    if 0 <= at <= text.len() {
        lemma_skip_whitespace_bounds(text, at);
        let start = skip_whitespace(text, at);
        if start < end {
            lemma_word_end_bounds(text, start + 1, end);
        }
    }
}

/// The pieces of a text that holds criteria.
///
/// White space around the text does not count. What is left is one piece where it starts
/// with `[` or `{`, and else one piece for each of its words. A text of white space alone
/// has no piece.
pub open spec fn parts_of(text: Seq<u8>) -> Seq<CriterionPart> {
    let start = skip_whitespace(text, 0);
    let end = skip_whitespace_back(text, start, text.len() as int);
    if start >= end {
        Seq::empty()
    } else if text[start] == 0x5b {
        seq![CriterionPart { form: CriterionForm::JsonList, start: start as usize, end: end as usize }]
    } else if text[start] == 0x7b {
        seq![CriterionPart { form: CriterionForm::JsonItem, start: start as usize, end: end as usize }]
    } else {
        words(text, start, end)
    }
}

/// Skipping white space goes forward, and not beyond the text.
pub proof fn lemma_skip_whitespace_bounds(text: Seq<u8>, at: int)
    requires
        0 <= at <= text.len(),
    ensures
        at <= skip_whitespace(text, at) <= text.len(),
        whitespace_len(text, skip_whitespace(text, at)) == 0,
    decreases text.len() - at,
{
    if whitespace_len(text, at) > 0 {
        lemma_skip_whitespace_bounds(text, at + whitespace_len(text, at));
    }
}

/// A word ends between where it is looked for and the end.
pub proof fn lemma_word_end_bounds(text: Seq<u8>, at: int, end: int)
    requires
        at <= end,
    ensures
        at <= word_end(text, at, end) <= end,
    decreases end - at,
{
    if at < end && whitespace_len(text, at) == 0 {
        lemma_word_end_bounds(text, at + 1, end);
    }
}

/// The width of the white-space character that starts at `at`.
fn whitespace_at(text: &[u8], at: usize) -> (width: usize)
    ensures
        width == whitespace_len(text@, at as int),
        at + width <= text@.len() || width == 0,
{
    let total: usize = text.len();
    if at >= total {
        return 0;
    }
    let first = text[at];
    if (0x09 <= first && first <= 0x0d) || first == 0x20 {
        return 1;
    }
    if total - at >= 2 && first == 0xc2 && (text[at + 1] == 0x85 || text[at + 1] == 0xa0) {
        return 2;
    }
    if total - at >= 3 {
        let second = text[at + 1];
        let third = text[at + 2];
        let wide = (first == 0xe1 && second == 0x9a && third == 0x80) || (first == 0xe2 && second
            == 0x80 && ((0x80 <= third && third <= 0x8a) || third == 0xa8 || third == 0xa9
            || third == 0xaf)) || (first == 0xe2 && second == 0x81 && third == 0x9f) || (first
            == 0xe3 && second == 0x80 && third == 0x80);
        if wide {
            return 3;
        }
    }
    0
}

/// The width of the white-space character that ends at `end`.
fn whitespace_before(text: &[u8], end: usize) -> (width: usize)
    requires
        end <= text@.len(),
    ensures
        width == whitespace_len_before(text@, end as int),
        width <= end,
{
    let ghost head = text@.subrange(0, end as int);
    if end >= 1 {
        let last = text[end - 1];
        assert(head[end - 1] == last);
        if (0x09 <= last && last <= 0x0d) || last == 0x20 {
            return 1;
        }
    }
    if end >= 2 {
        assert(head[end - 2] == text@[end - 2] && head[end - 1] == text@[end - 1]);
        if text[end - 2] == 0xc2 && (text[end - 1] == 0x85 || text[end - 1] == 0xa0) {
            return 2;
        }
    }
    if end >= 3 {
        let first = text[end - 3];
        let second = text[end - 2];
        let third = text[end - 1];
        assert(head[end - 3] == first && head[end - 2] == second && head[end - 1] == third);
        let wide = (first == 0xe1 && second == 0x9a && third == 0x80) || (first == 0xe2 && second
            == 0x80 && ((0x80 <= third && third <= 0x8a) || third == 0xa8 || third == 0xa9
            || third == 0xaf)) || (first == 0xe2 && second == 0x81 && third == 0x9f) || (first
            == 0xe3 && second == 0x80 && third == 0x80);
        if wide {
            return 3;
        }
    }
    0
}

/// Skips the white space from `at` on.
fn skip_forward(text: &[u8], at: usize) -> (position: usize)
    requires
        at <= text@.len(),
    ensures
        position == skip_whitespace(text@, at as int),
        at <= position <= text@.len(),
{
    let total: usize = text.len();
    let mut position: usize = at;
    loop
        invariant
            at <= position <= total == text@.len(),
            skip_whitespace(text@, at as int) == skip_whitespace(text@, position as int),
        decreases total - position,
    {
        let width = whitespace_at(text, position);
        if width == 0 {
            return position;
        }
        position += width;
    }
}

/// Skips the white space from `end` back, down to `start`.
fn skip_backward(text: &[u8], start: usize, end: usize) -> (position: usize)
    requires
        start <= end <= text@.len(),
    ensures
        position == skip_whitespace_back(text@, start as int, end as int),
        start <= position <= end,
{
    let mut position: usize = end;
    loop
        invariant
            start <= position <= end <= text@.len(),
            skip_whitespace_back(text@, start as int, end as int) == skip_whitespace_back(
                text@,
                start as int,
                position as int,
            ),
        decreases position,
    {
        let width = whitespace_before(text, position);
        if width == 0 || position - width < start {
            return position;
        }
        position -= width;
    }
}

/// Finds the end of the word that `at` is in or behind.
fn find_word_end(text: &[u8], at: usize, end: usize) -> (position: usize)
    requires
        at <= end <= text@.len(),
    ensures
        position == word_end(text@, at as int, end as int),
        at <= position <= end,
{
    let mut position: usize = at;
    while position < end && whitespace_at(text, position) == 0
        invariant
            at <= position <= end <= text@.len(),
            word_end(text@, at as int, end as int) == word_end(text@, position as int, end as int),
        decreases end - position,
    {
        position += 1;
    }
    position
}

/// Finds the pieces of a text that holds criteria.
pub fn criterion_parts(text: &str) -> (parts: Vec<CriterionPart>)
    ensures
        parts@ == parts_of(text.spec_bytes()),
{
    let bytes = text.as_bytes();
    let start = skip_forward(bytes, 0);
    let end = skip_backward(bytes, start, bytes.len());
    let mut parts: Vec<CriterionPart> = Vec::new();
    if start >= end {
        return parts;
    }
    if bytes[start] == 0x5b {
        parts.push(CriterionPart { form: CriterionForm::JsonList, start, end });
        return parts;
    }
    if bytes[start] == 0x7b {
        parts.push(CriterionPart { form: CriterionForm::JsonItem, start, end });
        return parts;
    }
    let mut at: usize = start;
    loop
        invariant
            start <= at <= end <= bytes@.len(),
            parts_of(text.spec_bytes()) == words(bytes@, start as int, end as int),
            parts@ + words(bytes@, at as int, end as int) == words(bytes@, start as int, end as int),
        decreases end - at,
    {
        let word = skip_forward(bytes, at);
        if word >= end {
            assert(words(bytes@, at as int, end as int) =~= Seq::<CriterionPart>::empty());
            assert(parts@ =~= words(bytes@, start as int, end as int));
            return parts;
        }
        let stop = find_word_end(bytes, word + 1, end);
        let ghost before = parts@;
        let part = CriterionPart { form: CriterionForm::Csv, start: word, end: stop };
        parts.push(part);
        assert(before + words(bytes@, at as int, end as int) =~= before.push(part) + words(
            bytes@,
            stop as int,
            end as int,
        ));
        at = stop;
    }
}

} // verus!
