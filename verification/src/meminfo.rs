//! Reading the available memory out of the text of `/proc/meminfo`.
//!
//! The text is a list of lines of the form `Name:   value unit`. The line
//! that counts is the first one that begins with `MemAvailable:` and whose
//! second word is a decimal number that fits in 64 bits; that number is the
//! available memory in kilobytes.

use crate::text::{chars_of, starts_with};
use vstd::prelude::*;

verus! {

/// The name the line with the available memory begins with.
pub const MEM_AVAILABLE_KEY: &'static str = "MemAvailable:";

/// Whether a character is white space.
pub open spec fn is_whitespace(c: char) -> bool {
    let code = c as u32;
    ||| 0x09 <= code <= 0x0d
    ||| code == 0x20
    ||| code == 0x85
    ||| code == 0xa0
    ||| code == 0x1680
    ||| 0x2000 <= code <= 0x200a
    ||| code == 0x2028
    ||| code == 0x2029
    ||| code == 0x202f
    ||| code == 0x205f
    ||| code == 0x3000
}

/// Whether a character is a decimal digit.
pub open spec fn is_digit(c: char) -> bool {
    0x30 <= c as u32 <= 0x39
}

/// The value of a decimal digit.
pub open spec fn digit_value(c: char) -> nat {
    if is_digit(c) {
        (c as u32 - 0x30) as nat
    } else {
        0
    }
}

/// The number a sequence of decimal digits stands for.
pub open spec fn decimal_value(digits: Seq<char>) -> nat
    decreases digits.len(),
{
    if digits.len() == 0 {
        0
    } else {
        decimal_value(digits.drop_last()) * 10 + digit_value(digits.last())
    }
}

/// Whether all characters are decimal digits.
pub open spec fn all_digits(digits: Seq<char>) -> bool {
    forall|i: int| 0 <= i < digits.len() ==> is_digit(#[trigger] digits[i])
}

/// The number a word stands for: an optional `+`, then at least one decimal
/// digit and nothing else, with a value that fits in 64 bits.
pub open spec fn spec_parse_u64(word: Seq<char>) -> Option<u64> {
    let digits = if word.len() > 0 && word[0] == '+' {
        word.drop_first()
    } else {
        word
    };
    if digits.len() > 0 && all_digits(digits) && decimal_value(digits) <= u64::MAX {
        Some(decimal_value(digits) as u64)
    } else {
        None
    }
}

/// The first position at or after `from` that holds no white space, or the
/// length of the line.
pub open spec fn spec_skip_whitespace(line: Seq<char>, from: int) -> int
    decreases line.len() - from,
{
    if 0 <= from < line.len() && is_whitespace(line[from]) {
        spec_skip_whitespace(line, from + 1)
    } else {
        from
    }
}

/// The first position at or after `from` that holds white space, or the
/// length of the line.
pub open spec fn spec_skip_word(line: Seq<char>, from: int) -> int
    decreases line.len() - from,
{
    if 0 <= from < line.len() && !is_whitespace(line[from]) {
        spec_skip_word(line, from + 1)
    } else {
        from
    }
}

/// The second word of a line, where words are what white space separates.
pub open spec fn spec_second_word(line: Seq<char>) -> Option<Seq<char>> {
    let first_start = spec_skip_whitespace(line, 0);
    let first_end = spec_skip_word(line, first_start);
    let second_start = spec_skip_whitespace(line, first_end);
    let second_end = spec_skip_word(line, second_start);
    if second_start < line.len() {
        Some(line.subrange(second_start, second_end))
    } else {
        None
    }
}

/// The available memory a line states, if it states one.
pub open spec fn spec_line_value(line: Seq<char>) -> Option<u64> {
    if MEM_AVAILABLE_KEY@.is_prefix_of(line) {
        match spec_second_word(line) {
            Some(word) => spec_parse_u64(word),
            None => None,
        }
    } else {
        None
    }
}

/// Whether the characters from `start` up to `end` are a line of the text:
/// they begin at the start of the text or behind a line feed, end before a
/// line feed or at the end of the text, and hold no line feed.
pub open spec fn is_line(text: Seq<char>, start: int, end: int) -> bool {
    &&& 0 <= start <= end <= text.len()
    &&& (start == 0 || text[start - 1] == '\n')
    &&& (end == text.len() || text[end] == '\n')
    &&& forall|k: int| start <= k < end ==> text[k] != '\n'
}

/// Whether the characters from `start` up to `end` are a line of the text
/// that states the available memory `kb`.
pub open spec fn line_states(text: Seq<char>, start: int, end: int, kb: u64) -> bool {
    is_line(text, start, end) && spec_line_value(text.subrange(start, end)) == Some(kb)
}

/// Whether `kb` is the available memory that the text of `/proc/meminfo`
/// states: the value of its first line that states one, or `None` if no
/// line does.
pub open spec fn is_mem_available_kb(text: Seq<char>, kb: Option<u64>) -> bool {
    match kb {
        Some(value) => exists|start: int, end: int|
            #![trigger line_states(text, start, end, value)]
            line_states(text, start, end, value) && forall|s: int, e: int, v: u64|
                line_states(text, s, e, v) ==> start <= s,
        None => forall|s: int, e: int, v: u64| !line_states(text, s, e, v),
    }
}

proof fn lemma_decimal_prefix(digits: Seq<char>, count: int)
    requires
        0 <= count <= digits.len(),
    ensures
        decimal_value(digits.take(count)) <= decimal_value(digits),
    decreases digits.len() - count,
{
    if count < digits.len() {
        lemma_decimal_prefix(digits, count + 1);
        assert(digits.take(count + 1).drop_last() == digits.take(count));
    } else {
        assert(digits.take(count) == digits);
    }
}

fn is_whitespace_char(c: char) -> (r: bool)
    ensures
        r == is_whitespace(c),
{
    let code = c as u32;
    (0x09 <= code && code <= 0x0d) || code == 0x20 || code == 0x85 || code == 0xa0 || code
        == 0x1680 || (0x2000 <= code && code <= 0x200a) || code == 0x2028 || code == 0x2029
        || code == 0x202f || code == 0x205f || code == 0x3000
}

fn skip_whitespace(line: &Vec<char>, from: usize) -> (at: usize)
    requires
        from <= line@.len(),
    ensures
        at == spec_skip_whitespace(line@, from as int),
        from <= at <= line@.len(),
{
    let mut at = from;
    while at < line.len() && is_whitespace_char(line[at])
        invariant
            from <= at <= line@.len(),
            spec_skip_whitespace(line@, from as int) == spec_skip_whitespace(line@, at as int),
        decreases line@.len() - at,
    {
        at += 1;
    }
    at
}

fn skip_word(line: &Vec<char>, from: usize) -> (at: usize)
    requires
        from <= line@.len(),
    ensures
        at == spec_skip_word(line@, from as int),
        from <= at <= line@.len(),
{
    let mut at = from;
    while at < line.len() && !is_whitespace_char(line[at])
        invariant
            from <= at <= line@.len(),
            spec_skip_word(line@, from as int) == spec_skip_word(line@, at as int),
        decreases line@.len() - at,
    {
        at += 1;
    }
    at
}

fn copy_range(text: &Vec<char>, from: usize, to: usize) -> (part: Vec<char>)
    requires
        from <= to <= text@.len(),
    ensures
        part@ == text@.subrange(from as int, to as int),
{
    let mut part: Vec<char> = Vec::new();
    let mut at = from;
    while at < to
        invariant
            from <= at <= to <= text@.len(),
            part@ == text@.subrange(from as int, at as int),
        decreases to - at,
    {
        part.push(text[at]);
        at += 1;
    }
    part
}

fn parse_u64(word: &Vec<char>) -> (value: Option<u64>)
    ensures
        value == spec_parse_u64(word@),
{
    let start: usize = if word.len() > 0 && word[0] == '+' {
        1
    } else {
        0
    };
    let ghost digits = word@.subrange(start as int, word@.len() as int);
    if start == word.len() {
        return None;
    }
    let mut value: u64 = 0;
    let mut at = start;
    while at < word.len()
        invariant
            start <= at <= word@.len(),
            start < word@.len(),
            digits == word@.subrange(start as int, word@.len() as int),
            digits == if word@.len() > 0 && word@[0] == '+' {
                word@.drop_first()
            } else {
                word@
            },
            all_digits(digits.take(at - start)),
            value == decimal_value(digits.take(at - start)),
        decreases word@.len() - at,
    {
        let code = word[at] as u32;
        if code < 0x30 || code > 0x39 {
            assert(!is_digit(digits[at - start]));
            return None;
        }
        let digit = (code - 0x30) as u64;
        proof {
            assert(digits.take(at - start + 1).drop_last() == digits.take(at - start));
            lemma_decimal_prefix(digits, at - start + 1);
        }
        if value > (u64::MAX - digit) / 10 {
            return None;
        }
        value = value * 10 + digit;
        at += 1;
    }
    proof {
        assert(digits.take(at - start) == digits);
    }
    Some(value)
}

fn line_value(line: &Vec<char>) -> (value: Option<u64>)
    ensures
        value == spec_line_value(line@),
{
    let key = chars_of(MEM_AVAILABLE_KEY);
    if !starts_with(line, &key) {
        return None;
    }
    let first_start = skip_whitespace(line, 0);
    let first_end = skip_word(line, first_start);
    let second_start = skip_whitespace(line, first_end);
    let second_end = skip_word(line, second_start);
    if second_start >= line.len() {
        return None;
    }
    let word = copy_range(line, second_start, second_end);
    parse_u64(&word)
}

fn line_end(text: &Vec<char>, from: usize) -> (end: usize)
    requires
        from <= text@.len(),
    ensures
        from <= end <= text@.len(),
        end == text@.len() || text@[end as int] == '\n',
        forall|k: int| from <= k < end ==> text@[k] != '\n',
{
    let mut end = from;
    while end < text.len() && text[end] != '\n'
        invariant
            from <= end <= text@.len(),
            forall|k: int| from <= k < end ==> text@[k] != '\n',
        decreases text@.len() - end,
    {
        end += 1;
    }
    end
}

/// Reads the available memory, in kilobytes, out of the text of
/// `/proc/meminfo`: the value of the first line that states one, or `None`
/// if no line does.
pub fn parse_mem_available_kb(meminfo: &str) -> (kb: Option<u64>)
    ensures
        is_mem_available_kb(meminfo@, kb),
{
    let text = chars_of(meminfo);
    let mut from: usize = 0;
    while from < text.len()
        invariant
            text@ == meminfo@,
            from <= text@.len(),
            from == 0 || text@[from - 1] == '\n',
            forall|s: int, e: int, v: u64| line_states(text@, s, e, v) ==> from <= s,
        decreases text@.len() - from,
    {
        let end = line_end(&text, from);
        let line = copy_range(&text, from, end);
        assert(is_line(text@, from as int, end as int));
        match line_value(&line) {
            Some(kb) => {
                assert(line_states(text@, from as int, end as int, kb));
                return Some(kb);
            },
            None => {},
        }
        assert forall|s: int, e: int, v: u64| line_states(text@, s, e, v) implies end < s by {
            if s == from {
                // Both lines start here, so both end at the first line feed.
                assert(e == end) by {
                    if e < end {
                        assert(text@[e] != '\n');
                    }
                    if end < e {
                        assert(text@[end as int] != '\n');
                    }
                }
            } else if s <= end {
                assert(text@[s - 1] != '\n');
            }
        }
        if end == text.len() {
            return None;
        }
        from = end + 1;
    }
    proof {
        reveal_strlit("MemAvailable:");
        assert forall|s: int, e: int, v: u64| !line_states(text@, s, e, v) by {
            if is_line(text@, s, e) && from <= s {
                assert(text@.subrange(s, e).len() == 0);
            }
        }
    }
    None
}

} // verus!
