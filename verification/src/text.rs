//! Small verified operations on text, stated over sequences of characters.

use vstd::prelude::*;

verus! {

/// The characters of `s`, in order.
pub fn chars_of(s: &str) -> (chars: Vec<char>)
    ensures
        chars@ == s@,
{
    let mut chars: Vec<char> = Vec::new();
    for c in it: s.chars()
        invariant
            chars@ == s@.take(it.index() as int),
            it.seq() == s@,
    {
        chars.push(c);
    }
    chars
}

/// Whether `a` and `b` hold the same characters; case matters.
pub fn str_equal(a: &str, b: &str) -> (equal: bool)
    ensures
        equal == (a@ == b@),
{
    let a_chars = chars_of(a);
    let b_chars = chars_of(b);
    if a_chars.len() != b_chars.len() {
        return false;
    }
    let mut i: usize = 0;
    while i < a_chars.len()
        invariant
            i <= a_chars.len(),
            a_chars.len() == b_chars.len(),
            a_chars@ == a@,
            b_chars@ == b@,
            a_chars@.take(i as int) == b_chars@.take(i as int),
        decreases a_chars.len() - i,
    {
        if a_chars[i] != b_chars[i] {
            return false;
        }
        assert(a_chars@.take(i + 1) == a_chars@.take(i as int).push(a_chars@[i as int]));
        assert(b_chars@.take(i + 1) == b_chars@.take(i as int).push(b_chars@[i as int]));
        i += 1;
    }
    assert(a_chars@.take(i as int) == a_chars@);
    assert(b_chars@.take(i as int) == b_chars@);
    true
}

/// Whether `text` begins with `prefix`.
pub fn starts_with(text: &Vec<char>, prefix: &Vec<char>) -> (found: bool)
    ensures
        found == prefix@.is_prefix_of(text@),
{
    if prefix.len() > text.len() {
        return false;
    }
    let mut i: usize = 0;
    while i < prefix.len()
        invariant
            i <= prefix.len() <= text.len(),
            prefix@.take(i as int) == text@.take(i as int),
        decreases prefix.len() - i,
    {
        if prefix[i] != text[i] {
            return false;
        }
        assert(prefix@.take(i + 1) == prefix@.take(i as int).push(prefix@[i as int]));
        assert(text@.take(i + 1) == text@.take(i as int).push(text@[i as int]));
        i += 1;
    }
    assert(prefix@.take(i as int) == prefix@);
    assert(text@.subrange(0, prefix@.len() as int) == text@.take(i as int));
    true
}

/// The separator between the parts of a path.
pub open spec fn spec_separator() -> Seq<char> {
    seq!['/']
}

/// The path of `name` below the directory `base`.
pub open spec fn spec_join(base: Seq<char>, name: Seq<char>) -> Seq<char> {
    base + spec_separator() + name
}

/// The path of `name` below the directory `base`: the two, with one
/// separator between them.
pub fn join(base: &str, name: &str) -> (path: String)
    ensures
        path@ == spec_join(base@, name@),
{
    proof {
        reveal_strlit("/");
    }
    let mut path = String::from_str(base);
    path.append("/");
    path.append(name);
    path
}

/// The text `a` followed by the text `b`.
pub fn concat(a: &str, b: &str) -> (text: String)
    ensures
        text@ == a@ + b@,
{
    let mut text = String::from_str(a);
    text.append(b);
    text
}

/// The first `count` characters of a text, or all of it if it is shorter.
pub open spec fn spec_prefix(text: Seq<char>, count: nat) -> Seq<char> {
    if text.len() <= count {
        text
    } else {
        text.take(count as int)
    }
}

/// The first `count` characters of `text`, or all of it if it is shorter.
pub fn prefix(text: &str, count: usize) -> (head: String)
    ensures
        head@ == spec_prefix(text@, count as nat),
{
    let length = text.unicode_len();
    if length <= count {
        String::from_str(text)
    } else {
        String::from_str(text.substring_char(0, count))
    }
}

} // verus!
