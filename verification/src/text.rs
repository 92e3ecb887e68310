//! Small verified helpers on strings, stated over their character sequences.

use vstd::prelude::*;

verus! {

/// The characters of an optional string.
pub open spec fn text_view(text: Option<String>) -> Option<Seq<char>> {
    match text {
        Some(t) => Some(t@),
        None => None,
    }
}

/// The characters of `s`, in order.
pub fn chars_of(s: &str) -> (chars: Vec<char>)
    ensures
        chars@ == s@,
{
    let mut chars: Vec<char> = Vec::new();
    for c in it: s.chars()
        invariant
            it.seq() == s@,
            chars@ == it.seq().take(it.index()),
    {
        chars.push(c);
    }
    chars
}

/// Whether `pattern` stands in `text` at position `start`.
fn matches_at(text: &Vec<char>, start: usize, pattern: &Vec<char>) -> (found: bool)
    requires
        start + pattern.len() <= text.len(),
    ensures
        found == (text@.subrange(start as int, start + pattern.len()) == pattern@),
{
    let mut i: usize = 0;
    while i < pattern.len()
        invariant
            i <= pattern.len(),
            start + pattern.len() <= text.len(),
            forall|k: int| 0 <= k < i ==> text@[start + k] == pattern@[k],
        decreases pattern.len() - i,
    {
        if text[start + i] != pattern[i] {
            assert(text@.subrange(start as int, start + pattern.len())[i as int]
                != pattern@[i as int]);
            return false;
        }
        i += 1;
    }
    assert(text@.subrange(start as int, start + pattern.len()) =~= pattern@);
    true
}

/// Whether two strings hold the same characters.
pub fn same_text(a: &str, b: &str) -> (same: bool)
    ensures
        same == (a@ == b@),
{
    let left = chars_of(a);
    let right = chars_of(b);
    if left.len() != right.len() {
        return false;
    }
    assert(left@.subrange(0, left.len() as int) =~= left@);
    matches_at(&left, 0, &right)
}

/// Whether `text` ends with `suffix`.
pub fn ends_with(text: &str, suffix: &str) -> (found: bool)
    ensures
        found == suffix@.is_suffix_of(text@),
{
    let whole = chars_of(text);
    let tail = chars_of(suffix);
    if tail.len() > whole.len() {
        return false;
    }
    matches_at(&whole, whole.len() - tail.len(), &tail)
}

/// Whether `needle` occurs in `text`.
pub fn contains_char(text: &str, needle: char) -> (found: bool)
    ensures
        found == text@.contains(needle),
{
    let chars = chars_of(text);
    let mut i: usize = 0;
    while i < chars.len()
        invariant
            i <= chars.len(),
            chars@ == text@,
            forall|k: int| 0 <= k < i ==> chars@[k] != needle,
        decreases chars.len() - i,
    {
        if chars[i] == needle {
            return true;
        }
        i += 1;
    }
    false
}

} // verus!
