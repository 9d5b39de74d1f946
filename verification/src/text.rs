//! Small operations on texts, over their characters.

use vstd::prelude::*;
use vstd::string::StrSliceExecFns;

verus! {

/// Whether `pattern` stands at position `at` of `text`.
pub open spec fn occurs_at(text: Seq<char>, pattern: Seq<char>, at: int) -> bool {
    &&& 0 <= at
    &&& at + pattern.len() <= text.len()
    &&& text.subrange(at, at + pattern.len()) == pattern
}

/// Whether `pattern` stands anywhere in `text`.
pub open spec fn occurs_in(text: Seq<char>, pattern: Seq<char>) -> bool {
    exists|at: int| occurs_at(text, pattern, at)
}

/// The texts of a sequence of string slices, in order.
pub open spec fn texts(slices: Seq<&str>) -> Seq<Seq<char>> {
    Seq::new(slices.len(), |i: int| slices[i]@)
}

/// The texts of a sequence of strings, in order.
pub open spec fn string_texts(strings: Seq<String>) -> Seq<Seq<char>> {
    Seq::new(strings.len(), |i: int| strings[i]@)
}

/// The characters of a text.
pub fn characters(text: &str) -> (res: Vec<char>)
    ensures
        res@ == text@,
{
    let count = text.unicode_len();
    let mut res: Vec<char> = Vec::new();
    let mut i: usize = 0;
    while i < count
        invariant
            i <= count,
            count == text@.len(),
            res@ == text@.take(i as int),
        decreases count - i,
    {
        res.push(text.get_char(i));
        assert(res@ =~= text@.take(i + 1));
        i += 1;
    }
    assert(text@.take(count as int) =~= text@);
    res
}

/// Whether two texts are the same.
pub fn same_text(left: &str, right: &str) -> (res: bool)
    ensures
        res == (left@ == right@),
{
    let a = characters(left);
    let b = characters(right);
    if a.len() != b.len() {
        return false;
    }
    let mut i: usize = 0;
    while i < a.len()
        invariant
            i <= a@.len(),
            a@ == left@,
            b@ == right@,
            a@.len() == b@.len(),
            forall|k: int| 0 <= k < i ==> a@[k] == b@[k],
        decreases a@.len() - i,
    {
        if a[i] != b[i] {
            return false;
        }
        i += 1;
    }
    assert(a@ =~= b@);
    true
}

/// Whether `pattern` stands at position `at` of `text`.
fn matches_at(text: &Vec<char>, pattern: &Vec<char>, at: usize) -> (res: bool)
    requires
        at + pattern@.len() <= text@.len(),
    ensures
        res == occurs_at(text@, pattern@, at as int),
{
    let length = text.len();
    let mut j: usize = 0;
    while j < pattern.len()
        invariant
            j <= pattern@.len(),
            length == text@.len(),
            at + pattern@.len() <= length,
            forall|k: int| 0 <= k < j ==> text@[at + k] == pattern@[k],
        decreases pattern@.len() - j,
    {
        if text[at + j] != pattern[j] {
            assert(text@.subrange(at as int, at + pattern@.len())[j as int] != pattern@[j as int]);
            return false;
        }
        j += 1;
    }
    assert(text@.subrange(at as int, at + pattern@.len()) =~= pattern@);
    true
}

/// Whether `pattern` stands anywhere in `text`.
pub fn contains(text: &str, pattern: &str) -> (res: bool)
    ensures
        res == occurs_in(text@, pattern@),
{
    let haystack = characters(text);
    let needle = characters(pattern);
    if needle.len() > haystack.len() {
        return false;
    }
    let last = haystack.len() - needle.len();
    let mut at: usize = 0;
    loop
        invariant
            at <= last,
            haystack@ == text@,
            needle@ == pattern@,
            last == haystack@.len() - needle@.len(),
            forall|k: int| 0 <= k < at ==> !occurs_at(text@, pattern@, k),
        decreases last - at,
    {
        if matches_at(&haystack, &needle, at) {
            return true;
        }
        if at == last {
            return false;
        }
        at += 1;
    }
}

} // verus!
