//! Comparing and searching the names of classes, which are characters, and those of
//! selectors, which are bytes.
use vstd::prelude::*;

verus! {

/// `whole` has `part` at position `at`.
pub open spec fn has_at<T>(whole: Seq<T>, part: Seq<T>, at: int) -> bool {
    0 <= at && at + part.len() <= whole.len() && whole.subrange(at, at + part.len()) == part
}

/// `whole` begins with `prefix`.
pub open spec fn begins_with<T>(whole: Seq<T>, prefix: Seq<T>) -> bool {
    has_at(whole, prefix, 0)
}

/// `part` occurs somewhere in `whole`.
pub open spec fn occurs_in<T>(whole: Seq<T>, part: Seq<T>) -> bool {
    exists|at: int| has_at(whole, part, at)
}

/// The characters of a string, one by one.
pub fn characters(s: &str) -> (result: Vec<char>)
    ensures
        result@ == s@,
{
    let mut result: Vec<char> = Vec::new();
    for c in it: s.chars()
        invariant
            it.seq() == s@,
            result@ == s@.take(it.index() as int),
    {
        result.push(c);
    }
    assert(s@.take(s@.len() as int) == s@);
    result
}

/// Whether `whole` holds `part` at position `at`.
fn matches_at(whole: &Vec<char>, part: &Vec<char>, at: usize) -> (result: bool)
    requires
        at + part.len() <= whole.len(),
    ensures
        result == has_at(whole@, part@, at as int),
{
    let mut i: usize = 0;
    while i < part.len()
        invariant
            i <= part.len(),
            at + part.len() <= whole.len(),
            forall|j: int| 0 <= j < i ==> whole@[at + j] == part@[j],
        decreases part.len() - i,
    {
        if whole[at + i] != part[i] {
            assert(whole@.subrange(at as int, at + part@.len())[i as int] == whole@[at + i]);
            return false;
        }
        i += 1;
    }
    assert(whole@.subrange(at as int, at + part@.len()) =~= part@);
    true
}

/// Whether two strings hold the same characters.
pub fn same_text(a: &str, b: &str) -> (result: bool)
    ensures
        result == (a@ == b@),
{
    let left = characters(a);
    let right = characters(b);
    if left.len() != right.len() {
        return false;
    }
    let result = matches_at(&left, &right, 0);
    assert(left@.subrange(0, left@.len() as int) =~= left@);
    result
}

/// Whether `whole` begins with `prefix`.
pub fn starts_with(whole: &str, prefix: &str) -> (result: bool)
    ensures
        result == begins_with(whole@, prefix@),
{
    let whole_chars = characters(whole);
    let prefix_chars = characters(prefix);
    prefix_chars.len() <= whole_chars.len() && matches_at(&whole_chars, &prefix_chars, 0)
}

/// Whether `whole` holds the bytes of `part` at position `at`.
fn bytes_match_at(whole: &[u8], part: &[u8], at: usize) -> (result: bool)
    requires
        at + part@.len() <= whole@.len(),
    ensures
        result == has_at(whole@, part@, at as int),
{
    let end: usize = whole.len();
    let mut i: usize = 0;
    while i < part.len()
        invariant
            i <= part@.len(),
            at + part@.len() <= whole@.len() == end,
            forall|j: int| 0 <= j < i ==> whole@[at + j] == part@[j],
        decreases part@.len() - i,
    {
        if whole[at + i] != part[i] {
            assert(whole@.subrange(at as int, at + part@.len())[i as int] == whole@[at + i]);
            return false;
        }
        i += 1;
    }
    assert(whole@.subrange(at as int, at + part@.len()) =~= part@);
    true
}

/// Whether two sequences of bytes are the same.
pub fn same_bytes(a: &[u8], b: &[u8]) -> (result: bool)
    ensures
        result == (a@ == b@),
{
    if a.len() != b.len() {
        return false;
    }
    let result = bytes_match_at(a, b, 0);
    assert(a@.subrange(0, a@.len() as int) =~= a@);
    result
}

/// Whether the bytes of `part` occur in `whole`.
pub fn contains(whole: &[u8], part: &[u8]) -> (result: bool)
    ensures
        result == occurs_in(whole@, part@),
{
    if part.len() > whole.len() {
        return false;
    }
    let last: usize = whole.len() - part.len();
    let mut at: usize = 0;
    loop
        invariant
            at <= last,
            last == whole@.len() - part@.len(),
            forall|j: int| 0 <= j < at ==> !has_at(whole@, part@, j),
        decreases last - at,
    {
        if bytes_match_at(whole, part, at) {
            return true;
        }
        if at == last {
            return false;
        }
        at += 1;
    }
}

} // verus!
