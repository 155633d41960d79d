//! Small helpers on strings, seen as sequences of characters, and on paths,
//! seen as sequences of components.

use vstd::prelude::*;

verus! {

/// Whether `suffix` is the tail of `text`.
pub open spec fn is_suffix(suffix: Seq<char>, text: Seq<char>) -> bool {
    suffix.len() <= text.len() && text.subrange(text.len() - suffix.len(), text.len() as int)
        == suffix
}

/// `text` with every `from` turned into `to`.
pub open spec fn replaced(text: Seq<char>, from: char, to: char) -> Seq<char> {
    Seq::new(
        text.len(),
        |i: int|
            if text[i] == from {
                to
            } else {
                text[i]
            },
    )
}

/// Whether `prefix` is the beginning of `path`, component by component.
pub open spec fn is_path_prefix(prefix: Seq<Seq<char>>, path: Seq<Seq<char>>) -> bool {
    prefix.len() <= path.len() && path.subrange(0, prefix.len() as int) == prefix
}

/// `String::push`: the character is added at the end and nothing else changes.
#[verifier::external_body]
fn push_char(s: &mut String, c: char)
    ensures
        final(s)@ == old(s)@.push(c),
{
    s.push(c)
}

/// The characters of `s`, in order.
pub fn chars_of(s: &str) -> (v: Vec<char>)
    ensures
        v@ == s@,
{
    let mut v: Vec<char> = Vec::new();
    for c in it: s.chars()
        invariant
            v@ == it.seq().take(it.index() as int),
            it.seq() == s@,
    {
        v.push(c);
    }
    v
}

/// Whether two strings hold the same characters.
pub fn same_text(a: &str, b: &str) -> (r: bool)
    ensures
        r == (a@ == b@),
{
    let x = a.to_owned();
    let y = b.to_owned();
    x == y
}

/// Whether `text` ends with `suffix`.
pub fn ends_with(text: &str, suffix: &str) -> (r: bool)
    ensures
        r == is_suffix(suffix@, text@),
{
    let t = chars_of(text);
    let s = chars_of(suffix);
    if s.len() > t.len() {
        return false;
    }
    let start: usize = t.len() - s.len();
    let mut i: usize = 0;
    while i < s.len()
        invariant
            i <= s.len(),
            start + s.len() == t.len(),
            t@ == text@,
            s@ == suffix@,
            forall|j: int| 0 <= j < i ==> t@[start + j] == s@[j],
        decreases s.len() - i,
    {
        if t[start + i] != s[i] {
            assert(t@.subrange(start as int, t@.len() as int)[i as int] != s@[i as int]);
            return false;
        }
        i += 1;
    }
    assert(t@.subrange(start as int, t@.len() as int) =~= s@);
    true
}

/// A copy of `text` in which every `from` has become `to`.
pub fn replace_char(text: &str, from: char, to: char) -> (r: String)
    ensures
        r@ == replaced(text@, from, to),
{
    let t = chars_of(text);
    let mut r = String::new();
    let mut i: usize = 0;
    while i < t.len()
        invariant
            i <= t.len(),
            t@ == text@,
            r@ == replaced(text@, from, to).take(i as int),
        decreases t.len() - i,
    {
        let c = if t[i] == from {
            to
        } else {
            t[i]
        };
        push_char(&mut r, c);
        assert(r@ =~= replaced(text@, from, to).take(i + 1));
        i += 1;
    }
    assert(r@ =~= replaced(text@, from, to));
    r
}

/// A copy of a path, component by component.
pub fn clone_path(path: &Vec<String>) -> (r: Vec<String>)
    ensures
        r.deep_view() == path.deep_view(),
{
    let mut r: Vec<String> = Vec::new();
    let mut i: usize = 0;
    while i < path.len()
        invariant
            i <= path.len(),
            r@.len() == i,
            forall|j: int| 0 <= j < i ==> r@[j]@ == path@[j]@,
        decreases path.len() - i,
    {
        r.push(path[i].clone());
        i += 1;
    }
    assert(r.deep_view() =~= path.deep_view());
    r
}

/// Whether two paths have the same components.
pub fn same_path(a: &Vec<String>, b: &Vec<String>) -> (r: bool)
    ensures
        r == (a.deep_view() == b.deep_view()),
{
    if a.len() != b.len() {
        assert(a.deep_view().len() != b.deep_view().len());
        return false;
    }
    let mut i: usize = 0;
    while i < a.len()
        invariant
            i <= a.len(),
            a.len() == b.len(),
            forall|j: int| 0 <= j < i ==> a@[j]@ == b@[j]@,
        decreases a.len() - i,
    {
        if a[i] != b[i] {
            assert(a.deep_view()[i as int] != b.deep_view()[i as int]);
            return false;
        }
        i += 1;
    }
    assert(a.deep_view() =~= b.deep_view());
    true
}

/// Whether `path` lies at or below `prefix`.
pub fn starts_with_path(path: &Vec<String>, prefix: &Vec<String>) -> (r: bool)
    ensures
        r == is_path_prefix(prefix.deep_view(), path.deep_view()),
{
    if prefix.len() > path.len() {
        return false;
    }
    let mut i: usize = 0;
    while i < prefix.len()
        invariant
            i <= prefix.len(),
            prefix.len() <= path.len(),
            forall|j: int| 0 <= j < i ==> path@[j]@ == prefix@[j]@,
        decreases prefix.len() - i,
    {
        if path[i] != prefix[i] {
            assert(path.deep_view().subrange(0, prefix.len() as int)[i as int]
                != prefix.deep_view()[i as int]);
            return false;
        }
        i += 1;
    }
    assert(path.deep_view().subrange(0, prefix.len() as int) =~= prefix.deep_view());
    true
}

} // verus!
