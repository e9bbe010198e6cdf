//! Helpers on character strings, the common currency of the pipeline.
//!
//! Configuration fields, templates, rendered scripts and the persisted
//! snapshot are all modelled as sequences of characters.

use vstd::prelude::*;

verus! {

/// Collects the characters of a string slice into a vector.
pub fn str_to_chars(s: &str) -> (v: Vec<char>)
    ensures
        v@ == s@,
{
    let n: usize = s.unicode_len();
    let mut v: Vec<char> = Vec::new();
    let mut i: usize = 0;
    while i < n
        invariant
            n == s@.len(),
            i <= n,
            v@ == s@.subrange(0, i as int),
        decreases n - i,
    {
        v.push(s.get_char(i));
        assert(v@ =~= s@.subrange(0, i + 1 as int));
        i = i + 1;
    }
    assert(v@ =~= s@);
    v
}

/// Character-for-character equality of two character vectors.
pub fn chars_eq(a: &Vec<char>, b: &Vec<char>) -> (r: bool)
    ensures
        r == (a@ == b@),
{
    if a.len() != b.len() {
        assert(a@.len() != b@.len());
        return false;
    }
    let n: usize = a.len();
    let mut i: usize = 0;
    while i < n
        invariant
            n == a@.len() == b@.len(),
            i <= n,
            forall|k: int| 0 <= k < i ==> a@[k] == b@[k],
        decreases n - i,
    {
        if a[i] != b[i] {
            return false;
        }
        i = i + 1;
    }
    assert(a@ =~= b@);
    true
}

/// Appends every character of `src` to `out`.
pub fn push_chars(out: &mut Vec<char>, src: &Vec<char>)
    ensures
        final(out)@ == old(out)@ + src@,
{
    let n: usize = src.len();
    let mut i: usize = 0;
    while i < n
        invariant
            n == src@.len(),
            i <= n,
            out@ == old(out)@ + src@.subrange(0, i as int),
        decreases n - i,
    {
        out.push(src[i]);
        assert(out@ =~= old(out)@ + src@.subrange(0, i + 1 as int));
        i = i + 1;
    }
    assert(out@ =~= old(out)@ + src@);
}

/// The contents of a list of strings, as a sequence of character
/// sequences.
pub open spec fn strings_view(v: Seq<String>) -> Seq<Seq<char>> {
    Seq::new(v.len(), |i: int| v[i]@)
}

/// The contents of a list of character vectors, as a sequence of
/// character sequences.
pub open spec fn chars_view(v: Seq<Vec<char>>) -> Seq<Seq<char>> {
    Seq::new(v.len(), |i: int| v[i]@)
}

/// Equality of two lists of character vectors, compared by contents.
pub fn char_lists_eq(a: &Vec<Vec<char>>, b: &Vec<Vec<char>>) -> (r: bool)
    ensures
        r == (chars_view(a@) == chars_view(b@)),
{
    if a.len() != b.len() {
        assert(chars_view(a@).len() != chars_view(b@).len());
        return false;
    }
    let n: usize = a.len();
    let mut i: usize = 0;
    while i < n
        invariant
            n == a@.len() == b@.len(),
            i <= n,
            forall|k: int| 0 <= k < i ==> a@[k]@ == b@[k]@,
        decreases n - i,
    {
        if !chars_eq(&a[i], &b[i]) {
            assert(chars_view(a@)[i as int] != chars_view(b@)[i as int]);
            return false;
        }
        i = i + 1;
    }
    assert(chars_view(a@) =~= chars_view(b@));
    true
}

/// Appending to a list of character vectors appends its contents.
pub proof fn lemma_chars_view_push(s: Seq<Vec<char>>, x: Vec<char>)
    ensures
        chars_view(s.push(x)) == chars_view(s).push(x@),
{
    assert forall|k: int| 0 <= k < s.len() + 1 implies chars_view(s.push(x))[k] == chars_view(
        s,
    ).push(x@)[k] by {
        if k < s.len() {
            assert(s.push(x)[k] == s[k]);
        } else {
            assert(s.push(x)[k] == x);
        }
    }
    assert(chars_view(s.push(x)) =~= chars_view(s).push(x@));
}

/// Copies a character vector.
pub fn copy_chars(src: &Vec<char>) -> (v: Vec<char>)
    ensures
        v@ == src@,
{
    let n: usize = src.len();
    let mut v: Vec<char> = Vec::new();
    let mut i: usize = 0;
    while i < n
        invariant
            n == src@.len(),
            i <= n,
            v@ == src@.subrange(0, i as int),
        decreases n - i,
    {
        v.push(src[i]);
        assert(v@ =~= src@.subrange(0, i + 1 as int));
        i = i + 1;
    }
    assert(v@ =~= src@);
    v
}

} // verus!
