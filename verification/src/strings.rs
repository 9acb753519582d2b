//! Verified helpers for the string tests the platform model relies on:
//! equality, prefix and substring matching over character sequences.

use vstd::prelude::*;
use vstd::string::StrSliceExecFns;

verus! {

/// `needle` occurs in `hay` starting at position `at`.
pub open spec fn matches_at(hay: Seq<char>, needle: Seq<char>, at: int) -> bool {
    &&& 0 <= at
    &&& at + needle.len() <= hay.len()
    &&& forall|i: int| 0 <= i < needle.len() ==> hay[at + i] == needle[i]
}

/// `needle` occurs somewhere in `hay` (contiguously).
pub open spec fn contains_seq(hay: Seq<char>, needle: Seq<char>) -> bool {
    exists|at: int| matches_at(hay, needle, at)
}

/// `hay` begins with `needle`.
pub open spec fn starts_with_seq(hay: Seq<char>, needle: Seq<char>) -> bool {
    matches_at(hay, needle, 0)
}

/// Character-for-character equality of two string slices.
pub fn str_eq(a: &str, b: &str) -> (r: bool)
    ensures
        r == (a@ == b@),
{
    let alen = a.unicode_len();
    let blen = b.unicode_len();
    if alen != blen {
        assert(a@ != b@) by {
            assert(a@.len() != b@.len());
        }
        return false;
    }
    let mut i: usize = 0;
    while i < alen
        invariant
            alen == a@.len(),
            alen == b@.len(),
            0 <= i <= alen,
            forall|j: int| 0 <= j < i ==> a@[j] == b@[j],
        decreases alen - i,
    {
        if a.get_char(i) != b.get_char(i) {
            assert(a@ != b@);
            return false;
        }
        i = i + 1;
    }
    assert(a@ =~= b@);
    true
}

/// True iff `hay` starts with `needle`, measured in characters.
pub fn str_starts_with(hay: &str, needle: &str) -> (r: bool)
    ensures
        r == starts_with_seq(hay@, needle@),
{
    let hlen = hay.unicode_len();
    let nlen = needle.unicode_len();
    if nlen > hlen {
        return false;
    }
    let mut i: usize = 0;
    while i < nlen
        invariant
            hlen == hay@.len(),
            nlen == needle@.len(),
            nlen <= hlen,
            0 <= i <= nlen,
            forall|j: int| 0 <= j < i ==> hay@[j] == needle@[j],
        decreases nlen - i,
    {
        if hay.get_char(i) != needle.get_char(i) {
            assert(!starts_with_seq(hay@, needle@));
            return false;
        }
        i = i + 1;
    }
    true
}

/// True iff `needle` occurs contiguously anywhere in `hay`.
pub fn str_contains(hay: &str, needle: &str) -> (r: bool)
    ensures
        r == contains_seq(hay@, needle@),
{
    let hlen = hay.unicode_len();
    let nlen = needle.unicode_len();
    if nlen > hlen {
        return false;
    }
    let mut at: usize = 0;
    while at <= hlen - nlen
        invariant
            hlen == hay@.len(),
            nlen == needle@.len(),
            nlen <= hlen,
            0 <= at <= hlen - nlen + 1,
            forall|k: int| 0 <= k < at ==> !matches_at(hay@, needle@, k),
        decreases hlen - nlen - at + 1,
    {
        let mut i: usize = 0;
        let mut hit = true;
        while i < nlen
            invariant
                hlen == hay@.len(),
                nlen == needle@.len(),
                0 <= at <= hlen - nlen,
                0 <= i <= nlen,
                hit ==> forall|j: int| 0 <= j < i ==> hay@[at + j] == needle@[j],
                !hit ==> !matches_at(hay@, needle@, at as int),
            decreases nlen - i,
        {
            if hay.get_char(at + i) != needle.get_char(i) {
                assert(!matches_at(hay@, needle@, at as int));
                hit = false;
                i = nlen;
            } else {
                i = i + 1;
            }
        }
        if hit {
            assert(matches_at(hay@, needle@, at as int));
            return true;
        }
        at = at + 1;
    }
    assert(forall|k: int| matches_at(hay@, needle@, k) ==> 0 <= k <= hlen - nlen);
    false
}

} // verus!
