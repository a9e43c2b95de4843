//! Case-insensitive substring matching over character sequences.
//!
//! The store's search treats two characters as equal when they agree after
//! ASCII case folding, which is the folding the backing storage engine applies
//! to its wildcard pattern comparisons.

use vstd::prelude::*;

verus! {

/// Code point of a character after ASCII case folding: an ASCII uppercase
/// letter maps to its lowercase counterpart, every other character to itself.
pub open spec fn fold(c: char) -> u32 {
    if 65 <= c as u32 && c as u32 <= 90 {
        (c as u32 + 32) as u32
    } else {
        c as u32
    }
}

/// The needle occurs in the haystack at offset `k`, comparing characters
/// case-insensitively.
pub open spec fn match_at(hay: Seq<char>, needle: Seq<char>, k: int) -> bool {
    &&& 0 <= k
    &&& k + needle.len() <= hay.len()
    &&& forall|i: int| 0 <= i < needle.len() ==> fold(hay[k + i]) == fold(needle[i])
}

/// The needle occurs somewhere in the haystack, case-insensitively.
/// An empty needle occurs in every haystack.
pub open spec fn contains_ci(hay: Seq<char>, needle: Seq<char>) -> bool {
    exists|k: int| match_at(hay, needle, k)
}

/// An empty needle matches at offset 0 of any haystack.
pub proof fn lemma_empty_needle(hay: Seq<char>)
    ensures
        contains_ci(hay, Seq::<char>::empty()),
{
    assert(match_at(hay, Seq::<char>::empty(), 0));
}

fn fold_char(c: char) -> (u: u32)
    ensures
        u == fold(c),
{
    let v = c as u32;
    if 65 <= v && v <= 90 {
        v + 32
    } else {
        v
    }
}

fn match_at_exec(hay: &str, needle: &str, k: usize, hlen: usize, nlen: usize) -> (r: bool)
    requires
        hlen == hay@.len(),
        nlen == needle@.len(),
        k + nlen <= hlen,
    ensures
        r == match_at(hay@, needle@, k as int),
{
    let mut i: usize = 0;
    while i < nlen
        invariant
            0 <= i <= nlen,
            hlen == hay@.len(),
            nlen == needle@.len(),
            k + nlen <= hlen,
            forall|j: int| 0 <= j < i ==> fold(hay@[k + j]) == fold(needle@[j]),
        decreases nlen - i,
    {
        let hc = hay.get_char(k + i);
        let nc = needle.get_char(i);
        if fold_char(hc) != fold_char(nc) {
            assert(!match_at(hay@, needle@, k as int));
            return false;
        }
        i = i + 1;
    }
    true
}

/// Case-insensitive substring test: does the needle occur in the haystack,
/// comparing characters after ASCII case folding?
pub fn str_contains_ci(hay: &str, needle: &str) -> (r: bool)
    ensures
        r == contains_ci(hay@, needle@),
{
    let hlen = hay.unicode_len();
    let nlen = needle.unicode_len();
    if nlen > hlen {
        assert(forall|k: int| !match_at(hay@, needle@, k));
        return false;
    }
    let mut k: usize = 0;
    while k <= hlen - nlen
        invariant
            hlen == hay@.len(),
            nlen == needle@.len(),
            nlen <= hlen,
            0 <= k <= hlen - nlen + 1,
            forall|j: int| 0 <= j < k ==> !match_at(hay@, needle@, j),
        decreases hlen - nlen - k + 1,
    {
        if match_at_exec(hay, needle, k, hlen, nlen) {
            return true;
        }
        k = k + 1;
    }
    assert(forall|j: int| !match_at(hay@, needle@, j));
    false
}

/// Character-for-character string equality (case-sensitive).
pub fn str_eq(a: &str, b: &str) -> (r: bool)
    ensures
        r == (a@ == b@),
{
    let alen = a.unicode_len();
    let blen = b.unicode_len();
    if alen != blen {
        return false;
    }
    let mut i: usize = 0;
    while i < alen
        invariant
            alen == a@.len(),
            blen == b@.len(),
            alen == blen,
            0 <= i <= alen,
            forall|j: int| 0 <= j < i ==> a@[j] == b@[j],
        decreases alen - i,
    {
        if a.get_char(i) != b.get_char(i) {
            assert(a@[i as int] != b@[i as int]);
            return false;
        }
        i = i + 1;
    }
    proof {
        assert(a@ =~= b@);
    }
    true
}

} // verus!
