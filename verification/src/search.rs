//! Contiguous-subsequence matching, the core of the marker matcher: a pure
//! test whether a needle occurs anywhere inside a haystack, for byte slices
//! and for strings, with the index of the first occurrence.

use vstd::prelude::*;
use vstd::string::StrSliceExecFns;

verus! {

/// The needle occurs in the haystack starting exactly at position `i`.
pub open spec fn is_match_at<A>(hay: Seq<A>, needle: Seq<A>, i: int) -> bool {
    0 <= i && i + needle.len() <= hay.len() && hay.subrange(i, i + needle.len()) == needle
}

/// The needle occurs contiguously somewhere in the haystack.
pub open spec fn contains_seq<A>(hay: Seq<A>, needle: Seq<A>) -> bool {
    exists|i: int| is_match_at(hay, needle, i)
}

/// Whether the needle occurs in the haystack starting at position `i`.
fn match_at(haystack: &[u8], needle: &[u8], i: usize) -> (r: bool)
    requires
        i + needle@.len() <= haystack@.len(),
    ensures
        r == is_match_at(haystack@, needle@, i as int),
{
    let hlen = haystack.len();
    let n = needle.len();
    let mut j: usize = 0;
    while j < n
        invariant
            n == needle@.len(),
            hlen == haystack@.len(),
            i + n <= hlen,
            j <= n,
            forall|k: int| 0 <= k < j ==> haystack@[i + k] == needle@[k],
        decreases n - j,
    {
        if haystack[i + j] != needle[j] {
            proof {
                assert(haystack@.subrange(i as int, i + needle@.len())[j as int]
                    == haystack@[i + j]);
            }
            return false;
        }
        j += 1;
    }
    proof {
        assert(haystack@.subrange(i as int, i + needle@.len()) =~= needle@);
    }
    true
}

/// Byte-level subsequence search: the position of the first occurrence of
/// `needle` in `haystack`, or `None` when it occurs nowhere.
pub fn find_subsequence(haystack: &[u8], needle: &[u8]) -> (r: Option<usize>)
    ensures
        match r {
            Some(i) => is_match_at(haystack@, needle@, i as int)
                && forall|j: int| 0 <= j < i ==> !is_match_at(haystack@, needle@, j),
            None => !contains_seq(haystack@, needle@),
        },
{
    if needle.len() > haystack.len() {
        return None;
    }
    let bound: usize = haystack.len() - needle.len();
    let mut i: usize = 0;
    while i < bound
        invariant
            bound == haystack@.len() - needle@.len(),
            needle@.len() <= haystack@.len(),
            i <= bound,
            forall|j: int| 0 <= j < i ==> !is_match_at(haystack@, needle@, j),
        decreases bound - i,
    {
        if match_at(haystack, needle, i) {
            return Some(i);
        }
        i += 1;
    }
    if match_at(haystack, needle, bound) {
        return Some(bound);
    }
    None
}

/// Whether the needle occurs in the string's characters starting at `i`.
fn str_match_at(hay: &str, needle: &str, hay_len: usize, needle_len: usize, i: usize) -> (r: bool)
    requires
        hay_len == hay@.len(),
        needle_len == needle@.len(),
        i + needle_len <= hay_len,
    ensures
        r == is_match_at(hay@, needle@, i as int),
{
    let mut j: usize = 0;
    while j < needle_len
        invariant
            hay_len == hay@.len(),
            needle_len == needle@.len(),
            i + needle_len <= hay_len,
            j <= needle_len,
            forall|k: int| 0 <= k < j ==> hay@[i + k] == needle@[k],
        decreases needle_len - j,
    {
        if hay.get_char(i + j) != needle.get_char(j) {
            proof {
                assert(hay@.subrange(i as int, i + needle@.len())[j as int] == hay@[i + j]);
            }
            return false;
        }
        j += 1;
    }
    proof {
        assert(hay@.subrange(i as int, i + needle@.len()) =~= needle@);
    }
    true
}

/// Case-sensitive substring test over the characters of two strings, with no
/// normalization and no anchoring: true exactly when `needle`'s character
/// sequence occurs contiguously in `hay`'s.
pub fn str_contains(hay: &str, needle: &str) -> (r: bool)
    ensures
        r == contains_seq(hay@, needle@),
{
    let hay_len = hay.unicode_len();
    let needle_len = needle.unicode_len();
    if needle_len > hay_len {
        return false;
    }
    let bound: usize = hay_len - needle_len;
    let mut i: usize = 0;
    while i < bound
        invariant
            hay_len == hay@.len(),
            needle_len == needle@.len(),
            bound == hay_len - needle_len,
            i <= bound,
            forall|j: int| 0 <= j < i ==> !is_match_at(hay@, needle@, j),
        decreases bound - i,
    {
        if str_match_at(hay, needle, hay_len, needle_len, i) {
            return true;
        }
        i += 1;
    }
    if str_match_at(hay, needle, hay_len, needle_len, bound) {
        return true;
    }
    proof {
        assert(forall|j: int| is_match_at(hay@, needle@, j) ==> 0 <= j <= bound);
    }
    false
}

} // verus!
