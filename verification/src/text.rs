//! Character-level text helpers.
//!
//! Chat filtering and channel matching compare and search text by its
//! character sequence; these helpers carry exact contracts over `Seq<char>`.

use vstd::prelude::*;
use vstd::string::StrSliceExecFns;

verus! {

/// `needle` occurs in `hay` starting at position `i`.
pub open spec fn occurs_at(hay: Seq<char>, needle: Seq<char>, i: int) -> bool {
    0 <= i && i + needle.len() <= hay.len() && hay.subrange(
        i,
        i + needle.len(),
    ) == needle
}

/// `needle` occurs somewhere in `hay`.
pub open spec fn occurs_in(hay: Seq<char>, needle: Seq<char>) -> bool {
    exists|i: int| occurs_at(hay, needle, i)
}

/// Character-for-character string equality.
pub fn str_eq(a: &str, b: &str) -> (r: bool)
    ensures
        r == (a@ == b@),
{
    let an = a.unicode_len();
    let bn = b.unicode_len();
    if an != bn {
        return false;
    }
    let mut k: usize = 0;
    while k < an
        invariant
            k <= an,
            an == a@.len(),
            an == b@.len(),
            forall|t: int| 0 <= t < k ==> a@[t] == b@[t],
        decreases an - k,
    {
        if a.get_char(k) != b.get_char(k) {
            return false;
        }
        k += 1;
    }
    proof {
        assert(a@ =~= b@);
    }
    true
}

/// `needle` occurs in `hay` starting exactly at position `i`.
fn occurs_at_exec(hay: &str, needle: &str, i: usize) -> (r: bool)
    requires
        i + needle@.len() <= hay@.len(),
    ensures
        r == occurs_at(hay@, needle@, i as int),
{
    let hn = hay.unicode_len();
    let nn = needle.unicode_len();
    let mut k: usize = 0;
    while k < nn
        invariant
            k <= nn,
            nn == needle@.len(),
            hn == hay@.len(),
            i + nn <= hn,
            forall|t: int| 0 <= t < k ==> hay@[i + t] == needle@[t],
        decreases nn - k,
    {
        if hay.get_char(i + k) != needle.get_char(k) {
            proof {
                let sub = hay@.subrange(i as int, i + nn);
                assert(sub[k as int] == hay@[i + k]);
                assert(sub != needle@);
            }
            return false;
        }
        k += 1;
    }
    proof {
        assert(hay@.subrange(i as int, i + nn) =~= needle@);
    }
    true
}

/// Substring search: whether `needle` occurs anywhere in `hay`.
pub fn contains_sub(hay: &str, needle: &str) -> (r: bool)
    ensures
        r == occurs_in(hay@, needle@),
{
    let hn = hay.unicode_len();
    let nn = needle.unicode_len();
    if nn > hn {
        return false;
    }
    if nn == 0 {
        proof {
            assert(hay@.subrange(0, 0) =~= needle@);
            assert(occurs_at(hay@, needle@, 0));
        }
        return true;
    }
    let mut i: usize = 0;
    while i <= hn - nn
        invariant
            0 < nn <= hn,
            hn == hay@.len(),
            nn == needle@.len(),
            i <= hn - nn + 1,
            forall|t: int| 0 <= t < i ==> !occurs_at(hay@, needle@, t),
        decreases hn - nn + 1 - i,
    {
        if occurs_at_exec(hay, needle, i) {
            return true;
        }
        i += 1;
    }
    false
}

} // verus!
