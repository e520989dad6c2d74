//! Canonical session identity.
//!
//! The login reply carries the identity either as text (hexadecimal digits,
//! optionally dash-separated) or as two raw 64-bit halves.  Both are
//! normalized here to one canonical pair of halves, with an exact
//! specification of the textual form.

use vstd::prelude::*;
use vstd::string::StrSliceExecFns;

verus! {

/// The canonical identity: the two 64-bit halves of the 128-bit value.
#[derive(Clone, Copy, Debug, PartialEq, Eq, Structural)]
pub struct Uuid {
    pub hi: u64,
    pub lo: u64,
}

/// Whether `c` is a hexadecimal digit (either case).
pub open spec fn is_hex_digit(c: char) -> bool {
    ('0' <= c && c <= '9') || ('a' <= c && c <= 'f') || ('A' <= c && c <= 'F')
}

/// The value of the hexadecimal digit `c`.
pub open spec fn hex_digit_value(c: char) -> int
    recommends
        is_hex_digit(c),
{
    if '0' <= c && c <= '9' {
        (c as u64) - ('0' as u64)
    } else if 'a' <= c && c <= 'f' {
        (c as u64) - ('a' as u64) + 10
    } else {
        (c as u64) - ('A' as u64) + 10
    }
}

/// `s` with every dash removed.
pub open spec fn strip_dashes(s: Seq<char>) -> Seq<char>
    decreases s.len(),
{
    if s.len() == 0 {
        Seq::empty()
    } else {
        strip_dashes(s.drop_last()) + (if s.last() == '-' {
            Seq::empty()
        } else {
            seq![s.last()]
        })
    }
}

/// The value of `s` read as big-endian hexadecimal digits.
pub open spec fn hex_value(s: Seq<char>) -> int
    decreases s.len(),
{
    if s.len() == 0 {
        0
    } else {
        hex_value(s.drop_last()) * 16 + hex_digit_value(s.last())
    }
}

/// Sixteen to the power `n`.
pub open spec fn pow16(n: nat) -> nat
    decreases n,
{
    if n == 0 {
        1nat
    } else {
        16 * pow16((n - 1) as nat)
    }
}

/// Whether every character of `s` is a hexadecimal digit.
pub open spec fn all_hex(s: Seq<char>) -> bool {
    forall|i: int| 0 <= i < s.len() ==> is_hex_digit(#[trigger] s[i])
}

/// Whether `s` is a well-formed textual identity: exactly 32 hexadecimal
/// digits once dashes are removed.
pub open spec fn uuid_text_valid(s: Seq<char>) -> bool {
    let t = strip_dashes(s);
    t.len() == 32 && all_hex(t)
}

/// The canonical identity a well-formed textual identity denotes.
pub open spec fn uuid_of_text(s: Seq<char>) -> Uuid
    recommends
        uuid_text_valid(s),
{
    let t = strip_dashes(s);
    Uuid { hi: hex_value(t.subrange(0, 16)) as u64, lo: hex_value(t.subrange(16, 32)) as u64 }
}

/// A run of hexadecimal digits is bounded by sixteen to its length.
proof fn lemma_hex_value_bound(s: Seq<char>)
    requires
        all_hex(s),
    ensures
        0 <= hex_value(s) < pow16(s.len()),
    decreases s.len(),
{
    if s.len() > 0 {
        assert(all_hex(s.drop_last()));
        lemma_hex_value_bound(s.drop_last());
        assert(hex_digit_value(s.last()) <= 15);
    }
}

/// The value of at most sixteen hexadecimal digits fits in 64 bits.
proof fn lemma_hex_value_fits(s: Seq<char>)
    requires
        all_hex(s),
        s.len() <= 16,
    ensures
        0 <= hex_value(s) < 0x10000000000000000,
    decreases s.len(),
{
    lemma_hex_value_bound(s);
    lemma_pow16_increases(s.len(), 16);
    assert(pow16(16) == 0x10000000000000000) by {
        reveal_with_fuel(pow16, 17);
    }
}

proof fn lemma_pow16_increases(m: nat, n: nat)
    requires
        m <= n,
    ensures
        pow16(m) <= pow16(n),
    decreases n,
{
    if m < n {
        lemma_pow16_increases(m, (n - 1) as nat);
    }
}

/// Read the sixteen hexadecimal digits of `t` from `from` on as a 64-bit
/// big-endian value.
fn parse_hex_half(t: &Vec<char>, from: usize) -> (v: u64)
    requires
        from + 16 <= t@.len(),
        all_hex(t@.subrange(from as int, from + 16)),
    ensures
        v == hex_value(t@.subrange(from as int, from + 16)),
{
    let ghost whole = t@.subrange(from as int, from + 16);
    let total = t.len();
    let mut v: u64 = 0;
    let mut k: usize = 0;
    while k < 16
        invariant
            k <= 16,
            from + 16 <= total,
            total == t@.len(),
            all_hex(whole),
            whole == t@.subrange(from as int, from + 16),
            v == hex_value(whole.subrange(0, k as int)),
        decreases 16 - k,
    {
        let c = t[from + k];
        proof {
            assert(whole[k as int] == t@[from + k]);
            let pre = whole.subrange(0, k as int);
            let ext = whole.subrange(0, k + 1);
            assert(ext.drop_last() =~= pre);
            assert(all_hex(ext));
            lemma_hex_value_fits(ext);
            lemma_hex_value_bound(pre);
            lemma_pow16_increases(pre.len(), 15);
            assert(pow16(15) * 16 == pow16(16)) by {
                reveal_with_fuel(pow16, 17);
            }
            assert(pow16(16) == 0x10000000000000000) by {
                reveal_with_fuel(pow16, 17);
            }
        }
        let d: u64 = if '0' <= c && c <= '9' {
            (c as u64) - ('0' as u64)
        } else if 'a' <= c && c <= 'f' {
            (c as u64) - ('a' as u64) + 10
        } else {
            (c as u64) - ('A' as u64) + 10
        };
        v = v * 16 + d;
        k += 1;
    }
    proof {
        assert(whole.subrange(0, 16) =~= whole);
    }
    v
}

/// Normalize a textual identity: remove dashes, require exactly 32
/// hexadecimal digits, and read the two 64-bit halves.  Returns nothing
/// for any other text.
pub fn parse_uuid(s: &str) -> (r: Option<Uuid>)
    ensures
        r is Some <==> uuid_text_valid(s@),
        r matches Some(u) ==> u == uuid_of_text(s@),
{
    let n = s.unicode_len();
    let mut t: Vec<char> = Vec::new();
    let mut i: usize = 0;
    while i < n
        invariant
            i <= n,
            n == s@.len(),
            t@ == strip_dashes(s@.subrange(0, i as int)),
        decreases n - i,
    {
        let c = s.get_char(i);
        proof {
            let pre = s@.subrange(0, i as int);
            let ext = s@.subrange(0, i + 1);
            assert(ext.drop_last() =~= pre);
            assert(ext.last() == s@[i as int]);
        }
        if c != '-' {
            t.push(c);
        }
        i += 1;
    }
    proof {
        assert(s@.subrange(0, n as int) =~= s@);
    }
    if t.len() != 32 {
        return None;
    }
    let mut k: usize = 0;
    while k < 32
        invariant
            k <= 32,
            t@.len() == 32,
            t@ == strip_dashes(s@),
            forall|j: int| 0 <= j < k ==> is_hex_digit(#[trigger] t@[j]),
        decreases 32 - k,
    {
        let c = t[k];
        let ok = ('0' <= c && c <= '9') || ('a' <= c && c <= 'f') || ('A' <= c && c <= 'F');
        if !ok {
            return None;
        }
        k += 1;
    }
    proof {
        assert(all_hex(t@.subrange(0, 16))) by {
            assert(forall|j: int| 0 <= j < 16 ==> t@.subrange(0, 16)[j] == t@[j]);
        }
        assert(all_hex(t@.subrange(16, 32))) by {
            assert(forall|j: int| 0 <= j < 16 ==> t@.subrange(16, 32)[j] == t@[j + 16]);
        }
        lemma_hex_value_fits(t@.subrange(0, 16));
        lemma_hex_value_fits(t@.subrange(16, 32));
    }
    let hi = parse_hex_half(&t, 0);
    let lo = parse_hex_half(&t, 16);
    Some(Uuid { hi, lo })
}

} // verus!
