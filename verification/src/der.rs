//! A verified well-formedness check for the server's DER-encoded RSA
//! public key.
//!
//! The asymmetric encryption delegate walks the key's ASN.1 structure,
//! takes the first bit string it meets (looking inside sequences), reads a
//! sequence of two integers out of it, and sizes its buffers from the
//! modulus.  On a key whose modulus is too short for the message plus the
//! eleven bytes of PKCS#1 framing, or whose exponent is negative, that
//! arithmetic does not return.  This module states the exact shape and
//! capacity the delegate needs — mirroring its header walk: one-byte tags,
//! short or up-to-eight-byte lengths, contents in bounds — and checks a key
//! against it, so the caller can refuse a hostile key instead of crashing.

use vstd::prelude::*;

verus! {

/// The big-endian value of a run of length bytes.
pub open spec fn be_value(s: Seq<u8>) -> int
    decreases s.len(),
{
    if s.len() == 0 {
        0
    } else {
        be_value(s.drop_last()) * 256 + s.last()
    }
}

/// The content bounds of the length field at `j`, confined to `[j, end)`:
/// a short-form byte below 0x80 is the length itself; a long form carries
/// up to eight length bytes.  Anything else, or content past `end`, is
/// refused.
pub open spec fn length_at(b: Seq<u8>, j: int, end: int) -> Option<(int, int)> {
    if !(0 <= j && j < end && end <= b.len()) {
        Option::None
    } else {
        let l0 = b[j];
        if l0 < 0x80 {
            if j + 1 + l0 <= end {
                Some((j + 1, l0 as int))
            } else {
                Option::None
            }
        } else {
            let lenlen = l0 - 0x80;
            if lenlen > 8 || j + 1 + lenlen > end {
                Option::None
            } else {
                let v = be_value(b.subrange(j + 1, j + 1 + lenlen));
                if 0 <= v && j + 1 + lenlen + v <= end {
                    Some((j + 1 + lenlen, v))
                } else {
                    Option::None
                }
            }
        }
    }
}

/// The header at `i`, confined to `[i, end)`: the tag byte (one-byte tag
/// numbers only), the content start and the content length.
pub open spec fn header_at(b: Seq<u8>, i: int, end: int) -> Option<(u8, int, int)> {
    if !(0 <= i && i < end && end <= b.len()) {
        Option::None
    } else {
        let t = b[i];
        if t % 32 == 31 {
            Option::None
        } else {
            match length_at(b, i + 1, end) {
                Option::None => Option::None,
                Some((cs, cl)) => Some((t, cs, cl)),
            }
        }
    }
}

/// The first bit string of the range `[i, end)` in the delegate's walk
/// order: blocks in sequence, descending into universal sequences.  The
/// outer answer is nothing when a header the walk must read is refused;
/// the inner answer is the bit string's content bounds, or nothing when
/// the range holds none.
pub open spec fn scan_bitstring(b: Seq<u8>, i: int, end: int) -> Option<Option<(int, int)>>
    decreases end - i,
{
    if i >= end {
        Some(Option::None)
    } else {
        match header_at(b, i, end) {
            Option::None => Option::None,
            Some((t, cs, cl)) => if t / 64 == 0 && t % 32 == 3 {
                Some(Some((cs, cl)))
            } else if t / 64 == 0 && t % 32 == 16 {
                match scan_bitstring(b, cs, cs + cl) {
                    Option::None => Option::None,
                    Some(Some(r)) => Some(Some(r)),
                    Some(Option::None) => scan_bitstring(b, cs + cl, end),
                }
            } else {
                scan_bitstring(b, cs + cl, end)
            },
        }
    }
}

/// The modulus and exponent contents of a key of the accepted shape: the
/// first bit string wraps exactly one sequence of exactly two integers.
pub open spec fn rsa_integers(key: Seq<u8>) -> Option<(Seq<u8>, Seq<u8>)> {
    match scan_bitstring(key, 0, key.len() as int) {
        Some(Some((cs, cl))) => if cl >= 2 {
            let bits = key.subrange(cs + 1, cs + cl);
            match header_at(bits, 0, bits.len() as int) {
                Some((t0, s_cs, s_cl)) => if t0 == 0x30 && s_cs + s_cl == bits.len() {
                    match header_at(bits, s_cs, s_cs + s_cl) {
                        Some((t1, n_cs, n_cl)) => if t1 == 0x02 {
                            match header_at(bits, n_cs + n_cl, s_cs + s_cl) {
                                Some((t2, e_cs, e_cl)) => if t2 == 0x02 && e_cs + e_cl == s_cs
                                    + s_cl {
                                    Some(
                                        (
                                            bits.subrange(n_cs, n_cs + n_cl),
                                            bits.subrange(e_cs, e_cs + e_cl),
                                        ),
                                    )
                                } else {
                                    Option::None
                                },
                                Option::None => Option::None,
                            }
                        } else {
                            Option::None
                        },
                        Option::None => Option::None,
                    }
                } else {
                    Option::None
                },
                Option::None => Option::None,
            }
        } else {
            Option::None
        },
        _ => Option::None,
    }
}

/// The bit length of one byte.
pub open spec fn byte_bits(x: u8) -> int {
    if x >= 128 {
        8
    } else if x >= 64 {
        7
    } else if x >= 32 {
        6
    } else if x >= 16 {
        5
    } else if x >= 8 {
        4
    } else if x >= 4 {
        3
    } else if x >= 2 {
        2
    } else if x >= 1 {
        1
    } else {
        0
    }
}

/// The bit length of a big-endian non-negative integer content.
pub open spec fn modulus_bits(content: Seq<u8>) -> int
    decreases content.len(),
{
    if content.len() == 0 {
        0
    } else if content[0] == 0 {
        modulus_bits(content.subrange(1, content.len() as int))
    } else {
        8 * (content.len() - 1) + byte_bits(content[0])
    }
}

/// Whether the key has the accepted shape, both integers are non-negative,
/// and the modulus leaves room for a message of `msg_len` bytes plus the
/// eleven bytes of PKCS#1 framing.  This is what the encryption delegate
/// needs to return instead of crashing.
pub open spec fn rsa_key_fits(key: Seq<u8>, msg_len: int) -> bool {
    match rsa_integers(key) {
        Some((nc, ec)) => (nc.len() == 0 || nc[0] < 0x80) && (ec.len() == 0 || ec[0] < 0x80)
            && msg_len + 11 <= modulus_bits(nc) / 8,
        Option::None => false,
    }
}

/// Two hundred fifty-six to the power `n`.
pub open spec fn pow256(n: nat) -> nat
    decreases n,
{
    if n == 0 {
        1nat
    } else {
        256 * pow256((n - 1) as nat)
    }
}

/// A run of length bytes is bounded by two hundred fifty-six to its length.
proof fn lemma_be_value_bound(s: Seq<u8>)
    ensures
        0 <= be_value(s) < pow256(s.len()),
    decreases s.len(),
{
    if s.len() > 0 {
        lemma_be_value_bound(s.drop_last());
    }
}

proof fn lemma_pow256_increases(m: nat, n: nat)
    requires
        m <= n,
    ensures
        pow256(m) <= pow256(n),
    decreases n,
{
    if m < n {
        lemma_pow256_increases(m, (n - 1) as nat);
    }
}

/// Read `lenlen` length bytes at `j` as a big-endian value.
fn be_value_exec(b: &Vec<u8>, j: usize, lenlen: usize) -> (v: u64)
    requires
        j + lenlen <= b@.len(),
        lenlen <= 8,
    ensures
        v == be_value(b@.subrange(j as int, (j + lenlen) as int)),
{
    let total = b.len();
    let mut v: u64 = 0;
    let mut k: usize = 0;
    while k < lenlen
        invariant
            k <= lenlen <= 8,
            j + lenlen <= total,
            total == b@.len(),
            v == be_value(b@.subrange(j as int, (j + k) as int)),
        decreases lenlen - k,
    {
        proof {
            let pre = b@.subrange(j as int, (j + k) as int);
            let ext = b@.subrange(j as int, j + k + 1);
            assert(ext.drop_last() =~= pre);
            assert(ext.last() == b@[j + k]);
            lemma_be_value_bound(pre);
            lemma_pow256_increases(pre.len(), 7);
            assert(pow256(7) * 256 == pow256(8)) by {
                reveal_with_fuel(pow256, 9);
            }
            assert(pow256(8) == 0x10000000000000000) by {
                reveal_with_fuel(pow256, 9);
            }
        }
        v = v * 256 + (b[j + k] as u64);
        k += 1;
    }
    v
}

/// The header at `i`, confined to `[i, end)`, exactly as [`header_at`]
/// states it.
fn header_exec(b: &Vec<u8>, i: usize, end: usize) -> (r: Option<(u8, usize, usize)>)
    requires
        end <= b@.len(),
    ensures
        match r {
            Some((t, cs, cl)) => header_at(b@, i as int, end as int) == Some(
                (t, cs as int, cl as int),
            ),
            Option::None => header_at(b@, i as int, end as int) is None,
        },
{
    if i >= end {
        return Option::None;
    }
    let t = b[i];
    if t % 32 == 31 {
        return Option::None;
    }
    let j = i + 1;
    if j >= end {
        return Option::None;
    }
    let l0 = b[j];
    if l0 < 0x80 {
        let cl = l0 as usize;
        if end - (j + 1) >= cl {
            Some((t, j + 1, cl))
        } else {
            Option::None
        }
    } else {
        let lenlen = (l0 - 0x80) as usize;
        if lenlen > 8 {
            return Option::None;
        }
        if end - (j + 1) < lenlen {
            return Option::None;
        }
        let v = be_value_exec(b, j + 1, lenlen);
        let rem = (end - (j + 1 + lenlen)) as u64;
        if v <= rem {
            Some((t, j + 1 + lenlen, v as usize))
        } else {
            Option::None
        }
    }
}

/// A parsed header's content lies past the two header bytes and within the
/// range it was read from.
proof fn lemma_header_bounds(b: Seq<u8>, i: int, end: int, t: u8, cs: int, cl: int)
    requires
        header_at(b, i, end) == Some((t, cs, cl)),
    ensures
        i + 2 <= cs,
        cs + cl <= end,
        0 <= cl,
{
}

/// A found bit string's content lies within the range that was scanned.
proof fn lemma_scan_bounds(b: Seq<u8>, i: int, end: int, cs: int, cl: int)
    requires
        0 <= i,
        scan_bitstring(b, i, end) == Some(Some((cs, cl))),
    ensures
        0 <= cs,
        cs + cl <= end,
        0 <= cl,
    decreases end - i,
{
    match header_at(b, i, end) {
        Some((t, hcs, hcl)) => {
            lemma_header_bounds(b, i, end, t, hcs, hcl);
            if t / 64 == 0 && t % 32 == 3 {
            } else if t / 64 == 0 && t % 32 == 16 {
                if scan_bitstring(b, hcs, hcs + hcl) matches Some(Some(r)) {
                    lemma_scan_bounds(b, hcs, hcs + hcl, cs, cl);
                } else {
                    lemma_scan_bounds(b, hcs + hcl, end, cs, cl);
                }
            } else {
                lemma_scan_bounds(b, hcs + hcl, end, cs, cl);
            }
        },
        Option::None => {},
    }
}

/// The exec scan answer lifted to the spec type.
pub open spec fn lift_scan(r: Option<Option<(usize, usize)>>) -> Option<Option<(int, int)>> {
    match r {
        Option::None => Option::None,
        Some(Option::None) => Some(Option::None),
        Some(Some((cs, cl))) => Some(Some((cs as int, cl as int))),
    }
}

/// The first bit string of `[i, end)` in the delegate's walk order,
/// exactly as [`scan_bitstring`] states it.
fn scan_exec(b: &Vec<u8>, i: usize, end: usize) -> (r: Option<Option<(usize, usize)>>)
    requires
        end <= b@.len(),
    ensures
        scan_bitstring(b@, i as int, end as int) == lift_scan(r),
    decreases end - i,
{
    if i >= end {
        return Some(Option::None);
    }
    match header_exec(b, i, end) {
        Option::None => Option::None,
        Some((t, cs, cl)) => {
            proof {
                lemma_header_bounds(b@, i as int, end as int, t, cs as int, cl as int);
            }
            if t / 64 == 0 && t % 32 == 3 {
                Some(Some((cs, cl)))
            } else if t / 64 == 0 && t % 32 == 16 {
                match scan_exec(b, cs, cs + cl) {
                    Option::None => Option::None,
                    Some(Some(rr)) => Some(Some(rr)),
                    Some(Option::None) => scan_exec(b, cs + cl, end),
                }
            } else {
                scan_exec(b, cs + cl, end)
            }
        },
    }
}

/// A fresh copy of the bytes in `[from, to)`.
fn copy_range(v: &Vec<u8>, from: usize, to: usize) -> (r: Vec<u8>)
    requires
        from <= to <= v@.len(),
    ensures
        r@ == v@.subrange(from as int, to as int),
{
    let mut r: Vec<u8> = Vec::new();
    let mut i: usize = from;
    while i < to
        invariant
            from <= i <= to <= v@.len(),
            r@ == v@.subrange(from as int, i as int),
        decreases to - i,
    {
        r.push(v[i]);
        proof {
            assert(r@ =~= v@.subrange(from as int, i + 1));
        }
        i += 1;
    }
    r
}

/// The bit length of one byte.
fn byte_bits_exec(x: u8) -> (r: u8)
    ensures
        r == byte_bits(x),
{
    if x >= 128 {
        8
    } else if x >= 64 {
        7
    } else if x >= 32 {
        6
    } else if x >= 16 {
        5
    } else if x >= 8 {
        4
    } else if x >= 4 {
        3
    } else if x >= 2 {
        2
    } else if x >= 1 {
        1
    } else {
        0
    }
}

/// The bit length of a big-endian non-negative integer content.
fn modulus_bits_exec(nc: &Vec<u8>) -> (bits: u128)
    ensures
        bits == modulus_bits(nc@),
{
    let n = nc.len();
    proof {
        assert(nc@.subrange(0, n as int) =~= nc@);
    }
    let mut p: usize = 0;
    while p < n
        invariant
            p <= n,
            n == nc@.len(),
            modulus_bits(nc@) == modulus_bits(nc@.subrange(p as int, n as int)),
        decreases n - p,
    {
        if nc[p] != 0 {
            let top = byte_bits_exec(nc[p]);
            proof {
                assert(nc@.subrange(p as int, n as int)[0] == nc@[p as int]);
            }
            return 8 * ((n - p - 1) as u128) + (top as u128);
        }
        proof {
            let cur = nc@.subrange(p as int, n as int);
            assert(cur[0] == nc@[p as int]);
            assert(cur.subrange(1, cur.len() as int) =~= nc@.subrange(p + 1, n as int));
        }
        p += 1;
    }
    0
}

/// Whether the delegate accepts the key for a message of `message_len`
/// bytes: the exact check of [`rsa_key_fits`], run before any encryption
/// call so a hostile key is refused instead of crashing the session.
pub fn rsa_key_accepts(key: &Vec<u8>, message_len: usize) -> (ok: bool)
    ensures
        ok == rsa_key_fits(key@, message_len as int),
{
    let end = key.len();
    let (cs, cl) = match scan_exec(key, 0, end) {
        Some(Some(r)) => r,
        _ => {
            return false;
        },
    };
    if cl < 2 {
        return false;
    }
    proof {
        lemma_scan_bounds(key@, 0, end as int, cs as int, cl as int);
    }
    let bits = copy_range(key, cs + 1, cs + cl);
    let blen = bits.len();
    let (t0, s_cs, s_cl) = match header_exec(&bits, 0, blen) {
        Some(h) => h,
        Option::None => {
            return false;
        },
    };
    if !(t0 == 0x30 && s_cs + s_cl == blen) {
        return false;
    }
    let (t1, n_cs, n_cl) = match header_exec(&bits, s_cs, s_cs + s_cl) {
        Some(h) => h,
        Option::None => {
            return false;
        },
    };
    if t1 != 0x02 {
        return false;
    }
    proof {
        lemma_header_bounds(bits@, s_cs as int, (s_cs + s_cl) as int, t1, n_cs as int, n_cl as int);
    }
    let (t2, e_cs, e_cl) = match header_exec(&bits, n_cs + n_cl, s_cs + s_cl) {
        Some(h) => h,
        Option::None => {
            return false;
        },
    };
    if !(t2 == 0x02 && e_cs + e_cl == s_cs + s_cl) {
        return false;
    }
    proof {
        lemma_header_bounds(
            bits@,
            (n_cs + n_cl) as int,
            (s_cs + s_cl) as int,
            t2,
            e_cs as int,
            e_cl as int,
        );
    }
    let nc = copy_range(&bits, n_cs, n_cs + n_cl);
    let ec = copy_range(&bits, e_cs, e_cs + e_cl);
    if nc.len() > 0 && nc[0] >= 0x80 {
        return false;
    }
    if ec.len() > 0 && ec[0] >= 0x80 {
        return false;
    }
    let bits_n = modulus_bits_exec(&nc);
    (message_len as u128) + 11 <= bits_n / 8
}

} // verus!
