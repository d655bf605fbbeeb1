//! The fixed binary serialization shared with the host.
//!
//! Fixed-width integers travel as their little-endian bytes, a 32-byte
//! account identifier as its bytes with no prefix, and a byte sequence as a
//! compact-encoded length followed by the bytes themselves. The compact
//! length has four modes, told apart by the two low bits of the first byte;
//! each length has exactly one well-formed encoding, and the decoders here
//! reject every other shape.

use vstd::arithmetic::div_mod::{
    lemma_fundamental_div_mod, lemma_fundamental_div_mod_converse, lemma_mod_multiples_vanish,
};
use vstd::arithmetic::power::{lemma_pow_increases, pow};
use vstd::prelude::*;

use crate::types::AccountId;

verus! {

/// The `n` little-endian bytes of `x` (the low byte first).
pub open spec fn le_bytes(x: nat, n: nat) -> Seq<u8>
    decreases n,
{
    if n == 0 {
        Seq::empty()
    } else {
        seq![(x % 256) as u8] + le_bytes(x / 256, (n - 1) as nat)
    }
}

/// The number whose little-endian bytes are `s`.
pub open spec fn from_le(s: Seq<u8>) -> nat
    decreases s.len(),
{
    if s.len() == 0 {
        0
    } else {
        s[0] as nat + 256 * from_le(s.subrange(1, s.len() as int))
    }
}

/// How a 32-bit value crosses the boundary: four little-endian bytes.
pub open spec fn u32_le(x: u32) -> Seq<u8> {
    le_bytes(x as nat, 4)
}

/// How a balance crosses the boundary: sixteen little-endian bytes.
pub open spec fn u128_le(x: u128) -> Seq<u8> {
    le_bytes(x as nat, 16)
}

/// The compact encoding of a length `n < 2^32`: the two low bits of the
/// first byte select single-byte (`n < 2^6`), two-byte (`n < 2^14`),
/// four-byte (`n < 2^30`) or big-integer mode, and the remaining bits
/// carry the value.
pub open spec fn compact_len_bytes(n: nat) -> Seq<u8>
    recommends
        n < 0x1_0000_0000,
{
    if n < 64 {
        seq![(n * 4) as u8]
    } else if n < 16384 {
        le_bytes(n * 4 + 1, 2)
    } else if n < 0x4000_0000 {
        le_bytes(n * 4 + 2, 4)
    } else {
        seq![3u8] + le_bytes(n, 4)
    }
}

/// How a byte sequence crosses the boundary: its compact-encoded length,
/// then its bytes.
pub open spec fn scale_bytes(v: Seq<u8>) -> Seq<u8> {
    compact_len_bytes(v.len() as nat) + v
}

/// Reads a compact-encoded length from the front of `p`: the length and
/// how many bytes its encoding took, or nothing if no well-formed compact
/// length starts `p`. Each mode insists on the value range that forces a
/// unique encoding per length.
pub open spec fn parse_compact_len(p: Seq<u8>) -> Option<(nat, nat)> {
    if p.len() == 0 {
        None
    } else {
        let b0: nat = p[0] as nat;
        if b0 % 4 == 0 {
            Some((b0 / 4, 1))
        } else if b0 % 4 == 1 {
            if p.len() < 2 {
                None
            } else {
                let x: nat = from_le(p.subrange(0, 2)) / 4;
                if 64 <= x < 16384 {
                    Some((x, 2))
                } else {
                    None
                }
            }
        } else if b0 % 4 == 2 {
            if p.len() < 4 {
                None
            } else {
                let x: nat = from_le(p.subrange(0, 4)) / 4;
                if 16384 <= x < 0x4000_0000 {
                    Some((x, 4))
                } else {
                    None
                }
            }
        } else {
            if b0 != 3 || p.len() < 5 {
                None
            } else {
                let x: nat = from_le(p.subrange(1, 5));
                if x >= 0x4000_0000 {
                    Some((x, 5))
                } else {
                    None
                }
            }
        }
    }
}

/// Reads a whole byte-sequence payload: a compact length, then exactly
/// that many bytes and nothing more.
pub open spec fn parse_scale_bytes(p: Seq<u8>) -> Option<Seq<u8>> {
    match parse_compact_len(p) {
        None => None,
        Some((n, c)) => if p.len() - c == n {
            Some(p.subrange(c as int, p.len() as int))
        } else {
            None
        },
    }
}

pub proof fn lemma_le_bytes_len(x: nat, n: nat)
    ensures
        le_bytes(x, n).len() == n,
    decreases n,
{
    if n > 0 {
        lemma_le_bytes_len(x / 256, (n - 1) as nat);
    }
}

pub proof fn lemma_from_le_bound(s: Seq<u8>)
    ensures
        from_le(s) < pow(256, s.len() as nat),
    decreases s.len(),
{
    reveal(pow);
    if s.len() == 0 {
        assert(pow(256, 0) == 1);
    } else {
        let tail = s.subrange(1, s.len() as int);
        lemma_from_le_bound(tail);
        let r = from_le(tail);
        let p = pow(256, tail.len() as nat);
        assert(pow(256, s.len() as nat) == 256 * p);
        assert(s[0] as nat + 256 * r < 256 * p) by (nonlinear_arith)
            requires
                r < p,
                (s[0] as nat) < 256,
        ;
    }
}

/// Decoding after encoding gives the value back.
pub proof fn lemma_from_le_le_bytes(x: nat, n: nat)
    requires
        x < pow(256, n),
    ensures
        from_le(le_bytes(x, n)) == x,
    decreases n,
{
    reveal(pow);
    if n == 0 {
        assert(pow(256, 0) == 1);
    } else {
        let p = pow(256, (n - 1) as nat);
        assert(pow(256, n) == 256 * p);
        assert(x / 256 < p) by (nonlinear_arith)
            requires
                x < 256 * p,
                0 <= x,
                0 < p,
        ;
        lemma_from_le_le_bytes(x / 256, (n - 1) as nat);
        let s = le_bytes(x, n);
        assert(s.subrange(1, s.len() as int) =~= le_bytes(x / 256, (n - 1) as nat)) by {
            lemma_le_bytes_len(x / 256, (n - 1) as nat);
        }
        lemma_fundamental_div_mod(x as int, 256);
    }
}

/// Encoding after decoding gives the bytes back.
pub proof fn lemma_le_bytes_from_le(s: Seq<u8>)
    ensures
        le_bytes(from_le(s), s.len() as nat) == s,
    decreases s.len(),
{
    if s.len() > 0 {
        let tail = s.subrange(1, s.len() as int);
        lemma_le_bytes_from_le(tail);
        let v = from_le(s);
        assert(v == s[0] as nat + 256 * from_le(tail));
        lemma_fundamental_div_mod_converse(v as int, 256, from_le(tail) as int, s[0] as int);
        assert(le_bytes(v, s.len() as nat) =~= s);
    }
}

/// The first byte of a nonempty sequence is the value's low byte, and the
/// rest of the bytes carry the value divided by 256.
proof fn lemma_from_le_parts(s: Seq<u8>)
    requires
        s.len() >= 1,
    ensures
        from_le(s) % 256 == s[0] as nat,
        from_le(s) / 256 == from_le(s.subrange(1, s.len() as int)),
{
    let r = from_le(s.subrange(1, s.len() as int));
    lemma_fundamental_div_mod_converse(from_le(s) as int, 256, r as int, s[0] as int);
}

/// The low two bits survive reduction modulo 256.
proof fn lemma_mod256_mod4(m: nat)
    ensures
        (m % 256) % 4 == m % 4,
{
    lemma_fundamental_div_mod(m as int, 256);
    let q = m as int / 256;
    assert(m as int == 4 * (64 * q) + (m as int % 256));
    lemma_mod_multiples_vanish(64 * q, m as int % 256, 4);
}

/// `(4n + j) % 4 == j` and `(4n + j) / 4 == n` for `j < 4`.
proof fn lemma_div4_parts(n: nat, j: nat)
    requires
        j < 4,
    ensures
        (4 * n + j) % 4 == j,
        (4 * n + j) / 4 == n,
{
    lemma_fundamental_div_mod_converse((4 * n + j) as int, 4, n as int, j as int);
}

proof fn lemma_pow256_table()
    ensures
        pow(256, 0) == 1,
        pow(256, 1) == 0x100,
        pow(256, 2) == 0x1_0000,
        pow(256, 4) == 0x1_0000_0000,
        pow(256, 15) == 0x100_0000_0000_0000_0000_0000_0000_0000,
        pow(256, 16) == 0x1_0000_0000_0000_0000_0000_0000_0000_0000,
{
    reveal(pow);
    assert(pow(256, 0) == 1);
    assert(pow(256, 1) == 0x100);
    assert(pow(256, 2) == 0x1_0000);
    assert(pow(256, 3) == 0x100_0000);
    assert(pow(256, 4) == 0x1_0000_0000);
    assert(pow(256, 5) == 0x100_0000_0000);
    assert(pow(256, 6) == 0x1_0000_0000_0000);
    assert(pow(256, 7) == 0x100_0000_0000_0000);
    assert(pow(256, 8) == 0x1_0000_0000_0000_0000);
    assert(pow(256, 9) == 0x100_0000_0000_0000_0000);
    assert(pow(256, 10) == 0x1_0000_0000_0000_0000_0000);
    assert(pow(256, 11) == 0x100_0000_0000_0000_0000_0000);
    assert(pow(256, 12) == 0x1_0000_0000_0000_0000_0000_0000);
    assert(pow(256, 13) == 0x100_0000_0000_0000_0000_0000_0000);
    assert(pow(256, 14) == 0x1_0000_0000_0000_0000_0000_0000_0000);
    assert(pow(256, 15) == 0x100_0000_0000_0000_0000_0000_0000_0000);
    assert(pow(256, 16) == 0x1_0000_0000_0000_0000_0000_0000_0000_0000);
}

/// A well-formed compact length at the front of a sequence parses back to
/// the length it encodes, whatever follows it.
proof fn lemma_parse_compact_of_encoding(n: nat, rest: Seq<u8>)
    requires
        n < 0x1_0000_0000,
    ensures
        parse_compact_len(compact_len_bytes(n) + rest) == Some(
            (n, compact_len_bytes(n).len() as nat),
        ),
{
    lemma_pow256_table();
    let p = compact_len_bytes(n) + rest;
    if n < 64 {
        lemma_div4_parts(n, 0);
        assert(p[0] == (n * 4) as u8);
    } else if n < 16384 {
        let m = 4 * n + 1;
        lemma_le_bytes_len(m, 2);
        assert(p.subrange(0, 2) =~= le_bytes(m, 2));
        lemma_from_le_le_bytes(m, 2);
        assert(p[0] == le_bytes(m, 2)[0]);
        assert(p[0] as nat == m % 256);
        lemma_mod256_mod4(m);
        lemma_div4_parts(n, 1);
    } else if n < 0x4000_0000 {
        let m = 4 * n + 2;
        lemma_le_bytes_len(m, 4);
        assert(p.subrange(0, 4) =~= le_bytes(m, 4));
        lemma_from_le_le_bytes(m, 4);
        assert(p[0] as nat == m % 256);
        lemma_mod256_mod4(m);
        lemma_div4_parts(n, 2);
    } else {
        lemma_le_bytes_len(n, 4);
        assert(p[0] == 3u8);
        assert(p.subrange(1, 5) =~= le_bytes(n, 4));
        lemma_from_le_le_bytes(n, 4);
    }
}

/// What a compact-length parse accepts is exactly the well-formed encoding
/// of the length it returns.
proof fn lemma_parse_compact_sound(p: Seq<u8>, n: nat, c: nat)
    requires
        parse_compact_len(p) == Some((n, c)),
    ensures
        c <= p.len(),
        n < 0x1_0000_0000,
        compact_len_bytes(n) == p.subrange(0, c as int),
        compact_len_bytes(n).len() == c,
{
    lemma_pow256_table();
    let b0: nat = p[0] as nat;
    if b0 % 4 == 0 {
        lemma_fundamental_div_mod(b0 as int, 4);
        assert(n == b0 / 4 && n < 64);
        assert(compact_len_bytes(n) =~= p.subrange(0, 1));
    } else if b0 % 4 == 1 {
        let s = p.subrange(0, 2);
        let m = from_le(s);
        lemma_from_le_bound(s);
        lemma_from_le_parts(s);
        lemma_mod256_mod4(m);
        assert(m % 4 == 1);
        lemma_fundamental_div_mod(m as int, 4);
        assert(m == 4 * n + 1);
        lemma_le_bytes_from_le(s);
        assert(compact_len_bytes(n) == s);
        lemma_le_bytes_len(m, 2);
    } else if b0 % 4 == 2 {
        let s = p.subrange(0, 4);
        let m = from_le(s);
        lemma_from_le_bound(s);
        lemma_from_le_parts(s);
        lemma_mod256_mod4(m);
        assert(m % 4 == 2);
        lemma_fundamental_div_mod(m as int, 4);
        assert(m == 4 * n + 2);
        lemma_le_bytes_from_le(s);
        assert(compact_len_bytes(n) == s);
        lemma_le_bytes_len(m, 4);
    } else {
        let s = p.subrange(1, 5);
        lemma_from_le_bound(s);
        lemma_le_bytes_from_le(s);
        assert(compact_len_bytes(n) =~= seq![3u8] + s);
        assert(compact_len_bytes(n) =~= p.subrange(0, 5));
        lemma_le_bytes_len(n, 4);
    }
}

/// Round trip: every byte sequence short enough for a compact length is
/// reproduced exactly by parsing its own encoding.
pub proof fn lemma_scale_bytes_round_trip(v: Seq<u8>)
    requires
        v.len() < 0x1_0000_0000,
    ensures
        parse_scale_bytes(scale_bytes(v)) == Some(v),
{
    let p = scale_bytes(v);
    lemma_parse_compact_of_encoding(v.len() as nat, v);
    let c = compact_len_bytes(v.len() as nat).len();
    assert(p.subrange(c as int, p.len() as int) =~= v);
}

/// A parse that succeeds saw exactly one well-formed payload: the bytes
/// were the encoding of the sequence returned, and nothing else.
pub proof fn lemma_parse_scale_bytes_sound(p: Seq<u8>, v: Seq<u8>)
    requires
        parse_scale_bytes(p) == Some(v),
    ensures
        p == scale_bytes(v),
        v.len() < 0x1_0000_0000,
{
    let (n, c) = parse_compact_len(p).unwrap();
    lemma_parse_compact_sound(p, n, c);
    assert(v.len() == n);
    assert(p =~= p.subrange(0, c as int) + p.subrange(c as int, p.len() as int));
}

/// Round trip: a 32-bit value comes back unchanged from its four bytes.
pub proof fn lemma_u32_le_round_trip(x: u32)
    ensures
        from_le(u32_le(x)) == x,
        u32_le(x).len() == 4,
{
    lemma_pow256_table();
    lemma_from_le_le_bytes(x as nat, 4);
    lemma_le_bytes_len(x as nat, 4);
}

/// Round trip: a balance comes back unchanged from its sixteen bytes.
pub proof fn lemma_u128_le_round_trip(v: u128)
    ensures
        from_le(u128_le(v)) == v,
        u128_le(v).len() == 16,
{
    lemma_pow256_table();
    lemma_from_le_le_bytes(v as nat, 16);
    lemma_le_bytes_len(v as nat, 16);
}

/// Relies on `parity_scale_codec::Encode` for `u32`: a fixed-width integer
/// encodes as its `to_le_bytes`, the little-endian bytes.
#[verifier::external_body]
pub(crate) fn encode_u32(x: u32) -> (r: Vec<u8>)
    ensures
        r@ == u32_le(x),
{
    parity_scale_codec::Encode::encode(&x)
}

/// Relies on `parity_scale_codec::Encode` for `u128`: a fixed-width integer
/// encodes as its `to_le_bytes`, the little-endian bytes.
#[verifier::external_body]
pub(crate) fn encode_u128(x: u128) -> (r: Vec<u8>)
    ensures
        r@ == u128_le(x),
{
    parity_scale_codec::Encode::encode(&x)
}

/// Relies on `parity_scale_codec::Encode` for `[u8; 32]`: a fixed-size
/// array encodes element by element with no length prefix, and `u8`
/// encodes as itself, so the result is exactly the 32 bytes.
#[verifier::external_body]
pub(crate) fn encode_account(a: &AccountId) -> (r: Vec<u8>)
    ensures
        r@ == a@,
{
    parity_scale_codec::Encode::encode(&a.0)
}

/// Reads `count <= 16` little-endian bytes of `b` starting at `start`.
fn read_le(b: &Vec<u8>, start: usize, count: usize) -> (r: u128)
    requires
        start + count <= b@.len(),
        count <= 16,
    ensures
        r == from_le(b@.subrange(start as int, (start + count) as int)),
{
    // Binding the length ties `b@.len()` to a machine word, so the index
    // arithmetic below cannot overflow.
    let _blen = b.len();
    let mut acc: u128 = 0;
    let mut i: usize = count;
    proof {
        assert(b@.len() <= usize::MAX);
        assert(b@.subrange((start + count) as int, (start + count) as int) =~= Seq::empty());
        lemma_pow256_table();
    }
    while i > 0
        invariant
            i <= count,
            count <= 16,
            start + count <= b@.len(),
            b@.len() <= usize::MAX,
            acc == from_le(b@.subrange((start + i) as int, (start + count) as int)),
            acc < pow(256, (count - i) as nat),
        decreases i,
    {
        proof {
            lemma_pow256_table();
            lemma_pow_increases(256, (count - i) as nat, 15);
        }
        i = i - 1;
        let byte = b[start + i];
        acc = acc * 256 + (byte as u128);
        proof {
            let s = b@.subrange((start + i) as int, (start + count) as int);
            assert(s.subrange(1, s.len() as int) =~= b@.subrange(
                (start + i + 1) as int,
                (start + count) as int,
            ));
            assert(acc == from_le(s));
            lemma_from_le_bound(s);
        }
    }
    acc
}

/// Decodes a balance payload: exactly sixteen little-endian bytes.
pub fn decode_u128(b: &Vec<u8>) -> (r: Option<u128>)
    ensures
        r is Some <==> b@.len() == 16,
        r matches Some(v) ==> b@ == u128_le(v),
{
    if b.len() == 16 {
        let m = read_le(b, 0, 16);
        proof {
            assert(b@.subrange(0, 16) =~= b@);
            lemma_le_bytes_from_le(b@);
        }
        Some(m)
    } else {
        None
    }
}

/// Decodes a 32-bit payload: exactly four little-endian bytes.
pub fn decode_u32(b: &Vec<u8>) -> (r: Option<u32>)
    ensures
        r is Some <==> b@.len() == 4,
        r matches Some(v) ==> b@ == u32_le(v),
{
    if b.len() == 4 {
        let m = read_le(b, 0, 4);
        proof {
            assert(b@.subrange(0, 4) =~= b@);
            lemma_from_le_bound(b@);
            lemma_pow256_table();
            lemma_le_bytes_from_le(b@);
        }
        Some(m as u32)
    } else {
        None
    }
}

/// Copies `v[start..]` into a sequence of its own.
fn tail_from(v: &Vec<u8>, start: usize) -> (r: Vec<u8>)
    requires
        start <= v@.len(),
    ensures
        r@ == v@.subrange(start as int, v@.len() as int),
{
    let mut out: Vec<u8> = Vec::new();
    let mut i: usize = start;
    while i < v.len()
        invariant
            start <= i <= v@.len(),
            out@ == v@.subrange(start as int, i as int),
        decreases v@.len() - i,
    {
        out.push(v[i]);
        i = i + 1;
        proof {
            assert(out@ =~= v@.subrange(start as int, i as int));
        }
    }
    proof {
        assert(out@ =~= v@.subrange(start as int, v@.len() as int));
    }
    out
}

/// Decodes a byte-sequence payload: a compact length, then exactly that
/// many bytes. Returns nothing when the payload is not exactly one
/// well-formed encoding.
pub fn decode_scale_bytes(payload: &Vec<u8>) -> (r: Option<Vec<u8>>)
    ensures
        match r {
            Some(v) => parse_scale_bytes(payload@) == Some(v@),
            None => parse_scale_bytes(payload@) is None,
        },
{
    let len = payload.len();
    if len == 0 {
        return None;
    }
    let b0 = payload[0];
    let mode = b0 % 4;
    let n: u32;
    let c: usize;
    if mode == 0 {
        n = (b0 / 4) as u32;
        c = 1;
        proof {
            assert(parse_compact_len(payload@) == Some(((b0 / 4) as nat, 1nat)));
        }
    } else if mode == 1 {
        if len < 2 {
            return None;
        }
        let m = read_le(payload, 0, 2);
        let x = m / 4;
        if !(64 <= x && x < 16384) {
            return None;
        }
        n = x as u32;
        c = 2;
        proof {
            assert(payload@.subrange(0, 2) =~= payload@.subrange(0, (0 + 2) as int));
        }
    } else if mode == 2 {
        if len < 4 {
            return None;
        }
        let m = read_le(payload, 0, 4);
        let x = m / 4;
        if !(16384 <= x && x < 0x4000_0000) {
            return None;
        }
        n = x as u32;
        c = 4;
        proof {
            assert(payload@.subrange(0, 4) =~= payload@.subrange(0, (0 + 4) as int));
        }
    } else {
        if b0 != 3 || len < 5 {
            return None;
        }
        let m = read_le(payload, 1, 4);
        if m < 0x4000_0000 {
            return None;
        }
        proof {
            lemma_from_le_bound(payload@.subrange(1, 5));
            lemma_pow256_table();
        }
        n = m as u32;
        c = 5;
        proof {
            assert(payload@.subrange(1, 5) =~= payload@.subrange(1, (1 + 4) as int));
        }
    }
    proof {
        assert(parse_compact_len(payload@) == Some((n as nat, c as nat)));
    }
    if len - c == n as usize {
        Some(tail_from(payload, c))
    } else {
        None
    }
}

} // verus!
