//! Byte-level helpers shared by every component: little-endian encodings,
//! XOR of equal-length buffers, constant-time comparison, and decimal
//! rendering of counters for domain-separation labels.

use vstd::prelude::*;
use vstd::arithmetic::div_mod::{
    lemma_div_denominator,
    lemma_fundamental_div_mod,
    lemma_small_mod,
};

verus! {

/// The `u32` encoded little-endian by the four bytes `b0..b3`.
pub open spec fn u32_le(b0: u8, b1: u8, b2: u8, b3: u8) -> u32 {
    (b0 + b1 * 0x100 + b2 * 0x10000 + b3 * 0x1000000) as u32
}

/// Decode consecutive 4-byte groups of `b` as little-endian `u32` values.
pub open spec fn le_u32s(b: Seq<u8>) -> Seq<u32> {
    Seq::new(b.len() / 4, |i: int| u32_le(b[4 * i], b[4 * i + 1], b[4 * i + 2], b[4 * i + 3]))
}

/// The four little-endian bytes of `v`.
pub open spec fn u32_le_bytes(v: u32) -> Seq<u8> {
    seq![
        (v % 0x100) as u8,
        ((v / 0x100) % 0x100) as u8,
        ((v / 0x10000) % 0x100) as u8,
        ((v / 0x1000000) % 0x100) as u8,
    ]
}

/// Little-endian serialization of a sequence of `u32` values.
pub open spec fn u32s_le_bytes(s: Seq<u32>) -> Seq<u8>
    decreases s.len(),
{
    if s.len() == 0 {
        Seq::<u8>::empty()
    } else {
        u32s_le_bytes(s.drop_last()) + u32_le_bytes(s.last())
    }
}

/// The eight little-endian bytes of `v`.
pub open spec fn u64_le_bytes(v: u64) -> Seq<u8> {
    seq![
        (v % 0x100) as u8,
        ((v / 0x100) % 0x100) as u8,
        ((v / 0x10000) % 0x100) as u8,
        ((v / 0x1000000) % 0x100) as u8,
        ((v / 0x100000000) % 0x100) as u8,
        ((v / 0x10000000000) % 0x100) as u8,
        ((v / 0x1000000000000) % 0x100) as u8,
        ((v / 0x100000000000000) % 0x100) as u8,
    ]
}

/// The `u64` encoded little-endian by the eight bytes `b[0]..b[7]`.
pub open spec fn u64_le(b: Seq<u8>) -> u64 {
    (b[0] + b[1] * 0x100 + b[2] * 0x10000 + b[3] * 0x1000000 + b[4] * 0x100000000u64
        + b[5] * 0x10000000000u64 + b[6] * 0x1000000000000u64 + b[7] * 0x100000000000000u64) as u64
}

/// Pointwise XOR; the result has the length of `a`.
pub open spec fn xor_bytes(a: Seq<u8>, b: Seq<u8>) -> Seq<u8> {
    Seq::new(a.len(), |i: int| a[i] ^ b[i])
}

/// The decimal digits of `n`, most significant first, as ASCII bytes.
pub open spec fn dec_str(n: nat) -> Seq<u8>
    decreases n,
{
    if n < 10 {
        seq![(n + 48) as u8]
    } else {
        dec_str(n / 10) + seq![(n % 10 + 48) as u8]
    }
}

/// Decoding the four little-endian bytes of a word gives the word back.
pub proof fn lemma_u32_le_round_trip(v: u32)
    ensures
        u32_le(
            u32_le_bytes(v)[0],
            u32_le_bytes(v)[1],
            u32_le_bytes(v)[2],
            u32_le_bytes(v)[3],
        ) == v,
{
    let x = v as int;
    lemma_fundamental_div_mod(x, 0x100);
    lemma_fundamental_div_mod(x / 0x100, 0x100);
    lemma_fundamental_div_mod(x / 0x10000, 0x100);
    lemma_div_denominator(x, 0x100, 0x100);
    lemma_div_denominator(x, 0x10000, 0x100);
    assert(x / 0x1000000 < 0x100) by (nonlinear_arith)
        requires
            0 <= x < 0x100000000,
    ;
    lemma_small_mod((x / 0x1000000) as nat, 0x100);
}

/// Decoding the eight little-endian bytes of a `u64` gives it back.
pub proof fn lemma_u64_le_round_trip(v: u64)
    ensures
        u64_le(u64_le_bytes(v)) == v,
{
    let x = v as int;
    lemma_fundamental_div_mod(x, 0x100);
    lemma_fundamental_div_mod(x / 0x100, 0x100);
    lemma_fundamental_div_mod(x / 0x10000, 0x100);
    lemma_fundamental_div_mod(x / 0x1000000, 0x100);
    lemma_fundamental_div_mod(x / 0x100000000, 0x100);
    lemma_fundamental_div_mod(x / 0x10000000000, 0x100);
    lemma_fundamental_div_mod(x / 0x1000000000000, 0x100);
    lemma_div_denominator(x, 0x100, 0x100);
    lemma_div_denominator(x, 0x10000, 0x100);
    lemma_div_denominator(x, 0x1000000, 0x100);
    lemma_div_denominator(x, 0x100000000, 0x100);
    lemma_div_denominator(x, 0x10000000000, 0x100);
    lemma_div_denominator(x, 0x1000000000000, 0x100);
    assert(x / 0x100000000000000 < 0x100) by (nonlinear_arith)
        requires
            0 <= x < 0x10000000000000000,
    ;
    lemma_small_mod((x / 0x100000000000000) as nat, 0x100);
}

/// Decoding a little-endian serialization of words gives the words back.
pub proof fn lemma_u32s_le_round_trip(s: Seq<u32>)
    ensures
        u32s_le_bytes(s).len() == 4 * s.len(),
        le_u32s(u32s_le_bytes(s)) == s,
    decreases s.len(),
{
    if s.len() == 0 {
        assert(le_u32s(u32s_le_bytes(s)) =~= s);
    } else {
        lemma_u32s_le_round_trip(s.drop_last());
        let prefix = u32s_le_bytes(s.drop_last());
        let b = u32s_le_bytes(s);
        assert(b == prefix + u32_le_bytes(s.last()));
        assert forall|i: int| 0 <= i < s.len() implies le_u32s(b)[i] == s[i] by {
            if i < s.len() - 1 {
                assert(le_u32s(prefix)[i] == s.drop_last()[i]);
                assert(u32_le(b[4 * i], b[4 * i + 1], b[4 * i + 2], b[4 * i + 3]) == u32_le(
                    prefix[4 * i],
                    prefix[4 * i + 1],
                    prefix[4 * i + 2],
                    prefix[4 * i + 3],
                ));
            } else {
                lemma_u32_le_round_trip(s.last());
                assert(b[4 * i] == u32_le_bytes(s.last())[0]);
                assert(b[4 * i + 1] == u32_le_bytes(s.last())[1]);
                assert(b[4 * i + 2] == u32_le_bytes(s.last())[2]);
                assert(b[4 * i + 3] == u32_le_bytes(s.last())[3]);
            }
        }
        assert(le_u32s(u32s_le_bytes(s)) =~= s);
    }
}

/// Little-endian `u32` from four bytes.
pub fn u32_from_le(b0: u8, b1: u8, b2: u8, b3: u8) -> (r: u32)
    ensures
        r == u32_le(b0, b1, b2, b3),
{
    b0 as u32 + b1 as u32 * 0x100 + b2 as u32 * 0x10000 + b3 as u32 * 0x1000000
}

/// Append the four little-endian bytes of `v` to `out`.
pub fn push_u32_le(out: &mut Vec<u8>, v: u32)
    ensures
        final(out)@ == old(out)@ + u32_le_bytes(v),
{
    out.push((v % 0x100) as u8);
    out.push(((v / 0x100) % 0x100) as u8);
    out.push(((v / 0x10000) % 0x100) as u8);
    out.push(((v / 0x1000000) % 0x100) as u8);
    proof {
        assert(final(out)@ =~= old(out)@ + u32_le_bytes(v));
    }
}

/// The eight little-endian bytes of `v` as a vector.
pub fn u64_le_vec(v: u64) -> (r: Vec<u8>)
    ensures
        r@ == u64_le_bytes(v),
{
    let mut out: Vec<u8> = Vec::new();
    out.push((v % 0x100) as u8);
    out.push(((v / 0x100) % 0x100) as u8);
    out.push(((v / 0x10000) % 0x100) as u8);
    out.push(((v / 0x1000000) % 0x100) as u8);
    out.push(((v / 0x100000000) % 0x100) as u8);
    out.push(((v / 0x10000000000) % 0x100) as u8);
    out.push(((v / 0x1000000000000) % 0x100) as u8);
    out.push(((v / 0x100000000000000) % 0x100) as u8);
    proof {
        assert(out@ =~= u64_le_bytes(v));
    }
    out
}

/// The four little-endian bytes of `v` as a vector.
pub fn u32_le_vec(v: u32) -> (r: Vec<u8>)
    ensures
        r@ == u32_le_bytes(v),
{
    let mut out: Vec<u8> = Vec::new();
    push_u32_le(&mut out, v);
    proof {
        assert(out@ =~= u32_le_bytes(v));
    }
    out
}

/// Little-endian `u64` from eight consecutive bytes of `b` starting at `off`.
pub fn u64_from_le(b: &[u8], off: usize) -> (r: u64)
    requires
        off + 8 <= b@.len(),
    ensures
        r == u64_le(b@.subrange(off as int, off as int + 8)),
{
    let r = b[off] as u64 + b[off + 1] as u64 * 0x100 + b[off + 2] as u64 * 0x10000
        + b[off + 3] as u64 * 0x1000000 + b[off + 4] as u64 * 0x100000000
        + b[off + 5] as u64 * 0x10000000000 + b[off + 6] as u64 * 0x1000000000000
        + b[off + 7] as u64 * 0x100000000000000;
    proof {
        let s = b@.subrange(off as int, off as int + 8);
        assert(forall|j: int| 0 <= j < 8 ==> s[j] == b@[off as int + j]);
    }
    r
}

/// XOR `data` with the prefix of `mask` of the same length.
pub fn xor_with(data: &[u8], mask: &[u8]) -> (r: Vec<u8>)
    requires
        data@.len() <= mask@.len(),
    ensures
        r@ == xor_bytes(data@, mask@),
{
    let mut out: Vec<u8> = Vec::new();
    let mut i: usize = 0;
    while i < data.len()
        invariant
            i <= data@.len() <= mask@.len(),
            out@.len() == i,
            forall|j: int| 0 <= j < i ==> out@[j] == (data@[j] ^ mask@[j]),
        decreases data@.len() - i,
    {
        out.push(data[i] ^ mask[i]);
        i = i + 1;
    }
    proof {
        assert(out@ =~= xor_bytes(data@, mask@));
    }
    out
}

/// Constant-time equality of two byte strings: the bytes are all folded into
/// one accumulator so that the running time does not depend on the position
/// of the first mismatch.
pub fn ct_eq(a: &[u8], b: &[u8]) -> (r: bool)
    ensures
        r == (a@ == b@),
{
    if a.len() != b.len() {
        proof {
            assert(a@.len() != b@.len());
            assert(a@ != b@);
        }
        return false;
    }
    let mut diff: u8 = 0;
    let mut i: usize = 0;
    while i < a.len()
        invariant
            i <= a@.len(),
            a@.len() == b@.len(),
            (diff == 0) <==> (forall|j: int| 0 <= j < i ==> a@[j] == b@[j]),
        decreases a@.len() - i,
    {
        let x = a[i] ^ b[i];
        proof {
            let ai = a@[i as int];
            let bi = b@[i as int];
            assert((ai ^ bi) == 0 <==> ai == bi) by (bit_vector);
            let d = diff;
            assert(((d | (ai ^ bi)) == 0) <==> (d == 0 && (ai ^ bi) == 0)) by (bit_vector);
        }
        diff = diff | x;
        i = i + 1;
    }
    proof {
        if diff == 0 {
            assert(a@ =~= b@);
        }
    }
    diff == 0
}

/// Equality of the overlapping prefix of two byte strings, folded in
/// constant time as `ct_eq` does; bytes past the shorter input are ignored.
pub fn ct_eq_prefix(a: &[u8], b: &[u8]) -> (r: bool)
    ensures
        r == (forall|j: int|
            0 <= j < a@.len() && j < b@.len() ==> a@[j] == b@[j]),
{
    let n = if a.len() < b.len() {
        a.len()
    } else {
        b.len()
    };
    let mut diff: u8 = 0;
    let mut i: usize = 0;
    while i < n
        invariant
            i <= n,
            n == if a@.len() < b@.len() {
                a@.len()
            } else {
                b@.len()
            },
            (diff == 0) <==> (forall|j: int| 0 <= j < i ==> a@[j] == b@[j]),
        decreases n - i,
    {
        let x = a[i] ^ b[i];
        proof {
            let ai = a@[i as int];
            let bi = b@[i as int];
            assert((ai ^ bi) == 0 <==> ai == bi) by (bit_vector);
            let d = diff;
            assert(((d | (ai ^ bi)) == 0) <==> (d == 0 && (ai ^ bi) == 0)) by (bit_vector);
        }
        diff = diff | x;
        i = i + 1;
    }
    diff == 0
}

/// The decimal digits of `n` as ASCII bytes.
pub fn dec_bytes(n: u64) -> (r: Vec<u8>)
    ensures
        r@ == dec_str(n as nat),
    decreases n,
{
    if n < 10 {
        let mut out: Vec<u8> = Vec::new();
        out.push((n + 48) as u8);
        proof {
            assert(out@ =~= dec_str(n as nat));
        }
        out
    } else {
        let mut out = dec_bytes(n / 10);
        out.push((n % 10 + 48) as u8);
        proof {
            assert(out@ =~= dec_str(n as nat));
        }
        out
    }
}

} // verus!
