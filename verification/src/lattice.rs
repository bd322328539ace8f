//! LatticeMix: an affine transform over a polynomial ring, computed through a
//! number-theoretic transform (NTT) by direct evaluation against the powers
//! of a fixed base.
//!
//! The modulus `Q = 2^32 - 2^20 + 1` is prime and `2^20` divides `Q - 1`, so
//! the ring has elements of multiplicative order `N = 4096`; `OMEGA` is such
//! an element (`OMEGA^2048 == Q - 1`, `OMEGA^4096 == 1`), and `N_INV` is the
//! inverse of `N` modulo `Q`. These number-theoretic facts are what the
//! transform's invertibility rests on; they are exercised by the round-trip
//! tests rather than proved here.

use vstd::prelude::*;
use vstd::string::StringSliceAdditionalSpecFns;
use vstd::arithmetic::power::{
    pow,
    lemma_pow_mod_noop,
    lemma_pow_multiplies,
    lemma_pow_adds,
    lemma_pow1,
};
use vstd::arithmetic::div_mod::{
    lemma_add_mod_noop,
    lemma_mul_mod_noop_general,
    lemma_mul_mod_noop_left,
    lemma_small_mod,
};
use vstd::arithmetic::mul::{lemma_mul_is_associative, lemma_mul_is_commutative};
use crate::bytes::{le_u32s, u32_from_le};
use crate::kdf::{kdf_bytes, kdf_shake256};

verus! {

/// Ring dimension: every lattice buffer holds exactly `N` coefficients.
pub const N: usize = 4096;

/// The prime modulus `2^32 - 2^20 + 1`.
pub const Q: u64 = 4293918721;

/// Base of the transform: an element of multiplicative order `N` modulo `Q`.
pub const OMEGA: u64 = 68871676;

/// The inverse of `N` modulo `Q`, applied by the inverse transform.
pub const N_INV: u64 = 4292870401;

/// LatticeMix state: a polynomial of `N` coefficients modulo `Q`.
pub type LatticeState = Vec<u32>;

/// `OMEGA^k mod Q`.
pub open spec fn omega_pow(k: int) -> int {
    pow(OMEGA as int, k as nat) % (Q as int)
}

/// Partial sum (over `j < k`, reduced modulo `Q` at each step) of the forward
/// transform's evaluation of `p` at point `i`.
pub open spec fn ntt_sum_fwd(p: Seq<u32>, i: int, k: nat) -> int
    decreases k,
{
    if k == 0 {
        0
    } else {
        (ntt_sum_fwd(p, i, (k - 1) as nat) + p[k - 1] * omega_pow((i * (k - 1)) % (N as int))) % (
        Q as int)
    }
}

/// The forward transform: evaluate `p` against the powers of `OMEGA`.
pub open spec fn ntt_forward_spec(p: Seq<u32>) -> Seq<u32> {
    Seq::new(N as nat, |i: int| ntt_sum_fwd(p, i, N as nat) as u32)
}

/// Partial sum of the inverse transform's evaluation (the exponents run
/// backwards: `OMEGA^((N - i*j mod N) mod N)`), before scaling by `N_INV`.
pub open spec fn ntt_sum_inv(p: Seq<u32>, i: int, k: nat) -> int
    decreases k,
{
    if k == 0 {
        0
    } else {
        (ntt_sum_inv(p, i, (k - 1) as nat) + p[k - 1] * omega_pow(
            ((N as int) - (i * (k - 1)) % (N as int)) % (N as int),
        )) % (Q as int)
    }
}

/// The forward partial sum without intermediate reduction.
pub open spec fn ntt_raw_fwd(p: Seq<u32>, i: int, k: nat) -> int
    decreases k,
{
    if k == 0 {
        0
    } else {
        ntt_raw_fwd(p, i, (k - 1) as nat) + p[k - 1] * omega_pow((i * (k - 1)) % (N as int))
    }
}

/// The backward partial sum without intermediate reduction.
pub open spec fn ntt_raw_inv(p: Seq<u32>, i: int, k: nat) -> int
    decreases k,
{
    if k == 0 {
        0
    } else {
        ntt_raw_inv(p, i, (k - 1) as nat) + p[k - 1] * omega_pow(
            ((N as int) - (i * (k - 1)) % (N as int)) % (N as int),
        )
    }
}

/// The inverse transform: backward evaluation scaled by `N_INV`.
pub open spec fn ntt_inverse_spec(p: Seq<u32>) -> Seq<u32> {
    Seq::new(N as nat, |i: int| ((ntt_sum_inv(p, i, N as nat) * (N_INV as int)) % (Q as int)) as u32)
}

/// Pointwise product modulo `Q` of two transformed polynomials.
pub open spec fn ntt_pointwise(a: Seq<u32>, s: Seq<u32>) -> Seq<u32> {
    Seq::new(N as nat, |i: int| (((a[i] as int) * (s[i] as int)) % (Q as int)) as u32)
}

/// What `lattice_mix` returns: `InverseNTT(NTT(a) . NTT(state)) + b (mod Q)`.
pub open spec fn lattice_mix_spec(state: Seq<u32>, a: Seq<u32>, b: Seq<u32>) -> Seq<u32> {
    Seq::new(
        N as nat,
        |i: int|
            ((ntt_inverse_spec(ntt_pointwise(ntt_forward_spec(a), ntt_forward_spec(state)))[i]
                + b[i]) % (Q as int)) as u32,
    )
}

/// One lattice parameter: the KDF stream for `label` under `(key, nonce)`,
/// read as little-endian words and reduced modulo `Q`.
pub open spec fn lattice_param_spec(key: Seq<u8>, nonce: Seq<u8>, label: Seq<u8>) -> Seq<u32> {
    Seq::new(
        N as nat,
        |i: int| ((le_u32s(kdf_bytes(label, key, nonce, (4 * N) as nat))[i] as int) % (
        Q as int)) as u32,
    )
}

/// Reducing a step-wise-reduced sum agrees with reducing the raw sum once,
/// and the raw forward sum is bounded by one maximal term per summand.
proof fn lemma_fwd_raw(p: Seq<u32>, i: int, k: nat)
    requires
        k <= p.len(),
    ensures
        ntt_sum_fwd(p, i, k) == ntt_raw_fwd(p, i, k) % (Q as int),
        0 <= ntt_raw_fwd(p, i, k) <= k * 0x10000000000000000,
    decreases k,
{
    let q = Q as int;
    if k == 0 {
        lemma_small_mod(0nat, Q as nat);
    } else {
        lemma_fwd_raw(p, i, (k - 1) as nat);
        let raw = ntt_raw_fwd(p, i, (k - 1) as nat);
        let t = (p[k - 1] as int) * omega_pow((i * (k - 1)) % (N as int));
        vstd::arithmetic::mul::lemma_mul_nonnegative(
            p[k - 1] as int,
            omega_pow((i * (k - 1)) % (N as int)),
        );
        vstd::arithmetic::mul::lemma_mul_upper_bound(
            p[k - 1] as int,
            0xFFFFFFFF,
            omega_pow((i * (k - 1)) % (N as int)),
            q - 1,
        );
        lemma_add_mod_noop(raw, t, q);
        lemma_add_mod_noop(raw % q, t, q);
        lemma_small_mod((raw % q) as nat, Q as nat);
        assert(ntt_sum_fwd(p, i, k) == (ntt_sum_fwd(p, i, (k - 1) as nat) + t) % q);
        assert((raw % q + t) % q == (raw + t) % q);
    }
}

/// The same equivalence and bound for the backward sum.
proof fn lemma_inv_raw(p: Seq<u32>, i: int, k: nat)
    requires
        k <= p.len(),
    ensures
        ntt_sum_inv(p, i, k) == ntt_raw_inv(p, i, k) % (Q as int),
        0 <= ntt_raw_inv(p, i, k) <= k * 0x10000000000000000,
    decreases k,
{
    let q = Q as int;
    if k == 0 {
        lemma_small_mod(0nat, Q as nat);
    } else {
        lemma_inv_raw(p, i, (k - 1) as nat);
        let raw = ntt_raw_inv(p, i, (k - 1) as nat);
        let e = ((N as int) - (i * (k - 1)) % (N as int)) % (N as int);
        let t = (p[k - 1] as int) * omega_pow(e);
        vstd::arithmetic::mul::lemma_mul_nonnegative(p[k - 1] as int, omega_pow(e));
        vstd::arithmetic::mul::lemma_mul_upper_bound(p[k - 1] as int, 0xFFFFFFFF, omega_pow(e), q - 1);
        lemma_add_mod_noop(raw, t, q);
        lemma_add_mod_noop(raw % q, t, q);
        lemma_small_mod((raw % q) as nat, Q as nat);
        assert(ntt_sum_inv(p, i, k) == (ntt_sum_inv(p, i, (k - 1) as nat) + t) % q);
        assert((raw % q + t) % q == (raw + t) % q);
    }
}

/// A product of two values below 2^32 fits in a u64.
proof fn lemma_mul_fits_u64(a: int, b: int)
    requires
        0 <= a < 0x100000000,
        0 <= b < 0x100000000,
    ensures
        0 <= a * b < 0x10000000000000000,
{
    assert(0 <= a * b < 0x10000000000000000) by (nonlinear_arith)
        requires
            0 <= a < 0x100000000,
            0 <= b < 0x100000000,
    ;
}

/// A product of two indices below the ring dimension stays small.
proof fn lemma_mul_index_fits(a: int, b: int)
    requires
        0 <= a < 4096,
        0 <= b < 4096,
    ensures
        0 <= a * b < 0x1000000,
{
    assert(0 <= a * b < 0x1000000) by (nonlinear_arith)
        requires
            0 <= a < 4096,
            0 <= b < 4096,
    ;
}

/// Modular exponentiation by square-and-multiply.
pub fn mod_pow(base: u64, exp: usize, modulus: u64) -> (r: u64)
    requires
        2 <= modulus <= 0x100000000,
    ensures
        r as int == pow(base as int, exp as nat) % (modulus as int),
        r < modulus,
{
    let m = modulus;
    let ghost mi = m as int;
    let mut result: u64 = 1;
    let mut b = base % m;
    let mut e = exp;
    proof {
        lemma_pow_mod_noop(base as int, exp as nat, mi);
        lemma_pow_mod_noop(b as int, exp as nat, mi);
        lemma_small_mod(1nat, m as nat);
    }
    while e > 0
        invariant
            2 <= m <= 0x100000000,
            result < m,
            b < m,
            ((result as int) * pow(b as int, e as nat)) % mi == pow(base as int, exp as nat) % mi,
            mi == m as int,
        decreases e,
    {
        let ghost r0 = result as int;
        let ghost b0 = b as int;
        let ghost e0 = e as nat;
        let ghost e2 = (e / 2) as nat;
        proof {
            reveal_with_fuel(pow, 3);
            // pow(b, e) splits into the low bit and the squared remainder:
            // pow(b, e) == pow(b, e % 2) * pow(b * b, e / 2)
            lemma_pow_adds(b0, (e0 % 2) as nat, (2 * e2) as nat);
            lemma_pow_multiplies(b0, 2, e2);
            lemma_pow1(b0);
            assert(pow(b0, 2) == b0 * pow(b0, 1nat));
            assert(pow(b0, 2) == b0 * b0);
            assert(pow(b0, e0) == pow(b0, (e0 % 2) as nat) * pow(b0 * b0, e2));
        }
        if e % 2 == 1 {
            proof {
                lemma_mul_fits_u64(result as int, b as int);
            }
            let next = (result * b) % m;
            proof {
                assert(pow(b0, (e0 % 2) as nat) == b0);
                // (r*b % m) * (pow(b*b, e2) % m) % m == (r * pow(b, e)) % m
                lemma_mul_mod_noop_general(r0 * b0, pow(b0 * b0, e2), mi);
                lemma_mul_is_associative(r0, b0, pow(b0 * b0, e2));
                assert((next as int) == (r0 * b0) % mi);
                assert(((next as int) * (pow(b0 * b0, e2) % mi)) % mi == (r0 * pow(b0, e0)) % mi)
                    by {
                    lemma_mul_mod_noop_general(r0 * b0, pow(b0 * b0, e2), mi);
                };
            }
            result = next;
        } else {
            proof {
                assert(pow(b0, (e0 % 2) as nat) == 1);
                assert(pow(b0, e0) == pow(b0 * b0, e2));
            }
        }
        proof {
            lemma_mul_fits_u64(b as int, b as int);
        }
        let bb = (b * b) % m;
        proof {
            lemma_pow_mod_noop(b0 * b0, e2, mi);
            // replacing pow(b*b, e2) by pow((b*b) % m, e2) under the outer mod
            lemma_mul_mod_noop_general(result as int, pow(b0 * b0, e2), mi);
            lemma_mul_mod_noop_general(result as int, pow((bb as int), e2), mi);
            assert(((result as int) * pow(bb as int, e2)) % mi == ((result as int) * pow(
                b0 * b0,
                e2,
            )) % mi);
        }
        b = bb;
        e = e / 2;
        proof {
            assert(((result as int) * pow(b as int, e as nat)) % mi == (r0 * pow(b0, e0)) % mi);
        }
    }
    proof {
        reveal_with_fuel(pow, 1);
        assert(pow(b as int, 0) == 1);
        lemma_small_mod(result as nat, m as nat);
    }
    result
}

/// Modular inverse by Fermat's little theorem: `a^(m-2) mod m`, the inverse
/// of `a` whenever `m` is prime and `a` is not a multiple of it.
pub fn mod_inverse(a: u64, m: u64) -> (r: u64)
    requires
        2 <= m <= 0x100000000,
    ensures
        r as int == pow(a as int, (m - 2) as nat) % (m as int),
        r < m,
{
    mod_pow(a, (m - 2) as usize, m)
}

/// The first `len` powers of `base` modulo `m`.
fn pow_table(base: u64, m: u64, len: usize) -> (r: Vec<u64>)
    requires
        2 <= m <= 0x100000000,
        base < m,
    ensures
        r@.len() == len,
        forall|k: int|
            0 <= k < len ==> (#[trigger] r@[k]) as int == pow(base as int, k as nat) % (m as int)
                && r@[k] < m,
{
    let ghost mi = m as int;
    let mut w: Vec<u64> = Vec::new();
    if len == 0 {
        return w;
    }
    w.push(1 % m);
    proof {
        reveal_with_fuel(pow, 1);
        lemma_small_mod(1nat, m as nat);
        assert(w@[0] as int == pow(base as int, 0nat) % mi);
    }
    let mut k: usize = 1;
    while k < len
        invariant
            1 <= k <= len,
            2 <= m <= 0x100000000,
            base < m,
            mi == m as int,
            w@.len() == k,
            forall|j: int|
                0 <= j < k ==> (#[trigger] w@[j]) as int == pow(base as int, j as nat) % mi
                    && w@[j] < m,
        decreases len - k,
    {
        let prev = w[k - 1];
        proof {
            lemma_mul_fits_u64(prev as int, base as int);
        }
        let next = (prev * base) % m;
        proof {
            reveal_with_fuel(pow, 2);
            let p = pow(base as int, (k - 1) as nat);
            assert(pow(base as int, k as nat) == (base as int) * p);
            lemma_mul_is_commutative(base as int, p);
            lemma_mul_mod_noop_left(p, base as int, mi);
            assert((next as int) == (p * (base as int)) % mi);
        }
        w.push(next);
        k = k + 1;
    }
    w
}

/// Number-theoretic transform (forward): direct evaluation of the length-`N`
/// polynomial against the powers of `OMEGA`.
pub fn ntt_forward(poly: &LatticeState) -> (r: LatticeState)
    requires
        poly@.len() == N,
    ensures
        r@.len() == N,
        r@ == ntt_forward_spec(poly@),
{
    let w = pow_table(OMEGA, Q, N);
    let mut result: Vec<u32> = Vec::new();
    let mut i: usize = 0;
    while i < N
        invariant
            i <= N,
            poly@.len() == N,
            w@.len() == N,
            forall|k: int|
                0 <= k < N ==> (#[trigger] w@[k]) as int == omega_pow(k) && w@[k] < Q,
            result@.len() == i,
            forall|k: int| 0 <= k < i ==> result@[k] == ntt_forward_spec(poly@)[k],
        decreases N - i,
    {
        let mut sum: u128 = 0;
        let mut j: usize = 0;
        while j < N
            invariant
                j <= N,
                i < N,
                poly@.len() == N,
                w@.len() == N,
                forall|k: int|
                    0 <= k < N ==> (#[trigger] w@[k]) as int == omega_pow(k) && w@[k] < Q,
                sum as int == ntt_raw_fwd(poly@, i as int, j as nat),
                sum <= j * 0x10000000000000000,
            decreases N - j,
        {
            proof {
                lemma_mul_index_fits(i as int, j as int);
            }
            let idx = (i * j) % N;
            proof {
                lemma_mul_fits_u64(poly@[j as int] as int, w@[idx as int] as int);
            }
            let term = poly[j] as u128 * w[idx] as u128;
            sum = sum + term;
            j = j + 1;
        }
        proof {
            lemma_fwd_raw(poly@, i as int, N as nat);
        }
        let reduced = (sum % (Q as u128)) as u64;
        result.push(reduced as u32);
        proof {
            assert(result@[i as int] == ntt_forward_spec(poly@)[i as int]);
        }
        i = i + 1;
    }
    proof {
        assert(result@ =~= ntt_forward_spec(poly@));
    }
    result
}

/// Number-theoretic transform (inverse): backward evaluation scaled by the
/// modular inverse of `N`.
pub fn ntt_inverse(poly: &LatticeState) -> (r: LatticeState)
    requires
        poly@.len() == N,
    ensures
        r@.len() == N,
        r@ == ntt_inverse_spec(poly@),
{
    let w = pow_table(OMEGA, Q, N);
    let mut result: Vec<u32> = Vec::new();
    let mut i: usize = 0;
    while i < N
        invariant
            i <= N,
            poly@.len() == N,
            w@.len() == N,
            forall|k: int|
                0 <= k < N ==> (#[trigger] w@[k]) as int == omega_pow(k) && w@[k] < Q,
            result@.len() == i,
            forall|k: int| 0 <= k < i ==> result@[k] == ntt_inverse_spec(poly@)[k],
        decreases N - i,
    {
        let mut sum: u128 = 0;
        let mut j: usize = 0;
        while j < N
            invariant
                j <= N,
                i < N,
                poly@.len() == N,
                w@.len() == N,
                forall|k: int|
                    0 <= k < N ==> (#[trigger] w@[k]) as int == omega_pow(k) && w@[k] < Q,
                sum as int == ntt_raw_inv(poly@, i as int, j as nat),
                sum <= j * 0x10000000000000000,
            decreases N - j,
        {
            proof {
                lemma_mul_index_fits(i as int, j as int);
            }
            let idx = (N - (i * j) % N) % N;
            proof {
                lemma_mul_fits_u64(poly@[j as int] as int, w@[idx as int] as int);
            }
            let term = poly[j] as u128 * w[idx] as u128;
            sum = sum + term;
            j = j + 1;
        }
        proof {
            lemma_inv_raw(poly@, i as int, N as nat);
        }
        let reduced = (sum % (Q as u128)) as u64;
        proof {
            lemma_mul_fits_u64(reduced as int, N_INV as int);
        }
        result.push(((reduced * N_INV) % Q) as u32);
        proof {
            assert(result@[i as int] == ntt_inverse_spec(poly@)[i as int]);
        }
        i = i + 1;
    }
    proof {
        assert(result@ =~= ntt_inverse_spec(poly@));
    }
    result
}

/// Apply the LatticeMix transformation
/// `state' = InverseNTT(NTT(a) . NTT(state)) + b (mod Q)`.
pub fn lattice_mix(state: &LatticeState, a: &LatticeState, b: &LatticeState) -> (r: LatticeState)
    requires
        state@.len() == N,
        a@.len() == N,
        b@.len() == N,
    ensures
        r@.len() == N,
        r@ == lattice_mix_spec(state@, a@, b@),
{
    let a_ntt = ntt_forward(a);
    let state_ntt = ntt_forward(state);
    let mut product_ntt: Vec<u32> = Vec::new();
    let mut i: usize = 0;
    while i < N
        invariant
            i <= N,
            a_ntt@.len() == N,
            state_ntt@.len() == N,
            product_ntt@.len() == i,
            forall|k: int|
                0 <= k < i ==> product_ntt@[k] == ntt_pointwise(a_ntt@, state_ntt@)[k],
        decreases N - i,
    {
        proof {
            lemma_mul_fits_u64(a_ntt@[i as int] as int, state_ntt@[i as int] as int);
        }
        let prod = (a_ntt[i] as u64 * state_ntt[i] as u64) % Q;
        product_ntt.push(prod as u32);
        i = i + 1;
    }
    proof {
        assert(product_ntt@ =~= ntt_pointwise(a_ntt@, state_ntt@));
    }
    let inv = ntt_inverse(&product_ntt);
    let mut result: Vec<u32> = Vec::new();
    let mut i2: usize = 0;
    while i2 < N
        invariant
            i2 <= N,
            inv@.len() == N,
            b@.len() == N,
            inv@ == ntt_inverse_spec(ntt_pointwise(ntt_forward_spec(a@), ntt_forward_spec(state@))),
            result@.len() == i2,
            forall|k: int| 0 <= k < i2 ==> result@[k] == lattice_mix_spec(state@, a@, b@)[k],
        decreases N - i2,
    {
        let v = ((inv[i2] as u64 + b[i2] as u64) % Q) as u32;
        result.push(v);
        i2 = i2 + 1;
    }
    proof {
        assert(result@ =~= lattice_mix_spec(state@, a@, b@));
    }
    result
}

/// Derive the per-round lattice parameters `(a, b)` from `(key, nonce)` by
/// keyed expansion under two distinct labels, reduced modulo `Q`.
pub fn derive_lattice_params(key: &[u8], nonce: &[u8]) -> (r: (LatticeState, LatticeState))
    ensures
        r.0@.len() == N,
        r.1@.len() == N,
        r.0@ == lattice_param_spec(key@, nonce@, "aegis-q-lattice-a".spec_bytes()),
        r.1@ == lattice_param_spec(key@, nonce@, "aegis-q-lattice-b".spec_bytes()),
{
    let a = derive_one_lattice_param(key, nonce, "aegis-q-lattice-a".as_bytes());
    let b = derive_one_lattice_param(key, nonce, "aegis-q-lattice-b".as_bytes());
    (a, b)
}

/// Expand one labelled parameter stream and reduce each word modulo `Q`.
fn derive_one_lattice_param(key: &[u8], nonce: &[u8], label: &[u8]) -> (r: LatticeState)
    ensures
        r@.len() == N,
        r@ == lattice_param_spec(key@, nonce@, label@),
{
    let bytes = kdf_shake256(label, key, nonce, N * 4);
    let mut out: Vec<u32> = Vec::new();
    let mut i: usize = 0;
    while i < N
        invariant
            i <= N,
            bytes@.len() == 4 * N,
            bytes@ == kdf_bytes(label@, key@, nonce@, (4 * N) as nat),
            out@.len() == i,
            forall|k: int| 0 <= k < i ==> out@[k] == lattice_param_spec(key@, nonce@, label@)[k],
        decreases N - i,
    {
        let v = u32_from_le(bytes[4 * i], bytes[4 * i + 1], bytes[4 * i + 2], bytes[4 * i + 3]);
        let reduced = ((v as u64) % Q) as u32;
        proof {
            assert(le_u32s(bytes@)[i as int] == v);
        }
        out.push(reduced);
        i = i + 1;
    }
    proof {
        assert(out@ =~= lattice_param_spec(key@, nonce@, label@));
    }
    out
}

} // verus!
