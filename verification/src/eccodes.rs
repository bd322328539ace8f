//! CodeMix: a sparse generator-matrix multiply followed by a secret
//! permutation. Each matrix entry's inclusion and value, and each shuffle
//! step of the permutation, is a hash of the round key and the position, so
//! both sides of a session can rebuild them independently.

use vstd::prelude::*;
use vstd::string::StringSliceAdditionalSpecFns;
use crate::bytes::{dec_bytes, dec_str, u32_from_le, u32_le, u64_from_le, u64_le};
use crate::hashes::{sha3_512, sha3_512_of};
use crate::kdf::{kdf_bytes, kdf_shake256};

verus! {

/// Configured code dimension: the length of the cipher state's code buffer.
/// Deriving a generator matrix costs `n * n` hash evaluations per round — by
/// far the dominant cost of a call — so this build keeps the state's own
/// dimension small. The matrix and permutation take the dimension as an
/// explicit construction parameter, so larger dimensions coexist in one
/// program.
pub const CODE_N: usize = 64;

/// CodeMix state: a vector of `u32` coordinates.
pub type CodeState = Vec<u32>;

/// The label bytes "{row}-{col}" that key one matrix cell.
pub open spec fn cell_info(row: int, col: int) -> Seq<u8> {
    dec_str(row as nat) + seq![45u8] + dec_str(col as nat)
}

/// The 64-byte hash that decides one matrix cell.
pub open spec fn cell_hash(key: Seq<u8>, row: int, col: int) -> Seq<u8> {
    sha3_512_of(kdf_bytes("aegis-q-codemix-matrix".spec_bytes(), key, cell_info(row, col), 64))
}

/// Whether the cell `(row, col)` is present in the sparse matrix
/// (roughly 10% of cells are).
pub open spec fn cell_included(key: Seq<u8>, row: int, col: int) -> bool {
    cell_hash(key, row, col)[0] < 25
}

/// The value of a present cell.
pub open spec fn cell_value(key: Seq<u8>, row: int, col: int) -> u32 {
    u32_le(
        cell_hash(key, row, col)[1],
        cell_hash(key, row, col)[2],
        cell_hash(key, row, col)[3],
        cell_hash(key, row, col)[4],
    )
}

/// The included entries of one row, columns `0..k`, in column order.
pub open spec fn row_entries(key: Seq<u8>, row: int, k: nat) -> Seq<(usize, usize, u32)>
    decreases k,
{
    if k == 0 {
        Seq::<(usize, usize, u32)>::empty()
    } else {
        row_entries(key, row, (k - 1) as nat) + if cell_included(key, row, k - 1) {
            seq![(row as usize, (k - 1) as usize, cell_value(key, row, k - 1))]
        } else {
            Seq::<(usize, usize, u32)>::empty()
        }
    }
}

/// The included entries of rows `0..rows` over `n` columns, row-major.
pub open spec fn matrix_entries(key: Seq<u8>, rows: nat, n: nat) -> Seq<(usize, usize, u32)>
    decreases rows,
{
    if rows == 0 {
        Seq::<(usize, usize, u32)>::empty()
    } else {
        matrix_entries(key, (rows - 1) as nat, n) + row_entries(key, rows - 1, n)
    }
}

/// `u32` addition wrapping modulo 2^32.
pub open spec fn wadd32(a: u32, b: u32) -> u32 {
    ((a + b) % 0x100000000) as u32
}

/// `u32` multiplication wrapping modulo 2^32.
pub open spec fn wmul32(a: u32, b: u32) -> u32 {
    ((a * b) % 0x100000000) as u32
}

/// Sparse matrix-vector product: fold the entries (in their stored order)
/// into an all-zero accumulator of the state's length, with wrapping
/// multiply-accumulate; absent cells contribute nothing.
pub open spec fn mat_vec(entries: Seq<(usize, usize, u32)>, state: Seq<u32>) -> Seq<u32>
    decreases entries.len(),
{
    if entries.len() == 0 {
        Seq::new(state.len(), |i: int| 0u32)
    } else {
        let prev = mat_vec(entries.drop_last(), state);
        let e = entries.last();
        prev.update(e.0 as int, wadd32(prev[e.0 as int], wmul32(state[e.1 as int], e.2)))
    }
}

/// Generator matrix in sparse representation: the `(row, col, value)`
/// triples of present cells, over an `n x n` domain.
pub struct GeneratorMatrix {
    /// Sparse representation: (row, col, value) triples, row-major.
    pub entries: Vec<(usize, usize, u32)>,
    /// Dimension of the matrix.
    pub n: usize,
}

/// Every stored entry addresses a cell inside the `n x n` domain.
pub open spec fn gm_wf(m: GeneratorMatrix) -> bool {
    forall|i: int|
        0 <= i < m.entries@.len() ==> (#[trigger] m.entries@[i]).0 < m.n && m.entries@[i].1 < m.n
}

impl GeneratorMatrix {
    /// Derive the sparse generator matrix of dimension `n`; each cell is
    /// decided by its own labelled hash of the round key and the cell's
    /// position. The round key is itself bound to the nonce, which is
    /// accepted here for call-site uniformity but not hashed again.
    pub fn from_key(key: &[u8], nonce: &[u8], n: usize) -> (r: GeneratorMatrix)
        ensures
            r.n == n,
            r.entries@ == matrix_entries(key@, n as nat, n as nat),
            gm_wf(r),
    {
        let mut entries: Vec<(usize, usize, u32)> = Vec::new();
        let mut row: usize = 0;
        while row < n
            invariant
                row <= n,
                entries@ == matrix_entries(key@, row as nat, n as nat),
                forall|i: int|
                    0 <= i < entries@.len() ==> (#[trigger] entries@[i]).0 < n
                        && entries@[i].1 < n,
            decreases n - row,
        {
            let mut col: usize = 0;
            while col < n
                invariant
                    row < n,
                    col <= n,
                    entries@ == matrix_entries(key@, row as nat, n as nat) + row_entries(
                        key@,
                        row as int,
                        col as nat,
                    ),
                    forall|i: int|
                        0 <= i < entries@.len() ==> (#[trigger] entries@[i]).0 < n
                            && entries@[i].1 < n,
                decreases n - col,
            {
                let mut info = dec_bytes(row as u64);
                info.push(45u8);
                let col_digits = dec_bytes(col as u64);
                info.extend_from_slice(col_digits.as_slice());
                proof {
                    assert(info@ =~= cell_info(row as int, col as int));
                }
                let seed = kdf_shake256(
                    "aegis-q-codemix-matrix".as_bytes(),
                    key,
                    info.as_slice(),
                    64,
                );
                let hash = sha3_512(seed.as_slice());
                if hash[0] < 25 {
                    let value = u32_from_le(hash[1], hash[2], hash[3], hash[4]);
                    entries.push((row, col, value));
                }
                proof {
                    assert(entries@ =~= matrix_entries(key@, row as nat, n as nat) + row_entries(
                        key@,
                        row as int,
                        (col + 1) as nat,
                    ));
                }
                col = col + 1;
            }
            proof {
                assert(entries@ =~= matrix_entries(key@, (row + 1) as nat, n as nat));
            }
            row = row + 1;
        }
        GeneratorMatrix { entries, n }
    }

    /// Sparse matrix-vector multiplication `G * state` with wrapping
    /// multiply-accumulate.
    pub fn multiply(&self, state: &[u32]) -> (r: Vec<u32>)
        requires
            gm_wf(*self),
            state@.len() == self.n,
        ensures
            r@.len() == self.n,
            r@ == mat_vec(self.entries@, state@),
    {
        let n = self.n;
        let mut result: Vec<u32> = Vec::new();
        let mut i: usize = 0;
        while i < n
            invariant
                i <= n,
                result@.len() == i,
                forall|k: int| 0 <= k < i ==> result@[k] == 0u32,
            decreases n - i,
        {
            result.push(0u32);
            i = i + 1;
        }
        proof {
            assert(result@ =~= mat_vec(self.entries@.take(0), state@));
        }
        let mut t: usize = 0;
        while t < self.entries.len()
            invariant
                t <= self.entries@.len(),
                gm_wf(*self),
                state@.len() == self.n,
                result@.len() == self.n,
                result@ == mat_vec(self.entries@.take(t as int), state@),
            decreases self.entries@.len() - t,
        {
            let (erow, ecol, eval) = self.entries[t];
            let cur = result[erow];
            let prod = state[ecol].wrapping_mul(eval);
            result[erow] = cur.wrapping_add(prod);
            proof {
                let taken = self.entries@.take(t as int + 1);
                assert(taken.drop_last() =~= self.entries@.take(t as int));
                assert(taken.last() == self.entries@[t as int]);
                assert(result@ =~= mat_vec(taken, state@));
            }
            t = t + 1;
        }
        proof {
            assert(self.entries@.take(self.entries@.len() as int) =~= self.entries@);
        }
        result
    }
}

/// The shuffle index drawn for step `i`: the first eight bytes of the step's
/// labelled hash, read little-endian, reduced modulo `i + 1`.
pub open spec fn shuffle_j(key: Seq<u8>, i: int) -> int {
    u64_le(
        sha3_512_of(
            kdf_bytes("aegis-q-codemix-perm".spec_bytes(), key, dec_str(i as nat), 64),
        ).subrange(0, 8),
    ) as int % (i + 1)
}

/// A sequence with positions `i` and `j` exchanged.
pub open spec fn swap_seq(s: Seq<usize>, i: int, j: int) -> Seq<usize> {
    s.update(i, s[j]).update(j, s[i])
}

/// The tail of the seeded shuffle: starting from `s`, swap positions
/// `i, i-1, ..., 1` each with its drawn partner.
pub open spec fn perm_rec(key: Seq<u8>, s: Seq<usize>, i: nat) -> Seq<usize>
    decreases i,
{
    if i == 0 {
        s
    } else {
        perm_rec(key, swap_seq(s, i as int, shuffle_j(key, i as int)), (i - 1) as nat)
    }
}

/// The identity arrangement of `[0, n)`.
pub open spec fn identity_perm(n: nat) -> Seq<usize> {
    Seq::new(n, |i: int| i as usize)
}

/// The permutation of `[0, n)` derived from `key` by the seeded shuffle.
pub open spec fn perm_spec(key: Seq<u8>, n: nat) -> Seq<usize> {
    if n == 0 {
        identity_perm(0)
    } else {
        perm_rec(key, identity_perm(n), (n - 1) as nat)
    }
}

/// Some position of `p` (searching below `n`) holds the value `v`.
pub open spec fn hits_value(p: Seq<usize>, n: int, v: int) -> bool {
    exists|i: int| 0 <= i < n && #[trigger] p[i] == v as usize
}

/// Secret permutation over `[0, n)`, holding both the forward arrangement
/// and its inverse.
pub struct Permutation {
    /// Forward map: position `i` reads from position `perm[i]`.
    pub perm: Vec<usize>,
    /// Inverse map: `inv_perm[perm[i]] == i`.
    pub inv_perm: Vec<usize>,
}

/// The two stored arrangements are bijections of `[0, n)` and are inverses
/// of each other, in both directions.
pub open spec fn perm_wf(p: Permutation, n: nat) -> bool {
    &&& p.perm@.len() == n
    &&& p.inv_perm@.len() == n
    &&& forall|i: int| 0 <= i < n ==> (#[trigger] p.perm@[i]) < n
    &&& forall|i: int| 0 <= i < n ==> (#[trigger] p.inv_perm@[i]) < n
    &&& forall|i: int| 0 <= i < n ==> p.inv_perm@[#[trigger] p.perm@[i] as int] == i as usize
    &&& forall|i: int| 0 <= i < n ==> p.perm@[#[trigger] p.inv_perm@[i] as int] == i as usize
}

/// Applying a permutation: gather each coordinate from its source.
pub open spec fn apply_spec(p: Seq<usize>, state: Seq<u32>) -> Seq<u32> {
    Seq::new(state.len(), |i: int| state[p[i] as int])
}

impl Permutation {
    /// Derive the secret permutation of `[0, n)` from the round key by a
    /// seeded shuffle, and record its inverse. As with the matrix, the
    /// nonce enters through the round key rather than being hashed again.
    pub fn from_key(key: &[u8], nonce: &[u8], n: usize) -> (r: Permutation)
        requires
            1 <= n,
        ensures
            perm_wf(r, n as nat),
            r.perm@ == perm_spec(key@, n as nat),
    {
        let mut perm: Vec<usize> = Vec::new();
        let mut k: usize = 0;
        while k < n
            invariant
                k <= n,
                perm@.len() == k,
                forall|t: int| 0 <= t < k ==> perm@[t] == t as usize,
            decreases n - k,
        {
            perm.push(k);
            k = k + 1;
        }
        proof {
            assert(perm@ =~= identity_perm(n as nat));
            assert forall|v: int| 0 <= v < n implies #[trigger] hits_value(perm@, n as int, v) by {
                assert(perm@[v] == v as usize);
            }
        }
        let mut i: usize = n - 1;
        while i >= 1
            invariant
                0 <= i <= n - 1,
                perm@.len() == n,
                perm_rec(key@, perm@, i as nat) == perm_spec(key@, n as nat),
                forall|t: int| 0 <= t < n ==> (#[trigger] perm@[t]) < n,
                forall|v: int| 0 <= v < n ==> #[trigger] hits_value(perm@, n as int, v),
                forall|t: int, u: int|
                    0 <= t < n && 0 <= u < n && t != u ==> perm@[t] != perm@[u],
            decreases i,
        {
            let digits = dec_bytes(i as u64);
            let seed = kdf_shake256(
                "aegis-q-codemix-perm".as_bytes(),
                key,
                digits.as_slice(),
                64,
            );
            let hash = sha3_512(seed.as_slice());
            let drawn = u64_from_le(hash.as_slice(), 0);
            let j = (drawn % (i as u64 + 1)) as usize;
            proof {
                assert(hash@.subrange(0, 8) =~= sha3_512_of(
                    kdf_bytes(
                        "aegis-q-codemix-perm".spec_bytes(),
                        key@,
                        dec_str(i as nat),
                        64,
                    ),
                ).subrange(0, 8));
                assert(j as int == shuffle_j(key@, i as int));
            }
            let ghost before = perm@;
            let pi = perm[i];
            let pj = perm[j];
            perm[i] = pj;
            perm[j] = pi;
            proof {
                assert(perm@ =~= swap_seq(before, i as int, j as int));
                // a swap keeps the set of values: re-exhibit every witness
                assert forall|v: int| 0 <= v < n implies #[trigger] hits_value(
                    perm@,
                    n as int,
                    v,
                ) by {
                    assert(hits_value(before, n as int, v));
                    let t0 = choose|t: int| 0 <= t < n && #[trigger] before[t] == v as usize;
                    if t0 == i as int {
                        assert(perm@[j as int] == v as usize);
                    } else if t0 == j as int {
                        assert(perm@[i as int] == v as usize);
                    } else {
                        assert(perm@[t0] == v as usize);
                    }
                }
            }
            i = i - 1;
        }
        let mut inv_perm: Vec<usize> = Vec::new();
        let mut z: usize = 0;
        while z < n
            invariant
                z <= n,
                inv_perm@.len() == z,
            decreases n - z,
        {
            inv_perm.push(0);
            z = z + 1;
        }
        let mut t: usize = 0;
        while t < n
            invariant
                t <= n,
                perm@.len() == n,
                inv_perm@.len() == n,
                perm@ == perm_spec(key@, n as nat),
                forall|u: int| 0 <= u < n ==> (#[trigger] perm@[u]) < n,
                forall|v: int| 0 <= v < n ==> #[trigger] hits_value(perm@, n as int, v),
                forall|u: int, v: int|
                    0 <= u < n && 0 <= v < n && u != v ==> perm@[u] != perm@[v],
                forall|u: int|
                    0 <= u < t ==> inv_perm@[#[trigger] perm@[u] as int] == u as usize,
            decreases n - t,
        {
            let p = perm[t];
            inv_perm[p] = t;
            t = t + 1;
        }
        proof {
            // the inverse relation holds in the other direction as well,
            // because every value is hit by some forward position
            assert forall|v: int| 0 <= v < n implies (#[trigger] inv_perm@[v]) < n && perm@[
                inv_perm@[v] as int
            ] == v as usize by {
                assert(hits_value(perm@, n as int, v));
                let u = choose|u: int| 0 <= u < n && #[trigger] perm@[u] == v as usize;
                assert(inv_perm@[v] == u as usize);
            }
        }
        Permutation { perm, inv_perm }
    }

    /// Apply the permutation: coordinate `i` of the result reads from
    /// coordinate `perm[i]` of the input.
    pub fn apply(&self, state: &[u32]) -> (r: Vec<u32>)
        requires
            perm_wf(*self, state@.len()),
        ensures
            r@.len() == state@.len(),
            r@ == apply_spec(self.perm@, state@),
    {
        let n = state.len();
        let mut result: Vec<u32> = Vec::new();
        let mut i: usize = 0;
        while i < n
            invariant
                i <= n,
                n == state@.len(),
                perm_wf(*self, n as nat),
                result@.len() == i,
                forall|k: int| 0 <= k < i ==> result@[k] == state@[self.perm@[k] as int],
            decreases n - i,
        {
            result.push(state[self.perm[i]]);
            i = i + 1;
        }
        proof {
            assert(result@ =~= apply_spec(self.perm@, state@));
        }
        result
    }

    /// Apply the inverse permutation: coordinate `i` of the result reads
    /// from coordinate `inv_perm[i]` of the input, undoing `apply`.
    pub fn apply_inverse(&self, state: &[u32]) -> (r: Vec<u32>)
        requires
            perm_wf(*self, state@.len()),
        ensures
            r@.len() == state@.len(),
            r@ == apply_spec(self.inv_perm@, state@),
    {
        let n = state.len();
        let mut result: Vec<u32> = Vec::new();
        let mut i: usize = 0;
        while i < n
            invariant
                i <= n,
                n == state@.len(),
                perm_wf(*self, n as nat),
                result@.len() == i,
                forall|k: int| 0 <= k < i ==> result@[k] == state@[self.inv_perm@[k] as int],
            decreases n - i,
        {
            result.push(state[self.inv_perm[i]]);
            i = i + 1;
        }
        proof {
            assert(result@ =~= apply_spec(self.inv_perm@, state@));
        }
        result
    }
}

/// The permutation inverse law: for any pair of mutually inverse
/// arrangements of `[0, n)`, gathering by the forward arrangement and then
/// by the inverse returns every vector of length `n` unchanged.
pub proof fn lemma_permutation_round_trip(perm: Seq<usize>, inv: Seq<usize>, v: Seq<u32>)
    requires
        v.len() <= usize::MAX,
        perm.len() == v.len(),
        inv.len() == v.len(),
        forall|i: int| 0 <= i < v.len() ==> (#[trigger] perm[i]) < v.len(),
        forall|i: int| 0 <= i < v.len() ==> (#[trigger] inv[i]) < v.len(),
        forall|i: int| 0 <= i < v.len() ==> perm[#[trigger] inv[i] as int] == i as usize,
    ensures
        apply_spec(inv, apply_spec(perm, v)) == v,
{
    let once = apply_spec(perm, v);
    assert forall|i: int| 0 <= i < v.len() implies apply_spec(inv, once)[i] == v[i] by {
        let k = inv[i] as int;
        assert(apply_spec(inv, once)[i] == once[k]);
        assert(once[k] == v[perm[k] as int]);
        assert(perm[k] == i as usize);
    }
    assert(apply_spec(inv, apply_spec(perm, v)) =~= v);
}

/// Apply the CodeMix transformation `state' = P * (G * state)`.
pub fn code_mix(state: &CodeState, generator: &GeneratorMatrix, permutation: &Permutation) -> (r:
    CodeState)
    requires
        gm_wf(*generator),
        state@.len() == generator.n,
        perm_wf(*permutation, state@.len()),
    ensures
        r@.len() == state@.len(),
        r@ == apply_spec(permutation.perm@, mat_vec(generator.entries@, state@)),
{
    let g_state = generator.multiply(state.as_slice());
    permutation.apply(g_state.as_slice())
}

} // verus!
