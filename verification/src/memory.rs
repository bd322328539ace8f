//! Scoped buffers for secret material, and explicit zeroization of byte
//! vectors that leave scope.

use vstd::prelude::*;

verus! {

/// A fixed-capacity scratch buffer for cryptographic operations.
pub struct SecureArena {
    /// The buffer itself.
    pub data: Vec<u8>,
}

impl SecureArena {
    /// Create a new arena of `capacity` zero bytes.
    pub fn new(capacity: usize) -> (r: SecureArena)
        ensures
            r.data@.len() == capacity,
            forall|i: int| 0 <= i < capacity ==> r.data@[i] == 0u8,
    {
        SecureArena { data: vec![0u8; capacity] }
    }

    /// Mutable view of the arena memory.
    pub fn as_mut_slice(&mut self) -> (r: &mut [u8])
        ensures
            r@ == old(self).data@,
            final(r)@ == final(self).data@,
    {
        self.data.as_mut_slice()
    }

    /// Read-only view of the arena memory.
    pub fn as_slice(&self) -> (r: &[u8])
        ensures
            r@ == self.data@,
    {
        self.data.as_slice()
    }
}

/// Overwrite every byte of a vector with zero, then discard it.
pub fn zeroize_vec(vec: Vec<u8>)
{
    let mut v = vec;
    let n = v.len();
    let mut i: usize = 0;
    while i < n
        invariant
            i <= n,
            v@.len() == n,
        decreases n - i,
    {
        v[i] = 0;
        i = i + 1;
    }
    v.clear();
}

} // verus!
