//! The fixed-size, fully initialized buffer shape.

use crate::caps::{zero_vec, CannotResize, RxBuffer, Sizable, TxBuffer};
use vstd::prelude::*;
use vstd::slice::{slice_subrange, slice_to_vec};

verus! {

/// A byte buffer whose capacity is fixed at construction and whose contents
/// always count as fully valid: its length equals its capacity at every
/// observable point.  Growing always fails with [`CannotResize`].
pub struct FixedBuffer {
    /// Backing storage; its length is both the capacity and the used length.
    storage: Vec<u8>,
}

impl FixedBuffer {
    /// A zero-filled buffer of capacity (and length) `size`.
    pub fn zeroed(size: usize) -> (b: FixedBuffer)
        ensures
            b.inv(),
            b.store() == Seq::new(size as nat, |i: int| 0u8),
            b.valid_len() == size,
    {
        FixedBuffer { storage: zero_vec(size) }
    }

    /// A buffer holding exactly `data`, with capacity and length `data.len()`.
    pub fn from_vec(data: Vec<u8>) -> (b: FixedBuffer)
        ensures
            b.inv(),
            b.store() == data@,
            b.valid_len() == data@.len(),
    {
        FixedBuffer { storage: data }
    }
}

impl Sizable for FixedBuffer {
    closed spec fn store(&self) -> Seq<u8> {
        self.storage@
    }

    closed spec fn valid_len(&self) -> nat {
        self.storage@.len()
    }

    open spec fn growable(&self) -> bool {
        false
    }

    closed spec fn inv(&self) -> bool {
        true
    }

    proof fn lemma_length_le_capacity(&self) {
    }

    fn length(&self) -> (n: usize) {
        self.storage.len()
    }

    fn capacity(&self) -> (n: usize) {
        self.storage.len()
    }

    fn grow(&mut self, target: usize) -> (r: Result<(), CannotResize>) {
        Err(CannotResize)
    }
}

impl TxBuffer for FixedBuffer {
    fn len(&self) -> (n: usize) {
        self.storage.len()
    }

    fn as_bytes(&self) -> (r: &[u8]) {
        proof {
            assert(self.storage@.take(self.storage@.len() as int) =~= self.storage@);
        }
        self.storage.as_slice()
    }
}

impl RxBuffer for FixedBuffer {
    open spec fn length_pinned(&self) -> bool {
        true
    }

    fn set_byte(&mut self, i: usize, value: u8) {
        self.storage[i] = value;
    }

    fn done(&mut self, len: usize) -> (r: Vec<u8>) {
        slice_to_vec(slice_subrange(self.storage.as_slice(), 0, len))
    }

    fn can_set_capacity(&self) -> (r: bool) {
        false
    }
}

} // verus!
