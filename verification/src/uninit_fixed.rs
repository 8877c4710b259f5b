//! The fixed-size, deferred-initialization buffer shape.

use crate::caps::{zero_vec, CannotResize, RxBuffer, Sizable};
use vstd::prelude::*;
use vstd::slice::{slice_subrange, slice_to_vec};

verus! {

/// A byte buffer whose capacity is fixed at construction and whose bytes do
/// not count as valid until a read has been sealed.
///
/// The used length starts at 0 and is set only by [`RxBuffer::done`]; no
/// accessor exposes bytes past it, so unfilled storage never reaches a
/// consumer.  This shape is a read target only: it has no write-out view; the
/// sealed bytes come out of `done` itself.  Growing always fails with
/// [`CannotResize`].
pub struct UninitFixedBuffer {
    /// Backing storage; its length is the capacity.  Bytes past `len` stand
    /// for storage that has not been proven initialized.
    storage: Vec<u8>,
    /// How many bytes of `storage` a completed read has proven valid.
    len: usize,
}

impl UninitFixedBuffer {
    /// A buffer of capacity `size` with no valid bytes yet.
    pub fn new(size: usize) -> (b: UninitFixedBuffer)
        ensures
            b.inv(),
            b.store() == Seq::new(size as nat, |i: int| 0u8),
            b.valid_len() == 0,
    {
        UninitFixedBuffer { storage: zero_vec(size), len: 0 }
    }
}

impl Sizable for UninitFixedBuffer {
    closed spec fn store(&self) -> Seq<u8> {
        self.storage@
    }

    closed spec fn valid_len(&self) -> nat {
        self.len as nat
    }

    open spec fn growable(&self) -> bool {
        false
    }

    closed spec fn inv(&self) -> bool {
        self.len <= self.storage@.len()
    }

    proof fn lemma_length_le_capacity(&self) {
    }

    fn length(&self) -> (n: usize) {
        self.len
    }

    fn capacity(&self) -> (n: usize) {
        self.storage.len()
    }

    fn grow(&mut self, target: usize) -> (r: Result<(), CannotResize>) {
        Err(CannotResize)
    }
}

impl RxBuffer for UninitFixedBuffer {
    open spec fn length_pinned(&self) -> bool {
        false
    }

    fn set_byte(&mut self, i: usize, value: u8) {
        self.storage[i] = value;
    }

    fn done(&mut self, len: usize) -> (r: Vec<u8>) {
        self.len = len;
        slice_to_vec(slice_subrange(self.storage.as_slice(), 0, len))
    }

    fn can_set_capacity(&self) -> (r: bool) {
        false
    }
}

} // verus!
