//! The growable buffer shape.

use crate::caps::{CannotResize, ResizeableBuffer, RxBuffer, Sizable, TxBuffer};
use vstd::prelude::*;
use vstd::slice::{slice_subrange, slice_to_vec};

verus! {

/// A growable owned byte buffer.
///
/// The backing storage holds exactly the allocated capacity; the used length
/// is tracked separately and set explicitly when a read is sealed.  Capacity
/// grows on demand and never shrinks; bytes gained by growing read as zero.
pub struct GrowableBuffer {
    /// Backing storage; its length is the allocated capacity.
    storage: Vec<u8>,
    /// How many bytes of `storage` currently count as valid.
    len: usize,
}

impl GrowableBuffer {
    /// An empty buffer: capacity 0, length 0.
    pub fn new() -> (b: GrowableBuffer)
        ensures
            b.inv(),
            b.store() == Seq::<u8>::empty(),
            b.valid_len() == 0,
    {
        GrowableBuffer { storage: Vec::new(), len: 0 }
    }

    /// A zero-filled buffer of capacity `cap` and length 0.
    pub fn with_capacity(cap: usize) -> (b: GrowableBuffer)
        ensures
            b.inv(),
            b.store() == Seq::new(cap as nat, |i: int| 0u8),
            b.valid_len() == 0,
    {
        let mut b = GrowableBuffer { storage: Vec::new(), len: 0 };
        b.reserve_to(cap);
        proof {
            assert(b.store() =~= Seq::new(cap as nat, |i: int| 0u8));
        }
        b
    }

    /// A buffer whose capacity and length are both `data.len()`, holding
    /// exactly `data`: a fully initialized write-out source.
    pub fn from_vec(data: Vec<u8>) -> (b: GrowableBuffer)
        ensures
            b.inv(),
            b.store() == data@,
            b.valid_len() == data@.len(),
    {
        let n = data.len();
        GrowableBuffer { storage: data, len: n }
    }

    /// Extend the storage with zero bytes until it holds at least `target`
    /// bytes.  No-op when the storage is already large enough.
    fn reserve_to(&mut self, target: usize)
        ensures
            final(self).len == old(self).len,
            final(self).storage@.len() >= target,
            final(self).storage@.len() >= old(self).storage@.len(),
            target >= old(self).storage@.len() ==> final(self).storage@.len() == target,
            forall|i: int|
                0 <= i < old(self).storage@.len()
                    ==> final(self).storage@[i] == old(self).storage@[i],
            forall|i: int|
                old(self).storage@.len() <= i < final(self).storage@.len()
                    ==> final(self).storage@[i] == 0u8,
            target <= old(self).storage@.len() ==> *final(self) == *old(self),
    {
        if self.storage.len() >= target {
            return;
        }
        while self.storage.len() < target
            invariant
                self.len == old(self).len,
                self.storage@.len() <= target,
                self.storage@.len() >= old(self).storage@.len(),
                forall|i: int|
                    0 <= i < old(self).storage@.len()
                        ==> self.storage@[i] == old(self).storage@[i],
                forall|i: int|
                    old(self).storage@.len() <= i < self.storage@.len()
                        ==> self.storage@[i] == 0u8,
            decreases target - self.storage.len(),
        {
            self.storage.push(0u8);
        }
    }
}

impl Sizable for GrowableBuffer {
    closed spec fn store(&self) -> Seq<u8> {
        self.storage@
    }

    closed spec fn valid_len(&self) -> nat {
        self.len as nat
    }

    open spec fn growable(&self) -> bool {
        true
    }

    closed spec fn inv(&self) -> bool {
        self.len <= self.storage@.len()
    }

    proof fn lemma_length_le_capacity(&self) {
    }

    fn length(&self) -> (n: usize) {
        self.len
    }

    fn capacity(&self) -> (n: usize) {
        self.storage.len()
    }

    fn grow(&mut self, target: usize) -> (r: Result<(), CannotResize>) {
        self.reserve_to(target);
        Ok(())
    }
}

impl TxBuffer for GrowableBuffer {
    fn len(&self) -> (n: usize) {
        self.len
    }

    fn as_bytes(&self) -> (r: &[u8]) {
        slice_subrange(self.storage.as_slice(), 0, self.len)
    }
}

impl RxBuffer for GrowableBuffer {
    open spec fn length_pinned(&self) -> bool {
        false
    }

    fn set_byte(&mut self, i: usize, value: u8) {
        self.storage[i] = value;
    }

    fn done(&mut self, len: usize) -> (r: Vec<u8>) {
        self.len = len;
        slice_to_vec(slice_subrange(self.storage.as_slice(), 0, len))
    }

    fn can_set_capacity(&self) -> (r: bool) {
        true
    }
}

impl ResizeableBuffer for GrowableBuffer {
    fn set_capacity(&mut self, len: usize) {
        self.reserve_to(len);
    }
}

} // verus!
