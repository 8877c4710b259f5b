//! The capability traits shared by all buffer shapes.

use vstd::prelude::*;

verus! {

/// Error returned by [`Sizable::grow`] on a shape whose storage is fixed and
/// cannot be extended.  Recoverable: the caller may pick another shape or fail
/// its own operation.
#[derive(Clone, Copy, PartialEq, Eq, Debug)]
pub struct CannotResize;

/// The shared sizing capability.
///
/// Every buffer shape reports a used length (bytes that are logically valid)
/// and an allocated capacity (bytes physically available), and may support
/// growing the capacity.  The invariant `length() <= capacity()` holds at
/// every observable point; [`Sizable::lemma_length_le_capacity`] states it
/// once for all shapes.
pub trait Sizable: Sized {
    /// Model of the full allocated extent: one entry per capacity byte.
    spec fn store(&self) -> Seq<u8>;

    /// Model of the used length: how many bytes currently count as valid.
    spec fn valid_len(&self) -> nat;

    /// Whether this shape can extend its storage.
    spec fn growable(&self) -> bool;

    /// Well-formedness of the bookkeeping.
    spec fn inv(&self) -> bool;

    /// Law: the used length never exceeds the allocated capacity.
    proof fn lemma_length_le_capacity(&self)
        requires
            self.inv(),
        ensures
            self.valid_len() <= self.store().len(),
    ;

    /// The used length, in bytes.
    fn length(&self) -> (n: usize)
        requires
            self.inv(),
        ensures
            n == self.valid_len(),
    ;

    /// The allocated capacity, in bytes.
    fn capacity(&self) -> (n: usize)
        requires
            self.inv(),
        ensures
            n == self.store().len(),
    ;

    /// Try to make the capacity at least `target` bytes.
    ///
    /// Growth is monotonic: the capacity never shrinks, a request at or below
    /// the current capacity changes nothing, and newly allocated bytes read
    /// as zero.  Shapes with fixed storage always answer `Err(CannotResize)`
    /// and stay untouched.
    fn grow(&mut self, target: usize) -> (r: Result<(), CannotResize>)
        requires
            old(self).inv(),
        ensures
            final(self).inv(),
            final(self).growable() == old(self).growable(),
            final(self).valid_len() == old(self).valid_len(),
            r is Ok <==> old(self).growable(),
            r is Ok ==> final(self).store().len() >= target,
            final(self).store().len() >= old(self).store().len(),
            forall|i: int|
                0 <= i < old(self).store().len()
                    ==> final(self).store()[i] == old(self).store()[i],
            forall|i: int|
                old(self).store().len() <= i < final(self).store().len()
                    ==> final(self).store()[i] == 0u8,
            target <= old(self).store().len() ==> *final(self) == *old(self),
            r is Err ==> *final(self) == *old(self),
    ;
}

/// The write-out capability, for a buffer whose used prefix is fully
/// initialized: it can expose those bytes for a foreign call that only reads.
pub trait TxBuffer: Sizable {
    /// The used length, in bytes; equal to [`Sizable::length`].
    fn len(&self) -> (n: usize)
        requires
            self.inv(),
        ensures
            n == self.valid_len(),
    ;

    /// The initialized bytes, as a borrowed slice of length [`TxBuffer::len`].
    ///
    /// This is the safe core of the raw read-only view: a foreign call may
    /// read exactly these bytes.  Pure query; the buffer is not changed.
    fn as_bytes(&self) -> (r: &[u8])
        requires
            self.inv(),
        ensures
            r@ == self.store().take(self.valid_len() as int),
    ;
}

/// The read-in capability, for a buffer a foreign routine fills.
///
/// The writable extent is the full capacity, not the current length: the
/// caller does not yet know how many bytes the foreign routine will produce.
/// After the routine reports a count, [`RxBuffer::done`] seals the read,
/// fixing the used length and returning exactly the bytes that were filled.
pub trait RxBuffer: Sizable {
    /// Whether the reported length stays pinned to the capacity.  A shape
    /// whose contents always count as fully valid reports `true`; sealing it
    /// leaves its length at the capacity.
    spec fn length_pinned(&self) -> bool;

    /// Write one byte into the writable extent.
    ///
    /// This is the safe core of the raw writable view: a foreign write into
    /// the raw extent is a series of such byte stores, anywhere below the
    /// capacity.  The used length does not move until the read is sealed.
    fn set_byte(&mut self, i: usize, value: u8)
        requires
            old(self).inv(),
            i < old(self).store().len(),
        ensures
            final(self).inv(),
            final(self).store() == old(self).store().update(i as int, value),
            final(self).valid_len() == old(self).valid_len(),
            final(self).growable() == old(self).growable(),
            final(self).length_pinned() == old(self).length_pinned(),
    ;

    /// Seal a completed read: `len` is the byte count the foreign routine
    /// reported.  Sets the used length to `len` (unless the shape pins its
    /// length to the capacity) and returns a copy of exactly the bytes
    /// `[0, len)`.
    ///
    /// A count above the capacity means the foreign call already wrote past
    /// the allocation; that is a contract breach, excluded here by
    /// precondition, so no verified caller can reach it.
    fn done(&mut self, len: usize) -> (r: Vec<u8>)
        requires
            old(self).inv(),
            len <= old(self).store().len(),
        ensures
            final(self).inv(),
            final(self).store() == old(self).store(),
            final(self).growable() == old(self).growable(),
            final(self).length_pinned() == old(self).length_pinned(),
            final(self).valid_len() == if old(self).length_pinned() {
                old(self).valid_len()
            } else {
                len as nat
            },
            r@ == old(self).store().take(len as int),
    ;

    /// Probe for the resize capability: answers whether the shape can grow.
    /// Shapes with fixed storage report unsupported.
    fn can_set_capacity(&self) -> (r: bool)
        requires
            self.inv(),
        ensures
            r == self.growable(),
    ;
}

/// The resize capability, held only by shapes that can allocate more storage.
pub trait ResizeableBuffer: Sizable {
    /// Make the capacity at least `len` bytes, allocating if needed.
    ///
    /// Grow only: the capacity never shrinks, a request at or below the
    /// current capacity changes nothing, existing bytes are kept and new
    /// bytes read as zero.  The used length does not move.
    fn set_capacity(&mut self, len: usize)
        requires
            old(self).inv(),
        ensures
            final(self).inv(),
            final(self).store().len() >= len,
            final(self).store().len() >= old(self).store().len(),
            forall|i: int|
                0 <= i < old(self).store().len()
                    ==> final(self).store()[i] == old(self).store()[i],
            forall|i: int|
                old(self).store().len() <= i < final(self).store().len()
                    ==> final(self).store()[i] == 0u8,
            final(self).valid_len() == old(self).valid_len(),
            final(self).growable() == old(self).growable(),
            len <= old(self).store().len() ==> *final(self) == *old(self),
    ;
}

/// Copy `data` to the front of the writable extent of any read-target buffer.
///
/// Shape-agnostic client of [`RxBuffer::set_byte`]: it stands in for a
/// foreign routine that fills `data.len()` bytes of the raw extent.  The used
/// length does not move; sealing with [`RxBuffer::done`] afterwards commits
/// the count.
pub fn fill_from<B: RxBuffer>(buf: &mut B, data: &[u8])
    requires
        old(buf).inv(),
        data@.len() <= old(buf).store().len(),
    ensures
        final(buf).inv(),
        final(buf).store() == data@ + old(buf).store().skip(data@.len() as int),
        final(buf).valid_len() == old(buf).valid_len(),
        final(buf).growable() == old(buf).growable(),
        final(buf).length_pinned() == old(buf).length_pinned(),
{
    let n = data.len();
    let mut i: usize = 0;
    while i < n
        invariant
            i <= n,
            n == data@.len(),
            buf.inv(),
            n <= buf.store().len(),
            buf.store() == data@.take(i as int) + old(buf).store().skip(i as int),
            buf.store().len() == old(buf).store().len(),
            buf.valid_len() == old(buf).valid_len(),
            buf.growable() == old(buf).growable(),
            buf.length_pinned() == old(buf).length_pinned(),
        decreases n - i,
    {
        buf.set_byte(i, data[i]);
        proof {
            assert(buf.store() =~= data@.take(i + 1) + old(buf).store().skip(i + 1));
        }
        i = i + 1;
    }
    proof {
        assert(buf.store() =~= data@ + old(buf).store().skip(data@.len() as int));
    }
}

/// A zero-filled byte vector of length `n`, used as fresh buffer storage.
pub(crate) fn zero_vec(n: usize) -> (v: Vec<u8>)
    ensures
        v@ == Seq::new(n as nat, |i: int| 0u8),
{
    let mut v: Vec<u8> = Vec::new();
    while v.len() < n
        invariant
            v@.len() <= n,
            forall|i: int| 0 <= i < v@.len() ==> v@[i] == 0u8,
        decreases n - v@.len(),
    {
        v.push(0u8);
    }
    proof {
        assert(v@ =~= Seq::new(n as nat, |i: int| 0u8));
    }
    v
}

} // verus!
