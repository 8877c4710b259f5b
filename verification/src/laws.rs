//! Laws relating the capabilities across a whole read operation.

use crate::caps::{RxBuffer, Sizable};
use vstd::prelude::*;

verus! {

/// Law (growing is idempotent): growing twice to the same target leaves the
/// buffer exactly as one successful grow left it.
///
/// `b1` is any buffer a successful [`Sizable::grow`] to `target` produced, so
/// its capacity already covers `target`; `b2` is related to `b1` as `grow`'s
/// contract relates its final buffer to its initial one on a second call with
/// the same `target`.  The second call changes nothing.
pub proof fn lemma_grow_idempotent<B: Sizable>(b1: B, b2: B, target: usize)
    requires
        b1.store().len() >= target,
        target <= b1.store().len() ==> b2 == b1,
    ensures
        b2 == b1,
{
}

/// Law (round trip): writing `data` into a buffer through its readable view
/// and then sealing with any `n <= data.len()` reads back exactly the first
/// `n` written bytes, whatever the buffer held before.
///
/// `b0` is any well-formed buffer large enough for `data`; `b1` is related to
/// `b0` as [`crate::fill_from`]'s contract relates its final buffer to its
/// initial one; `b2` and `r` are related to `b1` as [`RxBuffer::done`]'s
/// contract relates its final buffer and result to its initial buffer.  Then
/// the sealed bytes `r` are the first `n` bytes of `data`, and so is the
/// `n`-byte prefix of the buffer's contents afterwards — for a shape that
/// tracks its length, exactly the prefix a write-out view exposes.
pub proof fn lemma_round_trip<B: RxBuffer>(b0: B, b1: B, b2: B, r: Seq<u8>, data: Seq<u8>, n: nat)
    requires
        b0.inv(),
        data.len() <= b0.store().len(),
        n <= data.len(),
        b1.store() == data + b0.store().skip(data.len() as int),
        b2.store() == b1.store(),
        r == b1.store().take(n as int),
    ensures
        r == data.take(n as int),
        b2.store().take(n as int) == data.take(n as int),
{
    assert(b1.store().take(n as int) =~= data.take(n as int));
}

} // verus!
