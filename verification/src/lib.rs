//! Bounds-tracked byte buffers for foreign pointer/length interfaces.
//!
//! Foreign routines commonly take a raw pointer together with a byte count,
//! either to read data out of a buffer or to write data into one.  Handing a
//! buffer over in that form is safe only while the length and capacity
//! bookkeeping is exact: the reader must be offered only initialized bytes,
//! and after a foreign write the buffer must report exactly the prefix that
//! was filled.  This crate keeps that bookkeeping in verified code.
//!
//! Three buffer shapes are provided: [`GrowableBuffer`], an owned buffer whose
//! capacity can grow; [`FixedBuffer`], a fixed-size buffer whose contents are
//! always fully valid; and [`UninitFixedBuffer`], a fixed-size buffer whose
//! bytes count as valid only once a read has been sealed.  All three answer to
//! the same capability traits, so callers can stay shape-agnostic:
//! [`Sizable`] for length and capacity queries and for growing, [`TxBuffer`]
//! for the write-out direction, and [`RxBuffer`] for the read-in direction
//! with its sealing step.  The raw pointer handoff itself cannot live in
//! verified code; it is a thin unverified layer over [`TxBuffer::as_bytes`],
//! [`RxBuffer::set_byte`] and [`RxBuffer::done`].

mod caps;
mod fixed;
mod growable;
mod laws;
mod uninit_fixed;

pub use caps::fill_from;
pub use caps::CannotResize;
pub use caps::ResizeableBuffer;
pub use caps::RxBuffer;
pub use caps::Sizable;
pub use caps::TxBuffer;
pub use fixed::FixedBuffer;
pub use growable::GrowableBuffer;
pub use laws::lemma_grow_idempotent;
pub use laws::lemma_round_trip;
pub use uninit_fixed::UninitFixedBuffer;
