use cbuffer::fill_from;
use cbuffer::CannotResize;
use cbuffer::FixedBuffer;
use cbuffer::GrowableBuffer;
use cbuffer::ResizeableBuffer;
use cbuffer::RxBuffer;
use cbuffer::Sizable;
use cbuffer::TxBuffer;
use cbuffer::UninitFixedBuffer;

fn check_len_le_cap<B: Sizable>(buf: &B) {
    assert!(buf.length() <= buf.capacity());
}

#[test]
fn length_le_capacity_growable() {
    let mut b = GrowableBuffer::new();
    check_len_le_cap(&b);
    let _ = b.grow(5);
    check_len_le_cap(&b);
    b.set_byte(3, 1);
    check_len_le_cap(&b);
    let _ = b.done(5);
    check_len_le_cap(&b);
    b.set_capacity(2);
    check_len_le_cap(&b);
}

#[test]
fn length_le_capacity_fixed() {
    let mut b = FixedBuffer::zeroed(6);
    check_len_le_cap(&b);
    let _ = b.grow(9);
    check_len_le_cap(&b);
    b.set_byte(0, 1);
    check_len_le_cap(&b);
    let _ = b.done(2);
    check_len_le_cap(&b);
}

#[test]
fn length_le_capacity_uninit() {
    let mut b = UninitFixedBuffer::new(6);
    check_len_le_cap(&b);
    let _ = b.grow(9);
    check_len_le_cap(&b);
    b.set_byte(5, 1);
    check_len_le_cap(&b);
    let _ = b.done(6);
    check_len_le_cap(&b);
}

fn check_round_trip<B: RxBuffer>(buf: &mut B, n: usize) {
    let mut data: Vec<u8> = Vec::new();
    let mut i: usize = 0;
    while i < n {
        data.push((17 + 3 * i) as u8);
        i += 1;
    }
    assert!(data.len() <= buf.capacity());
    fill_from(buf, &data);
    let sealed = buf.done(n);
    assert_eq!(sealed, data);
}

#[test]
fn round_trip_growable() {
    let mut b = GrowableBuffer::with_capacity(8);
    check_round_trip(&mut b, 0);
    check_round_trip(&mut b, 1);
    check_round_trip(&mut b, 8);
    // read back through the write-out view as well
    assert_eq!(b.length(), 8);
    assert_eq!(b.as_bytes().len(), 8);
    assert_eq!(b.as_bytes()[7], (17 + 3 * 7) as u8);
}

#[test]
fn round_trip_fixed() {
    let mut b = FixedBuffer::zeroed(8);
    check_round_trip(&mut b, 0);
    check_round_trip(&mut b, 1);
    check_round_trip(&mut b, 8);
    // the fixed shape keeps its whole extent readable; the written prefix
    // comes back through the write-out view too
    assert_eq!(b.len(), 8);
    assert_eq!(b.as_bytes()[0], 17);
}

#[test]
fn round_trip_uninit() {
    let mut b = UninitFixedBuffer::new(8);
    check_round_trip(&mut b, 0);
    check_round_trip(&mut b, 1);
    check_round_trip(&mut b, 8);
    assert_eq!(b.length(), 8);
}

#[test]
fn grow_monotonic_idempotent() {
    let mut b = GrowableBuffer::with_capacity(4);
    // a target at or below the capacity is a no-op success
    assert_eq!(b.grow(2), Ok(()));
    assert_eq!(b.capacity(), 4);
    assert_eq!(b.grow(4), Ok(()));
    assert_eq!(b.capacity(), 4);
    // a target above the capacity reaches at least the target
    assert_eq!(b.grow(9), Ok(()));
    let cap = b.capacity();
    assert!(cap >= 9);
    // growing again with the same target changes nothing
    assert_eq!(b.grow(9), Ok(()));
    assert_eq!(b.capacity(), cap);
}

#[test]
fn grow_fixed_fails() {
    let mut b = FixedBuffer::zeroed(3);
    assert_eq!(b.grow(10), Err(CannotResize));
    assert_eq!(b.capacity(), 3);
    assert_eq!(b.grow(0), Err(CannotResize));
    assert_eq!(b.capacity(), 3);
}

#[test]
fn grow_uninit_fails() {
    let mut b = UninitFixedBuffer::new(3);
    assert_eq!(b.grow(10), Err(CannotResize));
    assert_eq!(b.capacity(), 3);
    assert_eq!(b.grow(0), Err(CannotResize));
    assert_eq!(b.capacity(), 3);
}

#[test]
fn uninit_four_byte_scenario() {
    let mut b = UninitFixedBuffer::new(4);
    fill_from(&mut b, b"foo\n");
    let sealed = b.done(4);
    assert_eq!(sealed.len(), 4);
    assert_eq!(sealed, vec![102, 111, 111, 10]);
}

#[test]
fn growable_from_zero_scenario() {
    let mut b = GrowableBuffer::new();
    assert_eq!(b.capacity(), 0);
    b.grow(4).unwrap();
    assert!(b.capacity() >= 4);
    fill_from(&mut b, b"foo\n");
    let sealed = b.done(4);
    assert_eq!(sealed, b"foo\n");
    assert_eq!(b.length(), 4);
    assert!(b.capacity() >= 4);
}

#[test]
fn fixed_resize_unsupported() {
    let mut b = FixedBuffer::zeroed(2);
    assert!(!b.can_set_capacity());
    assert_eq!(b.grow(4), Err(CannotResize));
    assert_eq!(b.capacity(), 2);
}

#[test]
fn set_capacity_grows_only() {
    let mut b = GrowableBuffer::with_capacity(2);
    b.set_byte(0, 42);
    b.set_capacity(8);
    assert_eq!(b.capacity(), 8);
    // shrinking is never done
    b.set_capacity(3);
    assert_eq!(b.capacity(), 8);
    // old bytes kept, new bytes zero
    let sealed = b.done(8);
    assert_eq!(sealed[0], 42);
    assert_eq!(sealed[1], 0);
    assert_eq!(sealed[7], 0);
}

#[test]
fn empty_round_trip() {
    let mut b = GrowableBuffer::new();
    fill_from(&mut b, b"");
    let sealed = b.done(0);
    assert_eq!(sealed.len(), 0);
    assert_eq!(b.length(), 0);
    assert_eq!(b.as_bytes(), b"");
}

#[test]
fn uninit_exposes_only_sealed_prefix() {
    let mut b = UninitFixedBuffer::new(6);
    fill_from(&mut b, b"abcdef");
    let sealed = b.done(2);
    assert_eq!(sealed, b"ab");
    assert_eq!(b.length(), 2);
}
