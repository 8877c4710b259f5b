use cbuffer::FixedBuffer;
use cbuffer::RxBuffer;
use cbuffer::TxBuffer;

fn poke_foo(buf: &mut FixedBuffer, len: usize) {
    let foo = b"foo\n";
    assert!(len >= foo.len());

    let mut i: usize = 0;
    while i < foo.len() {
        buf.set_byte(i, foo[i]);
        i += 1;
    }
}

fn assert_foo(buf: &FixedBuffer, len: usize) {
    let foo = b"foo\n";
    assert!(len >= foo.len());

    let bytes = buf.as_bytes();
    let mut i: usize = 0;
    while i < foo.len() {
        assert_eq!(bytes[i], foo[i]);
        i += 1;
    }
}

#[test]
fn foo_test() {
    let mut ary = FixedBuffer::zeroed(10);
    poke_foo(&mut ary, 10);
    assert_foo(&ary, 10);
}

#[test]
#[should_panic]
fn foo_fail_test() {
    let ary = FixedBuffer::zeroed(10);
    assert_foo(&ary, 10);
}
