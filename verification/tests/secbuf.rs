use sodium::secbuf::{ProtectState, SecBuf};

#[test]
fn new_buffers_hold_zeros() {
    let mut secure = SecBuf::with_secure(32);
    secure.read_lock();
    assert_eq!(secure.len(), 32);
    assert_eq!(secure.as_slice(), &[0u8; 32]);
    let mut plain = SecBuf::with_insecure(5);
    plain.read_lock();
    assert_eq!(plain.len(), 5);
    assert_eq!(plain.as_slice(), &[0u8; 5]);
    let mut empty = SecBuf::with_insecure(0);
    empty.read_lock();
    assert_eq!(empty.len(), 0);
}

#[test]
fn write_copies_at_the_offset() {
    let mut buf = SecBuf::with_insecure(6);
    buf.write_lock();
    buf.write(2, &[9, 8, 7]);
    assert_eq!(buf.as_slice(), &[0, 0, 9, 8, 7, 0]);
    buf.write(0, &[1]);
    buf.write(5, &[5]);
    buf.write(3, &[]);
    assert_eq!(buf.as_slice(), &[1, 0, 9, 8, 7, 5]);
    buf.write(0, &[6, 5, 4, 3, 2, 1]);
    assert_eq!(buf.as_slice(), &[6, 5, 4, 3, 2, 1]);
    assert_eq!(buf.len(), 6);
}

#[test]
fn as_mut_slice_writes_in_place() {
    let mut buf = SecBuf::with_secure(4);
    buf.write_lock();
    buf.as_mut_slice()[1] = 42;
    assert_eq!(buf.as_mut_slice().len(), 4);
    buf.release();
    buf.read_lock();
    assert_eq!(buf.as_slice(), &[0, 42, 0, 0]);
}

#[test]
fn locks_keep_the_bytes() {
    let mut buf = SecBuf::with_secure(3);
    buf.write_lock();
    buf.write(0, &[1, 2, 3]);
    buf.release();
    buf.read_lock();
    assert_eq!(buf.as_slice(), &[1, 2, 3]);
    buf.release();
    buf.write_lock();
    assert_eq!(buf.as_slice(), &[1, 2, 3]);
}

#[test]
fn protect_states_are_distinct() {
    assert_ne!(ProtectState::NoAccess, ProtectState::ReadOnly);
    assert_ne!(ProtectState::ReadOnly, ProtectState::ReadWrite);
    assert_ne!(ProtectState::NoAccess, ProtectState::ReadWrite);
}
