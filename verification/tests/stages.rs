use sodium::error::SodiumError;
use sodium::kdf::{check_lengths, derive_into, surface};
use sodium::secbuf::SecBuf;
use sodium::util::{check_buf_len, decimal_string};

fn open_for_reading(len: usize) -> SecBuf {
    let mut buf = SecBuf::with_insecure(len);
    buf.read_lock();
    buf
}

fn text(r: Result<(), SodiumError>) -> String {
    match r {
        Err(SodiumError::OutputLength(text)) => text,
        other => panic!("expected an OutputLength error, got {:?}", other),
    }
}

#[test]
fn check_buf_len_refuses_outside_the_range() {
    assert!(check_buf_len(0));
    assert!(check_buf_len(2));
    assert!(check_buf_len(8));
    assert!(check_buf_len(15));
    assert!(!check_buf_len(16));
    assert!(!check_buf_len(32));
    assert!(!check_buf_len(33));
    assert!(!check_buf_len(64));
    assert!(check_buf_len(65));
    assert!(check_buf_len(usize::MAX));
}

#[test]
fn decimal_string_writes_numerals() {
    assert_eq!(decimal_string(0), "0");
    assert_eq!(decimal_string(7), "7");
    assert_eq!(decimal_string(10), "10");
    assert_eq!(decimal_string(65), "65");
    assert_eq!(decimal_string(1009), "1009");
    assert_eq!(decimal_string(1234567890), "1234567890");
    assert_eq!(decimal_string(usize::MAX), usize::MAX.to_string());
}

#[test]
fn check_lengths_accepts_valid_lengths() {
    for len in [16usize, 32, 64] {
        assert_eq!(check_lengths(&open_for_reading(len), &open_for_reading(8)), Ok(()));
    }
}

#[test]
fn check_lengths_names_the_output_length() {
    assert_eq!(
        text(check_lengths(&open_for_reading(2), &open_for_reading(8))),
        "Invalid 'out' Buffer length:2"
    );
    assert_eq!(
        text(check_lengths(&open_for_reading(100), &open_for_reading(8))),
        "Invalid 'out' Buffer length:100"
    );
    assert_eq!(
        text(check_lengths(&open_for_reading(0), &open_for_reading(2))),
        "Invalid 'out' Buffer length:0"
    );
}

#[test]
fn check_lengths_names_the_context_length() {
    assert_eq!(
        text(check_lengths(&open_for_reading(32), &open_for_reading(2))),
        "context must be a Buffer of length: 8."
    );
    assert_eq!(
        text(check_lengths(&open_for_reading(16), &open_for_reading(9))),
        "context must be a Buffer of length: 8."
    );
}

#[test]
fn surface_passes_success_on() {
    assert_eq!(surface(Ok(()), 32), Ok(()));
    assert_eq!(surface(Ok(()), 2), Ok(()));
}

#[test]
fn surface_turns_failure_into_output_length() {
    assert_eq!(text(surface(Err(()), 7)), "Invalid 'out' Buffer length:7");
    assert_eq!(
        surface(Err(()), 65),
        Err(SodiumError::OutputLength(String::from("Invalid 'out' Buffer length:65")))
    );
}

#[test]
fn derive_into_fills_an_open_buffer() {
    let mut out = SecBuf::with_secure(32);
    out.write_lock();
    let context = open_for_reading(8);
    let mut parent = SecBuf::with_secure(32);
    parent.read_lock();
    assert_eq!(derive_into(&mut out, 1, &context, &parent), Ok(()));
    assert_eq!(
        out.as_slice(),
        &[
            0x35, 0x87, 0xb8, 0x68, 0xc7, 0xc5, 0x04, 0x95, 0xf0, 0xe8, 0x36, 0xd9, 0x93, 0x58,
            0x49, 0xff, 0x06, 0x5b, 0x53, 0x0b, 0xe2, 0x82, 0xe5, 0xd3, 0x56, 0x7e, 0xda, 0x61,
            0x5d, 0x91, 0x01, 0x38,
        ]
    );
}

#[test]
fn derive_into_surfaces_the_refusal_of_the_primitive() {
    for len in [0usize, 15, 65] {
        let mut out = SecBuf::with_secure(len);
        out.write_lock();
        out.write(0, &vec![3u8; len]);
        let context = open_for_reading(8);
        let mut parent = SecBuf::with_secure(32);
        parent.read_lock();
        let r = derive_into(&mut out, 1, &context, &parent);
        assert_eq!(text(r), format!("Invalid 'out' Buffer length:{}", len));
        assert_eq!(out.as_slice(), &vec![3u8; len][..]);
    }
}
