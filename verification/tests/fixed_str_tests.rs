use gpio_lines::fixed_str::{find_nul, is_valid_utf8, FixedStr, FixedStrErr};

#[test]
fn new_stores_text_with_nul_padding() {
    let f = FixedStr::new("hello").unwrap();
    assert_eq!(f.len(), 5);
    assert!(!f.is_empty());
    assert_eq!(f.as_text(), "hello");

    let raw = f.into_byte_array();
    assert_eq!(raw.len(), 32);
    assert_eq!(&raw[..5], b"hello");
    assert!(raw[5..].iter().all(|&b| b == 0));
}

#[test]
fn empty_is_empty() {
    let f = FixedStr::empty();
    assert_eq!(f.len(), 0);
    assert!(f.is_empty());
    assert_eq!(f.as_text(), "");
}

#[test]
fn new_rejects_text_without_room_for_the_terminator() {
    // The 32-byte wire field keeps one byte for its NUL terminator, so
    // a 32-byte label is already too long.
    let full = "x".repeat(32);
    match FixedStr::new(&full) {
        Err(FixedStrErr::CapacityOverflow { capacity, required }) => {
            assert_eq!(capacity, 31);
            assert_eq!(required, 32);
        }
        other => panic!("expected capacity overflow, got {:?}", other),
    }
    // Exactly the reserved width still fits, terminator included.
    let exact = "y".repeat(31);
    let f = FixedStr::new(&exact).unwrap();
    assert_eq!(f.len(), 31);
    assert_eq!(f.into_byte_array()[31], 0);
}

#[test]
fn new_rejects_embedded_nul() {
    assert!(matches!(FixedStr::new("a\0b"), Err(FixedStrErr::EmbeddedNul)));
}

#[test]
fn write_appends_to_stored_text() {
    let mut f = FixedStr::new("ab").unwrap();
    f.write("cd").unwrap();
    assert_eq!(f.as_text(), "abcd");
    assert_eq!(f.len(), 4);

    let long = "z".repeat(30);
    assert!(matches!(f.write(&long), Err(FixedStrErr::CapacityOverflow { .. })));
    assert_eq!(f.as_text(), "abcd");
}

#[test]
fn from_byte_array_round_trips() {
    let f = FixedStr::new("line-a").unwrap();
    let raw = f.into_byte_array();
    let g = FixedStr::from_byte_array(raw).unwrap();
    assert_eq!(g.as_text(), "line-a");
}

#[test]
fn from_byte_array_rejects_junk_after_nul() {
    let mut raw = vec![0u8; 32];
    raw[0] = b'a';
    raw[1] = 0;
    raw[2] = b'x';
    assert!(matches!(FixedStr::from_byte_array(raw), Err(FixedStrErr::TrailingBytes)));
}

#[test]
fn decode_accepts_a_full_width_name() {
    // Decoding stays wider than encoding: a kernel-filled field may use
    // all 32 bytes with no terminator.
    let raw = vec![b'n'; 32];
    let f = FixedStr::from_byte_array(raw).unwrap();
    assert_eq!(f.len(), 32);
    assert_eq!(f.as_text(), "n".repeat(32));
}

#[test]
fn from_byte_array_rejects_invalid_utf8() {
    let mut raw = vec![0u8; 32];
    raw[0] = 0xff;
    assert!(matches!(FixedStr::from_byte_array(raw), Err(FixedStrErr::Utf8)));
}

#[test]
fn from_bytes_reads_up_to_the_first_nul() {
    let f = FixedStr::from_bytes(b"abc\0garbage").unwrap();
    assert_eq!(f.as_text(), "abc");

    // A full-width buffer without a NUL is accepted whole.
    let full = [b'q'; 32];
    let g = FixedStr::from_bytes(&full).unwrap();
    assert_eq!(g.len(), 32);

    // A short buffer without a NUL is not.
    match FixedStr::from_bytes(b"ab") {
        Err(FixedStrErr::CapacityOverflow { capacity, required }) => {
            assert_eq!(capacity, 32);
            assert_eq!(required, 2);
        }
        other => panic!("expected capacity overflow, got {:?}", other),
    }

    // So is an over-long buffer whose first NUL sits past the width.
    let long = [b'q'; 40];
    assert!(matches!(FixedStr::from_bytes(&long), Err(FixedStrErr::CapacityOverflow { .. })));
}

#[test]
fn find_nul_scans_to_the_first_zero() {
    assert_eq!(find_nul(b"abc\0def"), 3);
    assert_eq!(find_nul(b"\0"), 0);
    assert_eq!(find_nul(b"abc"), 3);
    assert_eq!(find_nul(b""), 0);
}

#[test]
fn utf8_validator_accepts_well_formed_sequences() {
    assert!(is_valid_utf8(b""));
    assert!(is_valid_utf8(b"plain ascii"));
    assert!(is_valid_utf8("caf\u{e9}".as_bytes()));
    assert!(is_valid_utf8("\u{20ac}".as_bytes()));
    assert!(is_valid_utf8("\u{1d11e}".as_bytes()));
}

#[test]
fn utf8_validator_rejects_malformed_sequences() {
    // A lone continuation byte.
    assert!(!is_valid_utf8(&[0x80]));
    // An overlong two-byte encoding of an ASCII value.
    assert!(!is_valid_utf8(&[0xc0, 0x80]));
    // A surrogate codepoint.
    assert!(!is_valid_utf8(&[0xed, 0xa0, 0x80]));
    // A truncated multi-byte sequence.
    assert!(!is_valid_utf8(&[0xe2, 0x82]));
    // A byte no UTF-8 sequence uses.
    assert!(!is_valid_utf8(&[0xff]));
    // A value past the Unicode range.
    assert!(!is_valid_utf8(&[0xf5, 0x80, 0x80, 0x80]));
}

#[test]
fn utf8_validator_agrees_with_std() {
    let samples: Vec<Vec<u8>> = vec![
        b"abc".to_vec(),
        vec![0xc3, 0xa9],
        vec![0xc3],
        vec![0xe0, 0x9f, 0x80],
        vec![0xe0, 0xa0, 0x80],
        vec![0xf4, 0x8f, 0xbf, 0xbf],
        vec![0xf4, 0x90, 0x80, 0x80],
        vec![0x7f, 0x80],
    ];
    for s in samples {
        assert_eq!(is_valid_utf8(&s), std::str::from_utf8(&s).is_ok(), "bytes {:?}", s);
    }
}
