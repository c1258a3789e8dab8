use iroh_bridge::hex::{hex_decode, hex_encode};

#[test]
fn hex_roundtrip() {
    let input = [0xde, 0xad, 0xbe, 0xef, 0x00, 0xff];
    let encoded = hex_encode(&input);
    assert_eq!(encoded, "deadbeef00ff");
    let decoded = hex_decode(&encoded).unwrap();
    assert_eq!(decoded, input);
}

#[test]
fn hex_decode_odd_length() {
    assert!(hex_decode("abc").is_err());
}

#[test]
fn hex_decode_invalid_char() {
    assert!(hex_decode("zz").is_err());
}

#[test]
fn hex_digits_come_high_half_first() {
    assert_eq!(hex_encode(&[0x01, 0x23, 0x45, 0x67]), "01234567");
    assert_eq!(hex_encode(&[0x89, 0xab, 0xcd, 0xef]), "89abcdef");
    assert_eq!(hex_encode(&[]), "");
}

#[test]
fn hex_decodes_every_byte_it_encodes() {
    let mut all = Vec::new();
    for byte in 0..=255u8 {
        all.push(byte);
    }
    let text = hex_encode(&all);
    assert_eq!(text.len(), 512);
    assert_eq!(hex_decode(&text).unwrap(), all);
}

#[test]
fn hex_encodes_what_it_decoded() {
    for text in ["", "00", "c0ffee", "0123456789abcdef"] {
        assert_eq!(hex_encode(&hex_decode(text).unwrap()), text);
    }
}

#[test]
fn hex_decode_ignores_white_space_around_the_digits() {
    assert_eq!(hex_decode(" \t0aff\r\n").unwrap(), [0x0a, 0xff]);
    assert_eq!(hex_decode("\u{3000}0aff\u{a0}\u{2029}").unwrap(), [0x0a, 0xff]);
    assert_eq!(hex_decode(" \n ").unwrap(), []);
    assert!(hex_decode("\u{200b}0aff").is_err());
    assert!(hex_decode("0a ff").is_err());
}

#[test]
fn hex_decode_takes_off_exactly_the_white_space_characters() {
    for c in ('\0'..=char::MAX).filter(|c| !c.is_ascii_hexdigit()) {
        let text = format!("{c}0a{c}");
        assert_eq!(hex_decode(&text).is_ok(), c.is_whitespace(), "{c:?}");
    }
}

#[test]
fn hex_decode_names_the_first_fault() {
    assert_eq!(hex_decode("abc").unwrap_err(), "invalid length at 2");
    assert_eq!(hex_decode("zzz").unwrap_err(), "invalid length at 2");
    assert_eq!(hex_decode("zz").unwrap_err(), "invalid symbol at 0");
    assert_eq!(hex_decode("00f!").unwrap_err(), "invalid symbol at 3");
    assert_eq!(hex_decode("  00f!").unwrap_err(), "invalid symbol at 3");
    assert_eq!(hex_decode("AB").unwrap_err(), "invalid symbol at 0");
    assert_eq!(hex_decode("\u{e9}").unwrap_err(), "invalid symbol at 0");
    let long = format!("{}x0", "0".repeat(1234));
    assert_eq!(hex_decode(&long).unwrap_err(), "invalid symbol at 1234");
}
