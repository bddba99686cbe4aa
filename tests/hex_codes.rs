use ercp_device::{encode_code, parse_code, parse_value, HexError};

#[test]
fn code_round_trip_lowercase() {
    let b = parse_code("a5").unwrap();
    assert_eq!(b, 0xA5);
    assert_eq!(encode_code(b), "a5");
}

#[test]
fn code_round_trip_uppercase() {
    let b = parse_code("B0").unwrap();
    assert_eq!(b, 0xB0);
    assert_eq!(encode_code(b), "b0");
    assert_eq!(encode_code(b), "B0".to_lowercase());
}

#[test]
fn code_round_trip_every_byte() {
    for n in 0..=255u8 {
        let upper = format!("{:02X}", n);
        let lower = format!("{:02x}", n);
        assert_eq!(parse_code(&upper), Ok(n));
        assert_eq!(parse_code(&lower), Ok(n));
        assert_eq!(encode_code(parse_code(&upper).unwrap()), lower);
    }
}

#[test]
fn code_must_be_two_digits() {
    assert_eq!(parse_code("5"), Err(HexError::NotHex));
    assert_eq!(parse_code("0a0b"), Err(HexError::NotOneByte));
    assert_eq!(parse_code(""), Err(HexError::NotOneByte));
    assert_eq!(parse_code("zz"), Err(HexError::NotHex));
    assert_eq!(parse_code("+f"), Err(HexError::NotHex));
}

#[test]
fn value_decoding() {
    assert_eq!(parse_value(None), Ok(vec![]));
    assert_eq!(parse_value(Some("")), Ok(vec![]));
    assert_eq!(parse_value(Some("00ffA0")), Ok(vec![0x00, 0xFF, 0xA0]));
    assert_eq!(parse_value(Some("abc")), Err(HexError::NotHex));
    assert_eq!(parse_value(Some("0g")), Err(HexError::NotHex));
}

#[test]
fn encode_code_pads_to_two_digits() {
    assert_eq!(encode_code(0x00), "00");
    assert_eq!(encode_code(0x0f), "0f");
    assert_eq!(encode_code(0xff), "ff");
}
