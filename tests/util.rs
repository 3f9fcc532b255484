use rustpush_nac::{base64_decode, base64_encode, decode_hex, encode_hex, generate_validation_data, HexError};

#[test]
fn test_generate_validation_data() {
    let validation = generate_validation_data(&[0x02, 0x81, 0xff, 0x10]);
    println!("{}", validation);
    assert_eq!(validation, "AoH/EA==");
}

#[test]
fn validation_data_round_trips() {
    let blob: Vec<u8> = (0..=255u8).collect();
    let text = generate_validation_data(&blob);
    assert!(!text.is_empty());
    assert_eq!(base64_decode(&text), Some(blob));
}

#[test]
fn base64_known_values() {
    assert_eq!(base64_encode(b"hello"), "aGVsbG8=");
    assert_eq!(base64_encode(b""), "");
    assert_eq!(base64_decode("aGVsbG8="), Some(b"hello".to_vec()));
    assert_eq!(base64_decode("aGVsbG8"), None);
    assert_eq!(base64_decode("!!"), None);
}

#[test]
fn hex_encodes_lower_case() {
    assert_eq!(encode_hex(&[0xde, 0xad, 0x00, 0x0f]), "dead000f");
    assert_eq!(encode_hex(&[]), "");
}

#[test]
fn hex_decodes_either_case() {
    assert_eq!(decode_hex("DEad000F"), Ok(vec![0xde, 0xad, 0x00, 0x0f]));
    assert_eq!(decode_hex(""), Ok(vec![]));
    assert_eq!(decode_hex("+f"), Ok(vec![0x0f]));
}

#[test]
fn hex_errors() {
    assert_eq!(decode_hex("abc"), Err(HexError::OddLength));
    assert_eq!(decode_hex("zz"), Err(HexError::InvalidDigit));
    assert_eq!(decode_hex("a"), Err(HexError::OddLength));
    assert_eq!(decode_hex("0g1"), Err(HexError::InvalidDigit));
    assert_eq!(decode_hex("-1"), Err(HexError::InvalidDigit));
}
