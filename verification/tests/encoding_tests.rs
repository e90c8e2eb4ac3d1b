use key_tool::encoding::decode_key;
use key_tool::encoding::encode_key;
use key_tool::encoding::EncodingType;
use key_tool::errors::Error;
use key_tool::keys::PrivateKey;
use key_tool::laws::base64_output_rejected_by_hex;
use key_tool::laws::encode_decode_round_trip;
use key_tool::laws::hex_output_rejected_by_base64;

fn sample_bytes() -> Vec<u8> {
    (0u8..32u8).collect()
}

#[test]
fn hex_encode_exact_value() {
    let encoded = encode_key(EncodingType::Hex, &sample_bytes(), "Key").unwrap();
    assert_eq!(
        encoded,
        b"000102030405060708090A0B0C0D0E0F101112131415161718191A1B1C1D1E1F".to_vec()
    );
}

#[test]
fn hex_encode_matches_outside_encoder() {
    let bytes = vec![0xABu8; 32];
    let encoded = encode_key(EncodingType::Hex, &bytes, "Key").unwrap();
    assert_eq!(encoded, hex::encode_upper(&bytes).into_bytes());
}

#[test]
fn hex_decode_accepts_lower_case() {
    let data = b"000102030405060708090a0b0c0d0e0f101112131415161718191a1b1c1d1e1f".to_vec();
    assert_eq!(decode_key(EncodingType::Hex, &data).unwrap(), sample_bytes());
}

#[test]
fn hex_decode_trims_whitespace() {
    let mut data = b"\n  ".to_vec();
    data.extend_from_slice(b"000102030405060708090A0B0C0D0E0F101112131415161718191A1B1C1D1E1F");
    data.extend_from_slice(b" \t\r\n");
    assert_eq!(decode_key(EncodingType::Hex, &data).unwrap(), sample_bytes());
}

#[test]
fn hex_decode_rejects_bad_digit() {
    let mut data = b"000102030405060708090A0B0C0D0E0F101112131415161718191A1B1C1D1EXX".to_vec();
    data[0] = b'X';
    match decode_key(EncodingType::Hex, &data) {
        Err(Error::Parse(_, _)) => {}
        other => panic!("expected a parse error, got {:?}", other),
    }
}

#[test]
fn hex_decode_rejects_wrong_length() {
    match decode_key(EncodingType::Hex, &b"ABCD".to_vec()) {
        Err(Error::Parse(_, _)) => {}
        other => panic!("expected a parse error, got {:?}", other),
    }
}

#[test]
fn base64_encode_exact_value_for_zero_key() {
    let encoded = encode_key(EncodingType::Base64, &vec![0u8; 32], "Key").unwrap();
    let mut expected = vec![b'A'; 43];
    expected.push(b'=');
    assert_eq!(encoded, expected);
}

#[test]
fn base64_encode_matches_outside_encoder() {
    let bytes = sample_bytes();
    let encoded = encode_key(EncodingType::Base64, &bytes, "Key").unwrap();
    assert_eq!(encoded, base64::encode(&bytes).into_bytes());
}

#[test]
fn base64_decode_trims_whitespace() {
    let bytes = sample_bytes();
    let mut data = b"  ".to_vec();
    data.extend_from_slice(base64::encode(&bytes).as_bytes());
    data.extend_from_slice(b"\n");
    assert_eq!(decode_key(EncodingType::Base64, &data).unwrap(), bytes);
}

#[test]
fn base64_decode_rejects_bad_character() {
    let mut data = base64::encode(&sample_bytes()).into_bytes();
    data[0] = b'!';
    match decode_key(EncodingType::Base64, &data) {
        Err(Error::Parse(_, _)) => {}
        other => panic!("expected a parse error, got {:?}", other),
    }
}

#[test]
fn bcs_encode_exact_value() {
    let bytes = sample_bytes();
    let encoded = encode_key(EncodingType::BCS, &bytes, "Key").unwrap();
    let mut expected = vec![32u8];
    expected.extend_from_slice(&bytes);
    assert_eq!(encoded, expected);
}

#[test]
fn bcs_encode_matches_outside_encoder() {
    let bytes = vec![0x7Fu8; 32];
    let encoded = encode_key(EncodingType::BCS, &bytes, "Key").unwrap();
    assert_eq!(encoded, bcs::to_bytes(&bytes).unwrap());
}

#[test]
fn bcs_decode_rejects_wrong_prefix() {
    let mut data = vec![31u8];
    data.extend_from_slice(&sample_bytes());
    match decode_key(EncodingType::BCS, &data) {
        Err(Error::Serialization(_, _)) => {}
        other => panic!("expected a serialization error, got {:?}", other),
    }
}

#[test]
fn bcs_decode_rejects_trailing_bytes() {
    let mut data = vec![32u8];
    data.extend_from_slice(&sample_bytes());
    data.push(0);
    match decode_key(EncodingType::BCS, &data) {
        Err(Error::Serialization(_, _)) => {}
        other => panic!("expected a serialization error, got {:?}", other),
    }
}

#[test]
fn bcs_decode_rejects_empty_input() {
    match decode_key(EncodingType::BCS, &Vec::new()) {
        Err(Error::Serialization(_, _)) => {}
        other => panic!("expected a serialization error, got {:?}", other),
    }
}

#[test]
fn round_trip_all_encodings_direct() {
    for encoding in [EncodingType::Hex, EncodingType::BCS, EncodingType::Base64] {
        let bytes = sample_bytes();
        let encoded = encode_key(encoding, &bytes, "Key").unwrap();
        assert_eq!(decode_key(encoding, &encoded).unwrap(), bytes);
    }
}

#[test]
fn round_trip_all_encodings_both_key_types() {
    for encoding in [EncodingType::Hex, EncodingType::BCS, EncodingType::Base64] {
        let ed25519_key = PrivateKey::generate_ed25519_key();
        let expected = ed25519_key.to_bytes();
        assert_eq!(
            encode_decode_round_trip(encoding, &ed25519_key).unwrap(),
            expected
        );
        let seed = ed25519_key.to_bytes();
        let x25519_key = PrivateKey::from_ed25519_private_bytes(&seed).unwrap();
        let expected = x25519_key.to_bytes();
        assert_eq!(
            encode_decode_round_trip(encoding, &x25519_key).unwrap(),
            expected
        );
    }
}

#[test]
fn hex_text_fails_base64_decoding() {
    let key = PrivateKey::generate_ed25519_key();
    match hex_output_rejected_by_base64(&key) {
        Err(Error::Parse(_, _)) => {}
        other => panic!("expected a parse error, got {:?}", other),
    }
    let hex_text = encode_key(EncodingType::Hex, &key.to_bytes(), "Key").unwrap();
    assert!(matches!(
        decode_key(EncodingType::Base64, &hex_text),
        Err(Error::Parse(_, _))
    ));
}

#[test]
fn base64_text_fails_hex_decoding() {
    let key = PrivateKey::generate_ed25519_key();
    match base64_output_rejected_by_hex(&key) {
        Err(Error::Parse(_, _)) => {}
        other => panic!("expected a parse error, got {:?}", other),
    }
    let base64_text = encode_key(EncodingType::Base64, &key.to_bytes(), "Key").unwrap();
    assert!(matches!(
        decode_key(EncodingType::Hex, &base64_text),
        Err(Error::Parse(_, _))
    ));
}

#[test]
fn hex_text_fails_bcs_decoding() {
    let key = PrivateKey::generate_ed25519_key();
    let hex_text = encode_key(EncodingType::Hex, &key.to_bytes(), "Key").unwrap();
    assert!(matches!(
        decode_key(EncodingType::BCS, &hex_text),
        Err(Error::Serialization(_, _))
    ));
}
