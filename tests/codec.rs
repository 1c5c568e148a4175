use sol_core::{decode_base58, decode_base64, encode_base58, encode_base64, parse_address, AddressField, CoreError};

#[test]
fn base58_encodes_known_text() {
    assert_eq!(encode_base58(b"hello world"), "StV1DL6CwTryKyV");
    assert_eq!(encode_base58(&[0, 0, 1]), "112");
    assert_eq!(encode_base58(&[]), "");
}

#[test]
fn base58_decodes_known_text() {
    assert_eq!(decode_base58("StV1DL6CwTryKyV").unwrap(), b"hello world".to_vec());
    assert_eq!(decode_base58("112").unwrap(), vec![0, 0, 1]);
}

#[test]
fn base58_round_trip() {
    let samples: Vec<Vec<u8>> = vec![vec![], vec![0], vec![0, 0, 0, 7], (0..=255).collect(), vec![255; 64]];
    for b in samples {
        assert_eq!(decode_base58(&encode_base58(&b)).unwrap(), b);
    }
}

#[test]
fn base58_rejects_characters_outside_alphabet() {
    for s in ["0abc", "abcl", "Iabc", "abOc", "ab c", "+/"] {
        assert_eq!(decode_base58(s), Err(CoreError::InvalidEncoding));
    }
}

#[test]
fn base64_encodes_known_text() {
    assert_eq!(encode_base64(b"hello"), "aGVsbG8=");
    assert_eq!(encode_base64(b"hi!"), "aGkh");
    assert_eq!(encode_base64(&[]), "");
}

#[test]
fn base64_round_trip() {
    let samples: Vec<Vec<u8>> = vec![vec![], vec![0], vec![1, 2], vec![1, 2, 3], (0..=255).collect()];
    for b in samples {
        assert_eq!(decode_base64(&encode_base64(&b)).unwrap(), b);
    }
}

#[test]
fn base64_rejects_bad_alphabet_and_padding() {
    assert_eq!(decode_base64("aGVsbG8=").unwrap(), b"hello".to_vec());
    assert_eq!(decode_base64("aGVsbG8"), Err(CoreError::InvalidEncoding));
    assert_eq!(decode_base64("aGVs*G8="), Err(CoreError::InvalidEncoding));
    assert_eq!(decode_base64("a"), Err(CoreError::InvalidEncoding));
}

#[test]
fn address_parses_to_32_bytes() {
    assert_eq!(parse_address("11111111111111111111111111111111", AddressField::Mint).unwrap(), vec![0u8; 32]);
    assert_eq!(
        parse_address("4vJ9JU1bJJE96FWSJKvHsmmFADCg4gpZQff4P3bkLKi", AddressField::Owner).unwrap(),
        vec![1u8; 32]
    );
}

#[test]
fn address_of_wrong_length_is_rejected() {
    assert_eq!(
        parse_address("tVojvhToWjQ8Xvo4UPx2Xz9eRy7auyYMmZBjc2XfN", AddressField::To),
        Err(CoreError::InvalidAddress(AddressField::To))
    );
    assert_eq!(parse_address("", AddressField::From), Err(CoreError::InvalidAddress(AddressField::From)));
}

#[test]
fn address_outside_alphabet_is_rejected() {
    assert_eq!(
        parse_address("0vJ9JU1bJJE96FWSJKvHsmmFADCg4gpZQff4P3bkLKi", AddressField::Mint),
        Err(CoreError::InvalidAddress(AddressField::Mint))
    );
    assert_eq!(
        parse_address("lvJ9JU1bJJE96FWSJKvHsmmFADCg4gpZQff4P3bkLKi", AddressField::Authority),
        Err(CoreError::InvalidAddress(AddressField::Authority))
    );
}

#[test]
fn errors_describe_the_failed_field() {
    assert_eq!(CoreError::InvalidAddress(AddressField::MintAuthority).describe(), "Invalid mintAuthority public key");
    assert_eq!(CoreError::InvalidSignatureLength.describe(), "Invalid signature: expected 64 bytes");
    assert_eq!(AddressField::Destination.name(), "destination");
    assert_eq!(CoreError::InvalidPublicKeyEncoding.describe(), "Invalid public key: not base58");
    assert_eq!(CoreError::InvalidSignatureEncoding.describe(), "Invalid signature: not base64");
}


#[test]
fn decoded_text_encodes_back() {
    for s in ["", "1", "112", "StV1DL6CwTryKyV", "4vJ9JU1bJJE96FWSJKvHsmmFADCg4gpZQff4P3bkLKi"] {
        assert_eq!(encode_base58(&decode_base58(s).unwrap()), s);
    }
    for s in ["", "aGk=", "aGVsbG8=", "aGkh"] {
        assert_eq!(encode_base64(&decode_base64(s).unwrap()), s);
    }
    assert_eq!(decode_base64("aGl="), Err(CoreError::InvalidEncoding));
}
