use sol_core::{
    decode_base58, decode_base64, encode_keypair_from_seed, generate_keypair, parse_secret, sign, sign_message, verify, verify_message, CoreError,
    Keypair,
};
use std::collections::HashSet;

const RFC_SECRET: &str = "49W385L4rePHy6PAaQUovbD2aacgN4HsKXSMeUzRg4fmwXszN91JuMFrQRj3vMDpZuRF3ZknQBuRBoWQJEfXstMw";
const RFC_PUBLIC: &str = "FVen3X669xLzsi6N2V91DoiyzHzg1uAgqiT8jZ9nS96Z";
const RFC_EMPTY_SIGNATURE: &str =
    "5VZDAMNgrHKQhuLMgG6CioSHfx645dl02HPgZSJJAVVfuIIVkKM7rMYeOXAc+bRr0lv18FlbviRlUUFDjnoQCw==";

#[test]
fn generated_keypair_is_64_bytes_with_its_public_half() {
    let k = Keypair::generate();
    let b = k.to_bytes();
    assert_eq!(b.len(), 64);
    assert_eq!(k.public_key(), b[32..].to_vec());
    assert_eq!(decode_base58(&k.pubkey_text()).unwrap(), b[32..].to_vec());
    assert_eq!(decode_base58(&k.secret_text()).unwrap(), b);
}

#[test]
fn generated_keypairs_are_distinct() {
    let mut seen = HashSet::new();
    for _ in 0..128 {
        assert!(seen.insert(Keypair::generate().public_key()));
    }
}

#[test]
fn encoded_keypair_parses_back() {
    let e = generate_keypair();
    let k = parse_secret(&e.secret).unwrap();
    assert_eq!(k.pubkey_text(), e.pubkey);
    assert_eq!(k.secret_text(), e.secret);
}

#[test]
fn known_vector_signature() {
    let k = parse_secret(RFC_SECRET).unwrap();
    assert_eq!(k.pubkey_text(), RFC_PUBLIC);
    let sig = sign(b"", &k);
    assert_eq!(sig, decode_base64(RFC_EMPTY_SIGNATURE).unwrap());
    assert_eq!(verify(b"", &sig, &k.public_key()), Ok(true));
}

#[test]
fn signing_is_deterministic() {
    let k = Keypair::generate();
    assert_eq!(sign(b"same message", &k), sign(b"same message", &k));
}

#[test]
fn signature_verifies_under_its_public_key() {
    for _ in 0..8 {
        let k = Keypair::generate();
        for m in [&b""[..], b"hello", &[0u8; 1000][..]] {
            let sig = sign(m, &k);
            assert_eq!(sig.len(), 64);
            assert_eq!(verify(m, &sig, &k.public_key()), Ok(true));
        }
    }
}

#[test]
fn signature_over_other_message_is_false() {
    let k = Keypair::generate();
    let sig = sign(b"pay 1", &k);
    assert_eq!(verify(b"pay 2", &sig, &k.public_key()), Ok(false));
    let other = Keypair::generate();
    assert_eq!(verify(b"pay 1", &sig, &other.public_key()), Ok(false));
}

#[test]
fn wrong_lengths_are_errors() {
    let k = Keypair::generate();
    let sig = sign(b"m", &k);
    assert_eq!(verify(b"m", &sig, &k.public_key()[..31]), Err(CoreError::InvalidPublicKeyLength));
    assert_eq!(verify(b"m", &sig, &[0u8; 33]), Err(CoreError::InvalidPublicKeyLength));
    assert_eq!(verify(b"m", &sig[..63], &k.public_key()), Err(CoreError::InvalidSignatureLength));
    assert_eq!(verify(b"m", &[], &[]), Err(CoreError::InvalidPublicKeyLength));
}

#[test]
fn bad_point_is_a_mismatch_not_an_error() {
    let mut pk = [0u8; 32];
    pk[0] = 2;
    assert_eq!(verify(b"m", &[0u8; 64], &pk), Ok(false));
}

#[test]
fn secret_errors() {
    assert_eq!(parse_secret("0OIl").err(), Some(CoreError::InvalidSecretEncoding));
    assert_eq!(parse_secret(RFC_PUBLIC).err(), Some(CoreError::InvalidSecretLength));
    assert_eq!(Keypair::from_bytes(&[7u8; 63]).err(), Some(CoreError::InvalidSecretLength));
    let mut b = decode_base58(RFC_SECRET).unwrap();
    b[63] ^= 1;
    assert_eq!(Keypair::from_bytes(&b).err(), Some(CoreError::InvalidKeypair));
}

#[test]
fn sign_message_and_verify_message() {
    let s = sign_message("", RFC_SECRET).unwrap();
    assert_eq!(s.signature, RFC_EMPTY_SIGNATURE);
    assert_eq!(s.public_key, RFC_PUBLIC);
    assert_eq!(s.message, "");
    assert_eq!(verify_message("", &s.signature, &s.public_key), Ok(true));
    assert_eq!(verify_message("x", &s.signature, &s.public_key), Ok(false));
    let t = sign_message("héllo", &generate_keypair().secret).unwrap();
    assert_eq!(verify_message("héllo", &t.signature, &t.public_key), Ok(true));
}

#[test]
fn verify_message_errors() {
    let s = sign_message("m", RFC_SECRET).unwrap();
    assert_eq!(verify_message("m", &s.signature, "0bad"), Err(CoreError::InvalidPublicKeyEncoding));
    assert_eq!(verify_message("m", &s.signature, "StV1DL6CwTryKyV"), Err(CoreError::InvalidPublicKeyLength));
    assert_eq!(verify_message("m", "not base64!", RFC_PUBLIC), Err(CoreError::InvalidSignatureEncoding));
    assert_eq!(verify_message("m", "aGVsbG8=", RFC_PUBLIC), Err(CoreError::InvalidSignatureLength));
    assert_eq!(sign_message("m", "short").err(), Some(CoreError::InvalidSecretLength));
}

#[test]
fn keypair_from_seed_is_deterministic() {
    let secret = decode_base58(RFC_SECRET).unwrap();
    let k = Keypair::from_seed(&secret[..32]).unwrap();
    assert_eq!(k.to_bytes(), secret);
    assert_eq!(k.pubkey_text(), RFC_PUBLIC);
    assert_eq!(Keypair::from_seed(&secret[..32]).unwrap().to_bytes(), k.to_bytes());
    assert_eq!(Keypair::from_seed(&secret[..31]).err(), Some(CoreError::InvalidSecretLength));
    assert_eq!(Keypair::from_seed(&secret).err(), Some(CoreError::InvalidSecretLength));
}

#[test]
fn encoded_keypair_from_seed() {
    let secret = decode_base58(RFC_SECRET).unwrap();
    let e = encode_keypair_from_seed(&secret[..32]).unwrap();
    assert_eq!(e.secret, RFC_SECRET);
    assert_eq!(e.pubkey, RFC_PUBLIC);
    assert_eq!(encode_keypair_from_seed(&secret).err(), Some(CoreError::InvalidSecretLength));
}

#[test]
fn generated_text_keypair_signs_and_verifies() {
    let e = generate_keypair();
    assert_eq!(decode_base58(&e.pubkey).unwrap().len(), 32);
    let secret = decode_base58(&e.secret).unwrap();
    assert_eq!(secret.len(), 64);
    assert_eq!(secret[32..].to_vec(), decode_base58(&e.pubkey).unwrap());
    let s = sign_message("round trip", &e.secret).unwrap();
    assert_eq!(s.public_key, e.pubkey);
    assert_eq!(verify_message("round trip", &s.signature, &e.pubkey), Ok(true));
}
