use host_statistics::errors::DecodeError;
use host_statistics::identity::decode_pubkey;

/// A deterministic Ed25519 key pair for tests.
fn test_key_bytes() -> [u8; 32] {
    let sk = ed25519_dalek::SigningKey::from_bytes(&[7u8; 32]);
    sk.verifying_key().to_bytes()
}

#[test]
fn decode_pubkey_roundtrip_recovers_key_bytes() {
    let key_bytes = test_key_bytes();
    let encoded = base36::encode(&key_bytes);
    let key = match decode_pubkey(&encoded) {
        Ok(k) => k,
        Err(e) => panic!("expected a valid identity, got {:?}", e),
    };
    assert_eq!(key.to_bytes(), key_bytes.to_vec());
}

#[test]
fn decode_pubkey_rejects_characters_outside_alphabet() {
    match decode_pubkey("not!an#identity") {
        Err(DecodeError::InvalidEncoding) => (),
        other => panic!("expected InvalidEncoding, got {:?}", other.err()),
    }
}

#[test]
fn decode_pubkey_rejects_uppercase() {
    match decode_pubkey("ABCDEF") {
        Err(DecodeError::InvalidEncoding) => (),
        other => panic!("expected InvalidEncoding, got {:?}", other.err()),
    }
}

#[test]
fn decode_pubkey_rejects_wrong_length() {
    let encoded = base36::encode(b"too short");
    match decode_pubkey(&encoded) {
        Err(DecodeError::WrongKeyLength) => (),
        other => panic!("expected WrongKeyLength, got {:?}", other.err()),
    }
}

#[test]
fn decode_pubkey_rejects_invalid_key_point() {
    // Find 32 bytes the signature scheme refuses as a verification key.
    let mut bytes = [0xFFu8; 32];
    let mut found = false;
    for last in 0..=255u8 {
        bytes[31] = last;
        if ed25519_dalek::VerifyingKey::from_bytes(&bytes).is_err() {
            found = true;
            break;
        }
    }
    assert!(found, "no invalid key point found");
    let encoded = base36::encode(&bytes);
    match decode_pubkey(&encoded) {
        Err(DecodeError::InvalidKeyPoint) => (),
        other => panic!("expected InvalidKeyPoint, got {:?}", other.err()),
    }
}

#[test]
fn decode_pubkey_rejects_empty_string() {
    // The empty string decodes to zero bytes, not a 32-byte key.
    match decode_pubkey("") {
        Err(DecodeError::WrongKeyLength) => (),
        other => panic!("expected WrongKeyLength, got {:?}", other.err()),
    }
}
