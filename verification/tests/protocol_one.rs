use pin_uv_auth::{
    CosePublicKey, Ctap2PinUvAuthProtocol, PinUvAuthError, PinUvAuthProtocol,
    PinUvAuthProtocolOne,
};

// The P-256 base point, a convenient known-valid curve point.
const GEN_X: &str = "6b17d1f2e12c4247f8bce6e563a440f277037d812deb33a0f4a13945d898c296";
const GEN_Y: &str = "4fe342e2fe1a7f9b8ee7eb4a7c0f9e162bce33576b315ececbb6406837bf51f5";

fn generator_agreement_key() -> CosePublicKey {
    CosePublicKey::EcdhEsHkdf256Key {
        x: hex::decode(GEN_X).unwrap(),
        y: hex::decode(GEN_Y).unwrap(),
    }
}

#[test]
fn version_is_one() {
    let p = PinUvAuthProtocolOne::new();
    assert_eq!(p.version(), Ctap2PinUvAuthProtocol::One);
}

#[test]
fn encapsulate_valid_peer_yields_shared_secret_and_wellformed_key() {
    let p = PinUvAuthProtocolOne::new();
    let (pk, ss) = p.encapsulate(&generator_agreement_key()).unwrap();
    assert_eq!(ss.len(), 32);
    match pk {
        CosePublicKey::P256Key { x, y } => {
            assert_eq!(x.len(), 32);
            assert_eq!(y.len(), 32);
        }
        _ => panic!("local public key must be the COSE P-256 variant"),
    }
}

#[test]
fn encapsulate_is_repeatable_on_one_engine() {
    let p = PinUvAuthProtocolOne::new();
    let (pk1, ss1) = p.encapsulate(&generator_agreement_key()).unwrap();
    let (pk2, ss2) = p.encapsulate(&generator_agreement_key()).unwrap();
    assert_eq!(ss1, ss2);
    match (pk1, pk2) {
        (CosePublicKey::P256Key { x: x1, y: y1 }, CosePublicKey::P256Key { x: x2, y: y2 }) => {
            assert_eq!(x1, x2);
            assert_eq!(y1, y2);
        }
        _ => panic!("local public key must be the COSE P-256 variant"),
    }
}

#[test]
fn encapsulate_rejects_non_agreement_variants() {
    let p = PinUvAuthProtocolOne::new();
    let signature_key = CosePublicKey::P256Key {
        x: hex::decode(GEN_X).unwrap(),
        y: hex::decode(GEN_Y).unwrap(),
    };
    let ed25519_key = CosePublicKey::Ed25519Key { x: vec![0u8; 32] };
    let totp_key = CosePublicKey::TotpKey;
    for peer in [signature_key, ed25519_key, totp_key] {
        match p.encapsulate(&peer) {
            Err(PinUvAuthError::UnsupportedKeyFormat) => {}
            _ => panic!("expected UnsupportedKeyFormat"),
        }
    }
}

#[test]
fn encapsulate_rejects_off_curve_point() {
    let p = PinUvAuthProtocolOne::new();
    // (0, 0) does not satisfy the P-256 curve equation.
    let peer = CosePublicKey::EcdhEsHkdf256Key { x: vec![0u8; 32], y: vec![0u8; 32] };
    match p.encapsulate(&peer) {
        Err(PinUvAuthError::InvalidPoint) => {}
        _ => panic!("expected InvalidPoint"),
    }
}

#[test]
fn encapsulate_rejects_short_coordinates() {
    let p = PinUvAuthProtocolOne::new();
    let peer = CosePublicKey::EcdhEsHkdf256Key { x: vec![1u8; 31], y: vec![2u8; 32] };
    match p.encapsulate(&peer) {
        Err(PinUvAuthError::InvalidPoint) => {}
        _ => panic!("expected InvalidPoint"),
    }
}

#[test]
fn encrypt_decrypt_round_trip() {
    let p = PinUvAuthProtocolOne::new();
    let key: Vec<u8> = (0u8..32).collect();
    let plaintext: Vec<u8> = (0u8..48).map(|b| b.wrapping_mul(7)).collect();
    let ciphertext = p.encrypt(&key, &plaintext).unwrap();
    assert_eq!(ciphertext.len(), plaintext.len());
    assert_ne!(ciphertext, plaintext);
    let recovered = p.decrypt(&key, &ciphertext).unwrap();
    assert_eq!(recovered, plaintext);
}

#[test]
fn encrypt_inverts_decrypt() {
    let p = PinUvAuthProtocolOne::new();
    let key: Vec<u8> = (0u8..32).rev().collect();
    let ciphertext: Vec<u8> = (0u8..32).map(|b| b.wrapping_mul(13).wrapping_add(5)).collect();
    let plaintext = p.decrypt(&key, &ciphertext).unwrap();
    let reencrypted = p.encrypt(&key, &plaintext).unwrap();
    assert_eq!(reencrypted, ciphertext);
}

#[test]
fn encrypt_empty_plaintext_round_trip() {
    let p = PinUvAuthProtocolOne::new();
    let key = vec![9u8; 32];
    let ciphertext = p.encrypt(&key, &[]).unwrap();
    assert_eq!(ciphertext.len(), 0);
    let recovered = p.decrypt(&key, &ciphertext).unwrap();
    assert!(recovered.is_empty());
}

#[test]
fn decrypt_rejects_misaligned_ciphertext() {
    let p = PinUvAuthProtocolOne::new();
    let key = vec![0u8; 32];
    for len in [1usize, 15, 17, 33] {
        match p.decrypt(&key, &vec![0u8; len]) {
            Err(PinUvAuthError::MisalignedCiphertext) => {}
            _ => panic!("expected MisalignedCiphertext for length {len}"),
        }
    }
}

#[test]
fn encrypt_rejects_wrong_key_size() {
    let p = PinUvAuthProtocolOne::new();
    for key_len in [0usize, 16, 31, 33] {
        match p.encrypt(&vec![0u8; key_len], &[0u8; 16]) {
            Err(PinUvAuthError::InvalidKeySize) => {}
            _ => panic!("expected InvalidKeySize for key length {key_len}"),
        }
    }
}

#[test]
fn decrypt_rejects_wrong_key_size() {
    let p = PinUvAuthProtocolOne::new();
    match p.decrypt(&[0u8; 16], &[0u8; 16]) {
        Err(PinUvAuthError::InvalidKeySize) => {}
        _ => panic!("expected InvalidKeySize"),
    }
}

#[test]
fn authenticate_is_deterministic_and_16_bytes() {
    let p = PinUvAuthProtocolOne::new();
    let key = b"a shared secret".to_vec();
    let message = b"some message to authenticate".to_vec();
    let t1 = p.authenticate(&key, &message);
    let t2 = p.authenticate(&key, &message);
    assert_eq!(t1, t2);
    assert_eq!(t1.len(), 16);
    // A single changed bit in the message or the key changes the tag.
    let mut other_message = message.clone();
    other_message[0] ^= 1;
    assert_ne!(p.authenticate(&key, &other_message), t1);
    let mut other_key = key.clone();
    other_key[0] ^= 1;
    assert_ne!(p.authenticate(&other_key, &message), t1);
}
