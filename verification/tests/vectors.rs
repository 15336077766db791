//! Fixture-based end-to-end checks against independently known values.

use pin_uv_auth::{
    hmac_sha256, pin_hash, CosePublicKey, PinUvAuthProtocol, PinUvAuthProtocolOne,
};

// The P-256 base point.
const GEN_X: &str = "6b17d1f2e12c4247f8bce6e563a440f277037d812deb33a0f4a13945d898c296";
const GEN_Y: &str = "4fe342e2fe1a7f9b8ee7eb4a7c0f9e162bce33576b315ececbb6406837bf51f5";

// SHA-256 of the base point's x coordinate bytes: the shared secret a
// private scalar of 1 derives against the base point as peer.
const SHARED_FROM_ONE: &str = "40577091d962d2c36217b8e1a3c7eee4a08d3c1ad4debaacc9fa2e259ff45118";

// AES-256-CBC, all-zero 32-byte key, zero IV, 32 zero plaintext bytes.
const AES_VECTOR: &str = "dc95c078a2408989ad48a2149284208708c374848c228233c2b34f332bd2e9d3";

#[test]
fn encapsulate_reproduces_known_vector() {
    // With a private scalar of 1, the engine's public key is the base
    // point itself, and the shared point against any peer P is P, so
    // the shared secret is SHA-256 of the peer's x coordinate.
    let mut secret = vec![0u8; 32];
    secret[31] = 1;
    let p = PinUvAuthProtocolOne::new_with_secret(&secret).unwrap();
    let peer = CosePublicKey::EcdhEsHkdf256Key {
        x: hex::decode(GEN_X).unwrap(),
        y: hex::decode(GEN_Y).unwrap(),
    };
    let (pk, ss) = p.encapsulate(&peer).unwrap();
    match pk {
        CosePublicKey::P256Key { x, y } => {
            assert_eq!(hex::encode(&x), GEN_X);
            assert_eq!(hex::encode(&y), GEN_Y);
        }
        _ => panic!("local public key must be the COSE P-256 variant"),
    }
    assert_eq!(hex::encode(&ss), SHARED_FROM_ONE);
}

#[test]
fn new_with_secret_rejects_bad_scalars() {
    // The zero scalar is not a valid private key.
    assert!(PinUvAuthProtocolOne::new_with_secret(&[0u8; 32]).is_none());
    // Wrong lengths are rejected.
    assert!(PinUvAuthProtocolOne::new_with_secret(&[1u8; 31]).is_none());
    assert!(PinUvAuthProtocolOne::new_with_secret(&[1u8; 33]).is_none());
    // A small non-zero scalar is accepted.
    let mut secret = vec![0u8; 32];
    secret[31] = 2;
    assert!(PinUvAuthProtocolOne::new_with_secret(&secret).is_some());
}

#[test]
fn encrypt_matches_aes_cbc_reference_vector() {
    let p = PinUvAuthProtocolOne::new();
    let key = vec![0u8; 32];
    let plaintext = vec![0u8; 32];
    let ciphertext = p.encrypt(&key, &plaintext).unwrap();
    assert_eq!(hex::encode(&ciphertext), AES_VECTOR);
}

#[test]
fn authenticate_matches_hmac_reference_vector() {
    // RFC 4231 test case 1 for HMAC-SHA-256.
    let key = vec![0x0bu8; 20];
    let message = b"Hi There".to_vec();
    let full_reference = "b0344c61d8db38535ca8afceaf0bf12b881dc200c9833da726e9376c2e32cff7";
    assert_eq!(hex::encode(hmac_sha256(&key, &message)), full_reference);
    // The tag is the first 16 bytes of the full MAC.
    let p = PinUvAuthProtocolOne::new();
    let tag = p.authenticate(&key, &message);
    assert_eq!(hex::encode(&tag), &full_reference[..32]);
}

#[test]
fn pin_hash_matches_sha256_prefixes() {
    // SHA-256 of the empty string and of "1234", truncated to 16 bytes.
    assert_eq!(hex::encode(pin_hash(&[])), "e3b0c44298fc1c149afbf4c8996fb924");
    assert_eq!(hex::encode(pin_hash(b"1234")), "03ac674216f3e15c761ee1a5e255f067");
}

#[test]
fn pin_hash_is_deterministic_and_16_bytes_for_any_length() {
    for pin in [&b""[..], b"1", b"7531", b"a much longer pass phrase style pin"] {
        let h1 = pin_hash(pin);
        let h2 = pin_hash(pin);
        assert_eq!(h1, h2);
        assert_eq!(h1.len(), 16);
    }
}
