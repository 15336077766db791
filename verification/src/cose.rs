use vstd::prelude::*;
use crate::crypto::is_p256_point;

verus! {

/// A parsed COSE public key, restricted to the variants the surrounding
/// CTAP2 stack exchanges. Coordinates are raw big-endian byte strings;
/// for the two P-256 variants a well-formed key carries exactly 32 bytes
/// per coordinate.
pub enum CosePublicKey {
    /// EC2 / P-256 signature key (the shape this library emits for its
    /// own key-agreement public key).
    P256Key { x: Vec<u8>, y: Vec<u8> },
    /// EC2 / P-256 key-agreement key (ECDH-ES + HKDF-256), the only
    /// variant accepted as a peer key.
    EcdhEsHkdf256Key { x: Vec<u8>, y: Vec<u8> },
    /// OKP / Ed25519 signature key.
    Ed25519Key { x: Vec<u8> },
    /// Symmetric TOTP key (no public parameters).
    TotpKey,
}

/// The key is the COSE key-agreement variant, whatever its coordinates.
pub open spec fn is_agreement_variant(k: CosePublicKey) -> bool {
    k is EcdhEsHkdf256Key
}

/// The key is a peer key this protocol can use: the key-agreement
/// variant, with 32-byte coordinates that lie on the P-256 curve.
pub open spec fn agreement_point_ok(k: CosePublicKey) -> bool {
    &&& k matches CosePublicKey::EcdhEsHkdf256Key { x, y }
    &&& x@.len() == 32
    &&& y@.len() == 32
    &&& is_p256_point(x@, y@)
}

/// The key has the shape this library promises for its own public key:
/// the P-256 signature variant with 32 bytes per coordinate.
pub open spec fn is_wellformed_p256(k: CosePublicKey) -> bool {
    &&& k matches CosePublicKey::P256Key { x, y }
    &&& x@.len() == 32
    &&& y@.len() == 32
}

} // verus!
