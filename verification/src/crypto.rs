//! The trust boundary of this library: every call into an outside
//! cryptography crate is made here, behind a function whose contract
//! Verus believes without reading the body. Everything outside this
//! module is verified against these contracts.

use vstd::prelude::*;
use aes::cipher::block_padding::NoPadding;
use aes::cipher::{BlockDecryptMut, BlockEncryptMut, KeyIvInit};
use hmac::Mac;
use p256::elliptic_curve::sec1::{FromEncodedPoint, ToEncodedPoint};
use sha2::{Digest, Sha256};

verus! {

/// An ephemeral P-256 private scalar, opaque to the verified code.
/// Holds a `p256::SecretKey`; it never leaves this module except through
/// the derived values below.
#[verifier::external_body]
pub struct SecretScalar {
    inner: p256::SecretKey,
}

/// A validated P-256 curve point, opaque to the verified code.
/// Holds a `p256::PublicKey`, which is never the identity.
#[verifier::external_body]
pub struct CurvePoint {
    inner: p256::PublicKey,
}

/// The SHA-256 digest of a byte string.
pub uninterp spec fn sha256_of(data: Seq<u8>) -> Seq<u8>;

/// The HMAC-SHA-256 of a message under a key of any length.
pub uninterp spec fn hmac_sha256_of(key: Seq<u8>, message: Seq<u8>) -> Seq<u8>;

/// Whether two 32-byte big-endian coordinates describe a point on the
/// P-256 curve (both below the field modulus and satisfying the curve
/// equation).
pub uninterp spec fn is_p256_point(x: Seq<u8>, y: Seq<u8>) -> bool;

/// Whether 32 big-endian bytes encode a canonical, non-zero P-256
/// scalar, i.e. a usable private key.
pub uninterp spec fn is_p256_secret_scalar(bytes: Seq<u8>) -> bool;

/// The AES-256-CBC encryption of a block-aligned plaintext under a
/// 32-byte key with an all-zero IV and no padding.
pub uninterp spec fn aes256_cbc_enc(key: Seq<u8>, plaintext: Seq<u8>) -> Seq<u8>;

/// The AES-256-CBC decryption of a block-aligned ciphertext under a
/// 32-byte key with an all-zero IV and no padding.
pub uninterp spec fn aes256_cbc_dec(key: Seq<u8>, ciphertext: Seq<u8>) -> Seq<u8>;

/// The curve point parsed from two 32-byte coordinates that lie on the
/// P-256 curve.
pub uninterp spec fn peer_point_of(x: Seq<u8>, y: Seq<u8>) -> CurvePoint;

/// The private scalar decoded from 32 canonical non-zero scalar bytes.
pub uninterp spec fn secret_scalar_of(bytes: Seq<u8>) -> SecretScalar;

/// The public key of a private scalar: the scalar multiple of the
/// P-256 base point.
pub uninterp spec fn public_point_of(secret: SecretScalar) -> CurvePoint;

/// The x coordinate of a curve point's uncompressed encoding.
pub uninterp spec fn point_x_of(point: CurvePoint) -> Seq<u8>;

/// The y coordinate of a curve point's uncompressed encoding.
pub uninterp spec fn point_y_of(point: CurvePoint) -> Seq<u8>;

/// The x coordinate of the ECDH shared point: the peer point multiplied
/// by the private scalar, y discarded.
pub uninterp spec fn ecdh_x_of(secret: SecretScalar, peer: CurvePoint) -> Seq<u8>;

/// Relies on `sha2::Sha256`: a deterministic function of the input
/// alone, always producing a 32-byte digest.
#[verifier::external_body]
pub(crate) fn sha256(data: &[u8]) -> (r: Vec<u8>)
    ensures
        r@ == sha256_of(data@),
        r@.len() == 32,
{
    let mut hasher = Sha256::default();
    hasher.update(data);
    hasher.finalize().to_vec()
}

/// Relies on `hmac::Hmac<Sha256>`: `new_from_slice` accepts a key of any
/// length (long keys are hashed, short keys padded), and the finalized
/// MAC is a deterministic 32-byte function of key and message.
#[verifier::external_body]
pub fn hmac_sha256(key: &[u8], message: &[u8]) -> (r: Vec<u8>)
    ensures
        r@ == hmac_sha256_of(key@, message@),
        r@.len() == 32,
{
    let mut hmac =
        hmac::Hmac::<Sha256>::new_from_slice(key).expect("any key length is accepted");
    hmac.update(message);
    hmac.finalize().into_bytes().to_vec()
}

/// Relies on `cbc::Encryptor<aes::Aes256>`: `new_from_slices` accepts a
/// 32-byte key with a 16-byte IV, and `encrypt_padded_vec_mut` with
/// `NoPadding` maps a block-aligned plaintext to a ciphertext of the
/// same length, which `cbc::Decryptor` maps back to the plaintext.
#[verifier::external_body]
pub(crate) fn aes256_cbc_encrypt_raw(key: &[u8], plaintext: &[u8]) -> (r: Vec<u8>)
    requires
        key@.len() == 32,
        plaintext@.len() % 16 == 0,
    ensures
        r@ == aes256_cbc_enc(key@, plaintext@),
        r@.len() == plaintext@.len(),
        aes256_cbc_dec(key@, r@) == plaintext@,
{
    let iv: [u8; 16] = [0; 16];
    let enc = cbc::Encryptor::<aes::Aes256>::new_from_slices(key, &iv)
        .expect("key and IV lengths are checked by the caller");
    enc.encrypt_padded_vec_mut::<NoPadding>(plaintext)
}

/// Relies on `cbc::Decryptor<aes::Aes256>`: with `NoPadding`,
/// `decrypt_padded_vec_mut` succeeds on every block-aligned input and
/// returns a plaintext of the same length, which `cbc::Encryptor` maps
/// back to the ciphertext (CBC under a fixed key and IV is a bijection
/// on block-aligned buffers).
#[verifier::external_body]
pub(crate) fn aes256_cbc_decrypt_raw(key: &[u8], ciphertext: &[u8]) -> (r: Vec<u8>)
    requires
        key@.len() == 32,
        ciphertext@.len() % 16 == 0,
    ensures
        r@ == aes256_cbc_dec(key@, ciphertext@),
        r@.len() == ciphertext@.len(),
        aes256_cbc_enc(key@, r@) == ciphertext@,
{
    let iv: [u8; 16] = [0; 16];
    let dec = cbc::Decryptor::<aes::Aes256>::new_from_slices(key, &iv)
        .expect("key and IV lengths are checked by the caller");
    dec.decrypt_padded_vec_mut::<NoPadding>(ciphertext)
        .expect("no-padding decryption accepts every block-aligned input")
}

/// Relies on `p256::SecretKey::random` with `rand::rngs::OsRng`: draws a
/// fresh private scalar from the operating system's secure source.
/// Nothing can be promised of the value.
#[verifier::external_body]
pub(crate) fn generate_secret_key() -> SecretScalar {
    SecretScalar { inner: p256::SecretKey::random(&mut rand::rngs::OsRng) }
}

/// Relies on `p256::SecretKey::from_slice` on a 32-byte slice: succeeds
/// exactly when the bytes are a canonical encoding of a non-zero
/// scalar, and the decoded scalar is a function of the bytes alone.
#[verifier::external_body]
pub(crate) fn secret_key_from_bytes(bytes: &[u8]) -> (r: Option<SecretScalar>)
    requires
        bytes@.len() == 32,
    ensures
        r is Some <==> is_p256_secret_scalar(bytes@),
        r matches Some(s) ==> s == secret_scalar_of(bytes@),
{
    p256::SecretKey::from_slice(bytes).ok().map(|inner| SecretScalar { inner })
}

/// Relies on `p256::SecretKey::public_key`: the public half of the key
/// pair, a function of the scalar alone. Its encoding is read through
/// `point_coordinates`.
#[verifier::external_body]
pub(crate) fn public_key_of(secret_key: &SecretScalar) -> (r: CurvePoint)
    ensures
        r == public_point_of(*secret_key),
{
    CurvePoint { inner: secret_key.inner.public_key() }
}

/// Relies on `p256::PublicKey::to_encoded_point(false)`: a public key is
/// never the identity, so the uncompressed encoding carries an x and a y
/// coordinate of exactly 32 bytes each, functions of the point alone.
#[verifier::external_body]
pub(crate) fn point_coordinates(public_key: &CurvePoint) -> (r: (Vec<u8>, Vec<u8>))
    ensures
        r.0@ == point_x_of(*public_key),
        r.1@ == point_y_of(*public_key),
        r.0@.len() == 32,
        r.1@.len() == 32,
{
    let point = public_key.inner.to_encoded_point(false);
    let x = point.x().expect("an uncompressed non-identity point has an x coordinate");
    let y = point.y().expect("an uncompressed non-identity point has a y coordinate");
    (x.to_vec(), y.to_vec())
}

/// Relies on `p256::EncodedPoint::from_affine_coordinates` and
/// `p256::PublicKey::from_encoded_point`: the parse succeeds exactly
/// when the coordinates are field elements satisfying the curve
/// equation (an uncompressed encoding is never the identity).
#[verifier::external_body]
pub(crate) fn parse_peer_point(x: &[u8], y: &[u8]) -> (r: Option<CurvePoint>)
    requires
        x@.len() == 32,
        y@.len() == 32,
    ensures
        r is Some <==> is_p256_point(x@, y@),
        r matches Some(p) ==> p == peer_point_of(x@, y@),
{
    let point = p256::EncodedPoint::from_affine_coordinates(x.into(), y.into(), false);
    let parsed: Option<p256::PublicKey> = p256::PublicKey::from_encoded_point(&point).into();
    parsed.map(|inner| CurvePoint { inner })
}

/// Relies on `p256::ecdh::diffie_hellman`: the shared secret is the
/// 32-byte x coordinate of the peer point multiplied by the private
/// scalar, a function of those two values alone.
#[verifier::external_body]
pub(crate) fn ecdh_shared_x(secret_key: &SecretScalar, peer: &CurvePoint) -> (r: Vec<u8>)
    ensures
        r@ == ecdh_x_of(*secret_key, *peer),
        r@.len() == 32,
{
    let shared =
        p256::ecdh::diffie_hellman(secret_key.inner.to_nonzero_scalar(), peer.inner.as_affine());
    shared.raw_secret_bytes().to_vec()
}

} // verus!
