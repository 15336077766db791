use vstd::prelude::*;
use crate::cose::{agreement_point_ok, is_agreement_variant, is_wellformed_p256, CosePublicKey};
use crate::crypto::{
    aes256_cbc_dec, aes256_cbc_decrypt_raw, aes256_cbc_enc, aes256_cbc_encrypt_raw, ecdh_shared_x,
    ecdh_x_of, generate_secret_key, hmac_sha256, hmac_sha256_of, is_p256_secret_scalar,
    parse_peer_point, peer_point_of, point_coordinates, point_x_of, point_y_of, public_key_of,
    public_point_of, secret_key_from_bytes, secret_scalar_of, sha256, sha256_of, SecretScalar,
};
use crate::error::PinUvAuthError;
use crate::hash::take_prefix;

verus! {

/// The PIN/UV auth protocol versions CTAP2 defines.
#[derive(Clone, Copy, Debug, PartialEq, Eq, Structural)]
pub enum Ctap2PinUvAuthProtocol {
    One,
    Two,
}

/// The authentication tag over a message: the first 16 bytes of
/// HMAC-SHA-256 under the given key.
pub open spec fn auth_tag_of(key: Seq<u8>, message: Seq<u8>) -> Seq<u8> {
    hmac_sha256_of(key, message).subrange(0, 16)
}

/// The Protocol One shared secret: a single unsalted SHA-256 over the
/// raw x coordinate of the ECDH shared point (deliberately not HKDF;
/// a later protocol version would be a distinct implementation).
pub open spec fn shared_secret_of(shared_point_x: Seq<u8>) -> Seq<u8> {
    sha256_of(shared_point_x)
}

/// The shared secret a given private scalar derives against a peer with
/// the given on-curve coordinates: SHA-256 of the x coordinate of the
/// scalar multiplied into the peer point.
pub open spec fn derived_secret_of(secret: SecretScalar, peer_x: Seq<u8>, peer_y: Seq<u8>) -> Seq<
    u8,
> {
    shared_secret_of(ecdh_x_of(secret, peer_point_of(peer_x, peer_y)))
}

/// The operations a negotiated PIN/UV auth protocol offers, so that
/// ceremony code can be written once against whichever version the
/// authenticator selects.
pub trait PinUvAuthProtocol {
    /// Which protocol version this implementation speaks.
    fn version(&self) -> Ctap2PinUvAuthProtocol;

    /// Generates an encapsulation for the authenticator's public key:
    /// the local public key to transmit, and the derived shared secret.
    fn encapsulate(&self, peer_public_key: &CosePublicKey) -> (r: Result<
        (CosePublicKey, Vec<u8>),
        PinUvAuthError,
    >)
        ensures
            r matches Ok((pk, ss)) ==> is_wellformed_p256(pk) && ss@.len() == 32,
    ;

    /// Encrypts a plaintext, which must already be a multiple of the AES
    /// block length: no padding is ever added. The ciphertext may be
    /// longer than the plaintext.
    fn encrypt(&self, key: &[u8], plaintext: &[u8]) -> (r: Result<Vec<u8>, PinUvAuthError>)
        requires
            plaintext@.len() % 16 == 0,
        ensures
            r matches Ok(ct) ==> ct@.len() % 16 == 0 && ct@.len() >= plaintext@.len(),
    ;

    /// Decrypts a ciphertext; a length that is not a multiple of the AES
    /// block length is rejected before any key material is touched.
    fn decrypt(&self, key: &[u8], ciphertext: &[u8]) -> (r: Result<Vec<u8>, PinUvAuthError>)
        ensures
            ciphertext@.len() % 16 != 0 ==> r is Err,
    ;

    /// Computes the 16-byte authentication tag of a message.
    fn authenticate(&self, key: &[u8], message: &[u8]) -> (r: Vec<u8>)
        ensures
            r@.len() == 16,
    ;
}

/// Protocol One: one ephemeral P-256 key pair held for the lifetime of
/// a negotiation, ECDH against a peer-supplied COSE key, SHA-256 as the
/// key-derivation step, AES-256-CBC with a zero IV, and truncated
/// HMAC-SHA-256.
pub struct PinUvAuthProtocolOne {
    secret_key: SecretScalar,
    public_x: Vec<u8>,
    public_y: Vec<u8>,
}

impl PinUvAuthProtocolOne {
    /// The engine's own public key always carries 32 bytes per
    /// coordinate.
    #[verifier::type_invariant]
    spec fn wf(&self) -> bool {
        self.public_x@.len() == 32 && self.public_y@.len() == 32
    }

    /// The x coordinate of the engine's own public key.
    pub closed spec fn spec_public_x(&self) -> Seq<u8> {
        self.public_x@
    }

    /// The y coordinate of the engine's own public key.
    pub closed spec fn spec_public_y(&self) -> Seq<u8> {
        self.public_y@
    }

    /// The engine's private scalar, exposed only as an opaque spec
    /// value so contracts can tie derived values to it.
    pub closed spec fn spec_secret_key(&self) -> SecretScalar {
        self.secret_key
    }

    /// Creates an engine with a fresh ephemeral key pair drawn from the
    /// operating system's secure random source. The private scalar
    /// never leaves the engine; only the public key and derived shared
    /// secrets do.
    pub fn new() -> (r: Self)
        ensures
            r.spec_public_x() == point_x_of(public_point_of(r.spec_secret_key())),
            r.spec_public_y() == point_y_of(public_point_of(r.spec_secret_key())),
            r.spec_public_x().len() == 32,
            r.spec_public_y().len() == 32,
    {
        let secret_key = generate_secret_key();
        let public_key = public_key_of(&secret_key);
        let (public_x, public_y) = point_coordinates(&public_key);
        Self { secret_key, public_x, public_y }
    }

    /// Creates an engine from a caller-supplied 32-byte private scalar,
    /// succeeding exactly when the bytes are a canonical non-zero
    /// scalar; the engine then holds that scalar and the coordinates of
    /// its public key. Meant for reproducing a negotiation against
    /// recorded values; live negotiations should use `new`.
    pub fn new_with_secret(secret: &[u8]) -> (r: Option<Self>)
        ensures
            r is Some <==> secret@.len() == 32 && is_p256_secret_scalar(secret@),
            r matches Some(e) ==> {
                &&& e.spec_secret_key() == secret_scalar_of(secret@)
                &&& e.spec_public_x() == point_x_of(public_point_of(secret_scalar_of(secret@)))
                &&& e.spec_public_y() == point_y_of(public_point_of(secret_scalar_of(secret@)))
                &&& e.spec_public_x().len() == 32
                &&& e.spec_public_y().len() == 32
            },
    {
        if secret.len() != 32 {
            return None;
        }
        let secret_key = match secret_key_from_bytes(secret) {
            Some(sk) => sk,
            None => {
                return None;
            },
        };
        let public_key = public_key_of(&secret_key);
        let (public_x, public_y) = point_coordinates(&public_key);
        Some(Self { secret_key, public_x, public_y })
    }

    /// ECDH against the peer's COSE key: accepts only the key-agreement
    /// variant, rejects coordinates that are not a valid P-256 point,
    /// multiplies the peer point by the private scalar, and derives the
    /// shared secret from the x coordinate of the product.
    fn ecdh(&self, peer_public_key: &CosePublicKey) -> (r: Result<Vec<u8>, PinUvAuthError>)
        ensures
            r is Ok <==> agreement_point_ok(*peer_public_key),
            !is_agreement_variant(*peer_public_key) ==> r == Err::<Vec<u8>, PinUvAuthError>(
                PinUvAuthError::UnsupportedKeyFormat,
            ),
            is_agreement_variant(*peer_public_key) && !agreement_point_ok(*peer_public_key)
                ==> r == Err::<Vec<u8>, PinUvAuthError>(PinUvAuthError::InvalidPoint),
            r matches Ok(ss) ==> ss@.len() == 32 && (*peer_public_key matches
                CosePublicKey::EcdhEsHkdf256Key { x, y } && ss@ == derived_secret_of(
                self.spec_secret_key(),
                x@,
                y@,
            )),
    {
        let (x, y) = match peer_public_key {
            CosePublicKey::EcdhEsHkdf256Key { x, y } => (x, y),
            _ => {
                return Err(PinUvAuthError::UnsupportedKeyFormat);
            },
        };
        if x.len() != 32 || y.len() != 32 {
            return Err(PinUvAuthError::InvalidPoint);
        }
        let peer_point = match parse_peer_point(x.as_slice(), y.as_slice()) {
            Some(p) => p,
            None => {
                return Err(PinUvAuthError::InvalidPoint);
            },
        };
        let shared_x = ecdh_shared_x(&self.secret_key, &peer_point);
        Ok(self.kdf(&shared_x))
    }

    /// The key-derivation step of Protocol One.
    fn kdf(&self, shared_point_x: &[u8]) -> (r: Vec<u8>)
        ensures
            r@ == shared_secret_of(shared_point_x@),
            r@.len() == 32,
    {
        sha256(shared_point_x)
    }

    /// Re-encodes the engine's own public key in COSE P-256 form, with
    /// x and y of exactly 32 bytes each.
    fn get_public_key(&self) -> (r: CosePublicKey)
        ensures
            (r matches CosePublicKey::P256Key { x, y } && x@ == self.spec_public_x() && y@
                == self.spec_public_y()),
            is_wellformed_p256(r),
    {
        proof {
            use_type_invariant(&*self);
        }
        let x = take_prefix(&self.public_x, self.public_x.len());
        let y = take_prefix(&self.public_y, self.public_y.len());
        proof {
            assert(x@ =~= self.public_x@);
            assert(y@ =~= self.public_y@);
        }
        CosePublicKey::P256Key { x, y }
    }
}

impl PinUvAuthProtocol for PinUvAuthProtocolOne {
    fn version(&self) -> (r: Ctap2PinUvAuthProtocol)
        ensures
            r == Ctap2PinUvAuthProtocol::One,
    {
        Ctap2PinUvAuthProtocol::One
    }

    fn encapsulate(&self, peer_public_key: &CosePublicKey) -> (r: Result<
        (CosePublicKey, Vec<u8>),
        PinUvAuthError,
    >)
        ensures
            r is Ok <==> agreement_point_ok(*peer_public_key),
            !is_agreement_variant(*peer_public_key) ==> r == Err::<
                (CosePublicKey, Vec<u8>),
                PinUvAuthError,
            >(PinUvAuthError::UnsupportedKeyFormat),
            is_agreement_variant(*peer_public_key) && !agreement_point_ok(*peer_public_key)
                ==> r == Err::<(CosePublicKey, Vec<u8>), PinUvAuthError>(
                PinUvAuthError::InvalidPoint,
            ),
            r matches Ok((pk, ss)) ==> {
                &&& pk matches CosePublicKey::P256Key { x, y }
                &&& x@ == self.spec_public_x()
                &&& y@ == self.spec_public_y()
                &&& ss@.len() == 32
                &&& (*peer_public_key matches CosePublicKey::EcdhEsHkdf256Key { x: px, y: py }
                    && ss@ == derived_secret_of(self.spec_secret_key(), px@, py@))
            },
    {
        let shared_secret = match self.ecdh(peer_public_key) {
            Ok(ss) => ss,
            Err(e) => {
                return Err(e);
            },
        };
        Ok((self.get_public_key(), shared_secret))
    }

    fn encrypt(&self, key: &[u8], plaintext: &[u8]) -> (r: Result<Vec<u8>, PinUvAuthError>)
        ensures
            r is Ok <==> key@.len() == 32,
            key@.len() != 32 ==> r == Err::<Vec<u8>, PinUvAuthError>(
                PinUvAuthError::InvalidKeySize,
            ),
            r matches Ok(ct) ==> {
                &&& ct@ == aes256_cbc_enc(key@, plaintext@)
                &&& ct@.len() == plaintext@.len()
                &&& aes256_cbc_dec(key@, ct@) == plaintext@
            },
    {
        if key.len() != 32 {
            return Err(PinUvAuthError::InvalidKeySize);
        }
        Ok(aes256_cbc_encrypt_raw(key, plaintext))
    }

    fn decrypt(&self, key: &[u8], ciphertext: &[u8]) -> (r: Result<Vec<u8>, PinUvAuthError>)
        ensures
            r is Ok <==> ciphertext@.len() % 16 == 0 && key@.len() == 32,
            ciphertext@.len() % 16 != 0 ==> r == Err::<Vec<u8>, PinUvAuthError>(
                PinUvAuthError::MisalignedCiphertext,
            ),
            ciphertext@.len() % 16 == 0 && key@.len() != 32 ==> r == Err::<Vec<u8>, PinUvAuthError>(
                PinUvAuthError::InvalidKeySize,
            ),
            r matches Ok(pt) ==> {
                &&& pt@ == aes256_cbc_dec(key@, ciphertext@)
                &&& pt@.len() == ciphertext@.len()
                &&& aes256_cbc_enc(key@, pt@) == ciphertext@
            },
    {
        if ciphertext.len() % 16 != 0 {
            return Err(PinUvAuthError::MisalignedCiphertext);
        }
        if key.len() != 32 {
            return Err(PinUvAuthError::InvalidKeySize);
        }
        Ok(aes256_cbc_decrypt_raw(key, ciphertext))
    }

    fn authenticate(&self, key: &[u8], message: &[u8]) -> (r: Vec<u8>)
        ensures
            r@ == auth_tag_of(key@, message@),
            r@.len() == 16,
    {
        let mac = hmac_sha256(key, message);
        take_prefix(&mac, 16)
    }
}

/// Round-trip law: decrypting the encryption of a block-aligned
/// plaintext under the same 32-byte key returns that plaintext. The
/// first two premises are exactly what `encrypt`'s postcondition gives
/// for its ciphertext; the third is what `decrypt`'s postcondition
/// gives for the recovered plaintext.
pub proof fn lemma_decrypt_inverts_encrypt(
    key: Seq<u8>,
    plaintext: Seq<u8>,
    ciphertext: Seq<u8>,
    recovered: Seq<u8>,
)
    requires
        ciphertext == aes256_cbc_enc(key, plaintext),
        aes256_cbc_dec(key, ciphertext) == plaintext,
        recovered == aes256_cbc_dec(key, ciphertext),
    ensures
        recovered == plaintext,
{
}

/// Inverse law, the other direction: re-encrypting the plaintext
/// recovered from a block-aligned ciphertext under the same 32-byte key
/// returns that ciphertext. The first two premises are exactly what
/// `decrypt`'s postcondition gives for the recovered plaintext; the
/// third is what `encrypt`'s postcondition gives for the re-encryption.
pub proof fn lemma_encrypt_inverts_decrypt(
    key: Seq<u8>,
    ciphertext: Seq<u8>,
    recovered: Seq<u8>,
    reencrypted: Seq<u8>,
)
    requires
        recovered == aes256_cbc_dec(key, ciphertext),
        aes256_cbc_enc(key, recovered) == ciphertext,
        reencrypted == aes256_cbc_enc(key, recovered),
    ensures
        reencrypted == ciphertext,
{
}

/// Reusability law: an engine's key pair is immutable, so shared
/// secrets derived by one engine against byte-equal peer keys are the
/// same value, however many `encapsulate` calls apart. The premises are
/// what `encapsulate`'s postcondition gives for each successful call.
pub proof fn lemma_shared_secret_repeatable(
    secret: SecretScalar,
    peer_x: Seq<u8>,
    peer_y: Seq<u8>,
    ss1: Seq<u8>,
    ss2: Seq<u8>,
)
    requires
        ss1 == derived_secret_of(secret, peer_x, peer_y),
        ss2 == derived_secret_of(secret, peer_x, peer_y),
    ensures
        ss1 == ss2,
{
}

/// Determinism law: two authentication tags over the same key and
/// message are the same 16-byte value.
pub proof fn lemma_authenticate_deterministic(
    key: Seq<u8>,
    message: Seq<u8>,
    tag1: Seq<u8>,
    tag2: Seq<u8>,
)
    requires
        tag1 == auth_tag_of(key, message),
        tag2 == auth_tag_of(key, message),
    ensures
        tag1 == tag2,
{
}

} // verus!
