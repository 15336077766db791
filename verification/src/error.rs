use vstd::prelude::*;

verus! {

/// The errors this library reports to its caller.
///
/// Every failure is terminal for the call that produced it: the library
/// performs no internal retries and no fallback to a weaker mode.
#[derive(Clone, Copy, Debug, PartialEq, Eq, Structural)]
pub enum PinUvAuthError {
    /// The peer public key is not the COSE key-agreement variant this
    /// protocol understands.
    UnsupportedKeyFormat,
    /// The peer coordinates do not describe a valid point on the P-256 curve.
    InvalidPoint,
    /// A symmetric key passed to encrypt or decrypt is not a valid
    /// AES-256 key length (32 bytes).
    InvalidKeySize,
    /// A ciphertext passed to decrypt is not a multiple of the AES block
    /// length (16 bytes).
    MisalignedCiphertext,
    /// Decryption was structurally possible but the no-padding check
    /// rejected the buffer.
    UnpaddingFailure,
}

} // verus!
