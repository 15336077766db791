pub mod cose;
pub mod crypto;
pub mod error;
pub mod hash;
pub mod protocol;
pub mod provider;
pub mod token;

pub use cose::CosePublicKey;
pub use crypto::hmac_sha256;
pub use error::PinUvAuthError;
pub use hash::pin_hash;
pub use protocol::{Ctap2PinUvAuthProtocol, PinUvAuthProtocol, PinUvAuthProtocolOne};
pub use provider::{PinProvider, StaticPinProvider};
pub use token::PinUvAuthToken;
