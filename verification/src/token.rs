use vstd::prelude::*;

verus! {

/// A pinUvAuthToken as the ceremony layer sees it after unwrapping:
/// a plain record of what the authenticator attested.
pub struct PinUvAuthToken {
    pub rpid: Option<String>,
    pub user_verified: bool,
    pub user_present: bool,
}

impl Default for PinUvAuthToken {
    /// The token before any ceremony has run: no relying party bound,
    /// nothing verified, nobody present.
    fn default() -> (r: Self)
        ensures
            r.rpid is None,
            !r.user_verified,
            !r.user_present,
    {
        Self { rpid: None, user_verified: false, user_present: false }
    }
}

} // verus!
