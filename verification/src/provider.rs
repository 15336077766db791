use vstd::prelude::*;

verus! {

/// Supplies the PIN on demand, given how many attempts the
/// authenticator still allows (or `None` when that is unknown).
/// Returning `None` means the user cancelled; the caller must abort the
/// ceremony rather than treat it as a cryptographic failure.
pub trait PinProvider {
    fn provide_pin(&self, attempts_left: Option<u32>) -> Option<String>;
}

/// A provider that always answers with one fixed PIN, for
/// non-interactive use.
#[derive(Debug, Clone)]
pub struct StaticPinProvider {
    pin: String,
}

impl StaticPinProvider {
    /// The PIN this provider will keep answering with.
    pub closed spec fn spec_pin(&self) -> Seq<char> {
        self.pin@
    }

    pub fn new(pin: &str) -> (r: Self)
        ensures
            r.spec_pin() == pin@,
    {
        Self { pin: pin.to_owned() }
    }
}

impl PinProvider for StaticPinProvider {
    fn provide_pin(&self, attempts_left: Option<u32>) -> (r: Option<String>)
        ensures
            r matches Some(p) && p@ == self.spec_pin(),
    {
        Some(self.pin.clone())
    }
}

} // verus!
