use vstd::prelude::*;

verus! {

/// Status of an order as reported by the certificate authority.
/// The authority's state is the sole source of truth; a local copy is
/// only a cache refreshed by polling.
#[derive(Clone, Copy, Debug, PartialEq, Eq, Structural)]
pub enum OrderStatus {
    Pending,
    Ready,
    Processing,
    Valid,
    Invalid,
}

/// Status of an authorization (the demand to prove control of one
/// identifier) as reported by the certificate authority.
#[derive(Clone, Copy, Debug, PartialEq, Eq, Structural)]
pub enum AuthorizationStatus {
    Pending,
    Valid,
    Invalid,
    Expired,
    Revoked,
}

/// One specific mechanism of proving control over an identifier.
#[derive(Clone, Copy, Debug, PartialEq, Eq, Structural)]
pub enum ChallengeType {
    Dns01,
    Http01,
    TlsAlpn01,
}

impl OrderStatus {
    /// An order that the authority reports `Invalid` is rejected for good:
    /// no amount of further polling can revive it.
    pub open spec fn spec_is_rejected(self) -> bool {
        self is Invalid
    }

    #[verifier::when_used_as_spec(spec_is_rejected)]
    pub fn is_rejected(self) -> (r: bool)
        ensures
            r == self.spec_is_rejected(),
    {
        matches!(self, OrderStatus::Invalid)
    }
}

} // verus!
