use vstd::prelude::*;

verus! {

/// Classification of every way the workflow can fail. Any failure aborts the
/// whole workflow: no partial certificate or key material is ever produced.
///
/// `PollTimeout` is kept distinct from `OrderInvalid`: the former means the
/// authority's state is unknown or stalled (a caller may retry the whole
/// workflow), the latter means the authority explicitly rejected the order
/// (a retry is pointless).
#[derive(Clone, Copy, Debug, PartialEq, Eq, Structural)]
pub enum AcmeError {
    /// Bad input, caught before any network activity.
    InvalidRequest,
    /// The authority refused account creation or restoration.
    AuthRejected,
    /// A pending authorization offers no challenge type this workflow supports.
    UnsupportedChallenge,
    /// An authorization is in a state from which it cannot be satisfied.
    AuthorizationFailed,
    /// The authority refused the readiness notification for a challenge.
    ChallengeRejected,
    /// The authority explicitly marked the order invalid while waiting for it
    /// to become ready.
    OrderInvalid,
    /// The attempt budget ran out before the order reached a terminal state.
    PollTimeout,
    /// The signing request could not be built or was refused.
    FinalizationRejected,
    /// The authority rejected the order after the signing request was
    /// submitted.
    IssuanceFailed,
    /// A collaborator-level transport failure.
    Transport,
}

} // verus!
