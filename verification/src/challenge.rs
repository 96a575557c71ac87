use vstd::prelude::*;

use crate::errors::AcmeError;
use crate::status::AuthorizationStatus;
use crate::status::ChallengeType;

verus! {

/// One offered mechanism of proving control over an identifier, as fetched
/// from the authority: a type tag, a token, and the URL used to signal
/// "ready for validation".
pub struct Challenge {
    pub kind: ChallengeType,
    pub token: String,
    pub url: String,
}

/// The authority's demand that control over one identifier be proven,
/// together with the challenges it offers for doing so.
pub struct Authorization {
    pub identifier: String,
    pub status: AuthorizationStatus,
    pub challenges: Vec<Challenge>,
}

/// The local pairing of an identifier with the challenge chosen for it:
/// the contract handed to the external challenge responder.
pub struct ChallengeBinding {
    pub identifier: String,
    pub token: String,
    pub url: String,
}

impl ChallengeBinding {
    /// Copies a binding; the copy is equal to the original.
    pub fn duplicate(&self) -> (r: ChallengeBinding)
        ensures
            r == *self,
    {
        ChallengeBinding {
            identifier: self.identifier.clone(),
            token: self.token.clone(),
            url: self.url.clone(),
        }
    }
}

/// The one challenge capability this workflow supports. Selection is a
/// capability match over the enumerated challenge types, so supporting a
/// further type is a change to this predicate alone.
pub open spec fn spec_supported(kind: ChallengeType) -> bool {
    kind is Dns01
}

/// Decides whether a challenge type is supported.
pub fn is_supported(kind: ChallengeType) -> (r: bool)
    ensures
        r == spec_supported(kind),
{
    matches!(kind, ChallengeType::Dns01)
}

/// The first offered challenge of a supported type, if any.
pub open spec fn spec_first_supported(cs: Seq<Challenge>) -> Option<Challenge>
    decreases cs.len(),
{
    if cs.len() == 0 {
        None
    } else if spec_supported(cs[0].kind) {
        Some(cs[0])
    } else {
        spec_first_supported(cs.drop_first())
    }
}

/// The binding produced for one authorization from its chosen challenge.
pub open spec fn spec_binding(a: Authorization, c: Challenge) -> ChallengeBinding {
    ChallengeBinding { identifier: a.identifier, token: c.token, url: c.url }
}

/// What selection yields on a sequence of authorizations, processed in
/// order: a `Valid` authorization is skipped, a `Pending` one contributes
/// the binding of its first supported challenge or fails the whole
/// selection with `UnsupportedChallenge`, and any other status aborts with
/// `AuthorizationFailed`.
pub open spec fn spec_select(auths: Seq<Authorization>) -> Result<Seq<ChallengeBinding>, AcmeError>
    decreases auths.len(),
{
    if auths.len() == 0 {
        Ok(Seq::empty())
    } else {
        let a = auths[0];
        match a.status {
            AuthorizationStatus::Valid => spec_select(auths.drop_first()),
            AuthorizationStatus::Pending => match spec_first_supported(a.challenges@) {
                Some(c) => match spec_select(auths.drop_first()) {
                    Ok(rest) => Ok(seq![spec_binding(a, c)] + rest),
                    Err(e) => Err(e),
                },
                None => Err(AcmeError::UnsupportedChallenge),
            },
            _ => Err(AcmeError::AuthorizationFailed),
        }
    }
}

/// Prepends an already-selected prefix of bindings to the outcome of
/// selecting the remaining authorizations.
spec fn spec_with_prefix(
    prefix: Seq<ChallengeBinding>,
    rest: Result<Seq<ChallengeBinding>, AcmeError>,
) -> Result<Seq<ChallengeBinding>, AcmeError> {
    match rest {
        Ok(tail) => Ok(prefix + tail),
        Err(e) => Err(e),
    }
}

/// Finds the index of the first offered challenge of a supported type.
fn first_supported_index(cs: &Vec<Challenge>) -> (r: Option<usize>)
    ensures
        match r {
            Some(j) => j < cs@.len() && spec_first_supported(cs@) == Some(cs@[j as int])
                && spec_supported(cs@[j as int].kind),
            None => spec_first_supported(cs@) is None,
        },
{
    let mut j: usize = 0;
    proof {
        assert(cs@.skip(0) =~= cs@);
    }
    while j < cs.len()
        invariant
            0 <= j <= cs@.len(),
            spec_first_supported(cs@) == spec_first_supported(cs@.skip(j as int)),
            forall|k: int| 0 <= k < j ==> !spec_supported(#[trigger] cs@[k].kind),
        decreases cs@.len() - j,
    {
        proof {
            assert(cs@.skip(j as int)[0] == cs@[j as int]);
            assert(cs@.skip(j as int).drop_first() =~= cs@.skip(j as int + 1));
        }
        if is_supported(cs[j].kind) {
            return Some(j);
        }
        j = j + 1;
    }
    proof {
        assert(cs@.skip(j as int) =~= Seq::<Challenge>::empty());
    }
    None
}

/// The challenge selector: for each authorization, skip it when the
/// authority already holds it `Valid`, choose its first supported challenge
/// when it is `Pending`, fail with `UnsupportedChallenge` when a pending
/// authorization offers no supported type, and fail with
/// `AuthorizationFailed` on any other status. A pure decision over
/// already-fetched data: no network activity of any kind.
pub fn select(auths: &Vec<Authorization>) -> (r: Result<Vec<ChallengeBinding>, AcmeError>)
    ensures
        spec_select(auths@) is Ok ==> r is Ok && r->Ok_0@ == spec_select(auths@)->Ok_0,
        spec_select(auths@) is Err ==> r is Err && r->Err_0 == spec_select(auths@)->Err_0,
{
    let mut out: Vec<ChallengeBinding> = Vec::new();
    let mut i: usize = 0;
    proof {
        assert(auths@.skip(0) =~= auths@);
        if spec_select(auths@) is Ok {
            assert(Seq::<ChallengeBinding>::empty() + spec_select(auths@)->Ok_0 =~= spec_select(
                auths@,
            )->Ok_0);
        }
    }
    while i < auths.len()
        invariant
            0 <= i <= auths@.len(),
            spec_select(auths@) == spec_with_prefix(out@, spec_select(auths@.skip(i as int))),
        decreases auths@.len() - i,
    {
        proof {
            assert(auths@.skip(i as int)[0] == auths@[i as int]);
            assert(auths@.skip(i as int).drop_first() =~= auths@.skip(i as int + 1));
        }
        let a = &auths[i];
        match a.status {
            AuthorizationStatus::Valid => {},
            AuthorizationStatus::Pending => {
                match first_supported_index(&a.challenges) {
                    Some(j) => {
                        let c = &a.challenges[j];
                        let binding = ChallengeBinding {
                            identifier: a.identifier.clone(),
                            token: c.token.clone(),
                            url: c.url.clone(),
                        };
                        proof {
                            assert(binding == spec_binding(auths@[i as int], a.challenges@[j as int]));
                        }
                        let ghost out_prev = out@;
                        out.push(binding);
                        proof {
                            let tail = spec_select(auths@.skip(i as int + 1));
                            if tail is Ok {
                                assert(out_prev + (seq![binding] + tail->Ok_0) =~= out_prev.push(
                                    binding,
                                ) + tail->Ok_0);
                            }
                        }
                    },
                    None => {
                        return Err(AcmeError::UnsupportedChallenge);
                    },
                }
            },
            _ => {
                return Err(AcmeError::AuthorizationFailed);
            },
        }
        i = i + 1;
    }
    proof {
        assert(auths@.skip(i as int) =~= Seq::<Authorization>::empty());
        assert(out@ + Seq::<ChallengeBinding>::empty() =~= out@);
    }
    Ok(out)
}

/// For authorizations the authority already holds `Valid`, selection does
/// no work at all: when every authorization is `Valid`, the selector
/// produces no binding whatsoever.
pub proof fn lemma_valid_authorizations_need_no_bindings(auths: Seq<Authorization>)
    requires
        forall|i: int| 0 <= i < auths.len() ==> (#[trigger] auths[i].status) is Valid,
    ensures
        spec_select(auths) == Ok::<Seq<ChallengeBinding>, AcmeError>(Seq::empty()),
    decreases auths.len(),
{
    if auths.len() > 0 {
        assert(auths[0].status is Valid);
        lemma_valid_authorizations_need_no_bindings(auths.drop_first());
    }
}

/// When every authorization is either already satisfied or still pending,
/// but some pending one offers no supported challenge type, selection fails
/// with `UnsupportedChallenge` — and, failing, produces no binding at all.
pub proof fn lemma_pending_without_support_fails(auths: Seq<Authorization>)
    requires
        forall|i: int| 0 <= i < auths.len() ==> (#[trigger] auths[i].status) is Valid
            || auths[i].status is Pending,
        exists|i: int| 0 <= i < auths.len() && (#[trigger] auths[i].status) is Pending
            && spec_first_supported(auths[i].challenges@) is None,
    ensures
        spec_select(auths) == Err::<Seq<ChallengeBinding>, AcmeError>(
            AcmeError::UnsupportedChallenge,
        ),
    decreases auths.len(),
{
    let w = choose|i: int| 0 <= i < auths.len() && (#[trigger] auths[i].status) is Pending
        && spec_first_supported(auths[i].challenges@) is None;
    let a = auths[0];
    if a.status is Pending && spec_first_supported(a.challenges@) is None {
    } else {
        assert(w > 0);
        assert(auths.drop_first()[w - 1] == auths[w]);
        lemma_pending_without_support_fails(auths.drop_first());
    }
}

/// How many authorizations in a sequence still await proof of control.
pub open spec fn spec_count_pending(auths: Seq<Authorization>) -> nat
    decreases auths.len(),
{
    if auths.len() == 0 {
        0
    } else {
        (if auths[0].status is Pending {
            1nat
        } else {
            0nat
        }) + spec_count_pending(auths.drop_first())
    }
}

/// Exactly one challenge is activated per pending authorization and none
/// for any other: a successful selection holds exactly as many bindings
/// as there are pending authorizations.
pub proof fn lemma_one_binding_per_pending(auths: Seq<Authorization>)
    requires
        spec_select(auths) is Ok,
    ensures
        spec_select(auths)->Ok_0.len() == spec_count_pending(auths),
    decreases auths.len(),
{
    if auths.len() > 0 {
        if auths[0].status is Valid {
            lemma_one_binding_per_pending(auths.drop_first());
        } else if auths[0].status is Pending {
            lemma_one_binding_per_pending(auths.drop_first());
        } else {
            assert(false);
        }
    }
}

/// The provisioning plan for the external challenge responder: for the
/// given listening port, exactly the chosen bindings, unchanged and in
/// order.
pub struct ResponderPlan {
    pub port: u16,
    pub entries: Vec<ChallengeBinding>,
}

/// Lays out what the challenge responder must serve: one entry per chosen
/// binding, on the given port. The serving itself is the external
/// responder's work; this only fixes its contract.
pub fn setup_response_server(port: u16, bindings: &Vec<ChallengeBinding>) -> (r: ResponderPlan)
    ensures
        r.port == port,
        r.entries@ == bindings@,
{
    let mut entries: Vec<ChallengeBinding> = Vec::new();
    let mut i: usize = 0;
    while i < bindings.len()
        invariant
            0 <= i <= bindings@.len(),
            entries@ =~= bindings@.subrange(0, i as int),
        decreases bindings@.len() - i,
    {
        entries.push(bindings[i].duplicate());
        i = i + 1;
    }
    proof {
        assert(entries@ =~= bindings@);
    }
    ResponderPlan { port, entries }
}

/// Maps the authority's answer to one readiness notification: a refusal
/// becomes `ChallengeRejected` and is not retried, because it means the
/// challenge was signaled from the wrong state.
pub fn mark_ready(_binding: &ChallengeBinding, authority_ack: bool) -> (r: Result<(), AcmeError>)
    ensures
        r is Ok <==> authority_ack,
        !authority_ack ==> r->Err_0 == AcmeError::ChallengeRejected,
{
    if authority_ack {
        Ok(())
    } else {
        Err(AcmeError::ChallengeRejected)
    }
}

/// Decides whether every flag in a sequence of collaborator answers is
/// affirmative.
fn all_true(flags: &Vec<bool>) -> (r: bool)
    ensures
        r <==> (forall|i: int| 0 <= i < flags@.len() ==> #[trigger] flags@[i]),
{
    let mut i: usize = 0;
    while i < flags.len()
        invariant
            0 <= i <= flags@.len(),
            forall|j: int| 0 <= j < i ==> #[trigger] flags@[j],
        decreases flags@.len() - i,
    {
        if !flags[i] {
            return false;
        }
        i = i + 1;
    }
    true
}

/// Readiness may be signaled for a binding only after the external
/// challenge responder confirms that its proof artifact is live. One
/// missing confirmation aborts the workflow before any readiness signal:
/// the challenge could not be validated, so the run fails with
/// `ChallengeRejected`.
pub fn all_artifacts_confirmed(confirmations: &Vec<bool>) -> (r: Result<(), AcmeError>)
    ensures
        r is Ok <==> (forall|i: int|
            0 <= i < confirmations@.len() ==> #[trigger] confirmations@[i]),
        r is Err ==> r->Err_0 == AcmeError::ChallengeRejected,
{
    if all_true(confirmations) {
        Ok(())
    } else {
        Err(AcmeError::ChallengeRejected)
    }
}

/// Polling may begin only once readiness has been signaled, and accepted,
/// for every binding: one refused acknowledgement aborts the workflow.
pub fn all_marked_ready(acks: &Vec<bool>) -> (r: Result<(), AcmeError>)
    ensures
        r is Ok <==> (forall|i: int| 0 <= i < acks@.len() ==> #[trigger] acks@[i]),
        r is Err ==> r->Err_0 == AcmeError::ChallengeRejected,
{
    if all_true(acks) {
        Ok(())
    } else {
        Err(AcmeError::ChallengeRejected)
    }
}

} // verus!
