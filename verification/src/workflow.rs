use vstd::prelude::*;

use crate::account::create_or_restore;
use crate::account::Account;
use crate::account::AccountReply;
use crate::challenge::all_artifacts_confirmed;
use crate::challenge::all_marked_ready;
use crate::challenge::select;
use crate::challenge::setup_response_server;
use crate::challenge::spec_select;
use crate::challenge::Authorization;
use crate::errors::AcmeError;
use crate::finalize::finalize;
use crate::order::open_order;
use crate::order::spec_valid_request;
use crate::order::validate_identifiers;
use crate::order::OrderReply;
use crate::poll::poll_order;
use crate::poll::poll_until_ready;
use crate::poll::spec_poll_outcome;
use crate::poll::MAX_ATTEMPT_BUDGET;
use crate::poll::MAX_BASE_DELAY_MS;
use crate::status::OrderStatus;

verus! {

/// Everything the authority and its collaborators answer over one whole
/// workflow run, handed in by the driver that performs the exchanges: the
/// account decision, the order-opening decision, the fetched authorizations,
/// the challenge responder's confirmation that each proof artifact is live,
/// the acknowledgement of each readiness signal, the answers to the
/// pre-finalization status queries, whether the signing-request submission
/// was accepted, the answers to the post-finalization queries, and the
/// issued certificate chain.
pub struct AuthorityScript {
    pub account_reply: AccountReply,
    pub order_reply: OrderReply,
    pub authorizations: Vec<Authorization>,
    pub responder_confirms: Vec<bool>,
    pub readiness_acks: Vec<bool>,
    pub ready_statuses: Vec<OrderStatus>,
    pub finalize_accepted: bool,
    pub issue_statuses: Vec<OrderStatus>,
    pub certificate_chain_pem: String,
}

/// The workflow's terminal artifacts, handed back to the caller in full:
/// nothing is persisted here.
pub struct IssuedCertificate {
    pub account: Account,
    pub certificate_chain_pem: String,
    pub private_key_pem: String,
}

/// The decision of every stage up to and including the pre-finalization
/// poll. Each of these stages is a pure decision over the script, so the
/// workflow's behaviour on them is pinned exactly: the first stage that
/// fails classifies the whole run.
pub open spec fn spec_pre_decision(names: Seq<String>, script: AuthorityScript, budget: nat) -> Result<(), AcmeError> {
    if !spec_valid_request(names) {
        Err(AcmeError::InvalidRequest)
    } else if script.account_reply is Rejected {
        Err(AcmeError::AuthRejected)
    } else if script.order_reply is Refused {
        Err(AcmeError::Transport)
    } else if spec_select(script.authorizations@) is Err {
        Err(spec_select(script.authorizations@)->Err_0)
    } else if !(forall|i: int|
        0 <= i < script.responder_confirms@.len() ==> #[trigger] script.responder_confirms@[i]) {
        Err(AcmeError::ChallengeRejected)
    } else if !(forall|i: int|
        0 <= i < script.readiness_acks@.len() ==> #[trigger] script.readiness_acks@[i]) {
        Err(AcmeError::ChallengeRejected)
    } else if spec_poll_outcome(script.ready_statuses@, OrderStatus::Ready, budget) is Err {
        Err(spec_poll_outcome(script.ready_statuses@, OrderStatus::Ready, budget)->Err_0)
    } else {
        Ok(())
    }
}

/// One whole provisioning run over a scripted set of collaborator
/// answers: account, order, challenge selection, responder plan, the
/// responder's artifact confirmations, readiness, pre-finalization poll,
/// signing request, submission, and post-finalization poll, in that
/// order, every failure aborting the run with its classification.
/// Building the signing request draws fresh randomness, so its failure
/// (`FinalizationRejected`) is the one decision the script does not
/// determine; everything else is pinned, and on full success the returned
/// artifacts carry the created account and the issued chain.
pub fn provision(
    names: &Vec<String>,
    directory_url: String,
    contact: Vec<String>,
    terms_agreed: bool,
    port: u16,
    script: AuthorityScript,
    max_attempts: u32,
    base_delay_ms: u64,
) -> (r: Result<IssuedCertificate, AcmeError>)
    requires
        1 <= max_attempts <= MAX_ATTEMPT_BUDGET,
        1 <= base_delay_ms <= MAX_BASE_DELAY_MS,
        script.ready_statuses@.len() >= max_attempts,
        script.issue_statuses@.len() >= max_attempts,
    ensures
        spec_pre_decision(names@, script, max_attempts as nat) is Err ==> r is Err && r->Err_0
            == spec_pre_decision(names@, script, max_attempts as nat)->Err_0,
        spec_pre_decision(names@, script, max_attempts as nat) is Ok && !script.finalize_accepted
            ==> r is Err && r->Err_0 == AcmeError::FinalizationRejected,
        spec_pre_decision(names@, script, max_attempts as nat) is Ok && script.finalize_accepted
            && spec_poll_outcome(script.issue_statuses@, OrderStatus::Valid, max_attempts as nat)
            is Err ==> r is Err && (r->Err_0 == spec_poll_outcome(
            script.issue_statuses@,
            OrderStatus::Valid,
            max_attempts as nat,
        )->Err_0 || r->Err_0 == AcmeError::FinalizationRejected),
        spec_pre_decision(names@, script, max_attempts as nat) is Ok && script.finalize_accepted
            && spec_poll_outcome(script.issue_statuses@, OrderStatus::Valid, max_attempts as nat)
            is Ok ==> (r is Ok && r->Ok_0.certificate_chain_pem == script.certificate_chain_pem)
            || (r is Err && r->Err_0 == AcmeError::FinalizationRejected),
        r is Ok ==> r->Ok_0.account.directory_url == directory_url && r->Ok_0.account.contact
            == contact && r->Ok_0.account.terms_agreed == terms_agreed,
        script.account_reply matches AccountReply::Created { account_url } ==> (r is Ok
            ==> r->Ok_0.account.account_url == account_url),
{
    let AuthorityScript {
        account_reply,
        order_reply,
        authorizations,
        responder_confirms,
        readiness_acks,
        ready_statuses,
        finalize_accepted,
        issue_statuses,
        certificate_chain_pem,
    } = script;
    if let Err(e) = validate_identifiers(names) {
        return Err(e);
    }
    let account = match create_or_restore(directory_url, contact, terms_agreed, account_reply) {
        Ok(a) => a,
        Err(e) => {
            return Err(e);
        },
    };
    let mut order = match open_order(names, order_reply) {
        Ok(o) => o,
        Err(e) => {
            return Err(e);
        },
    };
    let bindings = match select(&authorizations) {
        Ok(b) => b,
        Err(e) => {
            return Err(e);
        },
    };
    let _plan = setup_response_server(port, &bindings);
    // Readiness is signaled only after the external responder confirms
    // every proof artifact of the plan is live.
    if let Err(e) = all_artifacts_confirmed(&responder_confirms) {
        return Err(e);
    }
    if let Err(e) = all_marked_ready(&readiness_acks) {
        return Err(e);
    }
    let report = poll_until_ready(&ready_statuses, max_attempts, base_delay_ms);
    if let Err(e) = report.outcome {
        return Err(e);
    }
    // Success of the poll is exactly a fresh observation of `Ready`; only
    // now may the local cache say so and finalization proceed.
    order.status = OrderStatus::Ready;
    let material = match finalize(&mut order, names) {
        Ok(m) => m,
        Err(e) => {
            return Err(e);
        },
    };
    if !finalize_accepted {
        return Err(AcmeError::FinalizationRejected);
    }
    let post = poll_order(&issue_statuses, OrderStatus::Valid, max_attempts, base_delay_ms);
    if let Err(e) = post.outcome {
        return Err(e);
    }
    Ok(IssuedCertificate {
        account,
        certificate_chain_pem,
        private_key_pem: material.private_key_pem,
    })
}

} // verus!
