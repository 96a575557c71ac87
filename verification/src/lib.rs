//! The order-lifecycle core of an ACME certificate-provisioning workflow:
//! account and order initiation, challenge selection, the readiness gate,
//! the retry/backoff poller around order-status queries, and the
//! finalization gate, each with a verified contract. The wire protocol,
//! the challenge responder and all network transport are external
//! collaborators: a driver performs the exchanges and hands their answers
//! to this library, which makes every decision.

use vstd::prelude::*;

mod account;
mod challenge;
mod domain;
mod errors;
mod finalize;
mod order;
mod poll;
mod status;
mod workflow;

pub use account::create_or_restore;
pub use account::Account;
pub use account::AccountReply;
pub use challenge::all_artifacts_confirmed;
pub use challenge::all_marked_ready;
pub use challenge::is_supported;
pub use challenge::lemma_one_binding_per_pending;
pub use challenge::lemma_pending_without_support_fails;
pub use challenge::lemma_valid_authorizations_need_no_bindings;
pub use challenge::mark_ready;
pub use challenge::select;
pub use challenge::setup_response_server;
pub use challenge::spec_binding;
pub use challenge::spec_count_pending;
pub use challenge::spec_first_supported;
pub use challenge::spec_select;
pub use challenge::spec_supported;
pub use challenge::Authorization;
pub use challenge::Challenge;
pub use challenge::ChallengeBinding;
pub use challenge::ResponderPlan;
pub use domain::is_valid_domain;
pub use domain::spec_valid_domain;
pub use errors::AcmeError;
pub use finalize::finalize;
pub use finalize::prepare_sign_request;
pub use finalize::spec_private_key_pem_shaped;
pub use finalize::SigningMaterial;
pub use order::open_order;
pub use order::spec_valid_request;
pub use order::validate_identifiers;
pub use order::Order;
pub use order::OrderReply;
pub use poll::lemma_poll_after_target_is_idempotent;
pub use poll::lemma_poll_queries_within_budget;
pub use poll::poll_order;
pub use poll::poll_until_ready;
pub use poll::spec_backoff_delay;
pub use poll::spec_poll_outcome;
pub use poll::spec_poll_queries;
pub use poll::spec_rejection_error;
pub use poll::PollAction;
pub use poll::PollReport;
pub use poll::Poller;
pub use poll::MAX_ATTEMPT_BUDGET;
pub use poll::MAX_BASE_DELAY_MS;
pub use status::AuthorizationStatus;
pub use status::ChallengeType;
pub use status::OrderStatus;
pub use workflow::provision;
pub use workflow::spec_pre_decision;
pub use workflow::AuthorityScript;
pub use workflow::IssuedCertificate;
