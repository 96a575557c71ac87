use vstd::prelude::*;

use crate::domain::is_valid_domain;
use crate::domain::spec_valid_domain;
use crate::errors::AcmeError;
use crate::status::OrderStatus;

verus! {

/// The local cache of the authority's tracking of one certificate request.
/// The identifier set is fixed at creation and never mutated; the status is
/// only a cache of the authority's, refreshed by polling.
pub struct Order {
    pub identifiers: Vec<String>,
    pub status: OrderStatus,
    pub authorization_urls: Vec<String>,
    pub finalize_url: String,
    pub finalized: bool,
}

/// What the authority answered when asked to open an order: the order's
/// initial status together with its authorization and finalize URLs, or a
/// collaborator-level refusal.
pub enum OrderReply {
    Accepted { status: OrderStatus, authorization_urls: Vec<String>, finalize_url: String },
    Refused,
}

/// A well-formed order request: at least one identifier, each a
/// syntactically valid domain name.
pub open spec fn spec_valid_request(names: Seq<String>) -> bool {
    &&& names.len() > 0
    &&& forall|i: int| 0 <= i < names.len() ==> spec_valid_domain((#[trigger] names[i])@)
}

/// Checks an identifier set before anything is sent to the authority:
/// an empty set, or any syntactically invalid domain name, is rejected
/// with `InvalidRequest` and no network request may be made.
pub fn validate_identifiers(names: &Vec<String>) -> (r: Result<(), AcmeError>)
    ensures
        r is Ok <==> spec_valid_request(names@),
        r is Err ==> r->Err_0 == AcmeError::InvalidRequest,
{
    if names.len() == 0 {
        return Err(AcmeError::InvalidRequest);
    }
    let mut i: usize = 0;
    while i < names.len()
        invariant
            0 <= i <= names@.len(),
            forall|j: int| 0 <= j < i ==> spec_valid_domain((#[trigger] names@[j])@),
        decreases names@.len() - i,
    {
        if !is_valid_domain(names[i].as_str()) {
            return Err(AcmeError::InvalidRequest);
        }
        i = i + 1;
    }
    Ok(())
}

/// The order initiator. A bad identifier set fails with `InvalidRequest`
/// before any network activity; a collaborator refusal surfaces as
/// `Transport`; otherwise the returned order carries exactly the requested
/// identifiers — the full set, never a partial one — the authority's
/// initial status (which may already be `Ready` or `Valid` if it
/// recognizes prior validation), its authorization URLs, and its finalize
/// URL, and is not yet finalized.
pub fn open_order(names: &Vec<String>, reply: OrderReply) -> (r: Result<Order, AcmeError>)
    ensures
        !spec_valid_request(names@) ==> r == Err::<Order, AcmeError>(AcmeError::InvalidRequest),
        spec_valid_request(names@) && reply is Refused ==> r == Err::<Order, AcmeError>(
            AcmeError::Transport,
        ),
        spec_valid_request(names@) ==> (reply matches OrderReply::Accepted {
            status,
            authorization_urls,
            finalize_url,
        } ==> r is Ok && r->Ok_0.identifiers@ == names@ && r->Ok_0.status == status
            && r->Ok_0.authorization_urls == authorization_urls && r->Ok_0.finalize_url
            == finalize_url && r->Ok_0.finalized == false),
{
    if let Err(e) = validate_identifiers(names) {
        return Err(e);
    }
    match reply {
        OrderReply::Accepted { status, authorization_urls, finalize_url } => {
            let mut identifiers: Vec<String> = Vec::new();
            let mut i: usize = 0;
            while i < names.len()
                invariant
                    0 <= i <= names@.len(),
                    identifiers@ =~= names@.subrange(0, i as int),
                decreases names@.len() - i,
            {
                identifiers.push(names[i].clone());
                i = i + 1;
            }
            proof {
                assert(identifiers@ =~= names@);
            }
            Ok(Order { identifiers, status, authorization_urls, finalize_url, finalized: false })
        },
        OrderReply::Refused => Err(AcmeError::Transport),
    }
}

} // verus!
