use vstd::prelude::*;

use crate::errors::AcmeError;

verus! {

/// An authenticated identity with the certificate authority: bound to the
/// authority's directory URL and carrying the server-assigned account URL.
/// Immutable for the lifetime of a workflow invocation; the signing key
/// itself stays with the transport collaborator.
pub struct Account {
    pub directory_url: String,
    pub account_url: String,
    pub contact: Vec<String>,
    pub terms_agreed: bool,
}

/// What the authority answered when asked to create or restore an
/// account: the server-assigned account URL, or a refusal.
pub enum AccountReply {
    Created { account_url: String },
    Rejected,
}

/// The account manager. A single authoritative exchange, no retries: a
/// refusal by the authority (for instance because the terms were not
/// agreed to) surfaces as `AuthRejected`; acceptance yields the account
/// bound to the given directory URL under the server-assigned account URL.
pub fn create_or_restore(
    directory_url: String,
    contact: Vec<String>,
    terms_agreed: bool,
    reply: AccountReply,
) -> (r: Result<Account, AcmeError>)
    ensures
        reply is Rejected ==> r == Err::<Account, AcmeError>(AcmeError::AuthRejected),
        reply matches AccountReply::Created { account_url } ==> r is Ok
            && r->Ok_0.directory_url == directory_url && r->Ok_0.account_url == account_url
            && r->Ok_0.contact == contact && r->Ok_0.terms_agreed == terms_agreed,
{
    match reply {
        AccountReply::Created { account_url } => Ok(
            Account { directory_url, account_url, contact, terms_agreed },
        ),
        AccountReply::Rejected => Err(AcmeError::AuthRejected),
    }
}

} // verus!
