use acme_order::create_or_restore;
use acme_order::is_valid_domain;
use acme_order::open_order;
use acme_order::validate_identifiers;
use acme_order::AccountReply;
use acme_order::AcmeError;
use acme_order::OrderReply;
use acme_order::OrderStatus;

fn names(list: &[&str]) -> Vec<String> {
    list.iter().map(|s| s.to_string()).collect()
}

fn accepted_reply() -> OrderReply {
    OrderReply::Accepted {
        status: OrderStatus::Pending,
        authorization_urls: names(&["https://ca/authz/1", "https://ca/authz/2"]),
        finalize_url: "https://ca/finalize/1".to_string(),
    }
}

#[test]
fn open_order_carries_exactly_the_requested_identifiers() {
    let input = names(&["example.org", "www.example.org"]);
    let order = open_order(&input, accepted_reply()).unwrap();
    assert_eq!(order.identifiers, input);
    assert_eq!(order.status, OrderStatus::Pending);
    assert_eq!(
        order.authorization_urls,
        names(&["https://ca/authz/1", "https://ca/authz/2"])
    );
    assert_eq!(order.finalize_url, "https://ca/finalize/1");
    assert!(!order.finalized);
}

#[test]
fn open_order_keeps_an_already_ready_status() {
    let input = names(&["example.org"]);
    let reply = OrderReply::Accepted {
        status: OrderStatus::Ready,
        authorization_urls: vec![],
        finalize_url: "https://ca/finalize/2".to_string(),
    };
    let order = open_order(&input, reply).unwrap();
    assert_eq!(order.status, OrderStatus::Ready);
}

#[test]
fn open_order_rejects_an_empty_identifier_set() {
    let input: Vec<String> = vec![];
    let r = open_order(&input, accepted_reply());
    assert!(matches!(r, Err(AcmeError::InvalidRequest)));
}

#[test]
fn open_order_rejects_a_bad_domain_name() {
    let input = names(&["example.org", "not a domain"]);
    let r = open_order(&input, accepted_reply());
    assert!(matches!(r, Err(AcmeError::InvalidRequest)));
}

#[test]
fn open_order_surfaces_a_collaborator_refusal() {
    let input = names(&["example.org"]);
    let r = open_order(&input, OrderReply::Refused);
    assert!(matches!(r, Err(AcmeError::Transport)));
}

#[test]
fn bad_input_is_caught_before_the_reply_matters() {
    let input: Vec<String> = vec![];
    let r = open_order(&input, OrderReply::Refused);
    assert!(matches!(r, Err(AcmeError::InvalidRequest)));
}

#[test]
fn validate_identifiers_accepts_good_sets() {
    assert!(validate_identifiers(&names(&["example.org"])).is_ok());
    assert!(validate_identifiers(&names(&["a.b.c.example.org", "xn--test.example.org"])).is_ok());
}

#[test]
fn validate_identifiers_rejects_bad_sets() {
    assert!(matches!(
        validate_identifiers(&names(&[])),
        Err(AcmeError::InvalidRequest)
    ));
    assert!(matches!(
        validate_identifiers(&names(&["example.org", ""])),
        Err(AcmeError::InvalidRequest)
    ));
}

#[test]
fn domain_syntax_is_checked_exactly() {
    assert!(is_valid_domain("a"));
    assert!(is_valid_domain("example.org"));
    assert!(is_valid_domain("sub-domain.example.org"));
    assert!(is_valid_domain("0.example.org"));
    assert!(!is_valid_domain(""));
    assert!(!is_valid_domain(".example.org"));
    assert!(!is_valid_domain("example.org."));
    assert!(!is_valid_domain("example..org"));
    assert!(!is_valid_domain("-example.org"));
    assert!(!is_valid_domain("example.org-"));
    assert!(!is_valid_domain("exa mple.org"));
    assert!(!is_valid_domain("Example.org"));
    assert!(!is_valid_domain("exämple.org"));
    let longest = "a".repeat(253);
    assert!(is_valid_domain(&longest));
    let too_long = "a".repeat(254);
    assert!(!is_valid_domain(&too_long));
}

#[test]
fn account_creation_binds_the_given_urls() {
    let reply = AccountReply::Created {
        account_url: "https://ca/acct/7".to_string(),
    };
    let account = create_or_restore(
        "https://ca/directory".to_string(),
        names(&["mailto:admin@example.org"]),
        true,
        reply,
    )
    .unwrap();
    assert_eq!(account.directory_url, "https://ca/directory");
    assert_eq!(account.account_url, "https://ca/acct/7");
    assert_eq!(account.contact, names(&["mailto:admin@example.org"]));
    assert!(account.terms_agreed);
}

#[test]
fn account_rejection_is_classified() {
    let r = create_or_restore(
        "https://ca/directory".to_string(),
        vec![],
        false,
        AccountReply::Rejected,
    );
    assert!(matches!(r, Err(AcmeError::AuthRejected)));
}
