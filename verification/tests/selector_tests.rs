use acme_order::all_marked_ready;
use acme_order::mark_ready;
use acme_order::select;
use acme_order::setup_response_server;
use acme_order::AcmeError;
use acme_order::Authorization;
use acme_order::AuthorizationStatus;
use acme_order::Challenge;
use acme_order::ChallengeType;

fn challenge(kind: ChallengeType, token: &str, url: &str) -> Challenge {
    Challenge {
        kind,
        token: token.to_string(),
        url: url.to_string(),
    }
}

fn authorization(
    identifier: &str,
    status: AuthorizationStatus,
    challenges: Vec<Challenge>,
) -> Authorization {
    Authorization {
        identifier: identifier.to_string(),
        status,
        challenges,
    }
}

#[test]
fn valid_authorization_produces_no_binding() {
    let auths = vec![authorization(
        "example.org",
        AuthorizationStatus::Valid,
        vec![challenge(ChallengeType::Dns01, "tok", "https://ca/chal/1")],
    )];
    let bindings = select(&auths).unwrap();
    assert_eq!(bindings.len(), 0);
}

#[test]
fn all_valid_authorizations_produce_no_bindings() {
    let auths = vec![
        authorization("a.example.org", AuthorizationStatus::Valid, vec![]),
        authorization("b.example.org", AuthorizationStatus::Valid, vec![]),
    ];
    let bindings = select(&auths).unwrap();
    assert_eq!(bindings.len(), 0);
}

#[test]
fn pending_without_supported_challenge_fails() {
    let auths = vec![authorization(
        "example.org",
        AuthorizationStatus::Pending,
        vec![
            challenge(ChallengeType::Http01, "t1", "u1"),
            challenge(ChallengeType::TlsAlpn01, "t2", "u2"),
        ],
    )];
    let r = select(&auths);
    assert!(matches!(r, Err(AcmeError::UnsupportedChallenge)));
}

#[test]
fn pending_authorization_binds_first_supported_challenge() {
    let auths = vec![authorization(
        "example.org",
        AuthorizationStatus::Pending,
        vec![
            challenge(ChallengeType::Http01, "http-tok", "http-url"),
            challenge(ChallengeType::Dns01, "dns-tok", "dns-url"),
            challenge(ChallengeType::Dns01, "other-tok", "other-url"),
        ],
    )];
    let bindings = select(&auths).unwrap();
    assert_eq!(bindings.len(), 1);
    assert_eq!(bindings[0].identifier, "example.org");
    assert_eq!(bindings[0].token, "dns-tok");
    assert_eq!(bindings[0].url, "dns-url");
}

#[test]
fn failed_authorization_aborts_selection() {
    for status in [
        AuthorizationStatus::Invalid,
        AuthorizationStatus::Expired,
        AuthorizationStatus::Revoked,
    ] {
        let auths = vec![authorization(
            "example.org",
            status,
            vec![challenge(ChallengeType::Dns01, "t", "u")],
        )];
        let r = select(&auths);
        assert!(matches!(r, Err(AcmeError::AuthorizationFailed)));
    }
}

#[test]
fn mixed_valid_and_pending_binds_only_pending() {
    let auths = vec![
        authorization("done.example.org", AuthorizationStatus::Valid, vec![]),
        authorization(
            "todo.example.org",
            AuthorizationStatus::Pending,
            vec![challenge(ChallengeType::Dns01, "tok", "url")],
        ),
    ];
    let bindings = select(&auths).unwrap();
    assert_eq!(bindings.len(), 1);
    assert_eq!(bindings[0].identifier, "todo.example.org");
}

#[test]
fn responder_plan_covers_every_binding() {
    let auths = vec![
        authorization(
            "a.example.org",
            AuthorizationStatus::Pending,
            vec![challenge(ChallengeType::Dns01, "ta", "ua")],
        ),
        authorization(
            "b.example.org",
            AuthorizationStatus::Pending,
            vec![challenge(ChallengeType::Dns01, "tb", "ub")],
        ),
    ];
    let bindings = select(&auths).unwrap();
    let plan = setup_response_server(8080, &bindings);
    assert_eq!(plan.port, 8080);
    assert_eq!(plan.entries.len(), 2);
    assert_eq!(plan.entries[0].identifier, "a.example.org");
    assert_eq!(plan.entries[0].token, "ta");
    assert_eq!(plan.entries[0].url, "ua");
    assert_eq!(plan.entries[1].identifier, "b.example.org");
    assert_eq!(plan.entries[1].token, "tb");
    assert_eq!(plan.entries[1].url, "ub");
}

#[test]
fn mark_ready_passes_on_acknowledgement() {
    let binding = acme_order::ChallengeBinding {
        identifier: "example.org".to_string(),
        token: "tok".to_string(),
        url: "url".to_string(),
    };
    assert!(mark_ready(&binding, true).is_ok());
    let r = mark_ready(&binding, false);
    assert!(matches!(r, Err(AcmeError::ChallengeRejected)));
}

#[test]
fn readiness_gate_requires_every_acknowledgement() {
    assert!(all_marked_ready(&vec![]).is_ok());
    assert!(all_marked_ready(&vec![true, true, true]).is_ok());
    let r = all_marked_ready(&vec![true, false, true]);
    assert!(matches!(r, Err(AcmeError::ChallengeRejected)));
}
