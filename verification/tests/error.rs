use acme_micro::error::{AcmeError, AcmeErrorKind, AcmeIdentifier, AcmeSubproblem, Error};
use acme_micro::json::JsonValue;

fn text(s: &str) -> JsonValue {
    JsonValue::String(s.to_string())
}

fn object(members: Vec<(&str, JsonValue)>) -> JsonValue {
    JsonValue::Object(members.into_iter().map(|(k, v)| (k.to_string(), v)).collect())
}

const ALL_KINDS: [(AcmeErrorKind, &str); 24] = [
    (AcmeErrorKind::AccountDoesNotExist, "accountDoesNotExist"),
    (AcmeErrorKind::AlreadyRevoked, "alreadyRevoked"),
    (AcmeErrorKind::BadCSR, "badCSR"),
    (AcmeErrorKind::BadNonce, "badNonce"),
    (AcmeErrorKind::BadPublicKey, "badPublicKey"),
    (AcmeErrorKind::BadRevocationReason, "badRevocationReason"),
    (AcmeErrorKind::BadSignatureAlgorithm, "badSignatureAlgorithm"),
    (AcmeErrorKind::Caa, "caa"),
    (AcmeErrorKind::Compound, "compound"),
    (AcmeErrorKind::Connection, "connection"),
    (AcmeErrorKind::Dns, "dns"),
    (AcmeErrorKind::ExternalAccountRequired, "externalAccountRequired"),
    (AcmeErrorKind::IncorrectResponse, "incorrectResponse"),
    (AcmeErrorKind::InvalidContact, "invalidContact"),
    (AcmeErrorKind::Malformed, "malformed"),
    (AcmeErrorKind::OrderNotReady, "orderNotReady"),
    (AcmeErrorKind::Ratelimited, "rateLimited"),
    (AcmeErrorKind::RejectedIdentifier, "rejectedIdentifier"),
    (AcmeErrorKind::ServerInternal, "serverInternal"),
    (AcmeErrorKind::Tls, "tls"),
    (AcmeErrorKind::Unauthorized, "unauthorized"),
    (AcmeErrorKind::UnsupportedContact, "unsupportedContact"),
    (AcmeErrorKind::UnsupportedIdentifier, "unsupportedIdentifier"),
    (AcmeErrorKind::UserActionRequired, "userActionRequired"),
];

#[test]
fn every_kind_is_found_again_from_its_urn() {
    for (kind, name) in ALL_KINDS {
        let urn = format!("urn:ietf:params:acme:error:{}", name);
        assert_eq!(kind.urn(), Some(urn.as_str()));
        assert_eq!(AcmeErrorKind::from_urn(&urn), kind);
    }
    assert_eq!(AcmeErrorKind::Unrecognized.urn(), None);
}

#[test]
fn any_other_urn_is_unrecognized() {
    assert_eq!(AcmeErrorKind::from_urn(""), AcmeErrorKind::Unrecognized);
    assert_eq!(AcmeErrorKind::from_urn("badNonce"), AcmeErrorKind::Unrecognized);
    assert_eq!(
        AcmeErrorKind::from_urn("urn:ietf:params:acme:error:badnonce"),
        AcmeErrorKind::Unrecognized
    );
    assert_eq!(
        AcmeErrorKind::from_urn("urn:ietf:params:acme:error:somethingNew"),
        AcmeErrorKind::Unrecognized
    );
}

#[test]
fn kinds_say_what_they_mean() {
    assert_eq!(
        AcmeErrorKind::BadNonce.to_string(),
        "The client sent an unacceptable anti-replay nonce"
    );
    assert_eq!(
        AcmeErrorKind::ExternalAccountRequired.description(),
        "The request must include a value for the \"externalAccountBinding\" field"
    );
    assert_eq!(AcmeErrorKind::Malformed.to_string(), "The request message was malformed");
    assert!(AcmeErrorKind::BadNonce.is_bad_nonce());
    assert!(!AcmeErrorKind::Malformed.is_bad_nonce());
}

#[test]
fn identifier_shows_type_and_value() {
    let id = AcmeIdentifier { kind: "dns".to_string(), value: "example.com".to_string() };
    assert_eq!(id.to_string(), "dns: example.com");
}

#[test]
fn subproblem_shows_its_identifier_in_parentheses() {
    let with = AcmeSubproblem {
        kind: AcmeErrorKind::Caa,
        detail: "CAA forbids".to_string(),
        identifier: Some(AcmeIdentifier {
            kind: "dns".to_string(),
            value: "example.com".to_string(),
        }),
    };
    assert_eq!(
        with.to_string(),
        "Certification Authority Authorization (CAA) records forbid the CA from issuing a certificate: CAA forbids (dns: example.com)"
    );
    let without =
        AcmeSubproblem { kind: AcmeErrorKind::Dns, detail: "no record".to_string(), identifier: None };
    assert_eq!(
        without.to_string(),
        "There was a problem with a DNS query during identifier validation: no record"
    );
}

#[test]
fn compound_problem_lists_its_subproblems_in_order() {
    let first = AcmeSubproblem {
        kind: AcmeErrorKind::Malformed,
        detail: "one".to_string(),
        identifier: Some(AcmeIdentifier { kind: "dns".to_string(), value: "a.example".to_string() }),
    };
    let second =
        AcmeSubproblem { kind: AcmeErrorKind::Tls, detail: "two".to_string(), identifier: None };
    let problem = AcmeError::new(
        AcmeErrorKind::Compound,
        "several".to_string(),
        Some(vec![first.clone(), second.clone()]),
    );
    assert_eq!(
        problem.to_string(),
        "Specific error conditions are indicated in the `subproblems` array: several [(The request message was malformed: one (dns: a.example)), (The server received a TLS error during validation: two)]"
    );
    let single = AcmeError::new(AcmeErrorKind::Compound, "d".to_string(), Some(vec![second]));
    assert_eq!(
        single.to_string(),
        "Specific error conditions are indicated in the `subproblems` array: d [(The server received a TLS error during validation: two)]"
    );
    let empty = AcmeError::new(AcmeErrorKind::Compound, "d".to_string(), Some(vec![]));
    assert_eq!(
        empty.to_string(),
        "Specific error conditions are indicated in the `subproblems` array: d []"
    );
    let plain = AcmeError::new(AcmeErrorKind::BadNonce, "stale".to_string(), None);
    assert_eq!(plain.to_string(), "The client sent an unacceptable anti-replay nonce: stale");
    assert_eq!(plain.kind(), AcmeErrorKind::BadNonce);
    assert_eq!(plain.detail(), "stale");
    assert!(plain.subproblems().is_none());
}

#[test]
fn problem_is_read_from_its_document() {
    let doc = object(vec![
        ("type", text("urn:ietf:params:acme:error:compound")),
        ("detail", text("two went wrong")),
        ("status", JsonValue::Number("400".to_string())),
        (
            "subproblems",
            JsonValue::Array(vec![
                object(vec![
                    ("type", text("urn:ietf:params:acme:error:caa")),
                    ("detail", text("forbidden")),
                    (
                        "identifier",
                        object(vec![("type", text("dns")), ("value", text("a.example"))]),
                    ),
                ]),
                object(vec![
                    ("type", text("urn:example:other")),
                    ("detail", text("odd")),
                    ("identifier", JsonValue::Null),
                ]),
            ]),
        ),
    ]);
    let problem = AcmeError::from_json(&doc).unwrap();
    assert_eq!(problem.kind(), AcmeErrorKind::Compound);
    assert_eq!(problem.detail(), "two went wrong");
    let subs = problem.subproblems().unwrap();
    assert_eq!(subs.len(), 2);
    assert_eq!(subs[0].kind, AcmeErrorKind::Caa);
    assert_eq!(subs[0].detail, "forbidden");
    let id = subs[0].identifier.as_ref().unwrap();
    assert_eq!(id.kind, "dns");
    assert_eq!(id.value, "a.example");
    assert_eq!(subs[1].kind, AcmeErrorKind::Unrecognized);
    assert!(subs[1].identifier.is_none());
}

#[test]
fn malformed_problem_document_is_no_problem() {
    assert!(AcmeError::from_json(&JsonValue::Null).is_none());
    assert!(AcmeError::from_json(&text("urn:ietf:params:acme:error:badNonce")).is_none());
    assert!(AcmeError::from_json(&object(vec![("type", text("x"))])).is_none());
    assert!(AcmeError::from_json(&object(vec![("detail", text("x"))])).is_none());
    assert!(AcmeError::from_json(&object(vec![
        ("type", text("x")),
        ("detail", JsonValue::Bool(true))
    ]))
    .is_none());
    assert!(AcmeError::from_json(&object(vec![
        ("type", text("x")),
        ("detail", text("d")),
        ("subproblems", text("none")),
    ]))
    .is_none());
    assert!(AcmeError::from_json(&object(vec![
        ("type", text("x")),
        ("detail", text("d")),
        ("subproblems", JsonValue::Array(vec![object(vec![("type", text("x"))])])),
    ]))
    .is_none());
    assert!(AcmeSubproblem::from_json(&object(vec![
        ("type", text("x")),
        ("detail", text("d")),
        ("identifier", object(vec![("type", text("dns"))])),
    ]))
    .is_none());
    assert!(AcmeIdentifier::from_json(&object(vec![("value", text("v"))])).is_none());
    let plain =
        AcmeError::from_json(&object(vec![("type", text("x")), ("detail", text("d"))])).unwrap();
    assert_eq!(plain.kind(), AcmeErrorKind::Unrecognized);
    assert!(plain.subproblems().is_none());
}

#[test]
fn only_nonce_trouble_asks_for_another_try() {
    assert!(AcmeError::new(AcmeErrorKind::BadNonce, "any".to_string(), None).asks_retry());
    assert!(AcmeError::new(
        AcmeErrorKind::Malformed,
        "JWS verification error".to_string(),
        None
    )
    .asks_retry());
    assert!(!AcmeError::new(AcmeErrorKind::Malformed, "bad body".to_string(), None).asks_retry());
    assert!(!AcmeError::new(
        AcmeErrorKind::Unauthorized,
        "JWS verification error".to_string(),
        None
    )
    .asks_retry());
}

#[test]
fn errors_say_what_failed() {
    assert_eq!(Error::Transport("down".to_string()).to_string(), "Transport error: down");
    assert_eq!(Error::Json("eof".to_string()).to_string(), "JSON error: eof");
    assert_eq!(
        Error::Acme(AcmeError::new(AcmeErrorKind::Dns, "nx".to_string(), None)).to_string(),
        "ACME error: There was a problem with a DNS query during identifier validation: nx"
    );
    assert_eq!(
        Error::MissingHeader("location".to_string()).to_string(),
        "Missing header: location"
    );
    assert_eq!(
        Error::MalformedHeader("replay-nonce".to_string()).to_string(),
        "Malformed header: replay-nonce"
    );
    assert_eq!(Error::Keygen("k".to_string()).to_string(), "Key error: k");
    assert_eq!(Error::Crypto("c".to_string()).to_string(), "Crypto error: c");
    assert_eq!(Error::Pem("p".to_string()).to_string(), "PEM error: p");
    assert_eq!(Error::Date("d".to_string()).to_string(), "Date error: d");
    assert_eq!(Error::UnboundIdentity.to_string(), "The account key has no key id yet");
    assert_eq!(Error::EmptyDomains.to_string(), "A certificate request must name a domain");
}
