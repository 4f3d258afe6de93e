use acme_micro::acc::akey::AcmeKey;
use acme_micro::error::Error;
use acme_micro::req::ReqResult;
use acme_micro::trans::{
    CallAction, CallEvent, JwsMode, NoncePool, SignedCall, Transport, MAX_CALL_ATTEMPTS,
};

fn with_nonce(status: u16, nonce: &str, content_type: &str, body: &str) -> ReqResult {
    ReqResult {
        body: body.to_string(),
        status,
        headers: vec![
            ("Content-Type".to_string(), content_type.to_string()),
            ("Replay-Nonce".to_string(), nonce.to_string()),
        ],
    }
}

fn bad_nonce(nonce: &str) -> ReqResult {
    with_nonce(
        400,
        nonce,
        "application/problem+json",
        r#"{"type":"urn:ietf:params:acme:error:badNonce","detail":"stale nonce"}"#,
    )
}

fn bound_transport() -> Transport {
    let mut transport = Transport::new(AcmeKey::new().unwrap());
    transport.set_key_id("https://example/acct/1".to_string());
    transport
}

fn nonce_of(body: &str) -> String {
    let jws: serde_json::Value = serde_json::from_str(body).unwrap();
    let protected = base64::decode_config(
        jws.get("protected").unwrap().as_str().unwrap(),
        base64::URL_SAFE_NO_PAD,
    )
    .unwrap();
    let header: serde_json::Value = serde_json::from_slice(&protected).unwrap();
    header.get("nonce").unwrap().as_str().unwrap().to_string()
}

#[test]
fn bad_nonce_is_answered_by_another_try() {
    let transport = bound_transport();
    let mut pool = NoncePool::new("https://example/new-nonce");
    pool.push("stale".to_string());

    let (call, action) = transport.call(&mut pool, "https://example/order", "{}");
    assert_eq!(call.attempts(), 1);
    let first = match action {
        CallAction::Post { url, body } => {
            assert_eq!(url, "https://example/order");
            body
        }
        _ => panic!("a stored nonce must lead to the post"),
    };
    assert_eq!(nonce_of(&first), "stale");
    assert_eq!(pool.len(), 0);

    let (call, action) = transport.do_call(&mut pool, call, CallEvent::Response(bad_nonce("fresh")));
    assert_eq!(call.attempts(), 2);
    let second = match action {
        CallAction::Post { url, body } => {
            assert_eq!(url, "https://example/order");
            body
        }
        _ => panic!("a bad nonce must lead to another post"),
    };
    assert_eq!(nonce_of(&second), "fresh");
    assert_eq!(pool.len(), 0);

    let good = with_nonce(200, "next", "application/json", "{\"status\":\"ready\"}");
    let (call, action) = transport.do_call(&mut pool, call, CallEvent::Response(good));
    assert_eq!(call.attempts(), 2);
    match action {
        CallAction::Done(res) => {
            assert_eq!(res.status, 200);
            assert_eq!(res.body, "{\"status\":\"ready\"}");
        }
        _ => panic!("a good answer ends the call"),
    }
    assert_eq!(pool.get_nonce(), Some("next".to_string()));
}

#[test]
fn verification_error_is_answered_by_another_try() {
    let transport = bound_transport();
    let mut pool = NoncePool::new("/n");
    pool.push("a".to_string());
    let (call, _) = transport.call(&mut pool, "/o", "{}");
    let rejected = with_nonce(
        400,
        "b",
        "application/problem+json",
        r#"{"type":"urn:ietf:params:acme:error:malformed","detail":"JWS verification error"}"#,
    );
    let (call, action) = transport.do_call(&mut pool, call, CallEvent::Response(rejected));
    assert_eq!(call.attempts(), 2);
    assert!(matches!(action, CallAction::Post { .. }));
}

#[test]
fn empty_store_asks_for_a_fresh_nonce() {
    let transport = bound_transport();
    let mut pool = NoncePool::new("https://example/new-nonce");
    let (call, action) = transport.call(&mut pool, "/o", "\"\"");
    assert_eq!(call.attempts(), 0);
    match action {
        CallAction::FetchNonce { url } => assert_eq!(url, "https://example/new-nonce"),
        _ => panic!("an empty store must ask for a nonce"),
    }
    let head = ReqResult {
        body: String::new(),
        status: 200,
        headers: vec![("replay-nonce".to_string(), "from-head".to_string())],
    };
    let (call, action) = transport.do_call(&mut pool, call, CallEvent::FreshNonce(head));
    assert_eq!(call.attempts(), 1);
    match action {
        CallAction::Post { url, body } => {
            assert_eq!(url, "/o");
            assert_eq!(nonce_of(&body), "from-head");
            let jws: serde_json::Value = serde_json::from_str(&body).unwrap();
            assert_eq!(jws.get("payload").unwrap().as_str(), Some(""));
        }
        _ => panic!("a fresh nonce must lead to the post"),
    }
    assert_eq!(pool.len(), 0);
}

#[test]
fn answer_without_nonce_fails_the_call() {
    let transport = bound_transport();
    let mut pool = NoncePool::new("/n");
    let (call, _) = transport.call(&mut pool, "/o", "{}");
    let head = ReqResult { body: String::new(), status: 200, headers: vec![] };
    let (call, action) = transport.do_call(&mut pool, call, CallEvent::FreshNonce(head));
    assert_eq!(call.attempts(), 0);
    match action {
        CallAction::Failed(Error::MissingHeader(name)) => assert_eq!(name, "replay-nonce"),
        _ => panic!("an answer without a nonce must fail the call"),
    }
}

#[test]
fn other_problems_are_handed_back_as_they_came() {
    let transport = bound_transport();
    let mut pool = NoncePool::new("/n");
    pool.push("a".to_string());
    let (call, _) = transport.call(&mut pool, "/o", "{}");
    let denied = with_nonce(
        403,
        "b",
        "application/problem+json",
        r#"{"type":"urn:ietf:params:acme:error:unauthorized","detail":"no"}"#,
    );
    let (call, action) = transport.do_call(&mut pool, call, CallEvent::Response(denied));
    assert_eq!(call.attempts(), 1);
    match action {
        CallAction::Done(res) => assert_eq!(res.status, 403),
        _ => panic!("a problem that is no nonce trouble ends the call"),
    }
    assert_eq!(pool.get_nonce(), Some("b".to_string()));
}

#[test]
fn call_is_given_up_after_too_many_tries() {
    let transport = bound_transport();
    let mut pool = NoncePool::new("/n");
    pool.push("n0".to_string());
    let (mut call, mut action) = transport.call(&mut pool, "/o", "{}");
    let mut posts = 0;
    loop {
        match action {
            CallAction::Post { .. } => {
                posts += 1;
                let next = transport.do_call(
                    &mut pool,
                    call,
                    CallEvent::Response(bad_nonce(&format!("n{}", posts))),
                );
                call = next.0;
                action = next.1;
            }
            CallAction::Failed(Error::Transport(_)) => break,
            _ => panic!("a call that is always turned down must be given up"),
        }
        assert!(posts <= MAX_CALL_ATTEMPTS);
    }
    assert_eq!(posts, MAX_CALL_ATTEMPTS);
    assert_eq!(posts, 5);
    assert_eq!(call.attempts(), MAX_CALL_ATTEMPTS);
    // The nonce of the last answer is still in store.
    assert_eq!(pool.get_nonce(), Some("n5".to_string()));
    let (_, action) = transport.do_call(&mut pool, call, CallEvent::Start);
    assert!(matches!(action, CallAction::Failed(Error::Transport(_))));
}

#[test]
fn unbound_key_is_never_posted_by_key_id() {
    let transport = Transport::new(AcmeKey::new().unwrap());
    let mut pool = NoncePool::new("/n");
    pool.push("a".to_string());
    let (call, action) = transport.call(&mut pool, "/o", "{}");
    assert_eq!(call.attempts(), 0);
    assert!(matches!(action, CallAction::Failed(Error::UnboundIdentity)));
    let mut pool = NoncePool::new("/n");
    pool.push("a".to_string());
    let (call, action) = transport.call_jwk(&mut pool, "/a", "{}");
    assert_eq!(call.attempts(), 1);
    assert!(matches!(action, CallAction::Post { .. }));
}

#[test]
fn transport_keeps_its_key() {
    let key = AcmeKey::new().unwrap();
    let x = key.public_x().clone();
    let mut transport = Transport::new(key);
    assert_eq!(*transport.acme_key().public_x(), x);
    assert!(transport.acme_key().key_id().is_err());
    transport.set_key_id("kid".to_string());
    assert_eq!(transport.acme_key().key_id().unwrap(), "kid");
    let call = SignedCall::new(JwsMode::Kid, "/u", "{}");
    assert_eq!(call.attempts(), 0);
}

#[test]
fn fresh_nonce_that_is_no_text_fails_the_call() {
    let transport = bound_transport();
    let mut pool = NoncePool::new("/n");
    let (call, _) = transport.call(&mut pool, "/o", "{}");
    let head = ReqResult {
        body: String::new(),
        status: 200,
        headers: vec![("Replay-Nonce".to_string(), "no\u{2}text".to_string())],
    };
    let (call, action) = transport.do_call(&mut pool, call, CallEvent::FreshNonce(head));
    assert_eq!(call.attempts(), 0);
    match action {
        CallAction::Failed(Error::MalformedHeader(name)) => assert_eq!(name, "replay-nonce"),
        _ => panic!("a nonce that is no text must fail the call"),
    }
    assert_eq!(pool.len(), 0);
}

#[test]
fn answer_with_a_malformed_nonce_leaves_the_store_alone() {
    let transport = bound_transport();
    let mut pool = NoncePool::new("/n");
    pool.push("a".to_string());
    pool.push("b".to_string());
    let (call, _) = transport.call(&mut pool, "/o", "{}");
    let good = with_nonce(200, "bad\u{1f}", "application/json", "{}");
    let (_, action) = transport.do_call(&mut pool, call, CallEvent::Response(good));
    assert!(matches!(action, CallAction::Done(_)));
    assert_eq!(pool.len(), 1);
    assert_eq!(pool.get_nonce(), Some("b".to_string()));
}
