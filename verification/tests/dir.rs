use acme_micro::dir::{Directory, DirectoryUrl};
use acme_micro::error::{AcmeErrorKind, Error};
use acme_micro::req::ReqResult;
use acme_micro::trans::{CallAction, CallEvent};

/// What a test server answers, without the network in between.
struct TestServer {
    dir_url: String,
}

fn with_directory_server() -> TestServer {
    TestServer { dir_url: "http://127.0.0.1:4000/directory".to_string() }
}

impl TestServer {
    fn get_directory(&self) -> ReqResult {
        let body = r#"{
    "keyChange": "http://127.0.0.1:4000/acme/key-change",
    "newAccount": "http://127.0.0.1:4000/acme/new-acct",
    "newNonce": "http://127.0.0.1:4000/acme/new-nonce",
    "newOrder": "http://127.0.0.1:4000/acme/new-order",
    "revokeCert": "http://127.0.0.1:4000/acme/revoke-cert",
    "meta": {
        "caaIdentities": [
        "testdir.org"
        ]
    }
    }"#;
        ReqResult {
            body: body.to_string(),
            status: 200,
            headers: vec![("content-type".to_string(), "application/json".to_string())],
        }
    }

    fn head_new_nonce(&self) -> ReqResult {
        ReqResult {
            body: String::new(),
            status: 204,
            headers: vec![(
                "Replay-Nonce".to_string(),
                "8_uBBV3N2DBRJczhoiB46ugJKUkUHxGzVe6xIMpjHFM".to_string(),
            )],
        }
    }

    fn post_new_acct(&self) -> ReqResult {
        let body = r#"{
    "id": 7728515,
    "contact": [
        "mailto:foo@bar.com"
    ],
    "initialIp": "90.171.37.12",
    "createdAt": "2018-12-31T17:15:40.399104457Z",
    "status": "valid"
    }"#;
        ReqResult {
            body: body.to_string(),
            status: 200,
            headers: vec![
                ("Location".to_string(), "http://127.0.0.1:4000/acme/acct/7728515".to_string()),
                ("Replay-Nonce".to_string(), "fresh-nonce".to_string()),
            ],
        }
    }
}

#[test]
fn test_create_directory() -> Result<(), Error> {
    let server = with_directory_server();
    let url = DirectoryUrl::Other(&server.dir_url);
    let _ = Directory::from_url(url, server.get_directory())?;
    Ok(())
}

#[test]
fn test_create_acount() -> Result<(), Error> {
    let server = with_directory_server();
    let url = DirectoryUrl::Other(&server.dir_url);
    let mut dir = Directory::from_url(url, server.get_directory())?;
    let pending = dir.register_account(vec!["mailto:foo@bar.com".to_string()])?;
    let transport = pending.transport;
    let mut call = pending.call;
    let mut action = pending.action;
    let res = loop {
        let event = match action {
            CallAction::FetchNonce { url } => {
                assert_eq!(url, "http://127.0.0.1:4000/acme/new-nonce");
                CallEvent::FreshNonce(server.head_new_nonce())
            }
            CallAction::Post { url, body: _ } => {
                assert_eq!(url, "http://127.0.0.1:4000/acme/new-acct");
                CallEvent::Response(server.post_new_acct())
            }
            CallAction::Done(res) => break res,
            CallAction::Failed(e) => return Err(e),
        };
        let next = dir.continue_call(&transport, call, event);
        call = next.0;
        action = next.1;
    };
    let _ = dir.finish_account(transport, res)?;
    Ok(())
}

#[test]
fn directory_holds_what_the_document_says() {
    let server = with_directory_server();
    let dir =
        Directory::from_url(DirectoryUrl::Other(&server.dir_url), server.get_directory()).unwrap();
    assert_eq!(dir.url(), "http://127.0.0.1:4000/directory");
    let api = dir.api_directory();
    assert_eq!(api.new_nonce, "http://127.0.0.1:4000/acme/new-nonce");
    assert_eq!(api.new_account, "http://127.0.0.1:4000/acme/new-acct");
    assert_eq!(api.new_order, "http://127.0.0.1:4000/acme/new-order");
    assert_eq!(api.revoke_cert, "http://127.0.0.1:4000/acme/revoke-cert");
    assert_eq!(api.key_change, "http://127.0.0.1:4000/acme/key-change");
    assert_eq!(api.new_authz, None);
    let meta = api.meta.as_ref().unwrap();
    assert_eq!(meta.caa_identities, Some(vec!["testdir.org".to_string()]));
    assert_eq!(meta.terms_of_service, None);
    assert_eq!(meta.external_account_required, None);
    assert_eq!(dir.nonce_pool().nonce_url(), "http://127.0.0.1:4000/acme/new-nonce");
    assert_eq!(dir.nonce_pool().len(), 0);
}

#[test]
fn directory_url_names_the_known_directories() {
    assert_eq!(
        DirectoryUrl::LetsEncrypt.to_url(),
        "https://acme-v02.api.letsencrypt.org/directory"
    );
    assert_eq!(
        DirectoryUrl::LetsEncryptStaging.to_url(),
        "https://acme-staging-v02.api.letsencrypt.org/directory"
    );
    assert_eq!(DirectoryUrl::Other("https://ca.example/dir").to_url(), "https://ca.example/dir");
}

#[test]
fn directory_needs_a_directory_document() {
    let url = "https://ca.example/dir";
    let not_json = ReqResult { body: "<html>".to_string(), status: 200, headers: vec![] };
    assert!(matches!(
        Directory::from_url(DirectoryUrl::Other(url), not_json),
        Err(Error::Json(_))
    ));
    let incomplete =
        ReqResult { body: r#"{"newNonce":"/n"}"#.to_string(), status: 200, headers: vec![] };
    assert!(matches!(
        Directory::from_url(DirectoryUrl::Other(url), incomplete),
        Err(Error::Json(_))
    ));
    let failed = ReqResult { body: "down".to_string(), status: 503, headers: vec![] };
    match Directory::from_url(DirectoryUrl::Other(url), failed) {
        Err(Error::Acme(problem)) => {
            assert_eq!(problem.kind(), AcmeErrorKind::Unrecognized);
            assert_eq!(problem.detail(), "503 body: down");
        }
        _ => panic!("a failed fetch must give the problem"),
    }
}

#[test]
fn registration_binds_the_key_to_the_location() {
    let body = r#"{"newNonce":"/n","newAccount":"/a","newOrder":"/o","revokeCert":"/r","keyChange":"/k"}"#;
    let fetched = ReqResult { body: body.to_string(), status: 200, headers: vec![] };
    let mut dir = Directory::from_url(DirectoryUrl::Other("https://example/dir"), fetched).unwrap();
    assert_eq!(dir.api_directory().new_nonce, "/n");

    let pending = dir.register_account(vec![]).unwrap();
    assert!(matches!(pending.transport.acme_key().key_id(), Err(Error::UnboundIdentity)));
    match &pending.action {
        CallAction::FetchNonce { url } => assert_eq!(url, "/n"),
        _ => panic!("an empty store must ask for a nonce"),
    }
    let head = ReqResult {
        body: String::new(),
        status: 200,
        headers: vec![("replay-nonce".to_string(), "first".to_string())],
    };
    let (call, action) =
        dir.continue_call(&pending.transport, pending.call, CallEvent::FreshNonce(head));
    let posted = match action {
        CallAction::Post { url, body } => {
            assert_eq!(url, "/a");
            body
        }
        _ => panic!("a nonce must lead to the post"),
    };
    let jws: serde_json::Value = serde_json::from_str(&posted).unwrap();
    let protected = base64::decode_config(
        jws.get("protected").unwrap().as_str().unwrap(),
        base64::URL_SAFE_NO_PAD,
    )
    .unwrap();
    let header: serde_json::Value = serde_json::from_slice(&protected).unwrap();
    assert!(header.get("jwk").is_some());
    assert!(header.get("kid").is_none());
    assert_eq!(header.get("nonce").unwrap().as_str(), Some("first"));

    let answer = ReqResult {
        body: r#"{"status":"valid","contact":[]}"#.to_string(),
        status: 200,
        headers: vec![("Location".to_string(), "https://example/acct/1".to_string())],
    };
    let (_, action) = dir.continue_call(&pending.transport, call, CallEvent::Response(answer));
    let res = match action {
        CallAction::Done(res) => res,
        _ => panic!("a good answer ends the call"),
    };
    let account = dir.finish_account(pending.transport, res).unwrap();
    assert_eq!(account.key_id().unwrap(), "https://example/acct/1");
    assert_eq!(account.api_account().status.as_deref(), Some("valid"));
    assert_eq!(account.api_directory().new_order, "/o");

    // Every later call names the account by its key id.
    let mut pool = acme_micro::trans::NoncePool::new("/n");
    pool.push("second".to_string());
    let (_, action) = account.call(&mut pool, "/o", "{}");
    let posted = match action {
        CallAction::Post { url, body } => {
            assert_eq!(url, "/o");
            body
        }
        _ => panic!("a stored nonce must lead to the post"),
    };
    let jws: serde_json::Value = serde_json::from_str(&posted).unwrap();
    let protected = base64::decode_config(
        jws.get("protected").unwrap().as_str().unwrap(),
        base64::URL_SAFE_NO_PAD,
    )
    .unwrap();
    let header: serde_json::Value = serde_json::from_slice(&protected).unwrap();
    assert_eq!(header.get("kid").unwrap().as_str(), Some("https://example/acct/1"));
    assert!(header.get("jwk").is_none());
    assert_eq!(header.get("nonce").unwrap().as_str(), Some("second"));
    assert_eq!(header.get("url").unwrap().as_str(), Some("/o"));
}

#[test]
fn account_needs_the_location_header() {
    let body = r#"{"newNonce":"/n","newAccount":"/a","newOrder":"/o","revokeCert":"/r","keyChange":"/k"}"#;
    let fetched = ReqResult { body: body.to_string(), status: 200, headers: vec![] };
    let mut dir = Directory::from_url(DirectoryUrl::Other("https://example/dir"), fetched).unwrap();
    let pending = dir.register_account(vec![]).unwrap();
    let answer = ReqResult { body: "{}".to_string(), status: 200, headers: vec![] };
    match dir.finish_account(pending.transport, answer) {
        Err(Error::MissingHeader(name)) => assert_eq!(name, "location"),
        _ => panic!("an answer without Location gives no account"),
    }
}

#[test]
fn account_needs_a_location_that_is_text() {
    let body = r#"{"newNonce":"/n","newAccount":"/a","newOrder":"/o","revokeCert":"/r","keyChange":"/k"}"#;
    let fetched = ReqResult { body: body.to_string(), status: 200, headers: vec![] };
    let mut dir = Directory::from_url(DirectoryUrl::Other("https://example/dir"), fetched).unwrap();
    let pending = dir.register_account(vec![]).unwrap();
    let answer = ReqResult {
        body: "{}".to_string(),
        status: 200,
        headers: vec![("Location".to_string(), "https://example/acct/\u{0}".to_string())],
    };
    match dir.finish_account(pending.transport, answer) {
        Err(Error::MalformedHeader(name)) => assert_eq!(name, "location"),
        _ => panic!("a Location that is no text gives no account"),
    }
}
