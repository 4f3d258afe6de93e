use crate::acc::akey::{ecdsa_sign, error_stack_message, left_pad, left_padded, AcmeKey, AcmeKeyView};
use crate::error::Error;
use crate::json::string_views;
use crate::jwt::{Jwk, JwkView, Jws, JwsIdentityView, JwsProtected, JwsProtectedView, JwsView, JWS_ALGORITHM};
use crate::req::{
    header_text, header_value, problem_of, problem_report, req_expect_header, visible_ascii,
    ReqResult,
};
use crate::util::{base64url, base64url_text, str_eq};
use std::collections::VecDeque;
use vstd::prelude::*;
use vstd::string::*;
use vstd::utf8::encode_utf8;

verus! {

/// How many nonces a pool keeps at most.
pub const NONCE_POOL_CAPACITY: usize = 10;

/// The header in which a server hands out a nonce.
pub const REPLAY_NONCE: &'static str = "replay-nonce";

/// What a `NoncePool` holds.
pub struct NoncePoolView {
    /// Where a fresh nonce is asked for.
    pub nonce_url: Seq<char>,
    /// The nonces in store, the oldest first.
    pub cache: Seq<Seq<char>>,
}

/// A store of the anti-replay nonces that the server has handed out and
/// that no request has used yet. It keeps the ten newest, and gives them
/// back oldest first.
#[derive(Debug)]
pub struct NoncePool {
    nonce_url: String,
    pool: VecDeque<String>,
}

/// The store after it has taken in one more nonce: the nonce goes to the
/// back, and the oldest one leaves where that makes more than ten.
pub open spec fn absorbed(cache: Seq<Seq<char>>, nonce: Seq<char>) -> Seq<Seq<char>> {
    if cache.len() + 1 > NONCE_POOL_CAPACITY {
        cache.push(nonce).skip(1)
    } else {
        cache.push(nonce)
    }
}

/// The store after it has seen a response: it has taken in the nonce of the
/// response's `Replay-Nonce` header, where there is one and its value is
/// text. A response without the header, or with one that holds more than
/// visible ASCII, leaves the store as it is.
pub open spec fn harvested(cache: Seq<Seq<char>>, res: ReqResult) -> Seq<Seq<char>> {
    match header_text(res.headers@, REPLAY_NONCE@) {
        Some(nonce) => absorbed(cache, nonce),
        None => cache,
    }
}

impl View for NoncePool {
    type V = NoncePoolView;

    closed spec fn view(&self) -> NoncePoolView {
        NoncePoolView { nonce_url: self.nonce_url@, cache: string_views(self.pool@) }
    }
}

impl NoncePool {
    #[verifier::type_invariant]
    closed spec fn inv(&self) -> bool {
        self.pool@.len() <= NONCE_POOL_CAPACITY
    }

    /// An empty store for the nonces of one server.
    pub fn new(nonce_url: &str) -> (pool: NoncePool)
        ensures
            pool@.nonce_url == nonce_url@,
            pool@.cache == Seq::<Seq<char>>::empty(),
    {
        let pool = NoncePool { nonce_url: String::from_str(nonce_url), pool: VecDeque::new() };
        assert(pool@.cache =~= Seq::<Seq<char>>::empty());
        pool
    }

    /// Where a fresh nonce is asked for.
    pub fn nonce_url(&self) -> (url: &str)
        ensures
            url@ == self@.nonce_url,
    {
        self.nonce_url.as_str()
    }

    /// How many nonces are in store: never more than ten.
    pub fn len(&self) -> (n: usize)
        ensures
            n == self@.cache.len(),
            n <= NONCE_POOL_CAPACITY,
    {
        proof {
            use_type_invariant(self);
        }
        self.pool.len()
    }

    /// Puts a nonce at the back of the store; the oldest one leaves where
    /// the store already holds ten.
    pub fn push(&mut self, nonce: String)
        ensures
            final(self)@.nonce_url == old(self)@.nonce_url,
            final(self)@.cache == absorbed(old(self)@.cache, nonce@),
            final(self)@.cache.len() <= NONCE_POOL_CAPACITY,
    {
        proof {
            use_type_invariant(&*self);
        }
        let ghost before = self.pool@;
        let mut queue: VecDeque<String> = VecDeque::new();
        std::mem::swap(&mut self.pool, &mut queue);
        if queue.len() >= NONCE_POOL_CAPACITY {
            let _ = queue.pop_front();
        }
        queue.push_back(nonce);
        proof {
            assert(string_views(queue@) =~= absorbed(string_views(before), nonce@));
        }
        self.pool = queue;
    }

    /// Takes in the nonce that a response carries in its `Replay-Nonce`
    /// header. A response without that header, or with one whose value is
    /// no text, leaves the store as it is: that is no error.
    pub fn extract_nonce(&mut self, res: &ReqResult)
        ensures
            final(self)@.nonce_url == old(self)@.nonce_url,
            final(self)@.cache == harvested(old(self)@.cache, *res),
            final(self)@.cache.len() <= NONCE_POOL_CAPACITY,
    {
        proof {
            use_type_invariant(&*self);
        }
        match req_expect_header(res, REPLAY_NONCE) {
            Ok(nonce) => {
                self.push(nonce);
            },
            Err(_) => {},
        }
    }

    /// Hands out the oldest nonce in store and drops it from the store.
    /// `None` means that the store is empty and a fresh nonce has to be
    /// asked for at `nonce_url`.
    pub fn get_nonce(&mut self) -> (r: Option<String>)
        ensures
            final(self)@.nonce_url == old(self)@.nonce_url,
            old(self)@.cache.len() > 0 ==> (r matches Some(nonce) && nonce@ == old(self)@.cache[0]
                && final(self)@.cache == old(self)@.cache.skip(1)),
            old(self)@.cache.len() == 0 ==> r.is_none() && final(self)@.cache == old(self)@.cache,
    {
        proof {
            use_type_invariant(&*self);
        }
        let ghost before = self.pool@;
        let mut queue: VecDeque<String> = VecDeque::new();
        std::mem::swap(&mut self.pool, &mut queue);
        let r = queue.pop_front();
        proof {
            if before.len() > 0 {
                assert(string_views(queue@) =~= string_views(before).skip(1));
            }
        }
        self.pool = queue;
        r
    }
}

/// A store never holds more than ten nonces once it has taken in one more.
pub proof fn lemma_absorbed_bounded(cache: Seq<Seq<char>>, nonce: Seq<char>)
    requires
        cache.len() <= NONCE_POOL_CAPACITY,
    ensures
        absorbed(cache, nonce).len() <= NONCE_POOL_CAPACITY,
        absorbed(cache, nonce).last() == nonce,
{
}

/// A full store that takes in one more nonce loses its oldest one and keeps
/// the others in their order, the new one behind them.
pub proof fn lemma_absorbed_evicts_oldest(cache: Seq<Seq<char>>, nonce: Seq<char>)
    requires
        cache.len() == NONCE_POOL_CAPACITY,
    ensures
        absorbed(cache, nonce) == cache.skip(1).push(nonce),
        absorbed(cache, nonce).len() == NONCE_POOL_CAPACITY,
{
    assert(absorbed(cache, nonce) =~= cache.skip(1).push(nonce));
}

/// A store that is not full keeps every nonce when it takes in one more.
pub proof fn lemma_absorbed_keeps_all(cache: Seq<Seq<char>>, nonce: Seq<char>)
    requires
        cache.len() < NONCE_POOL_CAPACITY,
    ensures
        absorbed(cache, nonce) == cache.push(nonce),
{
}

/// The SHA-256 digest of a row of octets.
pub uninterp spec fn sha256_digest(data: Seq<u8>) -> Seq<u8>;

/// Trusted: `openssl::sha::sha256` returns the SHA-256 digest of its
/// argument. The contract gives that digest a name and claims no more than
/// that it depends on the octets alone.
pub assume_specification[ openssl::sha::sha256 ](data: &[u8]) -> (hash: [u8; 32])
    ensures
        hash@ == sha256_digest(data@),
;

/// The payload member of a signed request. The JSON text `""`, an empty
/// string, stands for a request without a body and gives an empty member;
/// every other text is written in base64url.
pub open spec fn payload_field(payload: Seq<char>) -> Seq<char> {
    if payload == "\"\""@ {
        Seq::empty()
    } else {
        base64url_text(encode_utf8(payload))
    }
}

/// The protected member of a signed request: the header's JSON text in
/// base64url.
pub open spec fn protected_field(protected: JwsProtectedView) -> Seq<char> {
    base64url_text(encode_utf8(protected.json()))
}

/// What is signed: the protected member, a dot, the payload member.
pub open spec fn signing_input(protected: Seq<char>, payload: Seq<char>) -> Seq<char> {
    protected + "."@ + payload
}

/// The two numbers of an ECDSA signature side by side, each filled up to
/// the width of the curve.
pub open spec fn flat_signature(r: Seq<u8>, s: Seq<u8>, width: nat) -> Seq<u8> {
    left_padded(r, width) + left_padded(s, width)
}

/// Whether a text is the base64url form of two numbers of `width` octets
/// each.
pub open spec fn is_signature_text(text: Seq<char>, width: nat) -> bool {
    exists|raw: Seq<u8>| raw.len() == 2 * width && text == base64url_text(raw)
}

/// Whether `jws` is a signed form of the given header and payload: its
/// first two members are theirs, and its third has the shape of a signature
/// on a curve of that width.
pub open spec fn is_signed(
    jws: JwsView,
    protected: JwsProtectedView,
    payload: Seq<char>,
    width: nat,
) -> bool {
    &&& jws.protected == protected_field(protected)
    &&& jws.payload == payload_field(payload)
    &&& is_signature_text(jws.signature, width)
}

/// Whether a text is the flat JSON form of a signed form of the given
/// header and payload.
pub open spec fn is_signed_request(
    text: Seq<char>,
    protected: JwsProtectedView,
    payload: Seq<char>,
    width: nat,
) -> bool {
    exists|jws: JwsView| is_signed(jws, protected, payload, width) && text == jws.json()
}

/// The header of a request that carries the public key of `key`.
pub open spec fn jwk_header(key: AcmeKeyView, url: Seq<char>, nonce: Seq<char>) -> JwsProtectedView {
    JwsProtectedView {
        alg: JWS_ALGORITHM@,
        nonce,
        url,
        identity: JwsIdentityView::Jwk(JwkView::of_key(key)),
    }
}

/// The header of a request that names the account by the key id `kid`.
pub open spec fn kid_header(kid: Seq<char>, url: Seq<char>, nonce: Seq<char>) -> JwsProtectedView {
    JwsProtectedView { alg: JWS_ALGORITHM@, nonce, url, identity: JwsIdentityView::Kid(kid) }
}

/// Writes the payload member of a signed request from the JSON text of the
/// request's body.
pub fn encode_payload(payload: &str) -> (field: String)
    ensures
        field@ == payload_field(payload@),
{
    if str_eq(payload, "\"\"") {
        String::new()
    } else {
        base64url(payload.as_bytes())
    }
}

/// The digest that is signed for the given protected and payload members.
pub fn signing_digest(protected: &str, payload: &str) -> (digest: [u8; 32])
    ensures
        digest@ == sha256_digest(encode_utf8(signing_input(protected@, payload@))),
{
    let mut to_sign = String::from_str(protected);
    to_sign.append(".");
    to_sign.append(payload);
    openssl::sha::sha256(to_sign.as_str().as_bytes())
}

/// Puts the two numbers of a signature side by side, each filled up to
/// `width` octets. There is no such form where one of them is wider.
pub fn join_signature(r: &[u8], s: &[u8], width: usize) -> (joined: Option<Vec<u8>>)
    ensures
        r@.len() <= width && s@.len() <= width ==> (joined matches Some(raw) && raw@
            == flat_signature(r@, s@, width as nat) && raw@.len() == 2 * width),
        r@.len() > width || s@.len() > width ==> joined.is_none(),
{
    match (left_pad(r, width), left_pad(s, width)) {
        (Some(mut raw), Some(mut second)) => {
            raw.append(&mut second);
            Some(raw)
        },
        _ => None,
    }
}

/// Makes a signed request from its first two members and the two numbers
/// of the signature over them.
pub fn seal_jws(protected: String, payload: String, r: &[u8], s: &[u8], width: usize) -> (sealed:
    Result<Jws, Error>)
    ensures
        r@.len() <= width && s@.len() <= width ==> (sealed matches Ok(jws) && jws@ == (JwsView {
            protected: protected@,
            payload: payload@,
            signature: base64url_text(flat_signature(r@, s@, width as nat)),
        }) && is_signature_text(jws@.signature, width as nat)),
        r@.len() > width || s@.len() > width ==> sealed matches Err(Error::Crypto(_)),
{
    match join_signature(r, s, width) {
        Some(raw) => {
            let signature = base64url(raw.as_slice());
            Ok(Jws::new(protected, payload, signature))
        },
        None => Err(Error::Crypto(String::from_str("the signature does not fit the curve"))),
    }
}

/// The digest that is signed for a header and a payload.
pub open spec fn signed_digest(protected: JwsProtectedView, payload: Seq<char>) -> Seq<u8> {
    sha256_digest(encode_utf8(signing_input(protected_field(protected), payload_field(payload))))
}

/// What is handed to the signer for a header and a payload: the protected
/// member, the payload member, and the SHA-256 digest of the two with a dot
/// between them.
pub fn signing_parts(protected: &JwsProtected, payload: &str) -> (r: Result<
    (String, String, [u8; 32]),
    Error,
>)
    ensures
        r is Ok,
        r matches Ok(parts) ==> parts.0@ == protected_field(protected@) && parts.1@
            == payload_field(payload@) && parts.2@ == signed_digest(protected@, payload@),
{
    let header = protected.to_json()?;
    let protected_member = base64url(header.as_str().as_bytes());
    let payload_member = encode_payload(payload);
    let digest = signing_digest(protected_member.as_str(), payload_member.as_str());
    Ok((protected_member, payload_member, digest))
}

/// Signs a header and a payload with an account key: the digest that
/// `signing_parts` gives is what the key signs. The payload is the JSON
/// text of the request's body.
pub fn jws_sign(protected: &JwsProtected, key: &AcmeKey, payload: &str) -> (signed: Result<
    Jws,
    Error,
>)
    ensures
        signed matches Ok(jws) ==> is_signed(
            jws@,
            protected@,
            payload@,
            key@.curve.spec_width(),
        ) && protected_header(jws@.protected) == Some(protected@),
        signed matches Err(e) ==> e is Crypto,
{
    proof {
        lemma_protected_field_decodes_back(protected@);
    }
    let (protected_member, payload_member, digest) = signing_parts(protected, payload)?;
    match ecdsa_sign(digest.as_slice(), key.private_key()) {
        Ok((r, s)) => seal_jws(
            protected_member,
            payload_member,
            r.as_slice(),
            s.as_slice(),
            key.curve().width(),
        ),
        Err(e) => Err(Error::Crypto(error_stack_message(&e))),
    }
}

/// Signs a header and a payload and writes the signed request as JSON text.
pub fn jws_with(protected: JwsProtected, key: &AcmeKey, payload: &str) -> (body: Result<
    String,
    Error,
>)
    ensures
        body matches Ok(text) ==> is_signed_request(
            text@,
            protected@,
            payload@,
            key@.curve.spec_width(),
        ),
        body matches Err(e) ==> e is Crypto,
{
    let jws = jws_sign(&protected, key, payload)?;
    jws.to_json()
}

/// Signs a request that names the account by its key id. A key that has no
/// key id yet cannot sign such a request.
pub fn jws_with_kid(url: &str, nonce: String, key: &AcmeKey, payload: &str) -> (body: Result<
    String,
    Error,
>)
    ensures
        match key@.key_id {
            Some(kid) => {
                &&& body matches Ok(text) ==> is_signed_request(
                    text@,
                    kid_header(kid, url@, nonce@),
                    payload@,
                    key@.curve.spec_width(),
                )
                &&& body matches Err(e) ==> e is Crypto
            },
            None => body matches Err(Error::UnboundIdentity),
        },
{
    let protected = JwsProtected::new_kid(key.key_id()?, url, nonce);
    jws_with(protected, key, payload)
}

/// Signs a request that carries the public key itself: the one that makes
/// the account.
pub fn jws_with_jwk(url: &str, nonce: String, key: &AcmeKey, payload: &str) -> (body: Result<
    String,
    Error,
>)
    ensures
        body matches Ok(text) ==> is_signed_request(
            text@,
            jwk_header(key@, url@, nonce@),
            payload@,
            key@.curve.spec_width(),
        ),
        body matches Err(e) ==> e is Crypto,
{
    let protected = JwsProtected::new_jwk(Jwk::from_key(key), url, nonce);
    jws_with(protected, key, payload)
}

/// The header that a protected member denotes: the member is read as
/// base64url, the octets as UTF-8, and the text as the JSON form of a
/// header.
pub open spec fn protected_header(field: Seq<char>) -> Option<JwsProtectedView> {
    match crate::util::base64url_octets(field) {
        Some(octets) => JwsProtectedView::of_json(vstd::utf8::decode_utf8(octets)),
        None => None,
    }
}

/// The protected member of a header decodes back to that header: to its
/// algorithm, its nonce, its URL, and the one of key and key id that it
/// has.
pub proof fn lemma_protected_field_decodes_back(h: JwsProtectedView)
    ensures
        protected_header(protected_field(h)) == Some(h),
{
    crate::util::lemma_base64url_decodes_back(encode_utf8(h.json()));
    vstd::utf8::encode_utf8_decode_utf8(h.json());
    crate::jwt::lemma_header_json_decodes_back(h);
}

/// A signed request decodes back to what was signed: its JSON text denotes
/// one request, whose protected member denotes the header under which it
/// was signed and whose payload member is that of the body.
pub proof fn lemma_signed_request_decodes_back(
    text: Seq<char>,
    protected: JwsProtectedView,
    payload: Seq<char>,
    width: nat,
)
    requires
        is_signed_request(text, protected, payload, width),
    ensures
        JwsView::of_json(text) matches Some(jws) && is_signed(jws, protected, payload, width)
            && protected_header(jws.protected) == Some(protected),
{
    let jws = choose|jws: JwsView| is_signed(jws, protected, payload, width) && text == jws.json();
    crate::jwt::lemma_jws_json_decodes_back(jws);
    lemma_protected_field_decodes_back(protected);
}

/// A request that was signed by key id says so and no more: its header
/// names the algorithm, the given nonce, the given URL and the key id, and
/// carries no key.
pub proof fn lemma_kid_request_names_the_key_id(
    text: Seq<char>,
    kid: Seq<char>,
    url: Seq<char>,
    nonce: Seq<char>,
    payload: Seq<char>,
    width: nat,
)
    requires
        is_signed_request(text, kid_header(kid, url, nonce), payload, width),
    ensures
        JwsView::of_json(text) matches Some(jws) && (protected_header(jws.protected) matches Some(
            h,
        ) && h.alg == JWS_ALGORITHM@ && h.nonce == nonce && h.url == url && h.identity
            == JwsIdentityView::Kid(kid)),
{
    lemma_signed_request_decodes_back(text, kid_header(kid, url, nonce), payload, width);
}

/// A request that was signed with the key itself says so and no more: its
/// header names the algorithm, the given nonce, the given URL and the
/// public half of the key, and carries no key id.
pub proof fn lemma_jwk_request_carries_the_key(
    text: Seq<char>,
    key: AcmeKeyView,
    url: Seq<char>,
    nonce: Seq<char>,
    payload: Seq<char>,
    width: nat,
)
    requires
        is_signed_request(text, jwk_header(key, url, nonce), payload, width),
    ensures
        JwsView::of_json(text) matches Some(jws) && (protected_header(jws.protected) matches Some(
            h,
        ) && h.alg == JWS_ALGORITHM@ && h.nonce == nonce && h.url == url && h.identity
            == JwsIdentityView::Jwk(JwkView::of_key(key))),
{
    lemma_signed_request_decodes_back(text, jwk_header(key, url, nonce), payload, width);
}

/// The body without content gives an empty payload member.
pub proof fn lemma_empty_string_payload()
    ensures
        payload_field("\"\""@) == Seq::<char>::empty(),
{
}

/// Every other body gives a payload member that is not empty.
pub proof fn lemma_payload_field_nonempty(payload: Seq<char>)
    requires
        payload.len() > 0,
        payload != "\"\""@,
    ensures
        payload_field(payload).len() > 0,
{
    let bytes = encode_utf8(payload);
    assert(bytes.len() > 0) by {
        reveal_with_fuel(encode_utf8, 2);
    }
    crate::util::lemma_base64url_len(bytes);
}

/// How often one call may be sent before it is given up.
pub const MAX_CALL_ATTEMPTS: u32 = 5;

/// How a request says who signs it.
#[derive(Debug, Clone, Copy, PartialEq, Eq, Structural)]
pub enum JwsMode {
    /// With the public key itself: the request that makes the account.
    Jwk,
    /// With the account's key id: every later request.
    Kid,
}

/// What a `SignedCall` holds.
pub struct SignedCallView {
    pub mode: JwsMode,
    pub url: Seq<char>,
    /// The JSON text of the request's body.
    pub payload: Seq<char>,
    /// How often the request has been sent.
    pub attempts: nat,
}

/// A call that is under way: what is to be sent, where, and how often it
/// has been sent already.
#[derive(Debug)]
pub struct SignedCall {
    mode: JwsMode,
    url: String,
    payload: String,
    attempts: u32,
}

impl View for SignedCall {
    type V = SignedCallView;

    closed spec fn view(&self) -> SignedCallView {
        SignedCallView {
            mode: self.mode,
            url: self.url@,
            payload: self.payload@,
            attempts: self.attempts as nat,
        }
    }
}

/// What has happened since the transport last said what to do.
#[derive(Debug)]
pub enum CallEvent {
    /// Nothing yet: the call begins.
    Start,
    /// The server has answered the request for a fresh nonce.
    FreshNonce(ReqResult),
    /// The server has answered the signed request.
    Response(ReqResult),
}

/// What the transport wants done next.
#[derive(Debug)]
pub enum CallAction {
    /// Send a HEAD request to `url` and come back with `FreshNonce`.
    FetchNonce { url: String },
    /// Send `body` to `url` by POST, as `application/jose+json`, and come
    /// back with `Response`.
    Post { url: String, body: String },
    /// The call is over: this is the server's answer.
    Done(ReqResult),
    /// The call is over: it failed.
    Failed(Error),
}

impl SignedCallView {
    /// The header under which the call is signed with `nonce`. A call that
    /// names the account by its key id has none while the key has no id.
    pub open spec fn header(self, key: AcmeKeyView, nonce: Seq<char>) -> Option<JwsProtectedView> {
        match self.mode {
            JwsMode::Jwk => Some(jwk_header(key, self.url, nonce)),
            JwsMode::Kid => match key.key_id {
                Some(kid) => Some(kid_header(kid, self.url, nonce)),
                None => None,
            },
        }
    }

    /// The call after it has been sent once more.
    pub open spec fn sent(self) -> SignedCallView {
        SignedCallView { attempts: self.attempts + 1, ..self }
    }
}

/// Whether a response turns the request down for its nonce.
pub open spec fn asks_retry(res: ReqResult) -> bool {
    res.status != 200 && problem_of(res).asks_retry()
}

/// What it is to send `call` with `nonce`: a call that has used up its
/// attempts fails, and so does one that needs a key id which the key lacks.
/// Any other is signed and posted to its URL, and counts as sent once more;
/// where signing fails, the call fails with that error.
pub open spec fn sends(
    key: AcmeKeyView,
    call: SignedCallView,
    nonce: Seq<char>,
    next: SignedCallView,
    action: CallAction,
) -> bool {
    if call.attempts >= MAX_CALL_ATTEMPTS {
        next == call && action matches CallAction::Failed(Error::Transport(_))
    } else {
        match call.header(key, nonce) {
            None => next == call && action matches CallAction::Failed(Error::UnboundIdentity),
            Some(header) => match action {
                CallAction::Post { url, body } => {
                    &&& url@ == call.url
                    &&& is_signed_request(body@, header, call.payload, key.curve.spec_width())
                    &&& next == call.sent()
                },
                CallAction::Failed(e) => e is Crypto && next == call,
                _ => false,
            },
        }
    }
}

/// What it is to try `call`: a call that has used up its attempts fails.
/// Any other is sent with the oldest nonce in store, which leaves the
/// store; where the store is empty, a fresh nonce is asked for.
pub open spec fn tries(
    key: AcmeKeyView,
    pool: NoncePoolView,
    call: SignedCallView,
    pool_after: NoncePoolView,
    next: SignedCallView,
    action: CallAction,
) -> bool {
    if call.attempts >= MAX_CALL_ATTEMPTS {
        pool_after == pool && next == call && action matches CallAction::Failed(
            Error::Transport(_),
        )
    } else if pool.cache.len() > 0 {
        pool_after == (NoncePoolView { cache: pool.cache.skip(1), ..pool }) && sends(
            key,
            call,
            pool.cache[0],
            next,
            action,
        )
    } else {
        pool_after == pool && next == call && (action matches CallAction::FetchNonce { url }
            && url@ == pool.nonce_url)
    }
}

/// One step of a call. At the start the call is tried. The answer to a
/// request for a fresh nonce must carry one as text, with which the call is
/// sent.
/// The answer to the signed request first leaves its nonce in the store;
/// then the call is tried again where the server turned it down for its
/// nonce, and is over with that answer in every other case.
pub open spec fn steps(
    key: AcmeKeyView,
    pool: NoncePoolView,
    call: SignedCallView,
    event: CallEvent,
    pool_after: NoncePoolView,
    next: SignedCallView,
    action: CallAction,
) -> bool {
    match event {
        CallEvent::Start => tries(key, pool, call, pool_after, next, action),
        CallEvent::FreshNonce(res) => pool_after == pool && match header_value(
            res.headers@,
            REPLAY_NONCE@,
        ) {
            Some(nonce) => if visible_ascii(nonce) {
                sends(key, call, nonce, next, action)
            } else {
                next == call && (action matches CallAction::Failed(Error::MalformedHeader(name))
                    && name@ == REPLAY_NONCE@)
            },
            None => next == call && (action matches CallAction::Failed(Error::MissingHeader(name))
                && name@ == REPLAY_NONCE@),
        },
        CallEvent::Response(res) => {
            let stocked = NoncePoolView { cache: harvested(pool.cache, res), ..pool };
            if asks_retry(res) {
                tries(key, stocked, call, pool_after, next, action)
            } else {
                pool_after == stocked && next == call && action == CallAction::Done(res)
            }
        },
    }
}

impl SignedCall {
    /// A call that has not been sent yet.
    pub fn new(mode: JwsMode, url: &str, payload: &str) -> (call: SignedCall)
        ensures
            call@ == (SignedCallView { mode, url: url@, payload: payload@, attempts: 0 }),
    {
        SignedCall {
            mode,
            url: String::from_str(url),
            payload: String::from_str(payload),
            attempts: 0,
        }
    }

    /// How often the call has been sent.
    pub fn attempts(&self) -> (n: u32)
        ensures
            n == self@.attempts,
    {
        self.attempts
    }
}

/// Signs requests with one account key and decides, step by step, how a
/// signed call goes on. The network is not its business: it says what to
/// send, and is told what came back.
#[derive(Debug)]
pub struct Transport {
    acme_key: AcmeKey,
}

impl Transport {
    pub fn new(acme_key: AcmeKey) -> (transport: Transport)
        ensures
            transport.key_view() == acme_key@,
            transport.spec_private_key() == acme_key.spec_private_key(),
    {
        Transport { acme_key }
    }

    /// What the transport's key holds.
    pub closed spec fn key_view(&self) -> AcmeKeyView {
        self.acme_key@
    }

    /// The private key with which the transport signs.
    pub closed spec fn spec_private_key(&self) -> openssl::ec::EcKey<openssl::pkey::Private> {
        self.acme_key.spec_private_key()
    }

    /// Binds the key to its key id once the server has assigned it.
    pub fn set_key_id(&mut self, kid: String)
        ensures
            final(self).key_view() == (AcmeKeyView { key_id: Some(kid@), ..old(self).key_view() }),
            final(self).spec_private_key() == old(self).spec_private_key(),
    {
        self.acme_key.set_key_id(kid);
    }

    /// The key that signs.
    pub fn acme_key(&self) -> (key: &AcmeKey)
        ensures
            key@ == self.key_view(),
            key.spec_private_key() == self.spec_private_key(),
    {
        &self.acme_key
    }

    /// Begins a call that carries the public key itself. Only the request
    /// that makes the account is sent so.
    pub fn call_jwk(&self, pool: &mut NoncePool, url: &str, body: &str) -> (r: (
        SignedCall,
        CallAction,
    ))
        ensures
            steps(
                self.key_view(),
                old(pool)@,
                SignedCallView { mode: JwsMode::Jwk, url: url@, payload: body@, attempts: 0 },
                CallEvent::Start,
                final(pool)@,
                r.0@,
                r.1,
            ),
    {
        self.do_call(pool, SignedCall::new(JwsMode::Jwk, url, body), CallEvent::Start)
    }

    /// Begins a call that names the account by its key id.
    pub fn call(&self, pool: &mut NoncePool, url: &str, body: &str) -> (r: (SignedCall, CallAction))
        ensures
            steps(
                self.key_view(),
                old(pool)@,
                SignedCallView { mode: JwsMode::Kid, url: url@, payload: body@, attempts: 0 },
                CallEvent::Start,
                final(pool)@,
                r.0@,
                r.1,
            ),
    {
        self.do_call(pool, SignedCall::new(JwsMode::Kid, url, body), CallEvent::Start)
    }

    /// Takes a call one step further: from the call and what has happened
    /// to the call as it then stands and what is to be done next.
    pub fn do_call(&self, pool: &mut NoncePool, call: SignedCall, event: CallEvent) -> (r: (
        SignedCall,
        CallAction,
    ))
        ensures
            steps(self.key_view(), old(pool)@, call@, event, final(pool)@, r.0@, r.1),
    {
        match event {
            CallEvent::Start => self.try_call(pool, call),
            CallEvent::FreshNonce(res) => match req_expect_header(&res, REPLAY_NONCE) {
                Ok(nonce) => self.send(call, nonce),
                Err(e) => (call, CallAction::Failed(e)),
            },
            CallEvent::Response(res) => {
                pool.extract_nonce(&res);
                let retry = match problem_report(&res) {
                    Some(problem) => problem.asks_retry(),
                    None => false,
                };
                if retry {
                    self.try_call(pool, call)
                } else {
                    (call, CallAction::Done(res))
                }
            },
        }
    }

    fn try_call(&self, pool: &mut NoncePool, call: SignedCall) -> (r: (SignedCall, CallAction))
        ensures
            tries(self.key_view(), old(pool)@, call@, final(pool)@, r.0@, r.1),
    {
        if call.attempts >= MAX_CALL_ATTEMPTS {
            return (call, CallAction::Failed(Error::Transport(String::from_str("the call was turned down too often"))));
        }
        match pool.get_nonce() {
            Some(nonce) => self.send(call, nonce),
            None => {
                let url = String::from_str(pool.nonce_url());
                (call, CallAction::FetchNonce { url })
            },
        }
    }

    fn send(&self, call: SignedCall, nonce: String) -> (r: (SignedCall, CallAction))
        ensures
            sends(self.key_view(), call@, nonce@, r.0@, r.1),
    {
        if call.attempts >= MAX_CALL_ATTEMPTS {
            return (call, CallAction::Failed(Error::Transport(String::from_str("the call was turned down too often"))));
        }
        let signed = match call.mode {
            JwsMode::Jwk => jws_with_jwk(call.url.as_str(), nonce, &self.acme_key, call.payload.as_str()),
            JwsMode::Kid => jws_with_kid(call.url.as_str(), nonce, &self.acme_key, call.payload.as_str()),
        };
        match signed {
            Ok(body) => {
                let url = call.url.clone();
                let next = SignedCall {
                    mode: call.mode,
                    url: call.url,
                    payload: call.payload,
                    attempts: call.attempts + 1,
                };
                (next, CallAction::Post { url, body })
            },
            Err(e) => (call, CallAction::Failed(e)),
        }
    }
}

/// A call is posted at most `MAX_CALL_ATTEMPTS` times: a step that posts
/// finds a call with attempts to spare and leaves it with one less.
pub proof fn lemma_posts_are_counted(
    key: AcmeKeyView,
    pool: NoncePoolView,
    call: SignedCallView,
    event: CallEvent,
    pool_after: NoncePoolView,
    next: SignedCallView,
    action: CallAction,
)
    requires
        steps(key, pool, call, event, pool_after, next, action),
        action is Post,
    ensures
        call.attempts < MAX_CALL_ATTEMPTS,
        next.attempts == call.attempts + 1,
        next.attempts <= MAX_CALL_ATTEMPTS,
{
}

/// A nonce in store is used before a fresh one is asked for: a step that
/// asks for a fresh nonce finds the store empty, or has just found it so
/// after the answer to the signed request, which carried none.
pub proof fn lemma_stored_nonce_comes_first(
    key: AcmeKeyView,
    pool: NoncePoolView,
    call: SignedCallView,
    event: CallEvent,
    pool_after: NoncePoolView,
    next: SignedCallView,
    action: CallAction,
)
    requires
        steps(key, pool, call, event, pool_after, next, action),
        action is FetchNonce,
    ensures
        pool_after.cache.len() == 0,
        event is Start ==> pool.cache.len() == 0,
        event matches CallEvent::Response(res) ==> harvested(pool.cache, res).len() == 0,
{
}

/// The answer to a request for a fresh nonce is never another such
/// request: the call is posted or it fails. So a call is over after at most
/// `MAX_CALL_ATTEMPTS` posts, with at most one request for a nonce before
/// each.
pub proof fn lemma_fresh_nonce_is_used_at_once(
    key: AcmeKeyView,
    pool: NoncePoolView,
    call: SignedCallView,
    event: CallEvent,
    pool_after: NoncePoolView,
    next: SignedCallView,
    action: CallAction,
)
    requires
        steps(key, pool, call, event, pool_after, next, action),
        event is FreshNonce,
    ensures
        action is Post || action is Failed,
        pool_after == pool,
{
}

/// A step never leaves more than ten nonces in the store.
pub proof fn lemma_step_keeps_pool_bounded(
    key: AcmeKeyView,
    pool: NoncePoolView,
    call: SignedCallView,
    event: CallEvent,
    pool_after: NoncePoolView,
    next: SignedCallView,
    action: CallAction,
)
    requires
        steps(key, pool, call, event, pool_after, next, action),
        pool.cache.len() <= NONCE_POOL_CAPACITY,
    ensures
        pool_after.cache.len() <= NONCE_POOL_CAPACITY,
{
}

/// A call that names the account by its key id is never posted while the
/// key has none.
pub proof fn lemma_unbound_key_never_posts(
    key: AcmeKeyView,
    pool: NoncePoolView,
    call: SignedCallView,
    event: CallEvent,
    pool_after: NoncePoolView,
    next: SignedCallView,
    action: CallAction,
)
    requires
        steps(key, pool, call, event, pool_after, next, action),
        call.mode == JwsMode::Kid,
        key.key_id.is_none(),
    ensures
        !(action is Post),
{
}

} // verus!
