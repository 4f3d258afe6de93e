use crate::acc::akey::{AcmeKey, AcmeKeyView};
use crate::error::Error;
use crate::json::{json_quote, json_string, lemma_json_string_unique};
use crate::util::{base64url, base64url_text};
use vstd::prelude::*;
use vstd::string::*;

verus! {

/// The signature algorithm that every protected header names.
pub const JWS_ALGORITHM: &'static str = "ES256";

/// Appends `label` and then `value` as a JSON string literal.
fn push_member(out: &mut String, label: &str, value: &str)
    ensures
        final(out)@ == old(out)@ + label@ + json_string(value@),
{
    match json_quote(value) {
        Ok(quoted) => {
            out.append(label);
            out.append(quoted.as_str());
        },
        Err(_) => {},
    }
}

/// What a `Jwk` holds.
pub struct JwkView {
    pub alg: Seq<char>,
    pub crv: Seq<char>,
    pub kty: Seq<char>,
    pub key_use: Seq<char>,
    pub x: Seq<char>,
    pub y: Seq<char>,
}

/// The public half of an account key as a JSON Web Key.
#[derive(Debug, Clone)]
pub struct Jwk {
    pub alg: String,
    pub crv: String,
    pub kty: String,
    pub key_use: String,
    pub x: String,
    pub y: String,
}

impl View for Jwk {
    type V = JwkView;

    open spec fn view(&self) -> JwkView {
        JwkView {
            alg: self.alg@,
            crv: self.crv@,
            kty: self.kty@,
            key_use: self.key_use@,
            x: self.x@,
            y: self.y@,
        }
    }
}

impl JwkView {
    /// The key of an account: an EC signing key on the account key's curve,
    /// with both coordinates of the public point in base64url.
    pub open spec fn of_key(key: AcmeKeyView) -> JwkView {
        JwkView {
            alg: JWS_ALGORITHM@,
            crv: key.curve.spec_name(),
            kty: "EC"@,
            key_use: "sig"@,
            x: base64url_text(key.x),
            y: base64url_text(key.y),
        }
    }

    /// The key as a JSON object.
    pub open spec fn json(self) -> Seq<char> {
        "{\"alg\":"@ + json_string(self.alg) + ",\"crv\":"@ + json_string(self.crv)
            + ",\"kty\":"@ + json_string(self.kty) + ",\"use\":"@ + json_string(self.key_use)
            + ",\"x\":"@ + json_string(self.x) + ",\"y\":"@ + json_string(self.y) + "}"@
    }
}

impl Jwk {
    /// The JSON Web Key of an account key.
    pub fn from_key(key: &AcmeKey) -> (jwk: Jwk)
        ensures
            jwk@ == JwkView::of_key(key@),
    {
        Jwk {
            alg: String::from_str(JWS_ALGORITHM),
            crv: String::from_str(key.curve().name()),
            kty: String::from_str("EC"),
            key_use: String::from_str("sig"),
            x: base64url(key.public_x().as_slice()),
            y: base64url(key.public_y().as_slice()),
        }
    }

    /// Writes the key as a JSON object.
    pub fn to_json(&self) -> (r: Result<String, Error>)
        ensures
            r matches Ok(text) && text@ == self@.json(),
    {
        let mut out = String::new();
        push_member(&mut out, "{\"alg\":", self.alg.as_str());
        push_member(&mut out, ",\"crv\":", self.crv.as_str());
        push_member(&mut out, ",\"kty\":", self.kty.as_str());
        push_member(&mut out, ",\"use\":", self.key_use.as_str());
        push_member(&mut out, ",\"x\":", self.x.as_str());
        push_member(&mut out, ",\"y\":", self.y.as_str());
        out.append("}");
        assert(out@ =~= self@.json());
        Ok(out)
    }
}

/// How a protected header says who signs: the full public key, which only
/// the request that makes the account carries, or the account's key id.
pub enum JwsIdentityView {
    Jwk(JwkView),
    Kid(Seq<char>),
}

/// How a protected header says who signs.
#[derive(Debug, Clone)]
pub enum JwsIdentity {
    Jwk(Jwk),
    Kid(String),
}

impl View for JwsIdentity {
    type V = JwsIdentityView;

    open spec fn view(&self) -> JwsIdentityView {
        match self {
            JwsIdentity::Jwk(jwk) => JwsIdentityView::Jwk(jwk@),
            JwsIdentity::Kid(kid) => JwsIdentityView::Kid(kid@),
        }
    }
}

/// What a `JwsProtected` holds.
pub struct JwsProtectedView {
    pub alg: Seq<char>,
    pub nonce: Seq<char>,
    pub url: Seq<char>,
    pub identity: JwsIdentityView,
}

/// The protected header of a signed request. It names the algorithm, the
/// nonce and the URL of the request, and either the public key or the key
/// id, never both.
#[derive(Debug, Clone)]
pub struct JwsProtected {
    pub alg: String,
    pub nonce: String,
    pub url: String,
    pub identity: JwsIdentity,
}

impl View for JwsProtected {
    type V = JwsProtectedView;

    open spec fn view(&self) -> JwsProtectedView {
        JwsProtectedView {
            alg: self.alg@,
            nonce: self.nonce@,
            url: self.url@,
            identity: self.identity@,
        }
    }
}

impl JwsIdentityView {
    /// The member of the header that says who signs: `jwk` with the key as
    /// an object, or `kid` with the key id as a string.
    pub open spec fn json_member(self) -> Seq<char> {
        match self {
            JwsIdentityView::Jwk(jwk) => ",\"jwk\":"@ + jwk.json(),
            JwsIdentityView::Kid(kid) => ",\"kid\":"@ + json_string(kid),
        }
    }
}

impl JwsProtectedView {
    /// The header as a JSON object with the members `alg`, `nonce`, `url`
    /// and one of `jwk` and `kid`.
    pub open spec fn json(self) -> Seq<char> {
        "{\"alg\":"@ + json_string(self.alg) + ",\"nonce\":"@ + json_string(self.nonce)
            + ",\"url\":"@ + json_string(self.url) + self.identity.json_member() + "}"@
    }
}

impl JwsProtected {
    /// The header of the request that makes the account: it carries the
    /// public key itself.
    pub fn new_jwk(jwk: Jwk, url: &str, nonce: String) -> (r: JwsProtected)
        ensures
            r@ == (JwsProtectedView {
                alg: JWS_ALGORITHM@,
                nonce: nonce@,
                url: url@,
                identity: JwsIdentityView::Jwk(jwk@),
            }),
    {
        JwsProtected {
            alg: String::from_str(JWS_ALGORITHM),
            nonce,
            url: String::from_str(url),
            identity: JwsIdentity::Jwk(jwk),
        }
    }

    /// The header of every later request: it names the account by its key id.
    pub fn new_kid(kid: &str, url: &str, nonce: String) -> (r: JwsProtected)
        ensures
            r@ == (JwsProtectedView {
                alg: JWS_ALGORITHM@,
                nonce: nonce@,
                url: url@,
                identity: JwsIdentityView::Kid(kid@),
            }),
    {
        JwsProtected {
            alg: String::from_str(JWS_ALGORITHM),
            nonce,
            url: String::from_str(url),
            identity: JwsIdentity::Kid(String::from_str(kid)),
        }
    }

    /// Writes the header as a JSON object.
    pub fn to_json(&self) -> (r: Result<String, Error>)
        ensures
            r matches Ok(text) && text@ == self@.json(),
    {
        let mut out = String::new();
        push_member(&mut out, "{\"alg\":", self.alg.as_str());
        push_member(&mut out, ",\"nonce\":", self.nonce.as_str());
        push_member(&mut out, ",\"url\":", self.url.as_str());
        match &self.identity {
            JwsIdentity::Jwk(jwk) => {
                let key = jwk.to_json()?;
                out.append(",\"jwk\":");
                out.append(key.as_str());
            },
            JwsIdentity::Kid(kid) => {
                push_member(&mut out, ",\"kid\":", kid.as_str());
            },
        }
        out.append("}");
        assert(out@ =~= self@.json());
        Ok(out)
    }
}

/// What a `Jws` holds.
pub struct JwsView {
    pub protected: Seq<char>,
    pub payload: Seq<char>,
    pub signature: Seq<char>,
}

/// A signed request: the protected header, the payload and the signature,
/// each as base64url text.
#[derive(Debug, Clone)]
pub struct Jws {
    pub protected: String,
    pub payload: String,
    pub signature: String,
}

impl View for Jws {
    type V = JwsView;

    open spec fn view(&self) -> JwsView {
        JwsView { protected: self.protected@, payload: self.payload@, signature: self.signature@ }
    }
}

impl JwsView {
    /// The request as one flat JSON object.
    pub open spec fn json(self) -> Seq<char> {
        "{\"protected\":"@ + json_string(self.protected) + ",\"payload\":"@ + json_string(
            self.payload,
        ) + ",\"signature\":"@ + json_string(self.signature) + "}"@
    }
}

impl Jws {
    pub fn new(protected: String, payload: String, signature: String) -> (r: Jws)
        ensures
            r@ == (JwsView { protected: protected@, payload: payload@, signature: signature@ }),
    {
        Jws { protected, payload, signature }
    }

    /// Writes the request as one flat JSON object.
    pub fn to_json(&self) -> (r: Result<String, Error>)
        ensures
            r matches Ok(text) && text@ == self@.json(),
    {
        let mut out = String::new();
        push_member(&mut out, "{\"protected\":", self.protected.as_str());
        push_member(&mut out, ",\"payload\":", self.payload.as_str());
        push_member(&mut out, ",\"signature\":", self.signature.as_str());
        out.append("}");
        assert(out@ =~= self@.json());
        Ok(out)
    }
}

/// Joining texts does not depend on where the brackets stand.
proof fn lemma_join_assoc(a: Seq<char>, b: Seq<char>, c: Seq<char>)
    ensures
        (a + b) + c == a + (b + c),
{
    assert((a + b) + c =~= a + (b + c));
}

/// The same for a text that ends in a label, a value and a rest.
proof fn lemma_join_member(p: Seq<char>, l: Seq<char>, q: Seq<char>, t: Seq<char>)
    ensures
        ((p + l) + q) + t == p + (l + (q + t)),
{
    assert(((p + l) + q) + t =~= p + (l + (q + t)));
}

/// What follows a text that two equal texts both begin with is equal too.
proof fn lemma_join_cancel(p: Seq<char>, a: Seq<char>, b: Seq<char>)
    requires
        p + a == p + b,
    ensures
        a == b,
{
    assert(a =~= (p + a).skip(p.len() as int));
    assert(b =~= (p + b).skip(p.len() as int));
}

impl JwkView {
    /// The JSON form of the key with `rest` behind it, member by member.
    pub open spec fn json_then(self, rest: Seq<char>) -> Seq<char> {
        "{\"alg\":"@ + (json_string(self.alg) + (",\"crv\":"@ + (json_string(self.crv) + (
        ",\"kty\":"@ + (json_string(self.kty) + (",\"use\":"@ + (json_string(self.key_use) + (
        ",\"x\":"@ + (json_string(self.x) + (",\"y\":"@ + (json_string(self.y) + ("}"@
            + rest))))))))))))
    }
}

/// The JSON form of a key with a rest behind it is `json_then` of the rest.
pub proof fn lemma_jwk_json_then(a: JwkView, rest: Seq<char>)
    ensures
        a.json() + rest == a.json_then(rest),
{
    let l1 = "{\"alg\":"@;
    let l2 = ",\"crv\":"@;
    let l3 = ",\"kty\":"@;
    let l4 = ",\"use\":"@;
    let l5 = ",\"x\":"@;
    let l6 = ",\"y\":"@;
    let end = "}"@;
    let p1 = l1 + json_string(a.alg);
    let p2 = p1 + l2 + json_string(a.crv);
    let p3 = p2 + l3 + json_string(a.kty);
    let p4 = p3 + l4 + json_string(a.key_use);
    let p5 = p4 + l5 + json_string(a.x);
    let p6 = p5 + l6 + json_string(a.y);
    let t6 = end + rest;
    let t5 = l6 + (json_string(a.y) + t6);
    let t4 = l5 + (json_string(a.x) + t5);
    let t3 = l4 + (json_string(a.key_use) + t4);
    let t2 = l3 + (json_string(a.kty) + t3);
    let t1 = l2 + (json_string(a.crv) + t2);
    assert(a.json() == p6 + end);
    lemma_join_assoc(p6, end, rest);
    lemma_join_member(p5, l6, json_string(a.y), t6);
    lemma_join_member(p4, l5, json_string(a.x), t5);
    lemma_join_member(p3, l4, json_string(a.key_use), t4);
    lemma_join_member(p2, l3, json_string(a.kty), t3);
    lemma_join_member(p1, l2, json_string(a.crv), t2);
    lemma_join_assoc(l1, json_string(a.alg), t1);
}

/// A text that begins with the JSON form of a key begins with the form of
/// one key only: where two keys, each followed by some rest, make the same
/// text, they are the same key, and the rests are the same.
pub proof fn lemma_jwk_json_unique(a: JwkView, ra: Seq<char>, b: JwkView, rb: Seq<char>)
    requires
        a.json() + ra == b.json() + rb,
    ensures
        a == b,
        ra == rb,
{
    lemma_jwk_json_then(a, ra);
    lemma_jwk_json_then(b, rb);
    let l1 = "{\"alg\":"@;
    let l2 = ",\"crv\":"@;
    let l3 = ",\"kty\":"@;
    let l4 = ",\"use\":"@;
    let l5 = ",\"x\":"@;
    let l6 = ",\"y\":"@;
    let end = "}"@;
    let a6 = end + ra;
    let b6 = end + rb;
    let a5 = l6 + (json_string(a.y) + a6);
    let b5 = l6 + (json_string(b.y) + b6);
    let a4 = l5 + (json_string(a.x) + a5);
    let b4 = l5 + (json_string(b.x) + b5);
    let a3 = l4 + (json_string(a.key_use) + a4);
    let b3 = l4 + (json_string(b.key_use) + b4);
    let a2 = l3 + (json_string(a.kty) + a3);
    let b2 = l3 + (json_string(b.kty) + b3);
    let a1 = l2 + (json_string(a.crv) + a2);
    let b1 = l2 + (json_string(b.crv) + b2);
    lemma_json_string_unique(l1, a.alg, a1, b.alg, b1);
    lemma_json_string_unique(l2, a.crv, a2, b.crv, b2);
    lemma_json_string_unique(l3, a.kty, a3, b.kty, b3);
    lemma_json_string_unique(l4, a.key_use, a4, b.key_use, b4);
    lemma_json_string_unique(l5, a.x, a5, b.x, b5);
    lemma_json_string_unique(l6, a.y, a6, b.y, b6);
    lemma_join_cancel(end, ra, rb);
}

impl JwsProtectedView {
    /// The JSON form of the header, member by member.
    pub open spec fn json_nested(self) -> Seq<char> {
        "{\"alg\":"@ + (json_string(self.alg) + (",\"nonce\":"@ + (json_string(self.nonce) + (
        ",\"url\":"@ + (json_string(self.url) + (self.identity.json_member() + "}"@))))))
    }
}

/// The JSON form of a header is its form member by member.
pub proof fn lemma_header_json_nested(a: JwsProtectedView)
    ensures
        a.json() == a.json_nested(),
{
    let l1 = "{\"alg\":"@;
    let l2 = ",\"nonce\":"@;
    let l3 = ",\"url\":"@;
    let end = "}"@;
    let p1 = l1 + json_string(a.alg);
    let p2 = p1 + l2 + json_string(a.nonce);
    let p3 = p2 + l3 + json_string(a.url);
    let m = a.identity.json_member();
    let t3 = m + end;
    let t2 = l3 + (json_string(a.url) + t3);
    let t1 = l2 + (json_string(a.nonce) + t2);
    assert(a.json() == (p3 + m) + end);
    lemma_join_assoc(p3, m, end);
    lemma_join_member(p2, l3, json_string(a.url), t3);
    lemma_join_member(p1, l2, json_string(a.nonce), t2);
    lemma_join_assoc(l1, json_string(a.alg), t1);
}

/// The JSON form of a header is the form of that header only: two headers
/// with the same form have the same algorithm, nonce and URL, and name the
/// signer in the same way, by the same key or the same key id.
pub proof fn lemma_header_json_unique(a: JwsProtectedView, b: JwsProtectedView)
    requires
        a.json() == b.json(),
    ensures
        a == b,
{
    lemma_header_json_nested(a);
    lemma_header_json_nested(b);
    let l1 = "{\"alg\":"@;
    let l2 = ",\"nonce\":"@;
    let l3 = ",\"url\":"@;
    let end = "}"@;
    let a3 = a.identity.json_member() + end;
    let b3 = b.identity.json_member() + end;
    let a2 = l3 + (json_string(a.url) + a3);
    let b2 = l3 + (json_string(b.url) + b3);
    let a1 = l2 + (json_string(a.nonce) + a2);
    let b1 = l2 + (json_string(b.nonce) + b2);
    lemma_json_string_unique(l1, a.alg, a1, b.alg, b1);
    lemma_json_string_unique(l2, a.nonce, a2, b.nonce, b2);
    lemma_json_string_unique(l3, a.url, a3, b.url, b3);
    lemma_identity_member_unique(a.identity, b.identity);
}

/// The member that names the signer, with the closing brace behind it,
/// names one signer only.
pub proof fn lemma_identity_member_unique(a: JwsIdentityView, b: JwsIdentityView)
    requires
        a.json_member() + "}"@ == b.json_member() + "}"@,
    ensures
        a == b,
{
    let by_key = ",\"jwk\":"@;
    let by_id = ",\"kid\":"@;
    let end = "}"@;
    reveal_strlit(",\"jwk\":");
    reveal_strlit(",\"kid\":");
    match (a, b) {
        (JwsIdentityView::Jwk(ka), JwsIdentityView::Jwk(kb)) => {
            lemma_join_assoc(by_key, ka.json(), end);
            lemma_join_assoc(by_key, kb.json(), end);
            lemma_join_cancel(by_key, ka.json() + end, kb.json() + end);
            lemma_jwk_json_unique(ka, end, kb, end);
        },
        (JwsIdentityView::Kid(ia), JwsIdentityView::Kid(ib)) => {
            lemma_join_assoc(by_id, json_string(ia), end);
            lemma_join_assoc(by_id, json_string(ib), end);
            lemma_json_string_unique(by_id, ia, end, ib, end);
        },
        (JwsIdentityView::Jwk(ka), JwsIdentityView::Kid(ib)) => {
            assert((a.json_member() + end)[2] == by_key[2]);
            assert((b.json_member() + end)[2] == by_id[2]);
            assert(false);
        },
        (JwsIdentityView::Kid(ia), JwsIdentityView::Jwk(kb)) => {
            assert((a.json_member() + end)[2] == by_id[2]);
            assert((b.json_member() + end)[2] == by_key[2]);
            assert(false);
        },
    }
}

impl JwsProtectedView {
    /// The header that a JSON text denotes: the one whose JSON form the
    /// text is. A text that is the form of no header denotes none.
    pub open spec fn of_json(text: Seq<char>) -> Option<JwsProtectedView> {
        if exists|h: JwsProtectedView| h.json() == text {
            Some(choose|h: JwsProtectedView| h.json() == text)
        } else {
            None
        }
    }
}

/// The JSON form of a header denotes that header: its algorithm, its nonce,
/// its URL, and the one of key and key id that it has.
pub proof fn lemma_header_json_decodes_back(h: JwsProtectedView)
    ensures
        JwsProtectedView::of_json(h.json()) == Some(h),
{
    let found = choose|g: JwsProtectedView| g.json() == h.json();
    lemma_header_json_unique(found, h);
}

/// The JSON form of a signed request is the form of that request only.
pub proof fn lemma_jws_json_unique(a: JwsView, b: JwsView)
    requires
        a.json() == b.json(),
    ensures
        a == b,
{
    let l1 = "{\"protected\":"@;
    let l2 = ",\"payload\":"@;
    let l3 = ",\"signature\":"@;
    let end = "}"@;
    let pa = l1 + json_string(a.protected);
    let pb = l1 + json_string(b.protected);
    let a2 = l3 + (json_string(a.signature) + end);
    let b2 = l3 + (json_string(b.signature) + end);
    let a1 = l2 + (json_string(a.payload) + a2);
    let b1 = l2 + (json_string(b.payload) + b2);
    lemma_join_member(pa + l2 + json_string(a.payload), l3, json_string(a.signature), end);
    lemma_join_member(pa, l2, json_string(a.payload), a2);
    lemma_join_assoc(l1, json_string(a.protected), a1);
    lemma_join_member(pb + l2 + json_string(b.payload), l3, json_string(b.signature), end);
    lemma_join_member(pb, l2, json_string(b.payload), b2);
    lemma_join_assoc(l1, json_string(b.protected), b1);
    lemma_json_string_unique(l1, a.protected, a1, b.protected, b1);
    lemma_json_string_unique(l2, a.payload, a2, b.payload, b2);
    lemma_json_string_unique(l3, a.signature, end, b.signature, end);
}

impl JwsView {
    /// The signed request that a JSON text denotes: the one whose JSON form
    /// the text is. A text that is the form of no request denotes none.
    pub open spec fn of_json(text: Seq<char>) -> Option<JwsView> {
        if exists|jws: JwsView| jws.json() == text {
            Some(choose|jws: JwsView| jws.json() == text)
        } else {
            None
        }
    }
}

/// The JSON form of a signed request denotes that request.
pub proof fn lemma_jws_json_decodes_back(jws: JwsView)
    ensures
        JwsView::of_json(jws.json()) == Some(jws),
{
    let found = choose|j: JwsView| j.json() == jws.json();
    lemma_jws_json_unique(found, jws);
}

} // verus!
