use crate::acc::akey::{AcmeKeyView, MAX_PEM_LEN};
use crate::acc::{Account, AcmeKey};
use crate::error::Error;
use crate::json::{json_document, parse_json, string_views};
use crate::model::{new_account_payload, ApiAccount, ApiAccountView, DirectoryView};
use crate::req::{
    header_value, problem_of, req_expect_header, req_handle_error, visible_ascii, ReqResult,
};
use crate::trans::{
    steps, CallAction, CallEvent, JwsMode, NoncePool, NoncePoolView, SignedCall, SignedCallView,
    Transport,
};
use vstd::prelude::*;
use vstd::string::*;
use vstd::utf8::encode_utf8;

verus! {

/// The directory of an ACME server as the server describes it.
pub type ApiDirectory = crate::model::Directory;

pub const LETSENCRYPT: &'static str = "https://acme-v02.api.letsencrypt.org/directory";

pub const LETSENCRYPT_STAGING: &'static str =
    "https://acme-staging-v02.api.letsencrypt.org/directory";

/// The header in which the server names a new account.
pub const LOCATION: &'static str = "location";

/// The known ACME directories, and any other by its URL.
#[derive(Debug, Clone)]
pub enum DirectoryUrl<'a> {
    /// The main Let's Encrypt directory. Not appropriate for testing and dev.
    LetsEncrypt,
    /// The staging Let's Encrypt directory. Use for testing and dev. It
    /// does not issue certificates that anyone trusts.
    LetsEncryptStaging,
    /// An arbitrary directory URL.
    Other(&'a str),
}

impl<'a> DirectoryUrl<'a> {
    /// The URL under which the directory is fetched.
    pub open spec fn spec_to_url(&self) -> Seq<char> {
        match self {
            DirectoryUrl::LetsEncrypt => LETSENCRYPT@,
            DirectoryUrl::LetsEncryptStaging => LETSENCRYPT_STAGING@,
            DirectoryUrl::Other(s) => s@,
        }
    }

    pub fn to_url(&self) -> (url: &str)
        ensures
            url@ == self.spec_to_url(),
    {
        match self {
            DirectoryUrl::LetsEncrypt => LETSENCRYPT,
            DirectoryUrl::LetsEncryptStaging => LETSENCRYPT_STAGING,
            DirectoryUrl::Other(s) => s,
        }
    }
}

/// Entry point for accessing an ACME API: the server's directory and the
/// store of the nonces that the server has handed out.
pub struct Directory {
    url: String,
    nonce_pool: NoncePool,
    api_directory: ApiDirectory,
}

/// An account in the making: the transport that signs for it, the call to
/// the server that is under way, and what is to be done next for that call.
pub struct PendingAccount {
    pub transport: Transport,
    pub call: SignedCall,
    pub action: CallAction,
}

/// The directory that the text of a response denotes.
pub open spec fn directory_of(body: Seq<char>) -> Option<DirectoryView> {
    match json_document(body) {
        Some(doc) => DirectoryView::from_json(doc),
        None => None,
    }
}

/// The account that the text of a response denotes.
pub open spec fn account_of(body: Seq<char>) -> Option<ApiAccountView> {
    match json_document(body) {
        Some(doc) => ApiAccountView::from_json(doc),
        None => None,
    }
}

impl Directory {
    /// The URL from which the directory came.
    pub closed spec fn url_view(&self) -> Seq<char> {
        self.url@
    }

    /// What the store of nonces holds.
    pub closed spec fn pool_view(&self) -> NoncePoolView {
        self.nonce_pool@
    }

    /// What the server's directory holds.
    pub closed spec fn api_view(&self) -> DirectoryView {
        self.api_directory@
    }

    /// Makes the entry point from the server's answer to a GET request for
    /// `url.to_url()`. An answer with another status than 200 is the
    /// problem that it reports; the body of a good answer must be a
    /// directory document. The store of nonces starts empty and asks for
    /// nonces where the directory says.
    pub fn from_url(url: DirectoryUrl, res: ReqResult) -> (r: Result<Directory, Error>)
        ensures
            res.status != 200 ==> (r matches Err(Error::Acme(problem)) && problem@ == problem_of(
                res,
            )),
            res.status == 200 ==> match directory_of(res.body@) {
                Some(api) => {
                    &&& r matches Ok(dir)
                    &&& dir.url_view() == url.spec_to_url()
                    &&& dir.api_view() == api
                    &&& dir.pool_view() == (NoncePoolView {
                        nonce_url: api.new_nonce,
                        cache: Seq::empty(),
                    })
                },
                None => r matches Err(Error::Json(_)),
            },
    {
        let res = match req_handle_error(res) {
            Ok(res) => res,
            Err(problem) => {
                return Err(Error::Acme(problem));
            },
        };
        let doc = match parse_json(res.body.as_str()) {
            Ok(doc) => doc,
            Err(message) => {
                return Err(Error::Json(message));
            },
        };
        match ApiDirectory::from_json(&doc) {
            Some(api_directory) => {
                let nonce_pool = NoncePool::new(api_directory.new_nonce.as_str());
                Ok(Directory { url: String::from_str(url.to_url()), nonce_pool, api_directory })
            },
            None => Err(Error::Json(String::from_str("the document is no ACME directory"))),
        }
    }

    /// Begins the registration of an account with a fresh key.
    pub fn register_account(&mut self, contact: Vec<String>) -> (r: Result<PendingAccount, Error>)
        ensures
            final(self).url_view() == old(self).url_view(),
            final(self).api_view() == old(self).api_view(),
            r matches Ok(pending) ==> {
                &&& pending.transport.key_view().key_id.is_none()
                &&& begins_account(
                    pending.transport.key_view(),
                    old(self).pool_view(),
                    old(self).api_view(),
                    string_views(contact@),
                    final(self).pool_view(),
                    pending,
                )
            },
            r matches Err(e) ==> e is Keygen && final(self).pool_view() == old(self).pool_view(),
    {
        let acme_key = AcmeKey::new()?;
        self.upsert_account(acme_key, contact)
    }

    /// Begins the registration of an account with a key that exists, given
    /// as PEM. Where the server knows the key, it answers with the account
    /// that there is.
    pub fn load_account(&mut self, pem: &str, contact: Vec<String>) -> (r: Result<
        PendingAccount,
        Error,
    >)
        ensures
            encode_utf8(pem@).len() > MAX_PEM_LEN ==> r matches Err(Error::Keygen(_)),
            final(self).url_view() == old(self).url_view(),
            final(self).api_view() == old(self).api_view(),
            r matches Ok(pending) ==> {
                &&& pending.transport.key_view().key_id.is_none()
                &&& begins_account(
                    pending.transport.key_view(),
                    old(self).pool_view(),
                    old(self).api_view(),
                    string_views(contact@),
                    final(self).pool_view(),
                    pending,
                )
            },
            r matches Err(e) ==> e is Keygen && final(self).pool_view() == old(self).pool_view(),
    {
        let acme_key = AcmeKey::from_pem(pem.as_bytes())?;
        self.upsert_account(acme_key, contact)
    }

    /// Begins the call that makes the account of `acme_key` or finds it
    /// again: a call to the directory's `newAccount` service that carries
    /// the public key itself, with the contacts and the agreement to the
    /// terms of service as its body.
    pub fn upsert_account(&mut self, acme_key: AcmeKey, contact: Vec<String>) -> (r: Result<
        PendingAccount,
        Error,
    >)
        ensures
            final(self).url_view() == old(self).url_view(),
            final(self).api_view() == old(self).api_view(),
            r matches Ok(pending) ==> {
                &&& pending.transport.key_view() == acme_key@
                &&& pending.transport.spec_private_key() == acme_key.spec_private_key()
                &&& begins_account(
                    acme_key@,
                    old(self).pool_view(),
                    old(self).api_view(),
                    string_views(contact@),
                    final(self).pool_view(),
                    pending,
                )
            },
            r is Ok,
    {
        let body = ApiAccount::new_account_payload(&contact)?;
        let transport = Transport::new(acme_key);
        let (call, action) = transport.call_jwk(
            &mut self.nonce_pool,
            self.api_directory.new_account.as_str(),
            body.as_str(),
        );
        Ok(PendingAccount { transport, call, action })
    }

    /// Begins a signed call for an account with the directory's store of
    /// nonces. It names the account by its key id.
    pub fn begin_call(&mut self, account: &Account, url: &str, body: &str) -> (r: (
        SignedCall,
        CallAction,
    ))
        ensures
            final(self).url_view() == old(self).url_view(),
            final(self).api_view() == old(self).api_view(),
            account.bound(),
            steps(
                account.key_view(),
                old(self).pool_view(),
                SignedCallView { mode: JwsMode::Kid, url: url@, payload: body@, attempts: 0 },
                CallEvent::Start,
                final(self).pool_view(),
                r.0@,
                r.1,
            ),
    {
        account.call(&mut self.nonce_pool, url, body)
    }

    /// Takes a call one step further with the directory's store of nonces.
    pub fn continue_call(&mut self, transport: &Transport, call: SignedCall, event: CallEvent) -> (r:
        (SignedCall, CallAction))
        ensures
            final(self).url_view() == old(self).url_view(),
            final(self).api_view() == old(self).api_view(),
            steps(
                transport.key_view(),
                old(self).pool_view(),
                call@,
                event,
                final(self).pool_view(),
                r.0@,
                r.1,
            ),
    {
        transport.do_call(&mut self.nonce_pool, call, event)
    }

    /// Makes the account from the server's answer to the call that
    /// `upsert_account` began. An answer with another status than 200 is
    /// the problem that it reports. A good answer names the account in its
    /// `Location` header, to which the key is bound from then on, and
    /// describes the account in its body.
    pub fn finish_account(&self, transport: Transport, res: ReqResult) -> (r: Result<Account, Error>)
        ensures
            res.status != 200 ==> (r matches Err(Error::Acme(problem)) && problem@ == problem_of(
                res,
            )),
            res.status == 200 ==> match header_value(res.headers@, LOCATION@) {
                None => r matches Err(Error::MissingHeader(name)) && name@ == LOCATION@,
                Some(kid) => if !visible_ascii(kid) {
                    r matches Err(Error::MalformedHeader(name)) && name@ == LOCATION@
                } else {
                    match account_of(res.body@) {
                        None => r matches Err(Error::Json(_)),
                        Some(api_account) => {
                            &&& r matches Ok(account)
                            &&& account.key_view() == (AcmeKeyView {
                                key_id: Some(kid),
                                ..transport.key_view()
                            })
                            &&& account.spec_private_key() == transport.spec_private_key()
                            &&& account.account_view()@ == api_account
                            &&& account.directory_view()@ == self.api_view()
                        },
                    }
                },
            },
    {
        let res = match req_handle_error(res) {
            Ok(res) => res,
            Err(problem) => {
                return Err(Error::Acme(problem));
            },
        };
        let kid = req_expect_header(&res, LOCATION)?;
        let doc = match parse_json(res.body.as_str()) {
            Ok(doc) => doc,
            Err(message) => {
                return Err(Error::Json(message));
            },
        };
        let api_account = match ApiAccount::from_json(&doc) {
            Some(api_account) => api_account,
            None => {
                return Err(Error::Json(String::from_str("the document is no ACME account")));
            },
        };
        let mut transport = transport;
        transport.set_key_id(kid);
        Account::new(transport, api_account, self.api_directory.duplicate())
    }

    /// Access the underlying JSON object for debugging.
    pub fn api_directory(&self) -> (r: &ApiDirectory)
        ensures
            r@ == self.api_view(),
    {
        &self.api_directory
    }

    /// The URL from which the directory came.
    pub fn url(&self) -> (r: &str)
        ensures
            r@ == self.url_view(),
    {
        self.url.as_str()
    }

    /// The store of nonces.
    pub fn nonce_pool(&self) -> (r: &NoncePool)
        ensures
            r@ == self.pool_view(),
    {
        &self.nonce_pool
    }
}

/// What it is to begin the registration of an account: the first step of a
/// call to `newAccount` that carries the public key itself and has the
/// contacts and the agreement to the terms of service as its body.
pub open spec fn begins_account(
    key: AcmeKeyView,
    pool: NoncePoolView,
    api: DirectoryView,
    contact: Seq<Seq<char>>,
    pool_after: NoncePoolView,
    pending: PendingAccount,
) -> bool {
    steps(
        key,
        pool,
        SignedCallView {
            mode: JwsMode::Jwk,
            url: api.new_account,
            payload: new_account_payload(contact),
            attempts: 0,
        },
        CallEvent::Start,
        pool_after,
        pending.call@,
        pending.action,
    )
}

} // verus!
