pub mod akey;

pub use akey::AcmeKey;

use crate::acc::akey::AcmeKeyView;
use crate::error::Error;
use crate::model::{ApiAccount, Directory};
use crate::trans::{steps, CallAction, CallEvent, JwsMode, NoncePool, SignedCall, SignedCallView, Transport};
use vstd::prelude::*;

verus! {

/// An account at a certificate authority: the transport that signs for it,
/// what the server says of it, and the server's directory. Its key is bound
/// to the key id that the server assigned, and every call that it makes
/// names the account by that id.
pub struct Account {
    transport: Transport,
    api_account: ApiAccount,
    api_directory: Directory,
}

impl Account {
    /// Whether the account's key is bound to a key id.
    pub closed spec fn bound(&self) -> bool {
        self.transport.key_view().key_id.is_some()
    }

    #[verifier::type_invariant]
    closed spec fn inv(&self) -> bool {
        self.bound()
    }

    /// What the account's key holds.
    pub closed spec fn key_view(&self) -> AcmeKeyView {
        self.transport.key_view()
    }

    /// The private key with which the account signs.
    pub closed spec fn spec_private_key(&self) -> openssl::ec::EcKey<openssl::pkey::Private> {
        self.transport.spec_private_key()
    }

    /// What the server says of the account.
    pub closed spec fn account_view(&self) -> ApiAccount {
        self.api_account
    }

    /// The server's directory.
    pub closed spec fn directory_view(&self) -> Directory {
        self.api_directory
    }

    /// An account around a transport whose key is bound to its key id. A
    /// key without a key id makes no account.
    pub fn new(transport: Transport, api_account: ApiAccount, api_directory: Directory) -> (r:
        Result<Account, Error>)
        ensures
            transport.key_view().key_id.is_some() ==> {
                &&& r matches Ok(account)
                &&& account.key_view() == transport.key_view()
                &&& account.spec_private_key() == transport.spec_private_key()
                &&& account.account_view() == api_account
                &&& account.directory_view() == api_directory
                &&& account.bound()
            },
            transport.key_view().key_id.is_none() ==> r matches Err(Error::UnboundIdentity),
    {
        match transport.acme_key().key_id() {
            Ok(_) => Ok(Account { transport, api_account, api_directory }),
            Err(e) => Err(e),
        }
    }

    /// The account's key id, which an account always has.
    pub fn key_id(&self) -> (r: Result<&str, Error>)
        ensures
            r matches Ok(kid) && self.key_view().key_id == Some(kid@),
    {
        proof {
            use_type_invariant(self);
        }
        self.transport.acme_key().key_id()
    }

    pub fn api_account(&self) -> (r: &ApiAccount)
        ensures
            *r == self.account_view(),
    {
        &self.api_account
    }

    pub fn api_directory(&self) -> (r: &Directory)
        ensures
            *r == self.directory_view(),
    {
        &self.api_directory
    }

    pub fn transport(&self) -> (r: &Transport)
        ensures
            r.key_view() == self.key_view(),
            r.spec_private_key() == self.spec_private_key(),
            self.bound(),
    {
        proof {
            use_type_invariant(self);
        }
        &self.transport
    }

    /// Begins a signed call for the account. It names the account by its
    /// key id, as every call of an account does.
    pub fn call(&self, pool: &mut NoncePool, url: &str, body: &str) -> (r: (SignedCall, CallAction))
        ensures
            self.bound(),
            steps(
                self.key_view(),
                old(pool)@,
                SignedCallView { mode: JwsMode::Kid, url: url@, payload: body@, attempts: 0 },
                CallEvent::Start,
                final(pool)@,
                r.0@,
                r.1,
            ),
    {
        proof {
            use_type_invariant(self);
        }
        self.transport.call(pool, url, body)
    }
}

} // verus!
