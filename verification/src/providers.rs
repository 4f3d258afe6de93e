use crate::dir::DirectoryUrl;
use vstd::prelude::*;

verus! {

/// The directory of Let's Encrypt that issues certificates for real.
pub const LETSENCRYPT_PROD: &'static str = "https://acme-v02.api.letsencrypt.org/directory";

/// The directory of Let's Encrypt for trying things out.
pub const LETSENCRYPT_STAGING: &'static str =
    "https://acme-staging-v02.api.letsencrypt.org/directory";

/// A certificate authority, known by the URL of its directory.
pub trait AcmeProvider {
    /// The URL of the authority's directory.
    spec fn spec_directory(&self) -> Seq<char>;

    fn directory(&self) -> (url: &str)
        ensures
            url@ == self.spec_directory(),
    ;
}

/// Let's Encrypt: the staging directory in a debug build, the production
/// directory in any other.
pub struct DynamicLetsEncrypt {
    pub debug_build: bool,
}

impl AcmeProvider for DynamicLetsEncrypt {
    open spec fn spec_directory(&self) -> Seq<char> {
        if self.debug_build {
            LETSENCRYPT_STAGING@
        } else {
            LETSENCRYPT_PROD@
        }
    }

    fn directory(&self) -> (url: &str) {
        if self.debug_build {
            LETSENCRYPT_STAGING
        } else {
            LETSENCRYPT_PROD
        }
    }
}

/// Let's Encrypt, the production directory.
pub struct LetsEncrypt;

impl AcmeProvider for LetsEncrypt {
    open spec fn spec_directory(&self) -> Seq<char> {
        LETSENCRYPT_PROD@
    }

    fn directory(&self) -> (url: &str) {
        LETSENCRYPT_PROD
    }
}

/// Let's Encrypt, the staging directory.
pub struct LetsEncryptStaging;

impl AcmeProvider for LetsEncryptStaging {
    open spec fn spec_directory(&self) -> Seq<char> {
        LETSENCRYPT_STAGING@
    }

    fn directory(&self) -> (url: &str) {
        LETSENCRYPT_STAGING
    }
}

/// Any directory, one of the known or one by its URL, is a provider too.
impl<'a> AcmeProvider for DirectoryUrl<'a> {
    open spec fn spec_directory(&self) -> Seq<char> {
        self.spec_to_url()
    }

    fn directory(&self) -> (url: &str) {
        self.to_url()
    }
}

} // verus!
