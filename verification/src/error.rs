use crate::json::{JsonValue, Member};
use crate::util::str_eq;
use vstd::prelude::*;
use vstd::string::*;

verus! {

/// The kinds of problem that an ACME server reports, one for each error URN
/// of RFC 8555, and `Unrecognized` for every other type.
#[derive(Debug, Clone, Copy, PartialEq, Eq, Structural)]
#[non_exhaustive]
pub enum AcmeErrorKind {
    AccountDoesNotExist,
    AlreadyRevoked,
    BadCSR,
    BadNonce,
    BadPublicKey,
    BadRevocationReason,
    BadSignatureAlgorithm,
    Caa,
    Compound,
    Connection,
    Dns,
    ExternalAccountRequired,
    IncorrectResponse,
    InvalidContact,
    Malformed,
    OrderNotReady,
    Ratelimited,
    RejectedIdentifier,
    ServerInternal,
    Tls,
    Unauthorized,
    UnsupportedContact,
    UnsupportedIdentifier,
    UserActionRequired,
    /// A problem type that is none of the above.
    Unrecognized,
}

impl AcmeErrorKind {
    /// The URN that names this kind on the wire; `Unrecognized` has none.
    pub open spec fn spec_urn(self) -> Option<Seq<char>> {
        match self {
            AcmeErrorKind::AccountDoesNotExist => Some("urn:ietf:params:acme:error:accountDoesNotExist"@),
            AcmeErrorKind::AlreadyRevoked => Some("urn:ietf:params:acme:error:alreadyRevoked"@),
            AcmeErrorKind::BadCSR => Some("urn:ietf:params:acme:error:badCSR"@),
            AcmeErrorKind::BadNonce => Some("urn:ietf:params:acme:error:badNonce"@),
            AcmeErrorKind::BadPublicKey => Some("urn:ietf:params:acme:error:badPublicKey"@),
            AcmeErrorKind::BadRevocationReason => Some("urn:ietf:params:acme:error:badRevocationReason"@),
            AcmeErrorKind::BadSignatureAlgorithm => Some("urn:ietf:params:acme:error:badSignatureAlgorithm"@),
            AcmeErrorKind::Caa => Some("urn:ietf:params:acme:error:caa"@),
            AcmeErrorKind::Compound => Some("urn:ietf:params:acme:error:compound"@),
            AcmeErrorKind::Connection => Some("urn:ietf:params:acme:error:connection"@),
            AcmeErrorKind::Dns => Some("urn:ietf:params:acme:error:dns"@),
            AcmeErrorKind::ExternalAccountRequired => Some("urn:ietf:params:acme:error:externalAccountRequired"@),
            AcmeErrorKind::IncorrectResponse => Some("urn:ietf:params:acme:error:incorrectResponse"@),
            AcmeErrorKind::InvalidContact => Some("urn:ietf:params:acme:error:invalidContact"@),
            AcmeErrorKind::Malformed => Some("urn:ietf:params:acme:error:malformed"@),
            AcmeErrorKind::OrderNotReady => Some("urn:ietf:params:acme:error:orderNotReady"@),
            AcmeErrorKind::Ratelimited => Some("urn:ietf:params:acme:error:rateLimited"@),
            AcmeErrorKind::RejectedIdentifier => Some("urn:ietf:params:acme:error:rejectedIdentifier"@),
            AcmeErrorKind::ServerInternal => Some("urn:ietf:params:acme:error:serverInternal"@),
            AcmeErrorKind::Tls => Some("urn:ietf:params:acme:error:tls"@),
            AcmeErrorKind::Unauthorized => Some("urn:ietf:params:acme:error:unauthorized"@),
            AcmeErrorKind::UnsupportedContact => Some("urn:ietf:params:acme:error:unsupportedContact"@),
            AcmeErrorKind::UnsupportedIdentifier => Some("urn:ietf:params:acme:error:unsupportedIdentifier"@),
            AcmeErrorKind::UserActionRequired => Some("urn:ietf:params:acme:error:userActionRequired"@),
            AcmeErrorKind::Unrecognized => None,
        }
    }

    /// The kind that a problem type names.
    pub open spec fn spec_from_urn(urn: Seq<char>) -> AcmeErrorKind {
        if urn == "urn:ietf:params:acme:error:accountDoesNotExist"@ {
            AcmeErrorKind::AccountDoesNotExist
        } else         if urn == "urn:ietf:params:acme:error:alreadyRevoked"@ {
            AcmeErrorKind::AlreadyRevoked
        } else         if urn == "urn:ietf:params:acme:error:badCSR"@ {
            AcmeErrorKind::BadCSR
        } else         if urn == "urn:ietf:params:acme:error:badNonce"@ {
            AcmeErrorKind::BadNonce
        } else         if urn == "urn:ietf:params:acme:error:badPublicKey"@ {
            AcmeErrorKind::BadPublicKey
        } else         if urn == "urn:ietf:params:acme:error:badRevocationReason"@ {
            AcmeErrorKind::BadRevocationReason
        } else         if urn == "urn:ietf:params:acme:error:badSignatureAlgorithm"@ {
            AcmeErrorKind::BadSignatureAlgorithm
        } else         if urn == "urn:ietf:params:acme:error:caa"@ {
            AcmeErrorKind::Caa
        } else         if urn == "urn:ietf:params:acme:error:compound"@ {
            AcmeErrorKind::Compound
        } else         if urn == "urn:ietf:params:acme:error:connection"@ {
            AcmeErrorKind::Connection
        } else         if urn == "urn:ietf:params:acme:error:dns"@ {
            AcmeErrorKind::Dns
        } else         if urn == "urn:ietf:params:acme:error:externalAccountRequired"@ {
            AcmeErrorKind::ExternalAccountRequired
        } else         if urn == "urn:ietf:params:acme:error:incorrectResponse"@ {
            AcmeErrorKind::IncorrectResponse
        } else         if urn == "urn:ietf:params:acme:error:invalidContact"@ {
            AcmeErrorKind::InvalidContact
        } else         if urn == "urn:ietf:params:acme:error:malformed"@ {
            AcmeErrorKind::Malformed
        } else         if urn == "urn:ietf:params:acme:error:orderNotReady"@ {
            AcmeErrorKind::OrderNotReady
        } else         if urn == "urn:ietf:params:acme:error:rateLimited"@ {
            AcmeErrorKind::Ratelimited
        } else         if urn == "urn:ietf:params:acme:error:rejectedIdentifier"@ {
            AcmeErrorKind::RejectedIdentifier
        } else         if urn == "urn:ietf:params:acme:error:serverInternal"@ {
            AcmeErrorKind::ServerInternal
        } else         if urn == "urn:ietf:params:acme:error:tls"@ {
            AcmeErrorKind::Tls
        } else         if urn == "urn:ietf:params:acme:error:unauthorized"@ {
            AcmeErrorKind::Unauthorized
        } else         if urn == "urn:ietf:params:acme:error:unsupportedContact"@ {
            AcmeErrorKind::UnsupportedContact
        } else         if urn == "urn:ietf:params:acme:error:unsupportedIdentifier"@ {
            AcmeErrorKind::UnsupportedIdentifier
        } else         if urn == "urn:ietf:params:acme:error:userActionRequired"@ {
            AcmeErrorKind::UserActionRequired
        } else {
            AcmeErrorKind::Unrecognized
        }
    }

    /// What this kind of problem means, in words.
    pub open spec fn spec_description(self) -> Seq<char> {
        match self {
            AcmeErrorKind::AccountDoesNotExist => "The request specified an account that does not exist"@,
            AcmeErrorKind::AlreadyRevoked => "The request specified a certificate to be revoked that has already been revoked"@,
            AcmeErrorKind::BadCSR => "The CSR is unacceptable (e.g., due to a short key)"@,
            AcmeErrorKind::BadNonce => "The client sent an unacceptable anti-replay nonce"@,
            AcmeErrorKind::BadPublicKey => "The JWS was signed by a public key the server does not support"@,
            AcmeErrorKind::BadRevocationReason => "The revocation reason provided is not allowed by the server"@,
            AcmeErrorKind::BadSignatureAlgorithm => "The JWS was signed with an algorithm the server does not support"@,
            AcmeErrorKind::Caa => "Certification Authority Authorization (CAA) records forbid the CA from issuing a certificate"@,
            AcmeErrorKind::Compound => "Specific error conditions are indicated in the `subproblems` array"@,
            AcmeErrorKind::Connection => "The server could not connect to validation target"@,
            AcmeErrorKind::Dns => "There was a problem with a DNS query during identifier validation"@,
            AcmeErrorKind::ExternalAccountRequired => "The request must include a value for the \"externalAccountBinding\" field"@,
            AcmeErrorKind::IncorrectResponse => "Response received didn't match the challenge's requirements"@,
            AcmeErrorKind::InvalidContact => "A contact URL for an account was invalid"@,
            AcmeErrorKind::Malformed => "The request message was malformed"@,
            AcmeErrorKind::OrderNotReady => "The request attempted to finalize an order that is not ready to be finalized"@,
            AcmeErrorKind::Ratelimited => "The request exceeds a rate limit"@,
            AcmeErrorKind::RejectedIdentifier => "The server will not issue certificates for the identifier"@,
            AcmeErrorKind::ServerInternal => "The server experienced an internal error"@,
            AcmeErrorKind::Tls => "The server received a TLS error during validation"@,
            AcmeErrorKind::Unauthorized => "The client lacks sufficient authorization"@,
            AcmeErrorKind::UnsupportedContact => "A contact URL for an account used an unsupported protocol scheme"@,
            AcmeErrorKind::UnsupportedIdentifier => "An identifier is of an unsupported type"@,
            AcmeErrorKind::UserActionRequired => "Visit the `instance` url and take actions specified there"@,
            AcmeErrorKind::Unrecognized => "The server reported a problem of an unrecognized type"@,
        }
    }

    pub fn urn(self) -> (r: Option<&'static str>)
        ensures
            match r {
                Some(s) => self.spec_urn() == Some(s@),
                None => self.spec_urn().is_none(),
            },
    {
        match self {
            AcmeErrorKind::AccountDoesNotExist => Some("urn:ietf:params:acme:error:accountDoesNotExist"),
            AcmeErrorKind::AlreadyRevoked => Some("urn:ietf:params:acme:error:alreadyRevoked"),
            AcmeErrorKind::BadCSR => Some("urn:ietf:params:acme:error:badCSR"),
            AcmeErrorKind::BadNonce => Some("urn:ietf:params:acme:error:badNonce"),
            AcmeErrorKind::BadPublicKey => Some("urn:ietf:params:acme:error:badPublicKey"),
            AcmeErrorKind::BadRevocationReason => Some("urn:ietf:params:acme:error:badRevocationReason"),
            AcmeErrorKind::BadSignatureAlgorithm => Some("urn:ietf:params:acme:error:badSignatureAlgorithm"),
            AcmeErrorKind::Caa => Some("urn:ietf:params:acme:error:caa"),
            AcmeErrorKind::Compound => Some("urn:ietf:params:acme:error:compound"),
            AcmeErrorKind::Connection => Some("urn:ietf:params:acme:error:connection"),
            AcmeErrorKind::Dns => Some("urn:ietf:params:acme:error:dns"),
            AcmeErrorKind::ExternalAccountRequired => Some("urn:ietf:params:acme:error:externalAccountRequired"),
            AcmeErrorKind::IncorrectResponse => Some("urn:ietf:params:acme:error:incorrectResponse"),
            AcmeErrorKind::InvalidContact => Some("urn:ietf:params:acme:error:invalidContact"),
            AcmeErrorKind::Malformed => Some("urn:ietf:params:acme:error:malformed"),
            AcmeErrorKind::OrderNotReady => Some("urn:ietf:params:acme:error:orderNotReady"),
            AcmeErrorKind::Ratelimited => Some("urn:ietf:params:acme:error:rateLimited"),
            AcmeErrorKind::RejectedIdentifier => Some("urn:ietf:params:acme:error:rejectedIdentifier"),
            AcmeErrorKind::ServerInternal => Some("urn:ietf:params:acme:error:serverInternal"),
            AcmeErrorKind::Tls => Some("urn:ietf:params:acme:error:tls"),
            AcmeErrorKind::Unauthorized => Some("urn:ietf:params:acme:error:unauthorized"),
            AcmeErrorKind::UnsupportedContact => Some("urn:ietf:params:acme:error:unsupportedContact"),
            AcmeErrorKind::UnsupportedIdentifier => Some("urn:ietf:params:acme:error:unsupportedIdentifier"),
            AcmeErrorKind::UserActionRequired => Some("urn:ietf:params:acme:error:userActionRequired"),
            AcmeErrorKind::Unrecognized => None,
        }
    }

    pub fn from_urn(urn: &str) -> (kind: AcmeErrorKind)
        ensures
            kind == Self::spec_from_urn(urn@),
    {
        if str_eq(urn, "urn:ietf:params:acme:error:accountDoesNotExist") {
            AcmeErrorKind::AccountDoesNotExist
        } else         if str_eq(urn, "urn:ietf:params:acme:error:alreadyRevoked") {
            AcmeErrorKind::AlreadyRevoked
        } else         if str_eq(urn, "urn:ietf:params:acme:error:badCSR") {
            AcmeErrorKind::BadCSR
        } else         if str_eq(urn, "urn:ietf:params:acme:error:badNonce") {
            AcmeErrorKind::BadNonce
        } else         if str_eq(urn, "urn:ietf:params:acme:error:badPublicKey") {
            AcmeErrorKind::BadPublicKey
        } else         if str_eq(urn, "urn:ietf:params:acme:error:badRevocationReason") {
            AcmeErrorKind::BadRevocationReason
        } else         if str_eq(urn, "urn:ietf:params:acme:error:badSignatureAlgorithm") {
            AcmeErrorKind::BadSignatureAlgorithm
        } else         if str_eq(urn, "urn:ietf:params:acme:error:caa") {
            AcmeErrorKind::Caa
        } else         if str_eq(urn, "urn:ietf:params:acme:error:compound") {
            AcmeErrorKind::Compound
        } else         if str_eq(urn, "urn:ietf:params:acme:error:connection") {
            AcmeErrorKind::Connection
        } else         if str_eq(urn, "urn:ietf:params:acme:error:dns") {
            AcmeErrorKind::Dns
        } else         if str_eq(urn, "urn:ietf:params:acme:error:externalAccountRequired") {
            AcmeErrorKind::ExternalAccountRequired
        } else         if str_eq(urn, "urn:ietf:params:acme:error:incorrectResponse") {
            AcmeErrorKind::IncorrectResponse
        } else         if str_eq(urn, "urn:ietf:params:acme:error:invalidContact") {
            AcmeErrorKind::InvalidContact
        } else         if str_eq(urn, "urn:ietf:params:acme:error:malformed") {
            AcmeErrorKind::Malformed
        } else         if str_eq(urn, "urn:ietf:params:acme:error:orderNotReady") {
            AcmeErrorKind::OrderNotReady
        } else         if str_eq(urn, "urn:ietf:params:acme:error:rateLimited") {
            AcmeErrorKind::Ratelimited
        } else         if str_eq(urn, "urn:ietf:params:acme:error:rejectedIdentifier") {
            AcmeErrorKind::RejectedIdentifier
        } else         if str_eq(urn, "urn:ietf:params:acme:error:serverInternal") {
            AcmeErrorKind::ServerInternal
        } else         if str_eq(urn, "urn:ietf:params:acme:error:tls") {
            AcmeErrorKind::Tls
        } else         if str_eq(urn, "urn:ietf:params:acme:error:unauthorized") {
            AcmeErrorKind::Unauthorized
        } else         if str_eq(urn, "urn:ietf:params:acme:error:unsupportedContact") {
            AcmeErrorKind::UnsupportedContact
        } else         if str_eq(urn, "urn:ietf:params:acme:error:unsupportedIdentifier") {
            AcmeErrorKind::UnsupportedIdentifier
        } else         if str_eq(urn, "urn:ietf:params:acme:error:userActionRequired") {
            AcmeErrorKind::UserActionRequired
        } else {
            AcmeErrorKind::Unrecognized
        }
    }

    pub fn description(self) -> (r: &'static str)
        ensures
            r@ == self.spec_description(),
    {
        match self {
            AcmeErrorKind::AccountDoesNotExist => "The request specified an account that does not exist",
            AcmeErrorKind::AlreadyRevoked => "The request specified a certificate to be revoked that has already been revoked",
            AcmeErrorKind::BadCSR => "The CSR is unacceptable (e.g., due to a short key)",
            AcmeErrorKind::BadNonce => "The client sent an unacceptable anti-replay nonce",
            AcmeErrorKind::BadPublicKey => "The JWS was signed by a public key the server does not support",
            AcmeErrorKind::BadRevocationReason => "The revocation reason provided is not allowed by the server",
            AcmeErrorKind::BadSignatureAlgorithm => "The JWS was signed with an algorithm the server does not support",
            AcmeErrorKind::Caa => "Certification Authority Authorization (CAA) records forbid the CA from issuing a certificate",
            AcmeErrorKind::Compound => "Specific error conditions are indicated in the `subproblems` array",
            AcmeErrorKind::Connection => "The server could not connect to validation target",
            AcmeErrorKind::Dns => "There was a problem with a DNS query during identifier validation",
            AcmeErrorKind::ExternalAccountRequired => "The request must include a value for the \"externalAccountBinding\" field",
            AcmeErrorKind::IncorrectResponse => "Response received didn't match the challenge's requirements",
            AcmeErrorKind::InvalidContact => "A contact URL for an account was invalid",
            AcmeErrorKind::Malformed => "The request message was malformed",
            AcmeErrorKind::OrderNotReady => "The request attempted to finalize an order that is not ready to be finalized",
            AcmeErrorKind::Ratelimited => "The request exceeds a rate limit",
            AcmeErrorKind::RejectedIdentifier => "The server will not issue certificates for the identifier",
            AcmeErrorKind::ServerInternal => "The server experienced an internal error",
            AcmeErrorKind::Tls => "The server received a TLS error during validation",
            AcmeErrorKind::Unauthorized => "The client lacks sufficient authorization",
            AcmeErrorKind::UnsupportedContact => "A contact URL for an account used an unsupported protocol scheme",
            AcmeErrorKind::UnsupportedIdentifier => "An identifier is of an unsupported type",
            AcmeErrorKind::UserActionRequired => "Visit the `instance` url and take actions specified there",
            AcmeErrorKind::Unrecognized => "The server reported a problem of an unrecognized type",
        }
    }

    /// The kind as it is shown to a reader: its description.
    pub fn to_string(&self) -> (r: String)
        ensures
            r@ == self.spec_description(),
    {
        String::from_str(self.description())
    }

    /// Whether the server turned a request down for its anti-replay nonce.
    pub open spec fn spec_is_bad_nonce(self) -> bool {
        self == AcmeErrorKind::BadNonce
    }

    pub fn is_bad_nonce(self) -> (r: bool)
        ensures
            r == self.spec_is_bad_nonce(),
    {
        match self {
            AcmeErrorKind::BadNonce => true,
            _ => false,
        }
    }
}

/// A kind that has a URN is found again from that URN.
pub proof fn lemma_urn_names_its_kind(kind: AcmeErrorKind)
    requires
        kind != AcmeErrorKind::Unrecognized,
    ensures
        kind.spec_urn().is_some(),
        AcmeErrorKind::spec_from_urn(kind.spec_urn().unwrap()) == kind,
{
    lemma_urns_differ();
    assert(AcmeErrorKind::AccountDoesNotExist.spec_urn().is_some());
    assert(AcmeErrorKind::AlreadyRevoked.spec_urn().is_some());
    assert(AcmeErrorKind::BadCSR.spec_urn().is_some());
    assert(AcmeErrorKind::BadNonce.spec_urn().is_some());
    assert(AcmeErrorKind::BadPublicKey.spec_urn().is_some());
    assert(AcmeErrorKind::BadRevocationReason.spec_urn().is_some());
    assert(AcmeErrorKind::BadSignatureAlgorithm.spec_urn().is_some());
    assert(AcmeErrorKind::Caa.spec_urn().is_some());
    assert(AcmeErrorKind::Compound.spec_urn().is_some());
    assert(AcmeErrorKind::Connection.spec_urn().is_some());
    assert(AcmeErrorKind::Dns.spec_urn().is_some());
    assert(AcmeErrorKind::ExternalAccountRequired.spec_urn().is_some());
    assert(AcmeErrorKind::IncorrectResponse.spec_urn().is_some());
    assert(AcmeErrorKind::InvalidContact.spec_urn().is_some());
    assert(AcmeErrorKind::Malformed.spec_urn().is_some());
    assert(AcmeErrorKind::OrderNotReady.spec_urn().is_some());
    assert(AcmeErrorKind::Ratelimited.spec_urn().is_some());
    assert(AcmeErrorKind::RejectedIdentifier.spec_urn().is_some());
    assert(AcmeErrorKind::ServerInternal.spec_urn().is_some());
    assert(AcmeErrorKind::Tls.spec_urn().is_some());
    assert(AcmeErrorKind::Unauthorized.spec_urn().is_some());
    assert(AcmeErrorKind::UnsupportedContact.spec_urn().is_some());
    assert(AcmeErrorKind::UnsupportedIdentifier.spec_urn().is_some());
    assert(AcmeErrorKind::UserActionRequired.spec_urn().is_some());
}

/// The URNs of two different kinds differ.
pub proof fn lemma_urns_differ()
    ensures
        forall|a: AcmeErrorKind, b: AcmeErrorKind|
            a != b && a.spec_urn().is_some() ==> #[trigger] a.spec_urn() != #[trigger] b.spec_urn(),
{
    reveal_strlit("urn:ietf:params:acme:error:accountDoesNotExist");
    assert("urn:ietf:params:acme:error:accountDoesNotExist"@.len() == 46 && "urn:ietf:params:acme:error:accountDoesNotExist"@[28] == 'c');
    reveal_strlit("urn:ietf:params:acme:error:alreadyRevoked");
    assert("urn:ietf:params:acme:error:alreadyRevoked"@.len() == 41 && "urn:ietf:params:acme:error:alreadyRevoked"@[28] == 'l');
    reveal_strlit("urn:ietf:params:acme:error:badCSR");
    assert("urn:ietf:params:acme:error:badCSR"@.len() == 33 && "urn:ietf:params:acme:error:badCSR"@[28] == 'a');
    reveal_strlit("urn:ietf:params:acme:error:badNonce");
    assert("urn:ietf:params:acme:error:badNonce"@.len() == 35 && "urn:ietf:params:acme:error:badNonce"@[28] == 'a');
    reveal_strlit("urn:ietf:params:acme:error:badPublicKey");
    assert("urn:ietf:params:acme:error:badPublicKey"@.len() == 39 && "urn:ietf:params:acme:error:badPublicKey"@[28] == 'a');
    reveal_strlit("urn:ietf:params:acme:error:badRevocationReason");
    assert("urn:ietf:params:acme:error:badRevocationReason"@.len() == 46 && "urn:ietf:params:acme:error:badRevocationReason"@[28] == 'a');
    reveal_strlit("urn:ietf:params:acme:error:badSignatureAlgorithm");
    assert("urn:ietf:params:acme:error:badSignatureAlgorithm"@.len() == 48 && "urn:ietf:params:acme:error:badSignatureAlgorithm"@[28] == 'a');
    reveal_strlit("urn:ietf:params:acme:error:caa");
    assert("urn:ietf:params:acme:error:caa"@.len() == 30 && "urn:ietf:params:acme:error:caa"@[28] == 'a');
    reveal_strlit("urn:ietf:params:acme:error:compound");
    assert("urn:ietf:params:acme:error:compound"@.len() == 35 && "urn:ietf:params:acme:error:compound"@[28] == 'o');
    reveal_strlit("urn:ietf:params:acme:error:connection");
    assert("urn:ietf:params:acme:error:connection"@.len() == 37 && "urn:ietf:params:acme:error:connection"@[28] == 'o');
    reveal_strlit("urn:ietf:params:acme:error:dns");
    assert("urn:ietf:params:acme:error:dns"@.len() == 30 && "urn:ietf:params:acme:error:dns"@[28] == 'n');
    reveal_strlit("urn:ietf:params:acme:error:externalAccountRequired");
    assert("urn:ietf:params:acme:error:externalAccountRequired"@.len() == 50 && "urn:ietf:params:acme:error:externalAccountRequired"@[28] == 'x');
    reveal_strlit("urn:ietf:params:acme:error:incorrectResponse");
    assert("urn:ietf:params:acme:error:incorrectResponse"@.len() == 44 && "urn:ietf:params:acme:error:incorrectResponse"@[28] == 'n');
    reveal_strlit("urn:ietf:params:acme:error:invalidContact");
    assert("urn:ietf:params:acme:error:invalidContact"@.len() == 41 && "urn:ietf:params:acme:error:invalidContact"@[28] == 'n');
    reveal_strlit("urn:ietf:params:acme:error:malformed");
    assert("urn:ietf:params:acme:error:malformed"@.len() == 36 && "urn:ietf:params:acme:error:malformed"@[28] == 'a');
    reveal_strlit("urn:ietf:params:acme:error:orderNotReady");
    assert("urn:ietf:params:acme:error:orderNotReady"@.len() == 40 && "urn:ietf:params:acme:error:orderNotReady"@[28] == 'r');
    reveal_strlit("urn:ietf:params:acme:error:rateLimited");
    assert("urn:ietf:params:acme:error:rateLimited"@.len() == 38 && "urn:ietf:params:acme:error:rateLimited"@[28] == 'a');
    reveal_strlit("urn:ietf:params:acme:error:rejectedIdentifier");
    assert("urn:ietf:params:acme:error:rejectedIdentifier"@.len() == 45 && "urn:ietf:params:acme:error:rejectedIdentifier"@[28] == 'e');
    reveal_strlit("urn:ietf:params:acme:error:serverInternal");
    assert("urn:ietf:params:acme:error:serverInternal"@.len() == 41 && "urn:ietf:params:acme:error:serverInternal"@[28] == 'e');
    reveal_strlit("urn:ietf:params:acme:error:tls");
    assert("urn:ietf:params:acme:error:tls"@.len() == 30 && "urn:ietf:params:acme:error:tls"@[28] == 'l');
    reveal_strlit("urn:ietf:params:acme:error:unauthorized");
    assert("urn:ietf:params:acme:error:unauthorized"@.len() == 39 && "urn:ietf:params:acme:error:unauthorized"@[28] == 'n');
    reveal_strlit("urn:ietf:params:acme:error:unsupportedContact");
    assert("urn:ietf:params:acme:error:unsupportedContact"@.len() == 45 && "urn:ietf:params:acme:error:unsupportedContact"@[28] == 'n');
    reveal_strlit("urn:ietf:params:acme:error:unsupportedIdentifier");
    assert("urn:ietf:params:acme:error:unsupportedIdentifier"@.len() == 48 && "urn:ietf:params:acme:error:unsupportedIdentifier"@[28] == 'n');
    reveal_strlit("urn:ietf:params:acme:error:userActionRequired");
    assert("urn:ietf:params:acme:error:userActionRequired"@.len() == 45 && "urn:ietf:params:acme:error:userActionRequired"@[28] == 's');
}

/// What an `AcmeIdentifier` holds.
pub struct AcmeIdentifierView {
    pub kind: Seq<char>,
    pub value: Seq<char>,
}

/// The identifier that a subproblem is about, such as a DNS name.
#[derive(Debug, Clone)]
pub struct AcmeIdentifier {
    pub kind: String,
    pub value: String,
}

impl View for AcmeIdentifier {
    type V = AcmeIdentifierView;

    open spec fn view(&self) -> AcmeIdentifierView {
        AcmeIdentifierView { kind: self.kind@, value: self.value@ }
    }
}

impl AcmeIdentifierView {
    /// The identifier as it is shown: its type, a colon, its value.
    pub open spec fn text(self) -> Seq<char> {
        self.kind + ": "@ + self.value
    }

    /// The identifier that a JSON object with string members `type` and
    /// `value` denotes.
    pub open spec fn from_json(doc: JsonValue) -> Option<AcmeIdentifierView> {
        match (doc.spec_required_text("type"@), doc.spec_required_text("value"@)) {
            (Some(kind), Some(value)) => Some(AcmeIdentifierView { kind, value }),
            _ => None,
        }
    }
}

impl AcmeIdentifier {
    pub fn to_string(&self) -> (r: String)
        ensures
            r@ == self@.text(),
    {
        let mut out = self.kind.clone();
        out.append(": ");
        out.append(self.value.as_str());
        out
    }

    pub fn from_json(doc: &JsonValue) -> (r: Option<AcmeIdentifier>)
        ensures
            match r {
                Some(id) => AcmeIdentifierView::from_json(*doc) == Some(id@),
                None => AcmeIdentifierView::from_json(*doc).is_none(),
            },
    {
        match (doc.required_text("type"), doc.required_text("value")) {
            (Some(kind), Some(value)) => Some(AcmeIdentifier { kind, value }),
            _ => None,
        }
    }
}

/// What an `AcmeSubproblem` holds.
pub struct AcmeSubproblemView {
    pub kind: AcmeErrorKind,
    pub detail: Seq<char>,
    pub identifier: Option<AcmeIdentifierView>,
}

/// One of the problems that a compound problem lists.
#[derive(Debug, Clone)]
pub struct AcmeSubproblem {
    pub kind: AcmeErrorKind,
    pub detail: String,
    pub identifier: Option<AcmeIdentifier>,
}

impl View for AcmeSubproblem {
    type V = AcmeSubproblemView;

    open spec fn view(&self) -> AcmeSubproblemView {
        AcmeSubproblemView {
            kind: self.kind,
            detail: self.detail@,
            identifier: match self.identifier {
                Some(id) => Some(id@),
                None => None,
            },
        }
    }
}

impl AcmeSubproblemView {
    /// The subproblem as it is shown: what its kind means, a colon, its
    /// detail, and its identifier in parentheses where it has one.
    pub open spec fn text(self) -> Seq<char> {
        self.kind.spec_description() + ": "@ + self.detail + match self.identifier {
            Some(id) => " ("@ + id.text() + ")"@,
            None => Seq::empty(),
        }
    }

    /// The subproblem that a JSON object denotes: string members `type` and
    /// `detail`, and an `identifier` object that may be left out.
    pub open spec fn from_json(doc: JsonValue) -> Option<AcmeSubproblemView> {
        match (doc.spec_required_text("type"@), doc.spec_required_text("detail"@)) {
            (Some(urn), Some(detail)) => {
                let kind = AcmeErrorKind::spec_from_urn(urn);
                match doc.spec_member("identifier"@) {
                    None => Some(AcmeSubproblemView { kind, detail, identifier: None }),
                    Some(JsonValue::Null) => Some(
                        AcmeSubproblemView { kind, detail, identifier: None },
                    ),
                    Some(id) => match AcmeIdentifierView::from_json(id) {
                        Some(identifier) => Some(
                            AcmeSubproblemView { kind, detail, identifier: Some(identifier) },
                        ),
                        None => None,
                    },
                }
            },
            _ => None,
        }
    }

    /// The subproblems that the items of a JSON array denote, in their
    /// order; nothing where one of the items denotes none.
    pub open spec fn all_from_json(items: Seq<JsonValue>) -> Option<Seq<AcmeSubproblemView>> {
        if forall|i: int| 0 <= i < items.len() ==> (#[trigger] Self::from_json(items[i])).is_some() {
            Some(Seq::new(items.len(), |i: int| Self::from_json(items[i]).unwrap()))
        } else {
            None
        }
    }
}

/// The views of a list of subproblems, in their order.
pub open spec fn subproblem_views(subproblems: Seq<AcmeSubproblem>) -> Seq<AcmeSubproblemView> {
    Seq::new(subproblems.len(), |i: int| subproblems[i]@)
}

/// Each subproblem in parentheses, a comma and a space between two of them.
pub open spec fn subproblems_text(subproblems: Seq<AcmeSubproblemView>) -> Seq<char>
    decreases subproblems.len(),
{
    if subproblems.len() == 0 {
        Seq::empty()
    } else {
        subproblems_text(subproblems.drop_last()) + (if subproblems.len() > 1 {
            ", "@
        } else {
            Seq::empty()
        }) + "("@ + subproblems.last().text() + ")"@
    }
}

impl AcmeSubproblem {
    pub fn to_string(&self) -> (r: String)
        ensures
            r@ == self@.text(),
    {
        let mut out = self.kind.to_string();
        out.append(": ");
        out.append(self.detail.as_str());
        match &self.identifier {
            Some(id) => {
                let shown = id.to_string();
                out.append(" (");
                out.append(shown.as_str());
                out.append(")");
                assert(out@ =~= self@.text());
            },
            None => {
                assert(out@ =~= self@.text());
            },
        }
        out
    }

    pub fn from_json(doc: &JsonValue) -> (r: Option<AcmeSubproblem>)
        ensures
            match r {
                Some(p) => AcmeSubproblemView::from_json(*doc) == Some(p@),
                None => AcmeSubproblemView::from_json(*doc).is_none(),
            },
    {
        match (doc.required_text("type"), doc.required_text("detail")) {
            (Some(urn), Some(detail)) => {
                let kind = AcmeErrorKind::from_urn(urn.as_str());
                match doc.member("identifier") {
                    None => Some(AcmeSubproblem { kind, detail, identifier: None }),
                    Some(JsonValue::Null) => Some(AcmeSubproblem { kind, detail, identifier: None }),
                    Some(id) => match AcmeIdentifier::from_json(id) {
                        Some(identifier) => Some(
                            AcmeSubproblem { kind, detail, identifier: Some(identifier) },
                        ),
                        None => None,
                    },
                }
            },
            _ => None,
        }
    }

    /// Reads every item of a JSON array as a subproblem.
    pub fn all_from_json(items: &Vec<JsonValue>) -> (r: Option<Vec<AcmeSubproblem>>)
        ensures
            match r {
                Some(list) => AcmeSubproblemView::all_from_json(items@) == Some(
                    subproblem_views(list@),
                ),
                None => AcmeSubproblemView::all_from_json(items@).is_none(),
            },
    {
        let mut list: Vec<AcmeSubproblem> = Vec::new();
        let mut i: usize = 0;
        while i < items.len()
            invariant
                i <= items.len(),
                list@.len() == i,
                forall|j: int|
                    0 <= j < i ==> (#[trigger] AcmeSubproblemView::from_json(items@[j])) == Some(
                        list@[j]@,
                    ),
            decreases items.len() - i,
        {
            match AcmeSubproblem::from_json(&items[i]) {
                Some(p) => {
                    list.push(p);
                },
                None => {
                    return None;
                },
            }
            i += 1;
        }
        proof {
            let decoded = AcmeSubproblemView::all_from_json(items@);
            assert(decoded.is_some());
            assert(decoded.unwrap() =~= subproblem_views(list@));
        }
        Some(list)
    }
}

/// What an `AcmeError` holds.
pub struct AcmeErrorView {
    pub kind: AcmeErrorKind,
    pub detail: Seq<char>,
    pub subproblems: Option<Seq<AcmeSubproblemView>>,
}

/// A problem document of an ACME server.
#[derive(Debug, Clone)]
pub struct AcmeError {
    kind: AcmeErrorKind,
    detail: String,
    subproblems: Option<Vec<AcmeSubproblem>>,
}

impl View for AcmeError {
    type V = AcmeErrorView;

    closed spec fn view(&self) -> AcmeErrorView {
        AcmeErrorView {
            kind: self.kind,
            detail: self.detail@,
            subproblems: match self.subproblems {
                Some(list) => Some(subproblem_views(list@)),
                None => None,
            },
        }
    }
}

impl AcmeErrorView {
    /// The problem as it is shown: what its kind means, a colon, its detail,
    /// and its subproblems in square brackets where it has a list of them.
    pub open spec fn text(self) -> Seq<char> {
        self.kind.spec_description() + ": "@ + self.detail + match self.subproblems {
            Some(list) => " ["@ + subproblems_text(list) + "]"@,
            None => Seq::empty(),
        }
    }

    /// The problem that a JSON object denotes: string members `type` and
    /// `detail`, and a `subproblems` array that may be left out.
    pub open spec fn from_json(doc: JsonValue) -> Option<AcmeErrorView> {
        match (doc.spec_required_text("type"@), doc.spec_required_text("detail"@)) {
            (Some(urn), Some(detail)) => {
                let kind = AcmeErrorKind::spec_from_urn(urn);
                match doc.spec_member("subproblems"@) {
                    None => Some(AcmeErrorView { kind, detail, subproblems: None }),
                    Some(JsonValue::Null) => Some(AcmeErrorView { kind, detail, subproblems: None }),
                    Some(JsonValue::Array(items)) => match AcmeSubproblemView::all_from_json(
                        items@,
                    ) {
                        Some(list) => Some(AcmeErrorView { kind, detail, subproblems: Some(list) }),
                        None => None,
                    },
                    Some(_) => None,
                }
            },
            _ => None,
        }
    }
}

impl AcmeErrorView {
    /// Whether the server turned the request down for its nonce: it says
    /// so, or it could not verify a signature that a stale nonce spoils.
    /// Such a request is signed again with another nonce.
    pub open spec fn asks_retry(self) -> bool {
        self.kind.spec_is_bad_nonce() || (self.kind == AcmeErrorKind::Malformed && self.detail
            == "JWS verification error"@)
    }
}

impl AcmeError {
    /// Whether the request that met this problem is to be signed again
    /// with another nonce.
    pub fn asks_retry(&self) -> (r: bool)
        ensures
            r == self@.asks_retry(),
    {
        match self.kind {
            AcmeErrorKind::BadNonce => true,
            AcmeErrorKind::Malformed => str_eq(self.detail.as_str(), "JWS verification error"),
            _ => false,
        }
    }

    pub fn new(kind: AcmeErrorKind, detail: String, subproblems: Option<Vec<AcmeSubproblem>>) -> (r:
        AcmeError)
        ensures
            r@.kind == kind,
            r@.detail == detail@,
            r@.subproblems == match subproblems {
                Some(list) => Some(subproblem_views(list@)),
                None => None,
            },
    {
        AcmeError { kind, detail, subproblems }
    }

    pub fn kind(&self) -> (r: AcmeErrorKind)
        ensures
            r == self@.kind,
    {
        self.kind
    }

    pub fn detail(&self) -> (r: &str)
        ensures
            r@ == self@.detail,
    {
        self.detail.as_str()
    }

    pub fn subproblems(&self) -> (r: Option<&Vec<AcmeSubproblem>>)
        ensures
            match r {
                Some(list) => self@.subproblems == Some(subproblem_views(list@)),
                None => self@.subproblems.is_none(),
            },
    {
        self.subproblems.as_ref()
    }

    pub fn to_string(&self) -> (r: String)
        ensures
            r@ == self@.text(),
    {
        let mut out = self.kind.to_string();
        out.append(": ");
        out.append(self.detail.as_str());
        match &self.subproblems {
            Some(list) => {
                let ghost head = out@;
                let ghost views = subproblem_views(list@);
                out.append(" [");
                let mut i: usize = 0;
                while i < list.len()
                    invariant
                        i <= list.len(),
                        views == subproblem_views(list@),
                        out@ == head + " ["@ + subproblems_text(views.take(i as int)),
                    decreases list.len() - i,
                {
                    let ghost before = out@;
                    if i > 0 {
                        out.append(", ");
                    }
                    let shown = list[i].to_string();
                    out.append("(");
                    out.append(shown.as_str());
                    out.append(")");
                    proof {
                        let next = views.take(i as int + 1);
                        assert(next.drop_last() =~= views.take(i as int));
                        assert(next.last() == list@[i as int]@);
                        assert(out@ =~= head + " ["@ + subproblems_text(next));
                    }
                    i += 1;
                }
                out.append("]");
                proof {
                    assert(views.take(i as int) =~= views);
                    assert(out@ =~= self@.text());
                }
            },
            None => {
                assert(out@ =~= self@.text());
            },
        }
        out
    }

    pub fn from_json(doc: &JsonValue) -> (r: Option<AcmeError>)
        ensures
            match r {
                Some(p) => AcmeErrorView::from_json(*doc) == Some(p@),
                None => AcmeErrorView::from_json(*doc).is_none(),
            },
    {
        match (doc.required_text("type"), doc.required_text("detail")) {
            (Some(urn), Some(detail)) => {
                let kind = AcmeErrorKind::from_urn(urn.as_str());
                match doc.member("subproblems") {
                    None => Some(AcmeError { kind, detail, subproblems: None }),
                    Some(JsonValue::Null) => Some(AcmeError { kind, detail, subproblems: None }),
                    Some(JsonValue::Array(items)) => match AcmeSubproblem::all_from_json(items) {
                        Some(list) => Some(AcmeError { kind, detail, subproblems: Some(list) }),
                        None => None,
                    },
                    Some(_) => None,
                }
            },
            _ => None,
        }
    }
}

/// The ways in which an operation of this library fails.
#[derive(Debug, Clone)]
pub enum Error {
    /// The network layer failed, or a call was given up after too many tries.
    Transport(String),
    /// A JSON text could not be written or read.
    Json(String),
    /// The server answered with a problem document.
    Acme(AcmeError),
    /// A response lacks the named header.
    MissingHeader(String),
    /// The named header of a response holds more than visible ASCII text.
    MalformedHeader(String),
    /// A key could not be made or read.
    Keygen(String),
    /// Signing or another cryptographic operation failed.
    Crypto(String),
    /// A certificate or key is not valid PEM.
    Pem(String),
    /// A date could not be read.
    Date(String),
    /// The account key has no key id yet.
    UnboundIdentity,
    /// A certificate request names no domain.
    EmptyDomains,
}

impl Error {
    /// The failure as it is shown to a reader.
    pub open spec fn text(self) -> Seq<char> {
        match self {
            Error::Transport(message) => "Transport error: "@ + message@,
            Error::Json(message) => "JSON error: "@ + message@,
            Error::Acme(problem) => "ACME error: "@ + problem@.text(),
            Error::MissingHeader(name) => "Missing header: "@ + name@,
            Error::MalformedHeader(name) => "Malformed header: "@ + name@,
            Error::Keygen(message) => "Key error: "@ + message@,
            Error::Crypto(message) => "Crypto error: "@ + message@,
            Error::Pem(message) => "PEM error: "@ + message@,
            Error::Date(message) => "Date error: "@ + message@,
            Error::UnboundIdentity => "The account key has no key id yet"@,
            Error::EmptyDomains => "A certificate request must name a domain"@,
        }
    }

    pub fn to_string(&self) -> (r: String)
        ensures
            r@ == self.text(),
    {
        match self {
            Error::Transport(message) => labelled("Transport error: ", message.as_str()),
            Error::Json(message) => labelled("JSON error: ", message.as_str()),
            Error::Acme(problem) => {
                let shown = problem.to_string();
                labelled("ACME error: ", shown.as_str())
            },
            Error::MissingHeader(name) => labelled("Missing header: ", name.as_str()),
            Error::MalformedHeader(name) => labelled("Malformed header: ", name.as_str()),
            Error::Keygen(message) => labelled("Key error: ", message.as_str()),
            Error::Crypto(message) => labelled("Crypto error: ", message.as_str()),
            Error::Pem(message) => labelled("PEM error: ", message.as_str()),
            Error::Date(message) => labelled("Date error: ", message.as_str()),
            Error::UnboundIdentity => String::from_str("The account key has no key id yet"),
            Error::EmptyDomains => String::from_str("A certificate request must name a domain"),
        }
    }
}

fn labelled(label: &str, message: &str) -> (r: String)
    ensures
        r@ == label@ + message@,
{
    let mut out = String::from_str(label);
    out.append(message);
    out
}

} // verus!
