use crate::acc::akey::{ec_generate, error_stack_message, keygen_outcome, Curve, MAX_PEM_LEN};
use crate::error::Error;
use vstd::prelude::*;
use vstd::string::*;
use vstd::utf8::encode_utf8;

verus! {

/// `openssl::pkey::PKey`, a key of any kind. `pkey_der` names the DER form
/// of a private key.
#[verifier::external_type_specification]
#[verifier::external_body]
#[verifier::reject_recursive_types(T)]
pub struct ExPKey<T>(openssl::pkey::PKey<T>);

/// `openssl::x509::X509`, a certificate. `x509_der` names its DER form and
/// `x509_shown_not_after` the date that it shows as its last day.
#[verifier::external_type_specification]
#[verifier::external_body]
pub struct ExX509(openssl::x509::X509);

/// `openssl::x509::X509Req`, a certificate signing request.
/// `csr_dns_names` names the DNS names that it carries.
#[verifier::external_type_specification]
#[verifier::external_body]
pub struct ExX509Req(openssl::x509::X509Req);

/// `openssl::x509::extension::SubjectAlternativeName`, the list of names
/// from which the extension is built. `san_dns_names` names the DNS names
/// that it holds.
#[verifier::external_type_specification]
#[verifier::external_body]
pub struct ExSubjectAlternativeName(openssl::x509::extension::SubjectAlternativeName);

/// `time::Tm`, a calendar date and time of day. Nothing is known of what
/// it holds.
#[verifier::external_type_specification]
#[verifier::external_body]
pub struct ExTm(time::Tm);

/// The form in which a certificate shows its dates, such as
/// `Apr 19 08:48:46 2019 GMT`.
pub const CERTIFICATE_DATE_FORMAT: &'static str = "%h %e %H:%M:%S %Y %Z";

/// The longest DNS name that a certificate request can carry.
pub const MAX_NAME_LEN: usize = 0x7fff_ffff;

pub const SECONDS_PER_DAY: i128 = 86400;

pub const NANOS_PER_SECOND: i128 = 1000000000;

/// The DNS names that a subject alternative name extension is being made
/// with, in the order in which they were added.
pub uninterp spec fn san_dns_names(san: openssl::x509::extension::SubjectAlternativeName) -> Seq<
    Seq<char>,
>;

/// The DNS names that a certificate request carries in its subject
/// alternative names, in their order.
pub uninterp spec fn csr_dns_names(csr: openssl::x509::X509Req) -> Seq<Seq<char>>;

/// Makes an RSA private key of that many bits.
///
/// Trusted: calls `openssl::rsa::Rsa::generate` and
/// `openssl::pkey::PKey::from_rsa`. The key is random: nothing is claimed.
#[verifier::external_body]
fn rsa_generate(bits: u32) -> Result<openssl::pkey::PKey<openssl::pkey::Private>, openssl::error::ErrorStack> {
    openssl::pkey::PKey::from_rsa(openssl::rsa::Rsa::generate(bits)?)
}

/// Wraps an EC private key as a general private key.
///
/// Trusted: calls `openssl::pkey::PKey::from_ec_key`. Nothing is claimed.
#[verifier::external_body]
fn pkey_from_ec_key(key: openssl::ec::EcKey<openssl::pkey::Private>) -> Result<
    openssl::pkey::PKey<openssl::pkey::Private>,
    openssl::error::ErrorStack,
> {
    openssl::pkey::PKey::from_ec_key(key)
}

/// Reads a certificate from PEM.
///
/// Trusted: calls `openssl::x509::X509::from_pem`, which panics on a text
/// longer than `i32::MAX`; the precondition leaves that out. For an
/// encrypted text OpenSSL asks the terminal for the passphrase, so that the
/// outcome is no function of the text alone. Nothing is claimed of it.
#[verifier::external_body]
fn x509_from_pem(pem: &[u8]) -> Result<openssl::x509::X509, openssl::error::ErrorStack>
    requires
        pem@.len() <= MAX_PEM_LEN,
{
    openssl::x509::X509::from_pem(pem)
}

/// Reads a private key from PEM.
///
/// Trusted: calls `openssl::pkey::PKey::private_key_from_pem`, which panics
/// on a text longer than `i32::MAX`; the precondition leaves that out. For
/// an encrypted key OpenSSL asks the terminal for the passphrase, so that
/// the outcome is no function of the text alone. Nothing is claimed of it.
#[verifier::external_body]
fn pkey_from_pem(pem: &[u8]) -> Result<openssl::pkey::PKey<openssl::pkey::Private>, openssl::error::ErrorStack>
    requires
        pem@.len() <= MAX_PEM_LEN,
{
    openssl::pkey::PKey::private_key_from_pem(pem)
}

/// The DER form of a private key, where the key can be written.
pub uninterp spec fn pkey_der(key: openssl::pkey::PKey<openssl::pkey::Private>) -> Option<Seq<u8>>;

/// The DER form of a certificate, where the certificate can be written.
pub uninterp spec fn x509_der(cert: openssl::x509::X509) -> Option<Seq<u8>>;

/// Writes a private key as DER.
///
/// Trusted: calls `private_key_to_der` of `openssl::pkey::PKey`. The
/// contract claims only that the outcome is a function of the key: the
/// octets on success, nothing on failure.
#[verifier::external_body]
fn pkey_to_der(key: &openssl::pkey::PKey<openssl::pkey::Private>) -> (r: Result<
    Vec<u8>,
    openssl::error::ErrorStack,
>)
    ensures
        match r {
            Ok(der) => pkey_der(*key) == Some(der@),
            Err(_) => pkey_der(*key).is_none(),
        },
{
    key.private_key_to_der()
}

/// Writes a certificate as DER.
///
/// Trusted: calls `to_der` of `openssl::x509::X509`. The contract claims
/// only that the outcome is a function of the certificate: the octets on
/// success, nothing on failure.
#[verifier::external_body]
fn x509_to_der(cert: &openssl::x509::X509) -> (r: Result<Vec<u8>, openssl::error::ErrorStack>)
    ensures
        match r {
            Ok(der) => x509_der(*cert) == Some(der@),
            Err(_) => x509_der(*cert).is_none(),
        },
{
    cert.to_der()
}

/// The date after which a certificate is no longer valid, as the
/// certificate shows it.
pub uninterp spec fn x509_shown_not_after(cert: openssl::x509::X509) -> Seq<char>;

/// The date after which a certificate is no longer valid, as the
/// certificate shows it.
///
/// Trusted: formats `not_after` of `openssl::x509::X509` with its
/// `Display`. The contract claims only that the text is a function of the
/// certificate.
#[verifier::external_body]
fn x509_not_after(cert: &openssl::x509::X509) -> (shown: String)
    ensures
        shown@ == x509_shown_not_after(*cert),
{
    cert.not_after().to_string()
}

/// The moment that a date names which is written in the given form, as
/// seconds since 1970-01-01T00:00:00Z and nanoseconds on top; nothing for
/// a text that is no date in that form.
pub uninterp spec fn strptime_moment(s: Seq<char>, format: Seq<char>) -> Option<(i64, i32)>;

/// Reads a date in the form in which a certificate shows it, and hands it
/// out together with the moment that it names: seconds since
/// 1970-01-01T00:00:00Z and nanoseconds on top.
///
/// Trusted: calls `time::strptime`, and `to_timespec` on the date that it
/// gives. The contract claims only that the outcome is a function of the
/// text and the form: the parser reads nothing else, and a date in this
/// form is taken as UTC, so that its moment does not depend on the time
/// zone of the machine. A failure carries the parser's message.
/// `to_timespec` panics on a date whose nanoseconds do not lie within one
/// second; the form that the precondition fixes has no fractions of a
/// second, so that the parser leaves them at 0. Nothing is claimed of the
/// date itself.
#[verifier::external_body]
fn time_strptime(s: &str, format: &str) -> (r: Result<(time::Tm, i64, i32), String>)
    requires
        format@ == CERTIFICATE_DATE_FORMAT@,
    ensures
        match r {
            Ok((_, sec, nsec)) => strptime_moment(s@, format@) == Some((sec, nsec)),
            Err(_) => strptime_moment(s@, format@).is_none(),
        },
{
    match time::strptime(s, format) {
        Ok(tm) => {
            let at = tm.to_timespec();
            Ok((tm, at.sec, at.nsec))
        },
        Err(e) => Err(e.to_string()),
    }
}

/// The present moment as seconds since 1970-01-01T00:00:00Z and
/// nanoseconds on top.
///
/// Trusted: calls `time::get_time` and hands out the two fields of its
/// result. The clock decides: nothing is claimed.
#[verifier::external_body]
fn time_now() -> (i64, i32) {
    let now = time::get_time();
    (now.sec, now.nsec)
}

/// An extension without names.
///
/// Trusted: calls `openssl::x509::extension::SubjectAlternativeName::new`,
/// which starts with an empty list of names.
#[verifier::external_body]
fn san_new() -> (san: openssl::x509::extension::SubjectAlternativeName)
    ensures
        san_dns_names(san) == Seq::<Seq<char>>::empty(),
{
    openssl::x509::extension::SubjectAlternativeName::new()
}

/// Adds a DNS name to an extension.
///
/// Trusted: calls `dns` of `SubjectAlternativeName`, which puts the name
/// behind those that are there.
#[verifier::external_body]
fn san_add_dns(san: &mut openssl::x509::extension::SubjectAlternativeName, name: &str)
    ensures
        san_dns_names(*final(san)) == san_dns_names(*old(san)).push(name@),
{
    san.dns(name);
}

/// Makes a certificate request for the public half of `pkey` that carries
/// the extension, and signs it with `pkey` over SHA-256.
///
/// Trusted: calls `openssl::x509::X509ReqBuilder` (`new`, `set_pubkey`,
/// `x509v3_context`, `add_extensions`, `sign`, `build`), `build` of the
/// extension and `openssl::stack::Stack` (`new`, `push`). The extension's
/// `build` panics on a name longer than `i32::MAX`; the precondition leaves
/// that out. The contract claims that a request that comes back carries
/// the DNS names of the extension, in their order: `build` turns each into
/// a name of the extension, and `add_extensions` puts the extension into
/// the request. Nothing is claimed of whether one comes back.
#[verifier::external_body]
fn csr_build(
    pkey: &openssl::pkey::PKey<openssl::pkey::Private>,
    san: &openssl::x509::extension::SubjectAlternativeName,
) -> (r: Result<openssl::x509::X509Req, openssl::error::ErrorStack>)
    requires
        all_names_fit(san_dns_names(*san)),
    ensures
        r matches Ok(csr) ==> csr_dns_names(csr) == san_dns_names(*san),
{
    let mut builder = openssl::x509::X509ReqBuilder::new()?;
    builder.set_pubkey(pkey)?;
    let mut stack = openssl::stack::Stack::new()?;
    let ext = san.build(&builder.x509v3_context(None))?;
    stack.push(ext)?;
    builder.add_extensions(&stack)?;
    builder.sign(pkey, openssl::hash::MessageDigest::sha256())?;
    Ok(builder.build())
}

/// Make an RSA private key (from which we can derive a public key).
///
/// This library does not check the number of bits used to create the key
/// pair. For Let's Encrypt, the bits must be between 2048 and 4096.
pub fn create_rsa_key(bits: u32) -> (r: Result<openssl::pkey::PKey<openssl::pkey::Private>, Error>)
    ensures
        r matches Err(e) ==> e is Keygen,
{
    keygen_outcome(rsa_generate(bits))
}

/// Make a P-256 private key (from which we can derive a public key).
pub fn create_p256_key() -> (r: Result<openssl::pkey::PKey<openssl::pkey::Private>, Error>)
    ensures
        r matches Err(e) ==> e is Keygen,
{
    create_ec_key(Curve::P256)
}

/// Make a P-384 private key pair (from which we can derive a public key).
pub fn create_p384_key() -> (r: Result<openssl::pkey::PKey<openssl::pkey::Private>, Error>)
    ensures
        r matches Err(e) ==> e is Keygen,
{
    create_ec_key(Curve::P384)
}

fn create_ec_key(curve: Curve) -> (r: Result<openssl::pkey::PKey<openssl::pkey::Private>, Error>)
    ensures
        r matches Err(e) ==> e is Keygen,
{
    let key = keygen_outcome(ec_generate(curve))?;
    keygen_outcome(pkey_from_ec_key(key))
}

/// The texts of a row of string slices.
pub open spec fn str_views(names: Seq<&str>) -> Seq<Seq<char>> {
    Seq::new(names.len(), |i: int| names[i]@)
}

/// Whether a name is short enough to stand in a certificate request.
pub open spec fn name_fits(name: Seq<char>) -> bool {
    encode_utf8(name).len() <= MAX_NAME_LEN
}

/// Whether every name of a row is short enough.
pub open spec fn all_names_fit(names: Seq<Seq<char>>) -> bool {
    forall|i: int| 0 <= i < names.len() ==> name_fits(#[trigger] names[i])
}

/// Makes the extension that lists every domain as a DNS name, in the
/// order given. There is none where a name is longer than `MAX_NAME_LEN`
/// octets.
pub fn subject_alt_names(domains: &[&str]) -> (r: Option<
    openssl::x509::extension::SubjectAlternativeName,
>)
    ensures
        all_names_fit(str_views(domains@)) ==> (r matches Some(san) && san_dns_names(san)
            == str_views(domains@)),
        !all_names_fit(str_views(domains@)) ==> r.is_none(),
{
    let mut san = san_new();
    let mut i: usize = 0;
    while i < domains.len()
        invariant
            i <= domains.len(),
            san_dns_names(san) == str_views(domains@).take(i as int),
            all_names_fit(str_views(domains@).take(i as int)),
        decreases domains.len() - i,
    {
        if domains[i].as_bytes().len() > MAX_NAME_LEN {
            assert(!name_fits(str_views(domains@)[i as int]));
            return None;
        }
        assert(name_fits(domains@[i as int]@));
        san_add_dns(&mut san, domains[i]);
        i += 1;
        assert(san_dns_names(san) =~= str_views(domains@).take(i as int));
        assert forall|j: int| 0 <= j < i implies name_fits(
            #[trigger] str_views(domains@).take(i as int)[j],
        ) by {
            if j < i - 1 {
                assert(str_views(domains@).take(i as int)[j] == str_views(domains@).take(
                    i as int - 1,
                )[j]);
            } else {
                assert(str_views(domains@).take(i as int)[j] == domains@[j]@);
            }
        }
    }
    assert(str_views(domains@).take(i as int) =~= str_views(domains@));
    Some(san)
}

/// Makes a certificate signing request for `domains`: every domain stands
/// in the request's subject alternative names as a DNS name, in the order
/// given, and the request is signed with `pkey` over SHA-256. A request
/// must name a domain, and no name may be longer than `MAX_NAME_LEN`
/// octets.
pub fn create_csr(pkey: &openssl::pkey::PKey<openssl::pkey::Private>, domains: &[&str]) -> (r:
    Result<openssl::x509::X509Req, Error>)
    ensures
        domains@.len() == 0 ==> r matches Err(Error::EmptyDomains),
        domains@.len() > 0 && !all_names_fit(str_views(domains@)) ==> r matches Err(Error::Crypto(_)),
        domains@.len() > 0 ==> (r matches Err(e) ==> e is Crypto),
        r matches Ok(csr) ==> csr_dns_names(csr) == str_views(domains@),
{
    if domains.len() == 0 {
        return Err(Error::EmptyDomains);
    }
    let san = match subject_alt_names(domains) {
        Some(san) => san,
        None => {
            return Err(Error::Crypto(String::from_str("a domain name is too long")));
        },
    };
    match csr_build(pkey, &san) {
        Ok(csr) => Ok(csr),
        Err(e) => Err(Error::Crypto(error_stack_message(&e))),
    }
}

/// Encapsulated certificate and private key.
#[derive(Debug, Clone, PartialEq, Eq)]
pub struct Certificate {
    private_key: String,
    certificate: String,
}

/// Division that rounds towards zero, as machine integers divide.
pub open spec fn div_towards_zero(a: int, b: int) -> int
    recommends
        b > 0,
{
    if a >= 0 {
        a / b
    } else {
        -((-a) / b)
    }
}

/// The number of whole days from one moment to another, each given as
/// seconds and nanoseconds on top: the span between them, cut down to
/// whole seconds and then to whole days. It is negative where the second
/// moment lies a day or more before the first.
pub open spec fn spec_whole_days(from_sec: i64, from_nsec: i32, to_sec: i64, to_nsec: i32) -> int {
    let nanos = (to_sec - from_sec) * NANOS_PER_SECOND + (to_nsec - from_nsec);
    div_towards_zero(div_towards_zero(nanos, NANOS_PER_SECOND as int), SECONDS_PER_DAY as int)
}

fn divide_towards_zero(a: i128, b: i128) -> (q: i128)
    requires
        b > 0,
        a > i128::MIN,
    ensures
        q == div_towards_zero(a as int, b as int),
{
    if a >= 0 {
        a / b
    } else {
        let n = -a;
        -(n / b)
    }
}

/// Counts the whole days from one moment to another.
pub fn whole_days(from_sec: i64, from_nsec: i32, to_sec: i64, to_nsec: i32) -> (days: i64)
    ensures
        days == spec_whole_days(from_sec, from_nsec, to_sec, to_nsec),
{
    let secs: i128 = to_sec as i128 - from_sec as i128;
    let extra: i128 = to_nsec as i128 - from_nsec as i128;
    let nanos: i128 = secs * NANOS_PER_SECOND + extra;
    let whole_secs = divide_towards_zero(nanos, NANOS_PER_SECOND);
    let days = divide_towards_zero(whole_secs, SECONDS_PER_DAY);
    days as i64
}

/// A certificate that ran out a day or more ago has a negative number of
/// days left.
pub proof fn lemma_expired_certificate_has_negative_days(
    now_sec: i64,
    now_nsec: i32,
    expires_sec: i64,
)
    requires
        0 <= now_nsec < NANOS_PER_SECOND,
        expires_sec + SECONDS_PER_DAY <= now_sec,
    ensures
        spec_whole_days(now_sec, now_nsec, expires_sec, 0) < 0,
{
}

/// A certificate that runs out `n` whole days and less than a day more
/// from now has `n` days left.
pub proof fn lemma_days_left_counts_whole_days(
    now_sec: i64,
    now_nsec: i32,
    expires_sec: i64,
    n: int,
)
    requires
        n >= 0,
        n * SECONDS_PER_DAY * NANOS_PER_SECOND <= (expires_sec - now_sec) * NANOS_PER_SECOND
            - now_nsec < (n + 1) * SECONDS_PER_DAY * NANOS_PER_SECOND,
    ensures
        spec_whole_days(now_sec, now_nsec, expires_sec, 0) == n,
{
}

/// A certificate that runs out exactly `n` days from now has `n` days left.
pub proof fn lemma_days_left_of_exact_span(now_sec: i64, now_nsec: i32, expires_sec: i64, n: int)
    requires
        n >= 0,
        expires_sec - now_sec == n * SECONDS_PER_DAY,
    ensures
        spec_whole_days(now_sec, now_nsec, expires_sec, now_nsec) == n,
{
}

/// Whether a PEM text is too long to be read at all: its UTF-8 form has
/// more than `MAX_PEM_LEN` octets.
pub open spec fn pem_too_long(pem: Seq<char>) -> bool {
    encode_utf8(pem).len() > MAX_PEM_LEN
}

/// What comes of an OpenSSL call that reads or writes a certificate or its
/// key: its result as it came, or a `Pem` error with OpenSSL's message.
pub fn pem_outcome<T>(outcome: Result<T, openssl::error::ErrorStack>) -> (r: Result<T, Error>)
    ensures
        match outcome {
            Ok(value) => r == Ok::<T, Error>(value),
            Err(_) => r matches Err(Error::Pem(_)),
        },
{
    match outcome {
        Ok(value) => Ok(value),
        Err(e) => Err(Error::Pem(error_stack_message(&e))),
    }
}

/// Reads a certificate from PEM text. A text that is too long is turned
/// down unread; of any other, OpenSSL decides.
fn read_certificate(pem: &str) -> (r: Result<openssl::x509::X509, Error>)
    ensures
        pem_too_long(pem@) ==> r matches Err(Error::Pem(_)),
        r matches Err(e) ==> e is Pem,
{
    let bytes = pem.as_bytes();
    if bytes.len() > MAX_PEM_LEN {
        return Err(Error::Pem(String::from_str("the PEM text is too long")));
    }
    pem_outcome(x509_from_pem(bytes))
}

/// Reads a private key from PEM text. A text that is too long is turned
/// down unread; of any other, OpenSSL decides.
fn read_private_key(pem: &str) -> (r: Result<openssl::pkey::PKey<openssl::pkey::Private>, Error>)
    ensures
        pem_too_long(pem@) ==> r matches Err(Error::Pem(_)),
        r matches Err(e) ==> e is Pem,
{
    let bytes = pem.as_bytes();
    if bytes.len() > MAX_PEM_LEN {
        return Err(Error::Pem(String::from_str("the PEM text is too long")));
    }
    pem_outcome(pkey_from_pem(bytes))
}

impl Certificate {
    /// The PEM text of the private key.
    pub closed spec fn key_view(&self) -> Seq<char> {
        self.private_key@
    }

    /// The PEM text of the certificate.
    pub closed spec fn certificate_view(&self) -> Seq<char> {
        self.certificate@
    }

    pub fn new(private_key: String, certificate: String) -> (r: Certificate)
        ensures
            r.key_view() == private_key@,
            r.certificate_view() == certificate@,
    {
        Certificate { private_key, certificate }
    }

    /// Keeps a private key and a certificate that have been found to be
    /// valid PEM, and turns down any other pair.
    pub fn from_checked(
        private_key: String,
        certificate: String,
        certificate_is_valid: bool,
        private_key_is_valid: bool,
    ) -> (r: Result<Certificate, Error>)
        ensures
            certificate_is_valid && private_key_is_valid ==> (r matches Ok(cert) && cert.key_view()
                == private_key@ && cert.certificate_view() == certificate@),
            !(certificate_is_valid && private_key_is_valid) ==> r matches Err(Error::Pem(_)),
    {
        if !certificate_is_valid {
            Err(Error::Pem(String::from_str("the certificate is not valid PEM")))
        } else if !private_key_is_valid {
            Err(Error::Pem(String::from_str("the private key is not valid PEM")))
        } else {
            Ok(Certificate { private_key, certificate })
        }
    }

    /// Keeps a private key and a certificate, both as PEM, after reading
    /// both: a pair of which one is malformed is turned down here and not
    /// at a later use.
    pub fn parse(private_key: String, certificate: String) -> (r: Result<Certificate, Error>)
        ensures
            pem_too_long(certificate@) || pem_too_long(private_key@) ==> r matches Err(
                Error::Pem(_),
            ),
            r matches Ok(cert) ==> cert.key_view() == private_key@ && cert.certificate_view()
                == certificate@,
            r matches Err(e) ==> e is Pem,
    {
        let certificate_is_valid = read_certificate(certificate.as_str()).is_ok();
        let private_key_is_valid = read_private_key(private_key.as_str()).is_ok();
        Self::from_checked(private_key, certificate, certificate_is_valid, private_key_is_valid)
    }

    /// The PEM encoded private key.
    pub fn private_key(&self) -> (r: &str)
        ensures
            r@ == self.key_view(),
    {
        self.private_key.as_str()
    }

    /// The private key as DER. A key text that is too long has none; of
    /// any other, OpenSSL decides.
    pub fn private_key_der(&self) -> (r: Result<Vec<u8>, Error>)
        ensures
            pem_too_long(self.key_view()) ==> r matches Err(Error::Pem(_)),
            r matches Err(e) ==> e is Pem,
    {
        let key = read_private_key(self.private_key.as_str())?;
        der_of_private_key(&key)
    }

    /// The PEM encoded issued certificate.
    pub fn certificate(&self) -> (r: &str)
        ensures
            r@ == self.certificate_view(),
    {
        self.certificate.as_str()
    }

    /// The issued certificate as DER. A certificate text that is too long
    /// has none; of any other, OpenSSL decides.
    pub fn certificate_der(&self) -> (r: Result<Vec<u8>, Error>)
        ensures
            pem_too_long(self.certificate_view()) ==> r matches Err(Error::Pem(_)),
            r matches Err(e) ==> e is Pem,
    {
        let cert = read_certificate(self.certificate.as_str())?;
        der_of_certificate(&cert)
    }

    /// The moment after which the certificate is no longer valid, as
    /// seconds since 1970-01-01T00:00:00Z and nanoseconds on top. A
    /// certificate text that is too long has none. Of any other, OpenSSL
    /// decides whether it is a certificate; of a certificate, `not_after_of`
    /// says which moment it is.
    pub fn not_after(&self) -> (r: Result<(i64, i32), Error>)
        ensures
            pem_too_long(self.certificate_view()) ==> r matches Err(Error::Pem(_)),
            r matches Err(e) ==> e is Pem || e is Date,
    {
        let cert = read_certificate(self.certificate.as_str())?;
        not_after_of(&cert)
    }

    /// Inspect the certificate to count the number of (whole) valid days
    /// left.
    ///
    /// It's up to the ACME API provider to decide how long an issued
    /// certificate is valid. Let's Encrypt sets the validity to 90 days.
    /// This function reports 89 days for newly issued cert, since it counts
    /// _whole_ days.
    ///
    /// It is possible to get negative days for an expired certificate.
    ///
    /// The count is `days_left` of the moment that `not_after` gives and
    /// the present moment; it fails where `not_after` fails.
    pub fn valid_days_left(&self) -> (r: Result<i64, Error>)
        ensures
            pem_too_long(self.certificate_view()) ==> r matches Err(Error::Pem(_)),
            r matches Err(e) ==> e is Pem || e is Date,
    {
        let not_after = self.not_after();
        let (now_sec, now_nsec) = time_now();
        days_left(not_after, now_sec, now_nsec)
    }
}

/// The number of whole days that are left at the moment `now` of a
/// certificate whose last moment of validity has been looked up: the whole
/// days from `now` to that moment, and the failure of the lookup where it
/// failed.
pub fn days_left(not_after: Result<(i64, i32), Error>, now_sec: i64, now_nsec: i32) -> (r: Result<
    i64,
    Error,
>)
    ensures
        match not_after {
            Ok((sec, nsec)) => r matches Ok(days) && days == spec_whole_days(
                now_sec,
                now_nsec,
                sec,
                nsec,
            ),
            Err(e) => r == Err::<i64, Error>(e),
        },
{
    match not_after {
        Ok((sec, nsec)) => Ok(whole_days(now_sec, now_nsec, sec, nsec)),
        Err(e) => Err(e),
    }
}

/// The DER form of a private key that has been read.
pub fn der_of_private_key(key: &openssl::pkey::PKey<openssl::pkey::Private>) -> (r: Result<
    Vec<u8>,
    Error,
>)
    ensures
        match pkey_der(*key) {
            Some(der) => r matches Ok(out) && out@ == der,
            None => r matches Err(Error::Pem(_)),
        },
{
    pem_outcome(pkey_to_der(key))
}

/// The DER form of a certificate that has been read.
pub fn der_of_certificate(cert: &openssl::x509::X509) -> (r: Result<Vec<u8>, Error>)
    ensures
        match x509_der(*cert) {
            Some(der) => r matches Ok(out) && out@ == der,
            None => r matches Err(Error::Pem(_)),
        },
{
    pem_outcome(x509_to_der(cert))
}

/// The moment that a date names which is written as a certificate shows
/// it.
pub open spec fn date_moment(s: Seq<char>) -> Option<(i64, i32)> {
    strptime_moment(s, CERTIFICATE_DATE_FORMAT@)
}

/// Reads a date as a certificate shows it, such as
/// `Apr 19 08:48:46 2019 GMT`. It succeeds on the texts that are a date in
/// that form, and on no other.
pub fn parse_date(s: &str) -> (r: Result<time::Tm, Error>)
    ensures
        r.is_ok() == date_moment(s@).is_some(),
        r matches Err(e) ==> e is Date,
{
    match time_strptime(s, CERTIFICATE_DATE_FORMAT) {
        Ok((tm, _, _)) => Ok(tm),
        Err(message) => Err(Error::Date(message)),
    }
}

/// Reads the moment that a date names which is written as a certificate
/// shows it: seconds since 1970-01-01T00:00:00Z and nanoseconds on top.
pub fn parse_moment(s: &str) -> (r: Result<(i64, i32), Error>)
    ensures
        match date_moment(s@) {
            Some(moment) => r == Ok::<(i64, i32), Error>(moment),
            None => r matches Err(Error::Date(_)),
        },
{
    match time_strptime(s, CERTIFICATE_DATE_FORMAT) {
        Ok((_, sec, nsec)) => Ok((sec, nsec)),
        Err(message) => Err(Error::Date(message)),
    }
}

/// The moment after which a certificate that has been read is no longer
/// valid: the moment of the date that the certificate shows.
pub fn not_after_of(cert: &openssl::x509::X509) -> (r: Result<(i64, i32), Error>)
    ensures
        match date_moment(x509_shown_not_after(*cert)) {
            Some(moment) => r == Ok::<(i64, i32), Error>(moment),
            None => r matches Err(Error::Date(_)),
        },
{
    let shown = x509_not_after(cert);
    parse_moment(shown.as_str())
}

} // verus!
