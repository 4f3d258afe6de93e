use crate::error::Error;
use vstd::prelude::*;
use vstd::string::*;

verus! {

/// `openssl::error::ErrorStack`, the failure of an OpenSSL call. Nothing is
/// known of what it holds.
#[verifier::external_type_specification]
#[verifier::external_body]
pub struct ExErrorStack(openssl::error::ErrorStack);

/// `openssl::pkey::Private`, the mark of a key that has its private half.
#[verifier::external_type_specification]
#[verifier::external_body]
pub struct ExPrivate(openssl::pkey::Private);

/// `openssl::ec::EcKey`, an elliptic-curve key. `ec_key_degree`,
/// `ec_key_point` and `ec_key_pem` name what the library reads off it.
#[verifier::external_type_specification]
#[verifier::external_body]
#[verifier::reject_recursive_types(T)]
pub struct ExEcKey<T>(openssl::ec::EcKey<T>);

/// The longest PEM text that is read at all.
pub const MAX_PEM_LEN: usize = 0x7fff_ffff;

/// The curves that an account key may lie on.
#[derive(Debug, Clone, Copy, PartialEq, Eq, Structural)]
pub enum Curve {
    P256,
    P384,
}

impl Curve {
    /// The curve whose field has that many bits.
    pub open spec fn spec_from_degree(bits: u32) -> Option<Curve> {
        if bits == 256 {
            Some(Curve::P256)
        } else if bits == 384 {
            Some(Curve::P384)
        } else {
            None
        }
    }

    /// The number of octets of a coordinate, and of each half of a signature.
    pub open spec fn spec_width(self) -> nat {
        match self {
            Curve::P256 => 32,
            Curve::P384 => 48,
        }
    }

    /// The curve's name in a JSON Web Key.
    pub open spec fn spec_name(self) -> Seq<char> {
        match self {
            Curve::P256 => "P-256"@,
            Curve::P384 => "P-384"@,
        }
    }

    pub fn from_degree(bits: u32) -> (r: Option<Curve>)
        ensures
            r == Self::spec_from_degree(bits),
    {
        if bits == 256 {
            Some(Curve::P256)
        } else if bits == 384 {
            Some(Curve::P384)
        } else {
            None
        }
    }

    pub fn width(self) -> (r: usize)
        ensures
            r == self.spec_width(),
    {
        match self {
            Curve::P256 => 32,
            Curve::P384 => 48,
        }
    }

    pub fn name(self) -> (r: &'static str)
        ensures
            r@ == self.spec_name(),
    {
        match self {
            Curve::P256 => "P-256",
            Curve::P384 => "P-384",
        }
    }
}

/// `bytes` behind as many zero octets as it takes to fill `width` octets.
pub open spec fn left_padded(bytes: Seq<u8>, width: nat) -> Seq<u8>
    recommends
        bytes.len() <= width,
{
    Seq::new((width - bytes.len()) as nat, |i: int| 0u8) + bytes
}

/// Fills a big-endian number up to a fixed width with leading zero octets.
/// A number that is wider than that has no such form.
pub fn left_pad(bytes: &[u8], width: usize) -> (r: Option<Vec<u8>>)
    ensures
        bytes@.len() <= width ==> (r matches Some(out) && out@ == left_padded(bytes@, width as nat)),
        bytes@.len() > width ==> r.is_none(),
{
    if bytes.len() > width {
        return None;
    }
    let zeros = width - bytes.len();
    let mut out: Vec<u8> = Vec::new();
    let mut i: usize = 0;
    while i < zeros
        invariant
            i <= zeros,
            out@ == Seq::new(i as nat, |k: int| 0u8),
        decreases zeros - i,
    {
        out.push(0u8);
        i += 1;
        assert(out@ =~= Seq::new(i as nat, |k: int| 0u8));
    }
    let mut j: usize = 0;
    while j < bytes.len()
        invariant
            j <= bytes.len(),
            zeros + bytes@.len() == width,
            out@ == Seq::new(zeros as nat, |k: int| 0u8) + bytes@.take(j as int),
        decreases bytes.len() - j,
    {
        out.push(bytes[j]);
        j += 1;
        assert(out@ =~= Seq::new(zeros as nat, |k: int| 0u8) + bytes@.take(j as int));
    }
    assert(bytes@.take(j as int) =~= bytes@);
    Some(out)
}

/// A padded number is as wide as asked and ends in the number itself.
pub proof fn lemma_left_padded(bytes: Seq<u8>, width: nat)
    requires
        bytes.len() <= width,
    ensures
        left_padded(bytes, width).len() == width,
        left_padded(bytes, width).skip(width - bytes.len()) == bytes,
        forall|i: int| 0 <= i < width - bytes.len() ==> left_padded(bytes, width)[i] == 0,
{
    assert(left_padded(bytes, width).skip(width - bytes.len()) =~= bytes);
}

/// Makes a fresh private key on the given curve.
///
/// Trusted: calls `openssl::ec::EcGroup::from_curve_name` for the curve,
/// marks the group as a named curve and calls
/// `openssl::ec::EcKey::generate`. The key is random: nothing is claimed.
#[verifier::external_body]
pub(crate) fn ec_generate(curve: Curve) -> Result<openssl::ec::EcKey<openssl::pkey::Private>, openssl::error::ErrorStack> {
    let nid = match curve {
        Curve::P256 => openssl::nid::Nid::X9_62_PRIME256V1,
        Curve::P384 => openssl::nid::Nid::SECP384R1,
    };
    let mut group = openssl::ec::EcGroup::from_curve_name(nid)?;
    group.set_asn1_flag(openssl::ec::Asn1Flag::NAMED_CURVE);
    openssl::ec::EcKey::generate(&group)
}

/// Reads an EC private key from PEM.
///
/// Trusted: calls `openssl::ec::EcKey::private_key_from_pem`, which panics
/// on a text longer than `i32::MAX`; the precondition leaves that out. For
/// an encrypted key OpenSSL asks the terminal for the passphrase, so that
/// the outcome is no function of the text alone. Nothing is claimed of it.
#[verifier::external_body]
fn ec_from_pem(pem: &[u8]) -> Result<openssl::ec::EcKey<openssl::pkey::Private>, openssl::error::ErrorStack>
    requires
        pem@.len() <= MAX_PEM_LEN,
{
    openssl::ec::EcKey::private_key_from_pem(pem)
}

/// The PEM text of a private key, where the key can be written.
pub uninterp spec fn ec_key_pem(key: openssl::ec::EcKey<openssl::pkey::Private>) -> Option<Seq<u8>>;

/// The number of bits of the field of a key's curve.
pub uninterp spec fn ec_key_degree(key: openssl::ec::EcKey<openssl::pkey::Private>) -> u32;

/// The affine coordinates of a key's public point, where it has them, each
/// as a big-endian number without leading zeros.
pub uninterp spec fn ec_key_point(key: openssl::ec::EcKey<openssl::pkey::Private>) -> Option<
    (Seq<u8>, Seq<u8>),
>;

/// Writes an EC private key as PEM.
///
/// Trusted: calls `private_key_to_pem` of `openssl::ec::EcKey`. The contract
/// claims only that the outcome is a function of the key: the text on
/// success, nothing on failure.
#[verifier::external_body]
fn ec_to_pem(key: &openssl::ec::EcKey<openssl::pkey::Private>) -> (r: Result<
    Vec<u8>,
    openssl::error::ErrorStack,
>)
    ensures
        match r {
            Ok(pem) => ec_key_pem(*key) == Some(pem@),
            Err(_) => ec_key_pem(*key).is_none(),
        },
{
    key.private_key_to_pem()
}

/// The number of bits of the field of a key's curve.
///
/// Trusted: calls `degree` on the key's `group`. The contract claims only
/// that the number is a function of the key.
#[verifier::external_body]
fn ec_degree(key: &openssl::ec::EcKey<openssl::pkey::Private>) -> (bits: u32)
    ensures
        bits == ec_key_degree(*key),
{
    key.group().degree()
}

/// The affine coordinates of a key's public point, each as a big-endian
/// number without leading zeros.
///
/// Trusted: calls `affine_coordinates_gfp` on the key's `public_key` and
/// `to_vec` on both numbers. The contract claims only that the outcome is
/// a function of the key: the two numbers on success, nothing on failure.
#[verifier::external_body]
fn ec_public_coordinates(key: &openssl::ec::EcKey<openssl::pkey::Private>) -> (r: Result<
    (Vec<u8>, Vec<u8>),
    openssl::error::ErrorStack,
>)
    ensures
        match r {
            Ok((x, y)) => ec_key_point(*key) == Some((x@, y@)),
            Err(_) => ec_key_point(*key).is_none(),
        },
{
    let mut ctx = openssl::bn::BigNumContext::new()?;
    let mut x = openssl::bn::BigNum::new()?;
    let mut y = openssl::bn::BigNum::new()?;
    key.public_key().affine_coordinates_gfp(key.group(), &mut x, &mut y, &mut ctx)?;
    Ok((x.to_vec(), y.to_vec()))
}

/// Signs a digest with ECDSA and hands out the two numbers of the signature,
/// each as a big-endian number without leading zeros.
///
/// Trusted: calls `openssl::ecdsa::EcdsaSig::sign`, then `to_vec` on `r` and
/// on `s`. The call panics on a digest longer than `i32::MAX`, which the
/// precondition leaves out. The signature is random: nothing is claimed.
#[verifier::external_body]
pub(crate) fn ecdsa_sign(digest: &[u8], key: &openssl::ec::EcKey<openssl::pkey::Private>) -> Result<
    (Vec<u8>, Vec<u8>),
    openssl::error::ErrorStack,
>
    requires
        digest@.len() <= i32::MAX,
{
    let sig = openssl::ecdsa::EcdsaSig::sign(digest, key)?;
    Ok((sig.r().to_vec(), sig.s().to_vec()))
}

/// The message of an OpenSSL failure.
///
/// Trusted: formats an `openssl::error::ErrorStack` with its `Display`.
/// Nothing is claimed of the text.
#[verifier::external_body]
pub(crate) fn error_stack_message(e: &openssl::error::ErrorStack) -> String {
    e.to_string()
}

/// What comes of an OpenSSL call that makes, reads or writes a key: its
/// result as it came, or a `Keygen` error with OpenSSL's message.
pub fn keygen_outcome<T>(outcome: Result<T, openssl::error::ErrorStack>) -> (r: Result<T, Error>)
    ensures
        match outcome {
            Ok(value) => r == Ok::<T, Error>(value),
            Err(_) => r matches Err(Error::Keygen(_)),
        },
{
    match outcome {
        Ok(value) => Ok(value),
        Err(e) => Err(Error::Keygen(error_stack_message(&e))),
    }
}

/// What an `AcmeKey` holds beside the private key itself.
pub struct AcmeKeyView {
    pub curve: Curve,
    /// The first coordinate of the public point, `curve.spec_width()` octets.
    pub x: Seq<u8>,
    /// The second coordinate of the public point, as wide.
    pub y: Seq<u8>,
    /// The key id, once the server has assigned one.
    pub key_id: Option<Seq<char>>,
}

/// An account key: the private key, what is public of it, and the key id
/// that the server gives the account.
#[derive(Debug)]
pub struct AcmeKey {
    private_key: openssl::ec::EcKey<openssl::pkey::Private>,
    curve: Curve,
    x: Vec<u8>,
    y: Vec<u8>,
    key_id: Option<String>,
}

impl View for AcmeKey {
    type V = AcmeKeyView;

    closed spec fn view(&self) -> AcmeKeyView {
        AcmeKeyView {
            curve: self.curve,
            x: self.x@,
            y: self.y@,
            key_id: match self.key_id {
                Some(id) => Some(id@),
                None => None,
            },
        }
    }
}

impl AcmeKeyView {
    /// Both coordinates have the width of the curve.
    pub open spec fn wf(self) -> bool {
        self.x.len() == self.curve.spec_width() && self.y.len() == self.curve.spec_width()
    }
}

impl AcmeKey {
    #[verifier::type_invariant]
    closed spec fn inv(&self) -> bool {
        self@.wf()
    }

    /// Makes a new account key on P-256, without a key id.
    pub fn new() -> (r: Result<AcmeKey, Error>)
        ensures
            r matches Ok(key) ==> key@.curve == Curve::P256 && key@.key_id.is_none() && key@.wf(),
            r matches Err(e) ==> e is Keygen,
    {
        let key = match ec_generate(Curve::P256) {
            Ok(private_key) => Self::from_key(private_key)?,
            Err(e) => {
                return Err(Error::Keygen(error_stack_message(&e)));
            },
        };
        match key.curve {
            Curve::P256 => Ok(key),
            Curve::P384 => Err(Error::Keygen(String::from_str("the new key is not on P-256"))),
        }
    }

    /// Reads an account key from PEM; the key has no key id. A text of
    /// more than `MAX_PEM_LEN` octets is no key.
    pub fn from_pem(pem: &[u8]) -> (r: Result<AcmeKey, Error>)
        ensures
            pem@.len() > MAX_PEM_LEN ==> r matches Err(Error::Keygen(_)),
            r matches Ok(key) ==> key@.key_id.is_none() && key@.wf(),
            r matches Err(e) ==> e is Keygen,
    {
        if pem.len() > MAX_PEM_LEN {
            return Err(Error::Keygen(String::from_str("the PEM text is too long")));
        }
        let private_key = keygen_outcome(ec_from_pem(pem))?;
        Self::from_key(private_key)
    }

    /// Wraps a private key, reading off its curve and its public point.
    /// The curve must be P-256 or P-384 and the key must have a public
    /// point on it; each coordinate is kept at the full width of the curve.
    pub fn from_key(private_key: openssl::ec::EcKey<openssl::pkey::Private>) -> (r: Result<
        AcmeKey,
        Error,
    >)
        ensures
            match (Curve::spec_from_degree(ec_key_degree(private_key)), ec_key_point(private_key)) {
                (Some(curve), Some((x, y))) if x.len() <= curve.spec_width() && y.len()
                    <= curve.spec_width() => {
                    r matches Ok(key) && key.spec_private_key() == private_key && key@ == (
                    AcmeKeyView {
                        curve,
                        x: left_padded(x, curve.spec_width()),
                        y: left_padded(y, curve.spec_width()),
                        key_id: None,
                    })
                },
                _ => r matches Err(e) && e is Keygen,
            },
            r matches Ok(key) ==> key@.wf(),
    {
        let degree = ec_degree(&private_key);
        let (x, y) = keygen_outcome(ec_public_coordinates(&private_key))?;
        Self::from_parts(private_key, degree, x, y)
    }

    /// Puts a key together from the private key, the number of bits of its
    /// curve and the coordinates of its public point. The curve must be
    /// P-256 or P-384 and neither coordinate wider than the curve; each
    /// coordinate is kept at the full width of the curve.
    pub fn from_parts(
        private_key: openssl::ec::EcKey<openssl::pkey::Private>,
        degree: u32,
        x: Vec<u8>,
        y: Vec<u8>,
    ) -> (r: Result<AcmeKey, Error>)
        ensures
            match Curve::spec_from_degree(degree) {
                Some(curve) if x@.len() <= curve.spec_width() && y@.len() <= curve.spec_width() => {
                    r matches Ok(key) && key.spec_private_key() == private_key && key@ == (
                    AcmeKeyView {
                        curve,
                        x: left_padded(x@, curve.spec_width()),
                        y: left_padded(y@, curve.spec_width()),
                        key_id: None,
                    })
                },
                _ => r matches Err(e) && e is Keygen,
            },
    {
        let curve = match Curve::from_degree(degree) {
            Some(curve) => curve,
            None => {
                return Err(Error::Keygen(String::from_str("the key's curve is not supported")));
            },
        };
        let width = curve.width();
        match (left_pad(x.as_slice(), width), left_pad(y.as_slice(), width)) {
            (Some(x), Some(y)) => {
                proof {
                    lemma_left_padded(x@, width as nat);
                }
                Ok(AcmeKey { private_key, curve, x, y, key_id: None })
            },
            _ => Err(Error::Keygen(String::from_str("the public point does not fit the curve"))),
        }
    }

    /// Writes the private key as PEM: the text that OpenSSL writes for the
    /// key, anew at each call.
    pub fn to_pem(&self) -> (r: Result<Vec<u8>, Error>)
        ensures
            r.is_ok() == ec_key_pem(self.spec_private_key()).is_some(),
            r matches Ok(pem) ==> ec_key_pem(self.spec_private_key()) == Some(pem@),
            r matches Err(e) ==> e is Keygen,
    {
        keygen_outcome(ec_to_pem(&self.private_key))
    }

    /// The private key itself.
    pub closed spec fn spec_private_key(&self) -> openssl::ec::EcKey<openssl::pkey::Private> {
        self.private_key
    }

    pub fn private_key(&self) -> (r: &openssl::ec::EcKey<openssl::pkey::Private>)
        ensures
            *r == self.spec_private_key(),
    {
        &self.private_key
    }

    pub fn curve(&self) -> (r: Curve)
        ensures
            r == self@.curve,
            self@.wf(),
    {
        proof {
            use_type_invariant(self);
        }
        self.curve
    }

    pub fn public_x(&self) -> (r: &Vec<u8>)
        ensures
            r@ == self@.x,
            r@.len() == self@.curve.spec_width(),
    {
        proof {
            use_type_invariant(self);
        }
        &self.x
    }

    pub fn public_y(&self) -> (r: &Vec<u8>)
        ensures
            r@ == self@.y,
            r@.len() == self@.curve.spec_width(),
    {
        proof {
            use_type_invariant(self);
        }
        &self.y
    }

    /// The key id, which is there once `set_key_id` has been called.
    pub fn key_id(&self) -> (r: Result<&str, Error>)
        ensures
            match self@.key_id {
                Some(id) => r matches Ok(found) && found@ == id,
                None => r matches Err(Error::UnboundIdentity),
            },
    {
        match &self.key_id {
            Some(id) => Ok(id.as_str()),
            None => Err(Error::UnboundIdentity),
        }
    }

    /// Binds the key to the key id that the server assigned.
    pub fn set_key_id(&mut self, kid: String)
        ensures
            final(self)@ == (AcmeKeyView { key_id: Some(kid@), ..old(self)@ }),
            final(self).spec_private_key() == old(self).spec_private_key(),
    {
        proof {
            use_type_invariant(&*self);
        }
        self.key_id = Some(kid);
    }
}

} // verus!
