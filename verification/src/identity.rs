//! Trust material: a certificate chain with its private key and the validity
//! window derived from the leaf certificate.

use vstd::prelude::*;
use x509_parser::prelude::FromDer;

verus! {

/// The SHA-256 hash of a DER certificate, as wtransport's `Certificate::hash`
/// computes it; `None` when the bytes do not parse as an X.509 certificate.
pub uninterp spec fn cert_sha256_of(der: Seq<u8>) -> Option<Seq<u8>>;

/// The validity window (not-before, not-after) in Unix timestamps that
/// x509-parser reads from a DER certificate; `None` when the bytes do not
/// parse as X.509.
pub uninterp spec fn x509_window_of(der: Seq<u8>) -> Option<(int, int)>;

/// The standard (padded) base64 encoding of a byte string.
pub uninterp spec fn base64_of(bytes: Seq<u8>) -> Seq<char>;

/// Relies on wtransport's `Certificate::from_der`, which accepts exactly the
/// byte strings that parse as X.509, and `Certificate::hash`, the SHA-256 of
/// the DER encoding: the result is a function of the bytes alone.
#[verifier::external_body]
fn leaf_sha256(der: &Vec<u8>) -> (r: Option<Vec<u8>>)
    ensures
        match r {
            Some(h) => cert_sha256_of(der@) == Some(h@) && h@.len() == 32,
            None => cert_sha256_of(der@) is None,
        },
{
    match wtransport::tls::Certificate::from_der(der.clone()) {
        Ok(c) => Some(c.hash().as_ref().to_vec()),
        Err(_) => None,
    }
}

/// Relies on x509-parser's `X509Certificate::from_der` and
/// `ASN1Time::timestamp`: the validity window read from the DER bytes, as
/// seconds since the Unix epoch, a function of the bytes alone.
#[verifier::external_body]
fn parse_validity_window(der: &Vec<u8>) -> (r: Option<(i64, i64)>)
    ensures
        match r {
            Some(w) => x509_window_of(der@) == Some((w.0 as int, w.1 as int)),
            None => x509_window_of(der@) is None,
        },
{
    match x509_parser::certificate::X509Certificate::from_der(der.as_slice()) {
        Ok((_, cert)) => Some(
            (cert.validity.not_before.timestamp(), cert.validity.not_after.timestamp()),
        ),
        Err(_) => None,
    }
}

/// Relies on base64's `STANDARD` engine `encode`: the standard alphabet with
/// padding, four output characters for every three input bytes.
#[verifier::external_body]
fn base64_encode(bytes: &Vec<u8>) -> (r: String)
    requires
        bytes@.len() * 4 <= usize::MAX,
    ensures
        r@ == base64_of(bytes@),
        r@.len() == 4 * ((bytes@.len() + 2) / 3),
{
    base64::Engine::encode(&base64::engine::general_purpose::STANDARD, bytes)
}

/// An identity: a non-empty DER certificate chain (leaf first), the private
/// key bytes, and the leaf's validity window. Immutable once constructed; a
/// renewal produces a new identity.
pub struct Identity {
    chain: Vec<Vec<u8>>,
    key: Vec<u8>,
    not_before: i64,
    not_after: i64,
}

impl Identity {
    #[verifier::type_invariant]
    spec fn wf(self) -> bool {
        self.chain@.len() > 0
    }

    /// The DER certificates of the chain, leaf first.
    pub closed spec fn spec_chain(&self) -> Seq<Seq<u8>> {
        self.chain@.map_values(|c: Vec<u8>| c@)
    }

    /// The private key bytes.
    pub closed spec fn spec_key(&self) -> Seq<u8> {
        self.key@
    }

    /// The not-before bound of the validity window, as a Unix timestamp.
    pub closed spec fn spec_not_before(&self) -> int {
        self.not_before as int
    }

    /// The not-after bound of the validity window, as a Unix timestamp.
    pub closed spec fn spec_not_after(&self) -> int {
        self.not_after as int
    }

    /// The leaf certificate's DER bytes.
    pub open spec fn spec_leaf(&self) -> Seq<u8> {
        self.spec_chain()[0]
    }

    /// An identity is valid at `now` exactly when `now` lies within
    /// [not-before, not-after].
    pub open spec fn spec_valid_at(&self, now: int) -> bool {
        self.spec_not_before() <= now <= self.spec_not_after()
    }

    /// Builds an identity from explicit parts; `None` when the chain is
    /// empty.
    pub fn new(chain: Vec<Vec<u8>>, key: Vec<u8>, not_before: i64, not_after: i64) -> (r: Option<
        Identity,
    >)
        ensures
            match r {
                Some(id) => {
                    &&& chain@.len() > 0
                    &&& id.spec_chain() == chain@.map_values(|c: Vec<u8>| c@)
                    &&& id.spec_key() == key@
                    &&& id.spec_not_before() == not_before as int
                    &&& id.spec_not_after() == not_after as int
                },
                None => chain@.len() == 0,
            },
    {
        if chain.len() == 0 {
            None
        } else {
            Some(Identity { chain, key, not_before, not_after })
        }
    }

    /// Builds an identity from DER parts, reading the validity window from
    /// the leaf certificate; `None` when the chain is empty or the leaf does
    /// not parse as X.509.
    pub fn from_der_chain(chain: Vec<Vec<u8>>, key: Vec<u8>) -> (r: Option<Identity>)
        ensures
            match r {
                Some(id) => {
                    &&& chain@.len() > 0
                    &&& id.spec_chain() == chain@.map_values(|c: Vec<u8>| c@)
                    &&& id.spec_key() == key@
                    &&& x509_window_of(chain@[0]@) == Some(
                        (id.spec_not_before(), id.spec_not_after()),
                    )
                },
                None => chain@.len() == 0 || x509_window_of(chain@[0]@) is None,
            },
    {
        if chain.len() == 0 {
            return None;
        }
        match parse_validity_window(&chain[0]) {
            Some(w) => Some(Identity { chain, key, not_before: w.0, not_after: w.1 }),
            None => None,
        }
    }

    /// Whether the identity is valid at the given time.
    pub fn is_valid_at(&self, now: i64) -> (r: bool)
        ensures
            r == self.spec_valid_at(now as int),
    {
        self.not_before <= now && now <= self.not_after
    }

    /// The not-before bound, as a Unix timestamp.
    pub fn not_before_ts(&self) -> (r: i64)
        ensures
            r as int == self.spec_not_before(),
    {
        self.not_before
    }

    /// The not-after bound, as a Unix timestamp.
    pub fn not_after_ts(&self) -> (r: i64)
        ensures
            r as int == self.spec_not_after(),
    {
        self.not_after
    }

    /// The number of certificates in the chain; always positive.
    pub fn chain_len(&self) -> (r: usize)
        ensures
            r == self.spec_chain().len(),
            r > 0,
    {
        proof {
            use_type_invariant(self);
        }
        self.chain.len()
    }

    /// The DER bytes of the certificate at position `i` of the chain.
    pub fn cert_der(&self, i: usize) -> (r: &Vec<u8>)
        requires
            i < self.spec_chain().len(),
        ensures
            r@ == self.spec_chain()[i as int],
    {
        &self.chain[i]
    }

    /// The leaf certificate's DER bytes.
    pub fn leaf_der(&self) -> (r: &Vec<u8>)
        ensures
            r@ == self.spec_leaf(),
    {
        proof {
            use_type_invariant(self);
        }
        &self.chain[0]
    }

    /// The private key bytes.
    pub fn key_der(&self) -> (r: &Vec<u8>)
        ensures
            r@ == self.spec_key(),
    {
        &self.key
    }

    /// The fingerprint: the SHA-256 hash of the leaf certificate's DER bytes.
    pub fn fingerprint(&self) -> (r: Option<Vec<u8>>)
        ensures
            match r {
                Some(h) => cert_sha256_of(self.spec_leaf()) == Some(h@) && h@.len() == 32,
                None => cert_sha256_of(self.spec_leaf()) is None,
            },
    {
        proof {
            use_type_invariant(self);
        }
        leaf_sha256(&self.chain[0])
    }

    /// The fingerprint in standard base64, the form that is logged and sent
    /// to the webhook.
    pub fn fingerprint_b64(&self) -> (r: Option<String>)
        ensures
            match r {
                Some(s) => match cert_sha256_of(self.spec_leaf()) {
                    Some(h) => s@ == base64_of(h),
                    None => false,
                },
                None => cert_sha256_of(self.spec_leaf()) is None,
            },
    {
        match self.fingerprint() {
            Some(h) => Some(base64_encode(&h)),
            None => None,
        }
    }
}

/// The fingerprint is a function of the leaf certificate's bytes alone: two
/// identities whose leaf DER bytes agree, for instance one persisted to disk
/// and the copy reloaded from it, have the same fingerprint.
pub proof fn lemma_fingerprint_determined_by_leaf(a: &Identity, b: &Identity)
    requires
        a.spec_leaf() == b.spec_leaf(),
    ensures
        cert_sha256_of(a.spec_leaf()) == cert_sha256_of(b.spec_leaf()),
{
}

} // verus!
