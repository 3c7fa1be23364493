//! Keys, keypairs, and signatures.
//!
//! `PublicKey`, `Signature` and `Keypair` are each a closed variant set over
//! three schemes: a single-party scheme (Ed25519), a threshold-group scheme
//! (BLS), and a threshold-group share scheme (a BLS share). A key and a
//! signature must name the same scheme to be verifiable together. Key and
//! signature material is held as plain bytes, in the canonical encoding the
//! schemes themselves define; the cryptographic operations are delegated to
//! the scheme implementations, whose verdicts — both deterministic
//! functions of the bytes involved — are carried in the contracts under
//! the named predicates below.

use vstd::prelude::*;
use crate::errors::Error;
use ed25519_dalek::Verifier;

verus! {

broadcast use vstd::array::group_array_axioms;

// The scheme implementations behind the byte representations. These types
// carry secret material, which only the scheme itself can use; everything
// the logic of this crate reads (public keys, signatures) is plain bytes.

#[verifier::external_type_specification]
#[verifier::external_body]
pub struct ExBlsSecretKey(threshold_crypto::SecretKey);

#[verifier::external_type_specification]
#[verifier::external_body]
pub struct ExBlsSecretKeyShare(threshold_crypto::SecretKeyShare);

#[verifier::external_type_specification]
#[verifier::external_body]
pub struct ExBlsPublicKeySet(threshold_crypto::PublicKeySet);

// The scheme verdicts, named. Each is a function of the bytes alone: the
// schemes are deterministic, take no ambient input, and give the same
// answer on every machine.

/// Ed25519's native verification verdict on (key, signature, data) bytes;
/// false whenever the key or signature bytes do not decode.
pub uninterp spec fn ed25519_verifies(key: Seq<u8>, sig: Seq<u8>, data: Seq<u8>) -> bool;

/// BLS's native verification verdict on (key, signature, data) bytes;
/// false whenever the key or signature bytes do not decode.
pub uninterp spec fn bls_verifies(key: Seq<u8>, sig: Seq<u8>, data: Seq<u8>) -> bool;

/// The BLS share scheme's native verification verdict on (key share,
/// signature share, data) bytes; false whenever the bytes do not decode.
pub uninterp spec fn bls_share_verifies(key: Seq<u8>, sig: Seq<u8>, data: Seq<u8>) -> bool;

/// The Ed25519 public key bytes derived from a 32-byte secret key.
pub uninterp spec fn ed25519_public_of(secret: Seq<u8>) -> Seq<u8>;

/// The Ed25519 signature bytes over `data` under a 32-byte secret key.
/// Ed25519 signing is deterministic (RFC 8032), so this is a function of
/// its arguments.
pub uninterp spec fn ed25519_sig_of(secret: Seq<u8>, data: Seq<u8>) -> Seq<u8>;

/// The BLS signature bytes over `data` under the secret key whose public
/// key bytes are `key`. A BLS public key determines its secret scalar
/// uniquely and signing is deterministic, so this is a function of its
/// arguments.
pub uninterp spec fn bls_sig_of(key: Seq<u8>, data: Seq<u8>) -> Seq<u8>;

/// The BLS signature share bytes over `data` under the secret key share
/// whose public key share bytes are `key`. A BLS public key share
/// determines its secret scalar uniquely and signing is deterministic, so
/// this is a function of its arguments.
pub uninterp spec fn bls_share_sig_of(key: Seq<u8>, data: Seq<u8>) -> Seq<u8>;

/// Wrapper for different public key types, as canonical scheme bytes.
#[derive(Clone, Copy, Eq, PartialEq, Ord, PartialOrd, Hash, Debug)]
pub enum PublicKey {
    /// Ed25519 public key.
    Ed25519([u8; 32]),
    /// BLS public key.
    Bls([u8; 48]),
    /// BLS public key share.
    BlsShare([u8; 48]),
}

/// A signature share, with its index in the combined collection.
#[derive(Clone, Copy, Eq, PartialEq, Ord, PartialOrd, Hash, Debug)]
pub struct SignatureShare {
    /// Index in the combined collection.
    pub index: usize,
    /// Signature share over some data, as canonical scheme bytes.
    pub share: [u8; 96],
}

/// Wrapper for different signature types, as canonical scheme bytes.
#[derive(Clone, Copy, Eq, PartialEq, Ord, PartialOrd, Hash, Debug)]
pub enum Signature {
    /// Ed25519 signature.
    Ed25519([u8; 64]),
    /// BLS signature.
    Bls([u8; 96]),
    /// BLS signature share.
    BlsShare(SignatureShare),
}

/// True when the key and the signature name the same scheme.
pub open spec fn same_scheme(key: PublicKey, sig: Signature) -> bool {
    match (key, sig) {
        (PublicKey::Ed25519(_), Signature::Ed25519(_)) => true,
        (PublicKey::Bls(_), Signature::Bls(_)) => true,
        (PublicKey::BlsShare(_), Signature::BlsShare(_)) => true,
        _ => false,
    }
}

/// The native verdict of the scheme that `key` and `sig` name, on `data`;
/// false when they name different schemes.
pub open spec fn spec_scheme_verifies(key: PublicKey, sig: Signature, data: Seq<u8>) -> bool {
    match (key, sig) {
        (PublicKey::Ed25519(k), Signature::Ed25519(s)) => ed25519_verifies(k@, s@, data),
        (PublicKey::Bls(k), Signature::Bls(s)) => bls_verifies(k@, s@, data),
        (PublicKey::BlsShare(k), Signature::BlsShare(s)) => bls_share_verifies(k@, s.share@, data),
        _ => false,
    }
}

/// Compares two byte arrays for equality.
fn bytes_eq<const N: usize>(a: &[u8; N], b: &[u8; N]) -> (r: bool)
    ensures
        r == (a@ == b@),
{
    let mut i: usize = 0;
    while i < N
        invariant
            0 <= i <= N,
            forall|j: int| 0 <= j < i ==> a@[j] == b@[j],
        decreases N - i,
    {
        if a[i] != b[i] {
            return false;
        }
        i += 1;
    }
    proof {
        assert(a@ =~= b@);
    }
    true
}

impl PublicKey {
    /// Returns the Ed25519 key bytes, if applicable.
    pub fn ed25519(&self) -> (r: Option<[u8; 32]>)
        ensures
            r == (match *self {
                PublicKey::Ed25519(bytes) => Some(bytes),
                _ => None::<[u8; 32]>,
            }),
    {
        if let PublicKey::Ed25519(bytes) = self {
            Some(*bytes)
        } else {
            None
        }
    }

    /// Returns the BLS key bytes, if applicable.
    pub fn bls(&self) -> (r: Option<[u8; 48]>)
        ensures
            r == (match *self {
                PublicKey::Bls(bytes) => Some(bytes),
                _ => None::<[u8; 48]>,
            }),
    {
        if let PublicKey::Bls(bytes) = self {
            Some(*bytes)
        } else {
            None
        }
    }

    /// Returns the BLS key share bytes, if applicable.
    pub fn bls_share(&self) -> (r: Option<[u8; 48]>)
        ensures
            r == (match *self {
                PublicKey::BlsShare(bytes) => Some(bytes),
                _ => None::<[u8; 48]>,
            }),
    {
        if let PublicKey::BlsShare(bytes) = self {
            Some(*bytes)
        } else {
            None
        }
    }

    /// Compares two keys for equality of scheme and bytes.
    pub fn equals(&self, other: &PublicKey) -> (r: bool)
        ensures
            r == (*self == *other),
    {
        match (self, other) {
            (PublicKey::Ed25519(a), PublicKey::Ed25519(b)) => {
                let r = bytes_eq(a, b);
                proof {
                    if a@ == b@ {
                        assert(*a =~= *b);
                    }
                }
                r
            },
            (PublicKey::Bls(a), PublicKey::Bls(b)) => {
                let r = bytes_eq(a, b);
                proof {
                    if a@ == b@ {
                        assert(*a =~= *b);
                    }
                }
                r
            },
            (PublicKey::BlsShare(a), PublicKey::BlsShare(b)) => {
                let r = bytes_eq(a, b);
                proof {
                    if a@ == b@ {
                        assert(*a =~= *b);
                    }
                }
                r
            },
            _ => false,
        }
    }

    /// Returns `Ok(())` iff `signature` names the same scheme as this key
    /// and the scheme's native verification predicate accepts it over
    /// `data`.
    ///
    /// A scheme disagreement is reported as `SigningKeyTypeMismatch`; a
    /// cryptographic failure as `InvalidSignature`; no other outcome
    /// exists.
    pub fn verify(&self, signature: &Signature, data: &[u8]) -> (r: Result<(), Error>)
        ensures
            !same_scheme(*self, *signature) <==> r == Err::<(), Error>(Error::SigningKeyTypeMismatch),
            same_scheme(*self, *signature) ==> (r is Ok <==> spec_scheme_verifies(
                *self,
                *signature,
                data@,
            )),
            same_scheme(*self, *signature) && !spec_scheme_verifies(*self, *signature, data@)
                ==> r == Err::<(), Error>(Error::InvalidSignature),
    {
        let is_valid = match (self, signature) {
            (PublicKey::Ed25519(key), Signature::Ed25519(sig)) => ed25519_verify_bytes(key, sig, data),
            (PublicKey::Bls(key), Signature::Bls(sig)) => bls_verify_bytes(key, sig, data),
            (PublicKey::BlsShare(key), Signature::BlsShare(sig)) => {
                bls_share_verify_bytes(key, &sig.share, data)
            },
            _ => {
                return Err(Error::SigningKeyTypeMismatch);
            },
        };
        if is_valid {
            Ok(())
        } else {
            Err(Error::InvalidSignature)
        }
    }
}

impl Signature {
    /// Returns the BLS signature bytes if this is the BLS variant.
    pub fn into_bls(self) -> (r: Option<[u8; 96]>)
        ensures
            r == (match self {
                Signature::Bls(bytes) => Some(bytes),
                _ => None::<[u8; 96]>,
            }),
    {
        match self {
            Signature::Bls(sig) => Some(sig),
            _ => None,
        }
    }
}

// The scheme secrets can be duplicated; nothing is stated of the copies,
// which only the trusted signing calls below ever read.

/// Relies on `threshold_crypto::SecretKey`'s `Clone`.
pub assume_specification[ <threshold_crypto::SecretKey as Clone>::clone ](
    key: &threshold_crypto::SecretKey,
) -> threshold_crypto::SecretKey;

/// Relies on `threshold_crypto::SecretKeyShare`'s `Clone`.
pub assume_specification[ <threshold_crypto::SecretKeyShare as Clone>::clone ](
    key: &threshold_crypto::SecretKeyShare,
) -> threshold_crypto::SecretKeyShare;

/// Relies on `threshold_crypto::PublicKeySet`'s `Clone`.
pub assume_specification[ <threshold_crypto::PublicKeySet as Clone>::clone ](
    set: &threshold_crypto::PublicKeySet,
) -> threshold_crypto::PublicKeySet;

/// An Ed25519 keypair: the secret key bytes beside the public key bytes
/// derived from them at generation time. The fields are private, so every
/// value comes from `Keypair::new_ed25519` and carries the derived public
/// key.
#[derive(Clone)]
pub struct Ed25519Keypair {
    /// The secret key bytes.
    secret: [u8; 32],
    /// The public key bytes derived from `secret`.
    public: [u8; 32],
}

impl Ed25519Keypair {
    /// The secret key bytes.
    pub closed spec fn spec_secret(self) -> [u8; 32] {
        self.secret
    }

    /// The public key bytes recorded at generation time.
    pub closed spec fn spec_public(self) -> [u8; 32] {
        self.public
    }
}

/// A BLS keypair: the scheme's secret key beside its public key bytes.
/// The fields are private, so every value comes from `Keypair::new_bls`,
/// which records the secret's own public key bytes.
#[derive(Clone)]
pub struct BlsKeypair {
    /// Secret key.
    secret: threshold_crypto::SecretKey,
    /// The public key bytes of `secret`.
    public: [u8; 48],
}

impl BlsKeypair {
    /// The public key bytes recorded at construction.
    pub closed spec fn spec_public(self) -> [u8; 48] {
        self.public
    }
}

/// A BLS keypair share: the share dealt to one member of a threshold
/// group, with its index, its public key share bytes, and the group's
/// public key set. The fields are private, so every value comes from
/// `Keypair::new_bls_share`, which records the share's own public key
/// share bytes.
#[derive(Clone)]
pub struct BlsKeypairShare {
    /// Share index.
    index: usize,
    /// Secret key share.
    secret: threshold_crypto::SecretKeyShare,
    /// The public key share bytes of `secret`.
    public: [u8; 48],
    /// Public key set of the group. Necessary for producing proofs.
    public_key_set: threshold_crypto::PublicKeySet,
}

impl BlsKeypairShare {
    /// The share index.
    pub closed spec fn spec_index(self) -> usize {
        self.index
    }

    /// The secret key share held.
    pub closed spec fn spec_secret(self) -> threshold_crypto::SecretKeyShare {
        self.secret
    }

    /// The public key share bytes recorded at construction.
    pub closed spec fn spec_public(self) -> [u8; 48] {
        self.public
    }

    /// The group's public key set held.
    pub closed spec fn spec_public_key_set(self) -> threshold_crypto::PublicKeySet {
        self.public_key_set
    }

    /// Returns the share index.
    pub fn index(&self) -> (r: usize)
        ensures
            r == self.spec_index(),
    {
        self.index
    }

    /// Returns the group's public key set.
    pub fn public_key_set(&self) -> (r: &threshold_crypto::PublicKeySet)
        ensures
            *r == self.spec_public_key_set(),
    {
        &self.public_key_set
    }
}

/// Wrapper for different keypair types.
#[derive(Clone)]
pub enum Keypair {
    /// Ed25519 keypair.
    Ed25519(Ed25519Keypair),
    /// BLS keypair.
    Bls(BlsKeypair),
    /// BLS keypair share.
    BlsShare(BlsKeypairShare),
}

impl Keypair {
    /// Constructs a random Ed25519 keypair. The recorded public key bytes
    /// are the ones derived from the secret key.
    pub fn new_ed25519() -> (r: Self)
        ensures
            (match r {
                Keypair::Ed25519(keypair) => keypair.spec_public()@ == ed25519_public_of(
                    keypair.spec_secret()@,
                ),
                _ => false,
            }),
    {
        let (secret, public) = ed25519_generate();
        Keypair::Ed25519(Ed25519Keypair { secret, public })
    }

    /// Constructs a random BLS keypair.
    pub fn new_bls() -> (r: Self)
        ensures
            r is Bls,
    {
        let (secret, public) = bls_generate();
        Keypair::Bls(BlsKeypair { secret, public })
    }

    /// Constructs a BLS keypair share from the share dealt to one member of
    /// a threshold group; the share keypair keeps the given secret share
    /// and the group's public key set, under the given index.
    pub fn new_bls_share(
        index: usize,
        secret_share: threshold_crypto::SecretKeyShare,
        public_key_set: threshold_crypto::PublicKeySet,
    ) -> (r: Self)
        ensures
            (match r {
                Keypair::BlsShare(share) => share.spec_index() == index && share.spec_secret()
                    == secret_share && share.spec_public_key_set() == public_key_set,
                _ => false,
            }),
    {
        let public = bls_share_public_bytes(&secret_share);
        Keypair::BlsShare(BlsKeypairShare { index, secret: secret_share, public, public_key_set })
    }

    /// Returns the public key associated with this keypair.
    pub fn public_key(&self) -> (r: PublicKey)
        ensures
            r == (match *self {
                Keypair::Ed25519(keypair) => PublicKey::Ed25519(keypair.spec_public()),
                Keypair::Bls(keypair) => PublicKey::Bls(keypair.spec_public()),
                Keypair::BlsShare(keypair) => PublicKey::BlsShare(keypair.spec_public()),
            }),
    {
        match self {
            Keypair::Ed25519(keypair) => PublicKey::Ed25519(keypair.public),
            Keypair::Bls(keypair) => PublicKey::Bls(keypair.public),
            Keypair::BlsShare(keypair) => PublicKey::BlsShare(keypair.public),
        }
    }

    /// Signs with the underlying keypair. The signature is the scheme's
    /// deterministic signature over `data`, verifies under the keypair's
    /// public key, and, for a share keypair, carries the keypair's own
    /// share index, which must survive unchanged through every later
    /// transformation, because external aggregation logic depends on it to
    /// combine shares correctly.
    pub fn sign(&self, data: &[u8]) -> (r: Signature)
        ensures
            (match *self {
                Keypair::Ed25519(keypair) => (match r {
                    Signature::Ed25519(sig) => sig@ == ed25519_sig_of(
                        keypair.spec_secret()@,
                        data@,
                    ) && ed25519_verifies(ed25519_public_of(keypair.spec_secret()@), sig@, data@),
                    _ => false,
                }),
                Keypair::Bls(keypair) => (match r {
                    Signature::Bls(sig) => sig@ == bls_sig_of(keypair.spec_public()@, data@)
                        && bls_verifies(keypair.spec_public()@, sig@, data@),
                    _ => false,
                }),
                Keypair::BlsShare(keypair) => (match r {
                    Signature::BlsShare(share) => share.index == keypair.spec_index()
                        && share.share@ == bls_share_sig_of(keypair.spec_public()@, data@)
                        && bls_share_verifies(keypair.spec_public()@, share.share@, data@),
                    _ => false,
                }),
            }),
    {
        match self {
            Keypair::Ed25519(keypair) => Signature::Ed25519(ed25519_sign_bytes(keypair, data)),
            Keypair::Bls(keypair) => Signature::Bls(bls_sign_bytes(keypair, data)),
            Keypair::BlsShare(keypair) => {
                let share = bls_share_sign_bytes(keypair, data);
                Signature::BlsShare(SignatureShare { index: keypair.index, share })
            },
        }
    }
}

/// What a payload must provide to be attested: its deterministic,
/// injective canonical byte encoding, over which signatures are produced
/// and verified.
pub trait CanonicalEncoding: Sized {
    /// The canonical bytes of the payload.
    spec fn spec_canonical_bytes(&self) -> Seq<u8>;

    /// Builds the canonical bytes of the payload.
    fn canonical_bytes(&self) -> (r: Vec<u8>)
        ensures
            r@ == self.spec_canonical_bytes(),
    ;
}

/// A signature and the key material verifying it, bound to a payload by
/// re-deriving the payload's canonical byte encoding at verification
/// time.
#[derive(Clone, Copy, PartialEq, Eq, Debug)]
pub struct Proof {
    /// The verifying key, or key share, of the signer.
    pub public_key: PublicKey,
    /// The signature over the payload's canonical bytes.
    pub signature: Signature,
}

impl Proof {
    /// Returns `Ok(())` iff the stored signature names the same scheme as
    /// the stored key and the scheme's native predicate accepts it over
    /// the canonical bytes of `value`.
    pub fn verify<T: CanonicalEncoding>(&self, value: &T) -> (r: Result<(), Error>)
        ensures
            !same_scheme(self.public_key, self.signature) <==> r == Err::<(), Error>(
                Error::SigningKeyTypeMismatch,
            ),
            same_scheme(self.public_key, self.signature) ==> (r is Ok <==> spec_scheme_verifies(
                self.public_key,
                self.signature,
                value.spec_canonical_bytes(),
            )),
            same_scheme(self.public_key, self.signature) && !spec_scheme_verifies(
                self.public_key,
                self.signature,
                value.spec_canonical_bytes(),
            ) ==> r == Err::<(), Error>(Error::InvalidSignature),
    {
        let bytes = value.canonical_bytes();
        self.public_key.verify(&self.signature, bytes.as_slice())
    }
}

/// A payload together with an attestation over it. A consumer must treat
/// the value as authentic only after `verify` succeeds.
#[derive(Clone, Copy, PartialEq, Eq, Debug)]
pub struct Proven<T> {
    /// The attested payload.
    pub value: T,
    /// The attestation over the payload's canonical bytes.
    pub attestation: Proof,
}

impl<T: CanonicalEncoding> Proven<T> {
    /// Returns `Ok(())` iff the attestation verifies against the held
    /// value.
    pub fn verify(&self) -> (r: Result<(), Error>)
        ensures
            !same_scheme(self.attestation.public_key, self.attestation.signature) <==> r == Err::<
                (),
                Error,
            >(Error::SigningKeyTypeMismatch),
            same_scheme(self.attestation.public_key, self.attestation.signature) ==> (r is Ok
                <==> spec_scheme_verifies(
                self.attestation.public_key,
                self.attestation.signature,
                self.value.spec_canonical_bytes(),
            )),
            same_scheme(self.attestation.public_key, self.attestation.signature)
                && !spec_scheme_verifies(
                self.attestation.public_key,
                self.attestation.signature,
                self.value.spec_canonical_bytes(),
            ) ==> r == Err::<(), Error>(Error::InvalidSignature),
    {
        self.attestation.verify(&self.value)
    }
}

/// The 32 bytes that place a key in XOR space: an Ed25519 key's own
/// bytes, or the leading 32 of a BLS key's 48.
pub open spec fn spec_xor_name_bytes(key: PublicKey) -> Seq<u8> {
    match key {
        PublicKey::Ed25519(b) => b@,
        PublicKey::Bls(b) => b@.take(32),
        PublicKey::BlsShare(b) => b@.take(32),
    }
}

impl crate::XorName {
    /// Projects a public key onto XOR space, so that the section nearest
    /// to the resulting name is responsible for the key.
    pub fn from_public_key(key: &PublicKey) -> (r: crate::XorName)
        ensures
            r.0@ == spec_xor_name_bytes(*key),
    {
        match key {
            PublicKey::Ed25519(b) => crate::XorName(*b),
            PublicKey::Bls(b) => crate::XorName(first_32(b)),
            PublicKey::BlsShare(b) => crate::XorName(first_32(b)),
        }
    }
}

/// Copies the first 32 bytes of a 48-byte array.
fn first_32(bytes: &[u8; 48]) -> (r: [u8; 32])
    ensures
        r@ == bytes@.take(32),
{
    let mut out: [u8; 32] = [0u8; 32];
    let mut i: usize = 0;
    while i < 32
        invariant
            0 <= i <= 32,
            forall|j: int| 0 <= j < i ==> out@[j] == bytes@[j],
        decreases 32 - i,
    {
        out[i] = bytes[i];
        i += 1;
    }
    proof {
        assert(out@ =~= bytes@.take(32));
    }
    out
}

// ---------------------------------------------------------------------------
// Trusted boundary: calls into the scheme implementations. The named
// predicates above stand for the schemes' own deterministic verdicts; the
// clauses below state only what the schemes' sources and documentation
// plainly give: verification is a function of the bytes, signing is
// deterministic, and a freshly produced signature verifies under the
// matching public key.
// ---------------------------------------------------------------------------

/// Relies on rand's `OsRng` and `ed25519_dalek::Keypair::generate`; returns
/// the generated secret key bytes beside the public key bytes dalek
/// derives from that same secret (`SecretKey::to_bytes`,
/// `PublicKey::to_bytes`).
#[verifier::external_body]
fn ed25519_generate() -> (r: ([u8; 32], [u8; 32]))
    ensures
        r.1@ == ed25519_public_of(r.0@),
{
    let mut rng = rand::rngs::OsRng;
    let pair = ed25519_dalek::Keypair::generate(&mut rng);
    (pair.secret.to_bytes(), pair.public.to_bytes())
}

/// Relies on `threshold_crypto::SecretKey::random` and
/// `SecretKey::public_key`; returns the generated secret key beside its
/// own public key bytes (`threshold_crypto::PublicKey::to_bytes`).
#[verifier::external_body]
fn bls_generate() -> (r: (threshold_crypto::SecretKey, [u8; 48]))
{
    let secret = threshold_crypto::SecretKey::random();
    let public = secret.public_key().to_bytes();
    (secret, public)
}

/// Relies on `threshold_crypto::SecretKeyShare::public_key_share` and
/// `PublicKeyShare::to_bytes`: the public key share bytes of a secret share.
#[verifier::external_body]
fn bls_share_public_bytes(secret: &threshold_crypto::SecretKeyShare) -> (r: [u8; 48])
{
    secret.public_key_share().to_bytes()
}

/// Relies on `ed25519_dalek::SecretKey::from_bytes` (which accepts any 32
/// bytes), `ExpandedSecretKey::sign` and `Signature::to_bytes`: Ed25519
/// signing is deterministic (RFC 8032) and a signature it produces
/// verifies under the public key derived from the same secret; the public
/// key is re-derived from the secret here, independent of the keypair's
/// recorded bytes.
#[verifier::external_body]
fn ed25519_sign_bytes(keypair: &Ed25519Keypair, data: &[u8]) -> (r: [u8; 64])
    ensures
        r@ == ed25519_sig_of(keypair.spec_secret()@, data@),
        ed25519_verifies(ed25519_public_of(keypair.spec_secret()@), r@, data@),
{
    let secret = ed25519_dalek::SecretKey::from_bytes(&keypair.secret).unwrap();
    let public = ed25519_dalek::PublicKey::from(&secret);
    let expanded = ed25519_dalek::ExpandedSecretKey::from(&secret);
    expanded.sign(data, &public).to_bytes()
}

/// Relies on `threshold_crypto::SecretKey::sign` and
/// `Signature::to_bytes`: BLS signing is deterministic and a signature it
/// produces verifies under the secret's public key. The clauses speak of
/// the keypair's recorded public key bytes, which are those of this very
/// secret: the fields are private and `Keypair::new_bls` is the sole
/// constructor, recording `SecretKey::public_key().to_bytes()`.
#[verifier::external_body]
fn bls_sign_bytes(keypair: &BlsKeypair, data: &[u8]) -> (r: [u8; 96])
    ensures
        r@ == bls_sig_of(keypair.spec_public()@, data@),
        bls_verifies(keypair.spec_public()@, r@, data@),
{
    keypair.secret.sign(data).to_bytes()
}

/// Relies on `threshold_crypto::SecretKeyShare::sign` and
/// `SignatureShare::to_bytes`: share signing is deterministic and a share
/// it produces verifies under the share's public key share. The clauses
/// speak of the keypair's recorded public key share bytes, which are those
/// of this very share: the fields are private and `Keypair::new_bls_share`
/// is the sole constructor, recording
/// `SecretKeyShare::public_key_share().to_bytes()`.
#[verifier::external_body]
fn bls_share_sign_bytes(keypair: &BlsKeypairShare, data: &[u8]) -> (r: [u8; 96])
    ensures
        r@ == bls_share_sig_of(keypair.spec_public()@, data@),
        bls_share_verifies(keypair.spec_public()@, r@, data@),
{
    keypair.secret.sign(data).to_bytes()
}

/// Relies on `ed25519_dalek::PublicKey::from_bytes`,
/// `ed25519_dalek::Signature::from_bytes` and `PublicKey::verify` (through
/// the `Verifier` trait): the scheme's deterministic verdict on the bytes,
/// with undecodable bytes verifying nothing.
#[verifier::external_body]
fn ed25519_verify_bytes(key: &[u8; 32], sig: &[u8; 64], data: &[u8]) -> (r: bool)
    ensures
        r == ed25519_verifies(key@, sig@, data@),
{
    let key = match ed25519_dalek::PublicKey::from_bytes(key) {
        Ok(key) => key,
        Err(_) => return false,
    };
    let sig = match ed25519_dalek::Signature::from_bytes(sig) {
        Ok(sig) => sig,
        Err(_) => return false,
    };
    key.verify(data, &sig).is_ok()
}

/// Relies on `threshold_crypto::PublicKey::from_bytes`,
/// `threshold_crypto::Signature::from_bytes` and `PublicKey::verify`: the
/// scheme's deterministic verdict on the bytes, with undecodable bytes
/// verifying nothing.
#[verifier::external_body]
fn bls_verify_bytes(key: &[u8; 48], sig: &[u8; 96], data: &[u8]) -> (r: bool)
    ensures
        r == bls_verifies(key@, sig@, data@),
{
    let key = match threshold_crypto::PublicKey::from_bytes(key) {
        Ok(key) => key,
        Err(_) => return false,
    };
    let sig = match threshold_crypto::Signature::from_bytes(sig) {
        Ok(sig) => sig,
        Err(_) => return false,
    };
    key.verify(&sig, data)
}

/// Relies on `threshold_crypto::PublicKeyShare::from_bytes`,
/// `threshold_crypto::SignatureShare::from_bytes` and
/// `PublicKeyShare::verify`: the scheme's deterministic verdict on the
/// bytes, with undecodable bytes verifying nothing.
#[verifier::external_body]
fn bls_share_verify_bytes(key: &[u8; 48], sig: &[u8; 96], data: &[u8]) -> (r: bool)
    ensures
        r == bls_share_verifies(key@, sig@, data@),
{
    let key = match threshold_crypto::PublicKeyShare::from_bytes(key) {
        Ok(key) => key,
        Err(_) => return false,
    };
    let sig = match threshold_crypto::SignatureShare::from_bytes(sig) {
        Ok(sig) => sig,
        Err(_) => return false,
    };
    key.verify(&sig, data)
}

} // verus!
