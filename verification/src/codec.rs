//! Canonical byte encoding and z-base-32 text encoding.
//!
//! Every structure of this crate has a deterministic, injective byte
//! encoding: identical logical values give identical bytes. Signatures are
//! produced and verified over these bytes, and values compared across
//! replicas compare by them. On top of the byte encoding, public keys, XOR
//! names and sequence addresses expose a lossless text encoding in the
//! z-base-32 alphabet for human-facing configuration and logging use.

use vstd::prelude::*;
use vstd::bytes::{spec_u64_to_le_bytes, u64_from_le_bytes, u64_to_le_bytes};
use crate::errors::Error;
use crate::keys::PublicKey;
use crate::shared_data::{Address, Kind};
use crate::XorName;

verus! {

broadcast use vstd::array::group_array_axioms;

/// The z-base-32 text encoding of a byte string, as the multibase scheme
/// spells it. What it looks like is a matter for the encoder; the crate
/// relies only on the encoding being a function of the bytes and on its
/// decoder inverting it.
pub uninterp spec fn zb32_of(bytes: Seq<u8>) -> Seq<char>;

/// Relies on `multibase::encode` with the z-base-32 base: the encoding
/// depends on the input bytes alone.
#[verifier::external_body]
fn zb32_encode(bytes: &Vec<u8>) -> (r: String)
    ensures
        r@ == zb32_of(bytes@),
{
    multibase::encode(multibase::Base::Base32z, bytes)
}

/// Relies on `multibase::decode`: the decoder accepts exactly the strings
/// the encoder produces and returns the bytes it was given, so a string
/// that is the encoding of some byte string decodes to those bytes.
#[verifier::external_body]
fn zb32_decode(encoded: &str) -> (r: Option<Vec<u8>>)
    ensures
        forall|b: Seq<u8>| encoded@ == zb32_of(b) ==> r is Some && r->0@ == b,
{
    match multibase::decode(encoded) {
        Ok((multibase::Base::Base32z, bytes)) => Some(bytes),
        _ => None,
    }
}

/// The scheme tag leading the canonical bytes of an Ed25519 key.
pub const KEY_TAG_ED25519: u8 = 0;

/// The scheme tag leading the canonical bytes of a BLS key.
pub const KEY_TAG_BLS: u8 = 1;

/// The scheme tag leading the canonical bytes of a BLS key share.
pub const KEY_TAG_BLS_SHARE: u8 = 2;

/// The canonical bytes of a public key: one scheme tag, then the key
/// bytes of the scheme.
pub open spec fn spec_key_bytes(key: PublicKey) -> Seq<u8> {
    match key {
        PublicKey::Ed25519(b) => seq![KEY_TAG_ED25519] + b@,
        PublicKey::Bls(b) => seq![KEY_TAG_BLS] + b@,
        PublicKey::BlsShare(b) => seq![KEY_TAG_BLS_SHARE] + b@,
    }
}

/// The canonical encoding of public keys is injective: equal bytes mean
/// equal keys. Equality, ordering and hashing of keys therefore agree
/// with comparison of their canonical bytes.
pub proof fn lemma_key_bytes_injective(a: PublicKey, b: PublicKey)
    requires
        spec_key_bytes(a) == spec_key_bytes(b),
    ensures
        a == b,
{
    let ab = spec_key_bytes(a);
    let bb = spec_key_bytes(b);
    assert(ab[0] == bb[0]);
    match (a, b) {
        (PublicKey::Ed25519(x), PublicKey::Ed25519(y)) => {
            assert forall|i: int| 0 <= i < 32 implies x@[i] == y@[i] by {
                assert(ab[i + 1] == bb[i + 1]);
            }
            assert(x =~= y);
        },
        (PublicKey::Bls(x), PublicKey::Bls(y)) => {
            assert forall|i: int| 0 <= i < 48 implies x@[i] == y@[i] by {
                assert(ab[i + 1] == bb[i + 1]);
            }
            assert(x =~= y);
        },
        (PublicKey::BlsShare(x), PublicKey::BlsShare(y)) => {
            assert forall|i: int| 0 <= i < 48 implies x@[i] == y@[i] by {
                assert(ab[i + 1] == bb[i + 1]);
            }
            assert(x =~= y);
        },
        _ => {},
    }
}


/// The canonical bytes of a key are self-delimiting: the leading scheme
/// tag determines their length.
pub proof fn lemma_key_bytes_shape(k: PublicKey)
    ensures
        spec_key_bytes(k).len() >= 1,
        spec_key_bytes(k)[0] == KEY_TAG_ED25519 || spec_key_bytes(k)[0] == KEY_TAG_BLS
            || spec_key_bytes(k)[0] == KEY_TAG_BLS_SHARE,
        spec_key_bytes(k)[0] == KEY_TAG_ED25519 ==> spec_key_bytes(k).len() == 33,
        spec_key_bytes(k)[0] != KEY_TAG_ED25519 ==> spec_key_bytes(k).len() == 49,
{
    match k {
        PublicKey::Ed25519(b) => {
            assert(spec_key_bytes(k)[0] == KEY_TAG_ED25519);
        },
        PublicKey::Bls(b) => {
            assert(spec_key_bytes(k)[0] == KEY_TAG_BLS);
        },
        PublicKey::BlsShare(b) => {
            assert(spec_key_bytes(k)[0] == KEY_TAG_BLS_SHARE);
        },
    }
}

/// Copies `N` bytes starting at `offset` into an array.
fn read_array<const N: usize>(bytes: &Vec<u8>, offset: usize) -> (r: [u8; N])
    requires
        offset + N <= bytes@.len(),
    ensures
        r@ == bytes@.subrange(offset as int, offset + N),
{
    let total = bytes.len();
    let mut out: [u8; N] = [0u8; N];
    let mut i: usize = 0;
    while i < N
        invariant
            0 <= i <= N,
            offset + N <= total,
            total == bytes@.len(),
            forall|j: int| 0 <= j < i ==> out@[j] == bytes@[offset + j],
        decreases N - i,
    {
        out[i] = bytes[offset + i];
        i += 1;
    }
    proof {
        assert(out@ =~= bytes@.subrange(offset as int, offset + N));
    }
    out
}

/// Appends the contents of an array to a byte vector.
pub fn append_array<const N: usize>(out: &mut Vec<u8>, bytes: &[u8; N])
    ensures
        final(out)@ == old(out)@ + bytes@,
{
    let mut i: usize = 0;
    while i < N
        invariant
            0 <= i <= N,
            out@ == old(out)@ + bytes@.take(i as int),
        decreases N - i,
    {
        let ghost pre = out@;
        out.push(bytes[i]);
        proof {
            assert(out@ =~= old(out)@ + bytes@.take(i + 1int));
        }
        i += 1;
    }
    proof {
        assert(bytes@.take(N as int) =~= bytes@);
        assert(out@ =~= old(out)@ + bytes@);
    }
}

/// Builds the canonical bytes of a public key.
pub fn key_to_bytes(key: &PublicKey) -> (r: Vec<u8>)
    ensures
        r@ == spec_key_bytes(*key),
{
    let mut out: Vec<u8> = Vec::new();
    match key {
        PublicKey::Ed25519(b) => {
            out.push(KEY_TAG_ED25519);
            append_array(&mut out, b);
        },
        PublicKey::Bls(b) => {
            out.push(KEY_TAG_BLS);
            append_array(&mut out, b);
        },
        PublicKey::BlsShare(b) => {
            out.push(KEY_TAG_BLS_SHARE);
            append_array(&mut out, b);
        },
    }
    proof {
        assert(out@ =~= spec_key_bytes(*key));
    }
    out
}

/// Parses canonical public key bytes; accepts exactly the byte strings
/// `spec_key_bytes` produces.
pub fn key_from_bytes(bytes: &Vec<u8>) -> (r: Option<PublicKey>)
    ensures
        r is Some ==> spec_key_bytes(r->0) == bytes@,
        r is None ==> forall|k: PublicKey| spec_key_bytes(k) != bytes@,
{
    proof {
        assert forall|k: PublicKey| #[trigger] spec_key_bytes(k)[0int] == KEY_TAG_ED25519
            && spec_key_bytes(k).len() == 33 || spec_key_bytes(k)[0int] == KEY_TAG_BLS
            && spec_key_bytes(k).len() == 49 || spec_key_bytes(k)[0int] == KEY_TAG_BLS_SHARE
            && spec_key_bytes(k).len() == 49 by {
            match k {
                PublicKey::Ed25519(b) => {
                    assert(spec_key_bytes(k)[0int] == KEY_TAG_ED25519);
                },
                PublicKey::Bls(b) => {
                    assert(spec_key_bytes(k)[0int] == KEY_TAG_BLS);
                },
                PublicKey::BlsShare(b) => {
                    assert(spec_key_bytes(k)[0int] == KEY_TAG_BLS_SHARE);
                },
            }
        }
    }
    if bytes.len() == 0 {
        return None;
    }
    let tag = bytes[0];
    if tag == KEY_TAG_ED25519 && bytes.len() == 33 {
        let key = PublicKey::Ed25519(read_array::<32>(bytes, 1));
        proof {
            assert(spec_key_bytes(key) =~= bytes@);
        }
        Some(key)
    } else if tag == KEY_TAG_BLS && bytes.len() == 49 {
        let key = PublicKey::Bls(read_array::<48>(bytes, 1));
        proof {
            assert(spec_key_bytes(key) =~= bytes@);
        }
        Some(key)
    } else if tag == KEY_TAG_BLS_SHARE && bytes.len() == 49 {
        let key = PublicKey::BlsShare(read_array::<48>(bytes, 1));
        proof {
            assert(spec_key_bytes(key) =~= bytes@);
        }
        Some(key)
    } else {
        None
    }
}

impl PublicKey {
    /// Returns the key's canonical bytes encoded in z-base-32.
    pub fn encode_to_zbase32(&self) -> (r: String)
        ensures
            r@ == zb32_of(spec_key_bytes(*self)),
    {
        let bytes = key_to_bytes(self);
        zb32_encode(&bytes)
    }

    /// Creates a key from a z-base-32 encoded string: the inverse of
    /// `encode_to_zbase32`, for every key.
    pub fn decode_from_zbase32(encoded: &str) -> (r: Result<PublicKey, Error>)
        ensures
            forall|k: PublicKey| encoded@ == zb32_of(spec_key_bytes(k)) ==> r == Ok::<
                PublicKey,
                Error,
            >(k),
    {
        let bytes = match zb32_decode(encoded) {
            Some(bytes) => bytes,
            None => {
                return Err(Error::FailedToParse);
            },
        };
        let r = match key_from_bytes(&bytes) {
            Some(key) => Ok(key),
            None => Err(Error::FailedToParse),
        };
        proof {
            assert forall|k: PublicKey| encoded@ == zb32_of(spec_key_bytes(k)) implies r == Ok::<
                PublicKey,
                Error,
            >(k) by {
                assert(bytes@ == spec_key_bytes(k));
                lemma_key_bytes_injective(r->Ok_0, k);
            }
        }
        r
    }
}

impl XorName {
    /// Returns the name's bytes encoded in z-base-32.
    pub fn encode_to_zbase32(&self) -> (r: String)
        ensures
            r@ == zb32_of(self.0@),
    {
        let mut bytes: Vec<u8> = Vec::new();
        append_array(&mut bytes, &self.0);
        proof {
            assert(bytes@ =~= self.0@);
        }
        zb32_encode(&bytes)
    }

    /// Creates a name from a z-base-32 encoded string: the inverse of
    /// `encode_to_zbase32`, for every name.
    pub fn decode_from_zbase32(encoded: &str) -> (r: Result<XorName, Error>)
        ensures
            forall|n: XorName| encoded@ == zb32_of(n.0@) ==> r == Ok::<XorName, Error>(n),
    {
        let bytes = match zb32_decode(encoded) {
            Some(bytes) => bytes,
            None => {
                return Err(Error::FailedToParse);
            },
        };
        if bytes.len() != 32 {
            proof {
                assert forall|n: XorName| encoded@ != zb32_of(n.0@) by {
                    if encoded@ == zb32_of(n.0@) {
                        assert(bytes@ == n.0@);
                    }
                }
            }
            return Err(Error::FailedToParse);
        }
        let name = XorName(read_array::<32>(&bytes, 0));
        proof {
            assert forall|n: XorName| encoded@ == zb32_of(n.0@) implies name == n by {
                assert(bytes@ == n.0@);
                assert(name.0@ =~= bytes@.subrange(0int, 32int));
                assert(name.0@ =~= n.0@);
                assert(name.0 =~= n.0);
            }
        }
        Ok(name)
    }
}

/// The kind tag leading the canonical bytes of an address.
pub open spec fn spec_kind_tag(kind: Kind) -> u8 {
    match kind {
        Kind::PublicSentried => 0,
        Kind::Public => 1,
        Kind::PrivateSentried => 2,
        Kind::Private => 3,
    }
}

/// The canonical bytes of an address: one kind tag, the 32 name bytes,
/// then the type tag in eight little-endian bytes.
pub open spec fn spec_address_bytes(address: Address) -> Seq<u8> {
    seq![spec_kind_tag(address.spec_kind())] + address.spec_name().0@ + spec_u64_to_le_bytes(
        address.spec_tag(),
    )
}

/// The canonical encoding of addresses is injective: equal bytes mean
/// equal addresses.
pub proof fn lemma_address_bytes_injective(a: Address, b: Address)
    requires
        spec_address_bytes(a) == spec_address_bytes(b),
    ensures
        a == b,
{
    vstd::bytes::lemma_auto_spec_u64_to_from_le_bytes();
    let ab = spec_address_bytes(a);
    let bb = spec_address_bytes(b);
    assert(ab[0] == bb[0]);
    assert(a.spec_kind() == b.spec_kind());
    assert forall|i: int| 0 <= i < 32 implies a.spec_name().0@[i] == b.spec_name().0@[i] by {
        assert(ab[i + 1] == bb[i + 1]);
    }
    assert(a.spec_name().0 =~= b.spec_name().0);
    assert forall|i: int| 0 <= i < 8 implies spec_u64_to_le_bytes(a.spec_tag())[i]
        == spec_u64_to_le_bytes(b.spec_tag())[i] by {
        assert(ab[33 + i] == bb[33 + i]);
    }
    assert(spec_u64_to_le_bytes(a.spec_tag()) =~= spec_u64_to_le_bytes(b.spec_tag()));
    assert(a.spec_tag() == b.spec_tag());
    match a {
        Address::PublicSentried { name, tag } => {
            assert(b == Address::PublicSentried { name, tag });
        },
        Address::Public { name, tag } => {
            assert(b == Address::Public { name, tag });
        },
        Address::PrivateSentried { name, tag } => {
            assert(b == Address::PrivateSentried { name, tag });
        },
        Address::Private { name, tag } => {
            assert(b == Address::Private { name, tag });
        },
    }
}

impl Address {
    /// Returns the address's canonical bytes encoded in z-base-32.
    pub fn encode_to_zbase32(&self) -> (r: String)
        ensures
            r@ == zb32_of(spec_address_bytes(*self)),
    {
        proof {
            vstd::bytes::lemma_auto_spec_u64_to_from_le_bytes();
        }
        let mut bytes: Vec<u8> = Vec::new();
        let kind_tag: u8 = match self.kind() {
            Kind::PublicSentried => 0,
            Kind::Public => 1,
            Kind::PrivateSentried => 2,
            Kind::Private => 3,
        };
        bytes.push(kind_tag);
        let name = self.name();
        append_array(&mut bytes, &name.0);
        let mut tag_bytes = u64_to_le_bytes(self.tag());
        bytes.append(&mut tag_bytes);
        proof {
            assert(bytes@ =~= spec_address_bytes(*self));
        }
        zb32_encode(&bytes)
    }

    /// Creates an address from a z-base-32 encoded string: the inverse of
    /// `encode_to_zbase32`, for every address.
    pub fn decode_from_zbase32(encoded: &str) -> (r: Result<Address, Error>)
        ensures
            forall|a: Address| encoded@ == zb32_of(spec_address_bytes(a)) ==> r == Ok::<
                Address,
                Error,
            >(a),
    {
        proof {
            vstd::bytes::lemma_auto_spec_u64_to_from_le_bytes();
        }
        let bytes = match zb32_decode(encoded) {
            Some(bytes) => bytes,
            None => {
                return Err(Error::FailedToParse);
            },
        };
        let parsed = Self::address_from_bytes(&bytes);
        let r = match parsed {
            Some(address) => Ok(address),
            None => Err(Error::FailedToParse),
        };
        proof {
            assert forall|a: Address| encoded@ == zb32_of(spec_address_bytes(a)) implies r == Ok::<
                Address,
                Error,
            >(a) by {
                assert(bytes@ == spec_address_bytes(a));
                lemma_address_bytes_injective(r->Ok_0, a);
            }
        }
        r
    }

    /// Parses canonical address bytes; accepts exactly the byte strings
    /// `spec_address_bytes` produces.
    fn address_from_bytes(bytes: &Vec<u8>) -> (r: Option<Address>)
        ensures
            r is Some ==> spec_address_bytes(r->0) == bytes@,
            r is None ==> forall|a: Address| spec_address_bytes(a) != bytes@,
    {
        proof {
            vstd::bytes::lemma_auto_spec_u64_to_from_le_bytes();
            assert forall|a: Address| #[trigger] spec_address_bytes(a).len() == 41
                && spec_kind_tag(a.spec_kind()) < 4 by {
                assert(spec_u64_to_le_bytes(a.spec_tag()).len() == 8);
            }
        }
        if bytes.len() != 41 {
            return None;
        }
        let kind_tag = bytes[0];
        let kind = match kind_tag {
            0u8 => Kind::PublicSentried,
            1u8 => Kind::Public,
            2u8 => Kind::PrivateSentried,
            3u8 => Kind::Private,
            _ => {
                proof {
                    assert forall|a: Address| spec_address_bytes(a) != bytes@ by {
                        if spec_address_bytes(a) == bytes@ {
                            assert(spec_address_bytes(a)[0int] == spec_kind_tag(a.spec_kind()));
                        }
                    }
                }
                return None;
            },
        };
        let name = XorName(read_array::<32>(bytes, 1));
        let tag_array = read_array::<8>(bytes, 33);
        let tag_slice = tag_array.as_slice();
        let tag = u64_from_le_bytes(tag_slice);
        let address = Address::from_kind(kind, name, tag);
        proof {
            assert(tag_slice@ =~= bytes@.subrange(33int, 41int));
            assert(spec_u64_to_le_bytes(tag) =~= bytes@.subrange(33int, 41int));
            assert(spec_address_bytes(address) =~= bytes@);
        }
        Some(address)
    }
}

} // verus!
