//! Shared building blocks of the sequence structure: relative indices and
//! their resolution against growing logs, addresses, owners and users.

use vstd::prelude::*;
use crate::XorName;

verus! {

/// A position in a log, either relative to its start or to its end.
#[derive(Clone, Copy, PartialEq, Eq, Structural, Debug, Hash)]
pub enum Index {
    /// An offset counted from the first entry.
    FromStart(u64),
    /// An offset counted back from one past the last entry, so that
    /// `FromEnd(0)` denotes the current end of the log.
    FromEnd(u64),
}

/// What a relative index denotes against a log of length `len`:
/// `FromStart(n)` resolves to `n` iff `n <= len`; `FromEnd(n)` resolves to
/// `len - n` iff `n <= len`; anything beyond the length resolves to nothing.
pub open spec fn resolved_index(idx: Index, len: int) -> Option<int> {
    match idx {
        Index::FromStart(n) => if n <= len {
            Some(n as int)
        } else {
            None
        },
        Index::FromEnd(n) => if n <= len {
            Some(len - n)
        } else {
            None
        },
    }
}

/// What a relative range denotes against a log of length `len`: both bounds
/// must resolve and the start must not lie after the end. Equal bounds give
/// a valid empty range.
pub open spec fn resolved_range(start: Index, end: Index, len: int) -> Option<(int, int)> {
    match (resolved_index(start, len), resolved_index(end, len)) {
        (Some(s), Some(e)) => if s <= e {
            Some((s, e))
        } else {
            None
        },
        _ => None,
    }
}

/// Translates a relative position into an absolute offset against a log of
/// length `len`, refusing positions beyond the length (no wraparound).
pub fn to_absolute_index(idx: Index, len: usize) -> (r: Option<usize>)
    ensures
        r is Some <==> resolved_index(idx, len as int) is Some,
        r is Some ==> r->0 as int == resolved_index(idx, len as int)->0,
{
    match idx {
        Index::FromStart(n) => {
            if n <= len as u64 {
                Some(n as usize)
            } else {
                None
            }
        },
        Index::FromEnd(n) => {
            if n <= len as u64 {
                Some(len - n as usize)
            } else {
                None
            }
        },
    }
}

/// Translates a pair of relative positions into an absolute range against a
/// log of length `len`; fails if either bound fails to resolve or if the
/// start lies after the end.
pub fn to_absolute_range(start: Index, end: Index, len: usize) -> (r: Option<(usize, usize)>)
    ensures
        r is Some <==> resolved_range(start, end, len as int) is Some,
        r is Some ==> ({
            let rr = (resolved_range(start, end, len as int))->0;
            (r->0).0 as int == rr.0 && (r->0).1 as int == rr.1
        }),
        r is Some ==> (r->0).0 <= (r->0).1 <= len,
{
    let s = match to_absolute_index(start, len) {
        Some(s) => s,
        None => {
            return None;
        },
    };
    let e = match to_absolute_index(end, len) {
        Some(e) => e,
        None => {
            return None;
        },
    };
    if s <= e {
        Some((s, e))
    } else {
        None
    }
}

/// Whether a sequence is publicly readable, and whether appends are
/// order-enforced (sentried).
#[derive(Clone, Copy, PartialEq, Eq, Structural, Debug, Hash)]
pub enum Kind {
    /// Publicly readable, order-enforced appends.
    PublicSentried,
    /// Publicly readable, order-free appends.
    Public,
    /// Private, order-enforced appends.
    PrivateSentried,
    /// Private, order-free appends.
    Private,
}

impl Kind {
    /// True when every read-class request is granted unconditionally.
    pub open spec fn spec_is_public(self) -> bool {
        self == Kind::PublicSentried || self == Kind::Public
    }

    /// True when nothing is granted until an owner exists.
    pub open spec fn spec_is_private(self) -> bool {
        !self.spec_is_public()
    }

    /// True when appends must supply the expected next index.
    pub open spec fn spec_is_sentried(self) -> bool {
        self == Kind::PublicSentried || self == Kind::PrivateSentried
    }

    /// Returns true if every read-class request is granted unconditionally.
    pub fn is_public(self) -> (r: bool)
        ensures
            r == self.spec_is_public(),
    {
        matches!(self, Kind::PublicSentried | Kind::Public)
    }

    /// Returns true if nothing is granted until an owner exists.
    pub fn is_private(self) -> (r: bool)
        ensures
            r == self.spec_is_private(),
    {
        !self.is_public()
    }

    /// Returns true if appends must supply the expected next index.
    pub fn is_sentried(self) -> (r: bool)
        ensures
            r == self.spec_is_sentried(),
    {
        matches!(self, Kind::PublicSentried | Kind::PrivateSentried)
    }
}

/// The immutable identity of a sequence: visibility and ordering
/// enforcement, a 256-bit XOR name, and a 64-bit type tag. Fixed at
/// creation.
#[derive(Clone, Copy, PartialEq, Eq, Debug, Hash)]
pub enum Address {
    /// A publicly readable, order-enforced sequence.
    PublicSentried { name: XorName, tag: u64 },
    /// A publicly readable, order-free sequence.
    Public { name: XorName, tag: u64 },
    /// A private, order-enforced sequence.
    PrivateSentried { name: XorName, tag: u64 },
    /// A private, order-free sequence.
    Private { name: XorName, tag: u64 },
}

impl Address {
    /// The visibility and ordering classification of this address.
    pub fn kind(&self) -> (r: Kind)
        ensures
            r == self.spec_kind(),
    {
        match self {
            Address::PublicSentried { .. } => Kind::PublicSentried,
            Address::Public { .. } => Kind::Public,
            Address::PrivateSentried { .. } => Kind::PrivateSentried,
            Address::Private { .. } => Kind::Private,
        }
    }

    /// The classification of this address, at the specification level.
    pub open spec fn spec_kind(self) -> Kind {
        match self {
            Address::PublicSentried { .. } => Kind::PublicSentried,
            Address::Public { .. } => Kind::Public,
            Address::PrivateSentried { .. } => Kind::PrivateSentried,
            Address::Private { .. } => Kind::Private,
        }
    }

    /// The XOR name of this address, at the specification level.
    pub open spec fn spec_name(self) -> XorName {
        match self {
            Address::PublicSentried { name, .. } => name,
            Address::Public { name, .. } => name,
            Address::PrivateSentried { name, .. } => name,
            Address::Private { name, .. } => name,
        }
    }

    /// The type tag of this address, at the specification level.
    pub open spec fn spec_tag(self) -> u64 {
        match self {
            Address::PublicSentried { tag, .. } => tag,
            Address::Public { tag, .. } => tag,
            Address::PrivateSentried { tag, .. } => tag,
            Address::Private { tag, .. } => tag,
        }
    }

    /// The XOR name of this address.
    pub fn name(&self) -> (r: XorName)
        ensures
            r == self.spec_name(),
    {
        match self {
            Address::PublicSentried { name, .. } => *name,
            Address::Public { name, .. } => *name,
            Address::PrivateSentried { name, .. } => *name,
            Address::Private { name, .. } => *name,
        }
    }

    /// The type tag of this address.
    pub fn tag(&self) -> (r: u64)
        ensures
            r == self.spec_tag(),
    {
        match self {
            Address::PublicSentried { tag, .. } => *tag,
            Address::Public { tag, .. } => *tag,
            Address::PrivateSentried { tag, .. } => *tag,
            Address::Private { tag, .. } => *tag,
        }
    }

    /// Builds the address of the given kind.
    pub fn from_kind(kind: Kind, name: XorName, tag: u64) -> (r: Address)
        ensures
            r.spec_kind() == kind,
            r.spec_name() == name,
            r.spec_tag() == tag,
    {
        match kind {
            Kind::PublicSentried => Address::PublicSentried { name, tag },
            Kind::Public => Address::Public { name, tag },
            Kind::PrivateSentried => Address::PrivateSentried { name, tag },
            Kind::Private => Address::Private { name, tag },
        }
    }
}

/// One entry of the ownership history: the owning key together with the
/// data and permission history lengths observed when the entry was made (a
/// causal snapshot reference).
#[derive(Clone, Copy, PartialEq, Eq, Debug, Hash)]
pub struct Owner {
    /// The key owning the sequence from this entry on.
    pub public_key: crate::keys::PublicKey,
    /// The data log length at the moment this entry was appended.
    pub expected_data_index: u64,
    /// The permission history length at the moment this entry was appended.
    pub expected_permissions_index: u64,
}

/// The current lengths of the three histories of a sequence.
#[derive(Clone, Copy, PartialEq, Eq, Structural, Debug, Hash)]
pub struct ExpectedIndices {
    /// Length of the data log.
    pub expected_data_index: u64,
    /// Length of the owner history.
    pub expected_owners_index: u64,
    /// Length of the permission history.
    pub expected_permissions_index: u64,
}

impl ExpectedIndices {
    /// Bundles the three history lengths.
    pub fn new(expected_data_index: u64, expected_owners_index: u64, expected_permissions_index: u64) -> (r: Self)
        ensures
            r.expected_data_index == expected_data_index,
            r.expected_owners_index == expected_owners_index,
            r.expected_permissions_index == expected_permissions_index,
    {
        ExpectedIndices { expected_data_index, expected_owners_index, expected_permissions_index }
    }
}

/// The subject of a permission entry in a public sequence: one specific key,
/// or the wildcard covering every key without an entry of its own.
#[derive(Clone, Copy, PartialEq, Eq, Debug, Hash)]
pub enum User {
    /// Any key without a specific entry.
    Anyone,
    /// The one key named here.
    Specific(crate::keys::PublicKey),
}

} // verus!
