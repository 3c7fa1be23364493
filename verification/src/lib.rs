//! Core data types for a distributed, XOR-addressed data network:
//! a versioned, permissioned, append-only sequence structure, a
//! multi-scheme verifiable-identity layer, and the threshold-proof
//! types that secure a money-transfer consensus protocol.

use vstd::prelude::*;

pub mod codec;
pub mod errors;
pub mod keys;
pub mod money;
pub mod permissions;
pub mod request;
pub mod sequence;
pub mod shared_data;
pub mod transfer;

verus! {

/// Constant byte length of `XorName`.
pub const XOR_NAME_LEN: usize = 32;

/// A 256-bit number, viewed as a point in XOR space.
///
/// This wraps an array of `XOR_NAME_LEN` bytes. XOR space is the space of
/// these numbers, with the XOR metric as a notion of distance: the points
/// with identifiers `x` and `y` are considered to have distance `x xor y`.
#[derive(Clone, Copy, Default, Eq, PartialEq, Ord, PartialOrd, Hash, Debug)]
pub struct XorName(pub [u8; XOR_NAME_LEN]);

/// An immutable blob of bytes, in its published or unpublished flavour,
/// reduced to the visibility and payload this crate's rules read. The
/// full blob storage variant is a structurally simpler sibling of the
/// sequence and lives with the surrounding runtime.
#[derive(Clone, PartialEq, Eq, Debug, Hash)]
pub enum Blob {
    /// A published (publicly readable) blob.
    Public(Vec<u8>),
    /// An unpublished blob.
    Private(Vec<u8>),
}

impl Blob {
    /// Returns true if published.
    pub fn is_pub(&self) -> (r: bool)
        ensures
            r == (*self is Public),
    {
        matches!(self, Blob::Public(_))
    }
}

/// Mutable key-value storage, reduced to the identity this crate's rules
/// read; it is never published. The full map storage variant is a
/// structurally simpler sibling of the sequence and lives with the
/// surrounding runtime.
#[derive(Clone, Copy, PartialEq, Eq, Debug, Hash)]
pub struct MapData {
    /// The XOR name of the map.
    pub name: XorName,
    /// The type tag of the map.
    pub tag: u64,
}

/// Object storing a data variant.
#[derive(Clone, PartialEq, Eq, Debug)]
pub enum Data {
    /// An immutable blob.
    Immutable(Blob),
    /// Mutable key-value data, never published.
    Mutable(MapData),
    /// A versioned, permissioned sequence.
    Sequence(sequence::Data),
}

impl Data {
    /// True when the variant is publicly readable.
    pub open spec fn spec_is_pub(self) -> bool {
        match self {
            Data::Immutable(blob) => blob is Public,
            Data::Mutable(_) => false,
            Data::Sequence(sequence) => sequence.spec_seq().spec_address().spec_kind().spec_is_public(),
        }
    }

    /// Returns true if published.
    pub fn is_pub(&self) -> (r: bool)
        ensures
            r == self.spec_is_pub(),
    {
        match self {
            Data::Immutable(blob) => blob.is_pub(),
            Data::Mutable(_) => false,
            Data::Sequence(sequence) => sequence.is_public(),
        }
    }

    /// Returns true if unpublished.
    pub fn is_unpub(&self) -> (r: bool)
        ensures
            r == !self.spec_is_pub(),
    {
        !self.is_pub()
    }
}

impl From<Blob> for Data {
    /// Wraps a blob.
    fn from(data: Blob) -> (r: Self) {
        Data::Immutable(data)
    }
}

impl vstd::std_specs::convert::FromSpecImpl<Blob> for Data {
    open spec fn obeys_from_spec() -> bool {
        true
    }

    open spec fn from_spec(data: Blob) -> Self {
        Data::Immutable(data)
    }
}

impl From<MapData> for Data {
    /// Wraps a map.
    fn from(data: MapData) -> (r: Self) {
        Data::Mutable(data)
    }
}

impl vstd::std_specs::convert::FromSpecImpl<MapData> for Data {
    open spec fn obeys_from_spec() -> bool {
        true
    }

    open spec fn from_spec(data: MapData) -> Self {
        Data::Mutable(data)
    }
}

impl From<sequence::Data> for Data {
    /// Wraps a sequence.
    fn from(data: sequence::Data) -> (r: Self) {
        Data::Sequence(data)
    }
}

impl vstd::std_specs::convert::FromSpecImpl<sequence::Data> for Data {
    open spec fn obeys_from_spec() -> bool {
        true
    }

    open spec fn from_spec(data: sequence::Data) -> Self {
        Data::Sequence(data)
    }
}

/// Permissions an app holds with the client handlers.
#[derive(Clone, Copy, PartialEq, Eq, Structural, PartialOrd, Ord, Hash, Default, Debug)]
pub struct AppPermissions {
    /// Whether this app has permission to perform data mutations.
    pub data_mutations: bool,
    /// Whether this app has permission to transfer money.
    pub transfer_money: bool,
    /// Whether this app has permission to read the account balance.
    pub read_balance: bool,
    /// Whether this app has permission to read the account transfer
    /// history.
    pub read_transfer_history: bool,
}

} // verus!
