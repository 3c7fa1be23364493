//! The versioned, permissioned, append-only sequence.
//!
//! A sequence pairs an append-only value log with append-only owner and
//! permission histories. Four variants exist along two independent axes:
//! public/private visibility and order-enforced (sentried) / order-free
//! appends. The variants share this one core, with the axes recorded in
//! the address; the invariants are identical across variants.
//!
//! Every mutation is check-then-append: the recorded `expected_*_index`
//! fields of a new owner or permission entry must exactly equal the
//! current lengths of the respective histories, any mismatch is rejected,
//! and rejection never mutates state. Histories are never reordered,
//! edited or truncated.

use vstd::prelude::*;
use vstd::seq_lib::*;
use crate::errors::Error;
use crate::keys::PublicKey;
use crate::permissions::{
    spec_key_lookup, spec_private_permits, spec_public_permits, spec_user_lookup,
    PrivatePermissionSet, PrivatePermissions, PublicPermissionSet, PublicPermissions, Request,
};
use crate::shared_data::{
    resolved_index, resolved_range, to_absolute_index, to_absolute_range, Address, ExpectedIndices,
    Index, Kind, Owner, User,
};
use crate::XorName;

verus! {

/// An entry of the value log: an opaque byte payload.
pub type Value = Vec<u8>;

/// A list of log entries, in causal append order.
pub type Values = Vec<Value>;

/// One entry of the permission history of a sequence, in the flavour
/// matching the sequence's visibility.
#[derive(PartialEq, Eq, Debug)]
pub enum SequencePermissions {
    /// A snapshot for a public sequence.
    Public(PublicPermissions),
    /// A snapshot for a private sequence.
    Private(PrivatePermissions),
}

/// The mathematical content of one permission snapshot: its policy table
/// and the history lengths it recorded.
#[allow(inconsistent_fields)]
pub enum PermissionsView {
    /// The content of a public snapshot.
    Public {
        /// The policy table, keyed by subject.
        table: Seq<(User, Seq<(Request, bool)>)>,
        /// The data log length recorded by the snapshot.
        expected_data_index: u64,
        /// The owner history length recorded by the snapshot.
        expected_owners_index: u64,
    },
    /// The content of a private snapshot.
    Private {
        /// The policy table, keyed by public key.
        table: Seq<(PublicKey, Seq<(Request, bool)>)>,
        /// The data log length recorded by the snapshot.
        expected_data_index: u64,
        /// The owner history length recorded by the snapshot.
        expected_owners_index: u64,
    },
}

impl PermissionsView {
    /// The data log length the snapshot recorded.
    pub open spec fn spec_expected_data_index(self) -> u64 {
        match self {
            PermissionsView::Public { expected_data_index, .. } => expected_data_index,
            PermissionsView::Private { expected_data_index, .. } => expected_data_index,
        }
    }

    /// The owner history length the snapshot recorded.
    pub open spec fn spec_expected_owners_index(self) -> u64 {
        match self {
            PermissionsView::Public { expected_owners_index, .. } => expected_owners_index,
            PermissionsView::Private { expected_owners_index, .. } => expected_owners_index,
        }
    }

    /// The decision the snapshot records for `user` making `req`.
    pub open spec fn spec_permits(self, user: PublicKey, req: Request) -> bool {
        match self {
            PermissionsView::Public { table, .. } => spec_public_permits(table, user, req),
            PermissionsView::Private { table, .. } => spec_private_permits(table, user, req),
        }
    }
}

impl SequencePermissions {
    /// The mathematical content of this snapshot.
    pub open spec fn spec_view(self) -> PermissionsView {
        match self {
            SequencePermissions::Public(p) => PermissionsView::Public {
                table: p.spec_table(),
                expected_data_index: p.expected_data_index,
                expected_owners_index: p.expected_owners_index,
            },
            SequencePermissions::Private(p) => PermissionsView::Private {
                table: p.spec_table(),
                expected_data_index: p.expected_data_index,
                expected_owners_index: p.expected_owners_index,
            },
        }
    }

    /// Returns the data log length this snapshot recorded.
    pub fn expected_data_index(&self) -> (r: u64)
        ensures
            r == self.spec_view().spec_expected_data_index(),
    {
        match self {
            SequencePermissions::Public(p) => p.expected_data_index,
            SequencePermissions::Private(p) => p.expected_data_index,
        }
    }

    /// Returns the owner history length this snapshot recorded.
    pub fn expected_owners_index(&self) -> (r: u64)
        ensures
            r == self.spec_view().spec_expected_owners_index(),
    {
        match self {
            SequencePermissions::Public(p) => p.expected_owners_index,
            SequencePermissions::Private(p) => p.expected_owners_index,
        }
    }

    /// Returns the decision this snapshot records for `user` making
    /// `request`.
    pub fn is_permitted(&self, user: &PublicKey, request: &Request) -> (r: bool)
        ensures
            r == self.spec_view().spec_permits(*user, *request),
    {
        match self {
            SequencePermissions::Public(p) => p.is_permitted(user, request),
            SequencePermissions::Private(p) => p.is_permitted(user, request),
        }
    }
}

impl Clone for SequencePermissions {
    /// Returns a snapshot with the same content.
    fn clone(&self) -> (r: Self)
        ensures
            r.spec_view() == self.spec_view(),
    {
        match self {
            SequencePermissions::Public(p) => SequencePermissions::Public(p.clone()),
            SequencePermissions::Private(p) => SequencePermissions::Private(p.clone()),
        }
    }
}

impl From<PublicPermissions> for SequencePermissions {
    /// Wraps a public snapshot.
    fn from(permissions: PublicPermissions) -> (r: Self) {
        SequencePermissions::Public(permissions)
    }
}

impl vstd::std_specs::convert::FromSpecImpl<PublicPermissions> for SequencePermissions {
    open spec fn obeys_from_spec() -> bool {
        true
    }

    open spec fn from_spec(permissions: PublicPermissions) -> Self {
        SequencePermissions::Public(permissions)
    }
}

impl From<PrivatePermissions> for SequencePermissions {
    /// Wraps a private snapshot.
    fn from(permissions: PrivatePermissions) -> (r: Self) {
        SequencePermissions::Private(permissions)
    }
}

impl vstd::std_specs::convert::FromSpecImpl<PrivatePermissions> for SequencePermissions {
    open spec fn obeys_from_spec() -> bool {
        true
    }

    open spec fn from_spec(permissions: PrivatePermissions) -> Self {
        SequencePermissions::Private(permissions)
    }
}

/// The snapshot contents of a permission history, entry by entry.
pub open spec fn views_of(s: Seq<SequencePermissions>) -> Seq<PermissionsView> {
    s.map_values(|p: SequencePermissions| p.spec_view())
}

/// The owner entries whose recorded data index does not exceed `x`, in
/// history order.
pub open spec fn owners_up_to(s: Seq<Owner>, x: u64) -> Seq<Owner>
    decreases s.len(),
{
    if s.len() == 0 {
        s
    } else {
        let prefix = owners_up_to(s.drop_last(), x);
        if s.last().expected_data_index <= x {
            prefix.push(s.last())
        } else {
            prefix
        }
    }
}

/// The permission snapshots whose recorded data index does not exceed
/// `x`, in history order.
pub open spec fn perms_up_to(s: Seq<PermissionsView>, x: u64) -> Seq<PermissionsView>
    decreases s.len(),
{
    if s.len() == 0 {
        s
    } else {
        let prefix = perms_up_to(s.drop_last(), x);
        if s.last().spec_expected_data_index() <= x {
            prefix.push(s.last())
        } else {
            prefix
        }
    }
}

/// The current last entry of the value log, with the log length at the
/// time it was read.
#[derive(Clone, PartialEq, Eq, Debug, Default, Hash)]
pub struct DataEntry {
    /// The data log length when the entry was read.
    pub index: u64,
    /// The payload of the last entry.
    pub value: Vec<u8>,
}

impl DataEntry {
    /// Bundles a log length and a payload.
    pub fn new(index: u64, value: Vec<u8>) -> (r: Self)
        ensures
            r.index == index,
            r.value@ == value@,
    {
        DataEntry { index, value }
    }
}

/// Copies one log entry.
fn clone_value(value: &Vec<u8>) -> (r: Vec<u8>)
    ensures
        r@ == value@,
{
    let mut out: Vec<u8> = Vec::new();
    let mut i: usize = 0;
    while i < value.len()
        invariant
            0 <= i <= value@.len(),
            out@ =~= value@.take(i as int),
        decreases value@.len() - i,
    {
        out.push(value[i]);
        i += 1;
    }
    proof {
        assert(value@.take(value@.len() as int) =~= value@);
    }
    out
}

/// The sequence core: an address, fixed at creation, and the three
/// append-only histories it owns exclusively.
#[derive(PartialEq, Eq, Debug)]
pub struct Sequence {
    /// The immutable identity of this sequence.
    address: Address,
    /// The value log, in causal append order.
    data: Values,
    /// The permission history; each entry is one policy change.
    permissions: Vec<SequencePermissions>,
    /// The owner history; each entry is one ownership change. A single
    /// owner may stand for an individual user or a group, depending on
    /// the key scheme.
    owners: Vec<Owner>,
}

impl Sequence {
    /// The value log, with each payload spelled out as bytes.
    pub closed spec fn spec_data(self) -> Seq<Seq<u8>> {
        self.data.deep_view()
    }

    /// The owner history.
    pub closed spec fn spec_owners(self) -> Seq<Owner> {
        self.owners@
    }

    /// The permission history, as snapshot contents.
    pub closed spec fn spec_perms(self) -> Seq<PermissionsView> {
        views_of(self.permissions@)
    }

    /// The address of this sequence.
    pub closed spec fn spec_address(self) -> Address {
        self.address
    }

    /// The value log length, which is also the index the next append must
    /// name in an order-enforced sequence.
    pub open spec fn spec_expected_data_index(self) -> u64 {
        self.spec_data().len() as u64
    }

    /// The owner history length.
    pub open spec fn spec_expected_owners_index(self) -> u64 {
        self.spec_owners().len() as u64
    }

    /// The permission history length.
    pub open spec fn spec_expected_permissions_index(self) -> u64 {
        self.spec_perms().len() as u64
    }

    /// The decision this sequence records for `user` making `req`,
    /// evaluated against the latest owner and the latest permission
    /// snapshot only: the current owner is permitted everything; everyone
    /// else is referred to the latest snapshot; with no snapshot, nothing
    /// is granted.
    pub open spec fn spec_is_permitted(self, user: PublicKey, req: Request) -> bool {
        if self.spec_owners().len() > 0 && self.spec_owners().last().public_key == user {
            true
        } else if self.spec_perms().len() > 0 {
            self.spec_perms().last().spec_permits(user, req)
        } else {
            false
        }
    }

    /// True when `user` is the current owner.
    pub open spec fn spec_is_owner(self, user: PublicKey) -> bool {
        self.spec_owners().len() > 0 && self.spec_owners().last().public_key == user
    }

    /// Creates an empty sequence of the given kind.
    pub fn new(kind: Kind, name: XorName, tag: u64) -> (r: Self)
        ensures
            r.spec_address().spec_kind() == kind,
            r.spec_address().spec_name() == name,
            r.spec_address().spec_tag() == tag,
            r.spec_data() =~= Seq::<Seq<u8>>::empty(),
            r.spec_owners() =~= Seq::<Owner>::empty(),
            r.spec_perms() =~= Seq::<PermissionsView>::empty(),
    {
        Sequence {
            address: Address::from_kind(kind, name, tag),
            data: Vec::new(),
            permissions: Vec::new(),
            owners: Vec::new(),
        }
    }

    /// Returns the address of this sequence.
    pub fn address(&self) -> (r: Address)
        ensures
            r == self.spec_address(),
    {
        self.address
    }

    /// Returns the name of this sequence.
    pub fn name(&self) -> (r: XorName)
        ensures
            r == self.spec_address().spec_name(),
    {
        self.address.name()
    }

    /// Returns the type tag of this sequence.
    pub fn tag(&self) -> (r: u64)
        ensures
            r == self.spec_address().spec_tag(),
    {
        self.address.tag()
    }

    /// Returns the expected data index: the current value log length.
    pub fn expected_data_index(&self) -> (r: u64)
        ensures
            r == self.spec_expected_data_index(),
    {
        self.data.len() as u64
    }

    /// Returns the expected owners index: the current owner history
    /// length.
    pub fn expected_owners_index(&self) -> (r: u64)
        ensures
            r == self.spec_expected_owners_index(),
    {
        self.owners.len() as u64
    }

    /// Returns the expected permissions index: the current permission
    /// history length.
    pub fn expected_permissions_index(&self) -> (r: u64)
        ensures
            r == self.spec_expected_permissions_index(),
    {
        self.permissions.len() as u64
    }

    /// Returns the three current history lengths.
    pub fn indices(&self) -> (r: ExpectedIndices)
        ensures
            r.expected_data_index == self.spec_expected_data_index(),
            r.expected_owners_index == self.spec_expected_owners_index(),
            r.expected_permissions_index == self.spec_expected_permissions_index(),
    {
        ExpectedIndices::new(
            self.expected_data_index(),
            self.expected_owners_index(),
            self.expected_permissions_index(),
        )
    }

    /// Returns the value at the given absolute index, if present.
    pub fn get(&self, index: u64) -> (r: Option<&Value>)
        ensures
            r is Some <==> index < self.spec_data().len(),
            r is Some ==> r->0@ == self.spec_data()[index as int],
    {
        if index < self.data.len() as u64 {
            Some(&self.data[index as usize])
        } else {
            None
        }
    }

    /// Returns all values of the log.
    pub fn values(&self) -> (r: &Values)
        ensures
            r.deep_view() == self.spec_data(),
    {
        &self.data
    }

    /// Returns the current last entry of the log, paired with the current
    /// log length, or nothing when the log is empty.
    pub fn current_data_entry(&self) -> (r: Option<DataEntry>)
        ensures
            r is Some <==> self.spec_data().len() > 0,
            r is Some ==> r->0.index == self.spec_expected_data_index()
                && r->0.value@ == self.spec_data().last(),
    {
        if self.data.len() > 0 {
            let value = clone_value(&self.data[self.data.len() - 1]);
            Some(DataEntry::new(self.data.len() as u64, value))
        } else {
            None
        }
    }

    /// Returns the values within the given range of relative indices, or
    /// nothing if either bound fails to resolve or the bounds cross.
    pub fn in_range(&self, start: Index, end: Index) -> (r: Option<Values>)
        ensures
            r is Some <==> resolved_range(start, end, self.spec_data().len() as int) is Some,
            r is Some ==> ({
                let rr = resolved_range(start, end, self.spec_data().len() as int)->0;
                r->0.deep_view() == self.spec_data().subrange(rr.0, rr.1)
            }),
    {
        let (s, e) = match to_absolute_range(start, end, self.data.len()) {
            Some(range) => range,
            None => {
                return None;
            },
        };
        let mut out: Values = Vec::new();
        let mut i: usize = s;
        proof {
            assert(out.deep_view() =~= self.spec_data().subrange(s as int, s as int));
        }
        while i < e
            invariant
                s <= i <= e <= self.data@.len(),
                self.spec_data().len() == self.data@.len(),
                out.deep_view() =~= self.spec_data().subrange(s as int, i as int),
            decreases e - i,
        {
            let value = clone_value(&self.data[i]);
            proof {
                assert(value.deep_view() =~= self.data@[i as int].deep_view());
            }
            let ghost pre = out@;
            let ghost appended = value.deep_view();
            out.push(value);
            proof {
                assert(out.deep_view() =~= pre.map_values(
                    |v: Vec<u8>| v.deep_view(),
                ).push(appended));
                assert(pre.map_values(|v: Vec<u8>| v.deep_view()) =~= self.spec_data().subrange(
                    s as int,
                    i as int,
                ));
                assert(out.deep_view() =~= self.spec_data().subrange(s as int, i + 1int));
            }
            i += 1;
        }
        Some(out)
    }

    /// Returns the permission snapshot at the given relative index, if the
    /// index resolves to an existing entry.
    pub fn permissions_at(&self, index: Index) -> (r: Option<&SequencePermissions>)
        ensures
            r is Some <==> ({
                let ri = resolved_index(index, self.spec_perms().len() as int);
                ri is Some && ri->0 < self.spec_perms().len()
            }),
            r is Some ==> r->0.spec_view() == self.spec_perms()[resolved_index(
                index,
                self.spec_perms().len() as int,
            )->0],
    {
        let i = match to_absolute_index(index, self.permissions.len()) {
            Some(i) => i,
            None => {
                return None;
            },
        };
        if i < self.permissions.len() {
            Some(&self.permissions[i])
        } else {
            None
        }
    }

    /// Returns the owner entry at the given relative index, if the index
    /// resolves to an existing entry.
    pub fn owner_at(&self, index: Index) -> (r: Option<Owner>)
        ensures
            r is Some <==> ({
                let ri = resolved_index(index, self.spec_owners().len() as int);
                ri is Some && ri->0 < self.spec_owners().len()
            }),
            r is Some ==> r->0 == self.spec_owners()[resolved_index(
                index,
                self.spec_owners().len() as int,
            )->0],
    {
        let i = match to_absolute_index(index, self.owners.len()) {
            Some(i) => i,
            None => {
                return None;
            },
        };
        if i < self.owners.len() {
            Some(self.owners[i])
        } else {
            None
        }
    }

    /// Returns the owner history within the given range of relative
    /// indices.
    pub fn owner_history_range(&self, start: Index, end: Index) -> (r: Option<Vec<Owner>>)
        ensures
            r is Some <==> resolved_range(start, end, self.spec_owners().len() as int) is Some,
            r is Some ==> ({
                let rr = resolved_range(start, end, self.spec_owners().len() as int)->0;
                r->0@ == self.spec_owners().subrange(rr.0, rr.1)
            }),
    {
        let (s, e) = match to_absolute_range(start, end, self.owners.len()) {
            Some(range) => range,
            None => {
                return None;
            },
        };
        let mut out: Vec<Owner> = Vec::new();
        let mut i: usize = s;
        while i < e
            invariant
                s <= i <= e <= self.owners@.len(),
                out@ =~= self.spec_owners().subrange(s as int, i as int),
            decreases e - i,
        {
            out.push(self.owners[i]);
            proof {
                assert(out@ =~= self.spec_owners().subrange(s as int, i + 1int));
            }
            i += 1;
        }
        Some(out)
    }

    /// Returns the permission history within the given range of relative
    /// indices.
    pub fn permission_history_range(&self, start: Index, end: Index) -> (r: Option<
        Vec<SequencePermissions>,
    >)
        ensures
            r is Some <==> resolved_range(start, end, self.spec_perms().len() as int) is Some,
            r is Some ==> ({
                let rr = resolved_range(start, end, self.spec_perms().len() as int)->0;
                views_of(r->0@) == self.spec_perms().subrange(rr.0, rr.1)
            }),
    {
        let (s, e) = match to_absolute_range(start, end, self.permissions.len()) {
            Some(range) => range,
            None => {
                return None;
            },
        };
        let mut out: Vec<SequencePermissions> = Vec::new();
        let mut i: usize = s;
        proof {
            assert(views_of(out@) =~= self.spec_perms().subrange(s as int, s as int));
        }
        while i < e
            invariant
                s <= i <= e <= self.permissions@.len(),
                self.spec_perms().len() == self.permissions@.len(),
                forall|j: int| 0 <= j < self.permissions@.len() ==> #[trigger] self.spec_perms()[j]
                    == self.permissions@[j].spec_view(),
                views_of(out@) == self.spec_perms().subrange(s as int, i as int),
            decreases e - i,
        {
            let entry = self.permissions[i].clone();
            let ghost pre = out@;
            let ghost view = entry.spec_view();
            out.push(entry);
            proof {
                assert(views_of(out@) =~= views_of(pre).push(view));
                assert(views_of(out@) =~= self.spec_perms().subrange(s as int, i + 1int));
            }
            i += 1;
        }
        Some(out)
    }

    /// Appends one permission snapshot, in the flavour matching the
    /// sequence's visibility.
    ///
    /// The snapshot's recorded `expected_data_index` and
    /// `expected_owners_index` must exactly equal the current data log and
    /// owner history lengths, and `index` must equal the current
    /// permission history length; otherwise the call fails, naming the
    /// field that mismatched and the expected value, and leaves the
    /// sequence unchanged. The snapshot is appended as given, for every
    /// input: the two flavours accompany the two visibilities by the
    /// callers' construction, and evaluation reads whatever snapshot
    /// stands last.
    pub fn set_permissions(&mut self, permissions: SequencePermissions, index: u64) -> (r: Result<
        (),
        Error,
    >)
        ensures
            r is Ok <==> (permissions.spec_view().spec_expected_data_index() == old(self).spec_expected_data_index()
                && permissions.spec_view().spec_expected_owners_index() == old(self).spec_expected_owners_index()
                && index == old(self).spec_expected_permissions_index()),
            permissions.spec_view().spec_expected_data_index() != old(self).spec_expected_data_index()
                ==> r == Err::<(), Error>(Error::InvalidSuccessor(old(self).spec_expected_data_index())),
            permissions.spec_view().spec_expected_data_index() == old(self).spec_expected_data_index()
                && permissions.spec_view().spec_expected_owners_index() != old(self).spec_expected_owners_index()
                ==> r == Err::<(), Error>(Error::InvalidOwnersSuccessor(old(self).spec_expected_owners_index())),
            permissions.spec_view().spec_expected_data_index() == old(self).spec_expected_data_index()
                && permissions.spec_view().spec_expected_owners_index() == old(self).spec_expected_owners_index()
                && index != old(self).spec_expected_permissions_index()
                ==> r == Err::<(), Error>(Error::InvalidSuccessor(old(self).spec_expected_permissions_index())),
            r is Ok ==> final(self).spec_perms() == old(self).spec_perms().push(permissions.spec_view()),
            r is Ok ==> final(self).spec_data() == old(self).spec_data()
                && final(self).spec_owners() == old(self).spec_owners()
                && final(self).spec_address() == old(self).spec_address(),
            r is Err ==> *final(self) == *old(self),
    {
        if permissions.expected_data_index() != self.expected_data_index() {
            return Err(Error::InvalidSuccessor(self.expected_data_index()));
        }
        if permissions.expected_owners_index() != self.expected_owners_index() {
            return Err(Error::InvalidOwnersSuccessor(self.expected_owners_index()));
        }
        if self.expected_permissions_index() != index {
            return Err(Error::InvalidSuccessor(self.expected_permissions_index()));
        }
        self.permissions.push(permissions);
        proof {
            assert(final(self).spec_perms() =~= old(self).spec_perms().push(
                final(self).permissions@.last().spec_view(),
            ));
        }
        Ok(())
    }

    /// Appends one owner entry.
    ///
    /// The entry's recorded `expected_data_index` and
    /// `expected_permissions_index` must exactly equal the current data
    /// log and permission history lengths, and `index` must equal the
    /// current owner history length; otherwise the call fails, naming the
    /// field that mismatched and the expected value, and leaves the
    /// sequence unchanged.
    pub fn set_owner(&mut self, owner: Owner, index: u64) -> (r: Result<(), Error>)
        ensures
            r is Ok <==> (owner.expected_data_index == old(self).spec_expected_data_index()
                && owner.expected_permissions_index == old(self).spec_expected_permissions_index()
                && index == old(self).spec_expected_owners_index()),
            owner.expected_data_index != old(self).spec_expected_data_index()
                ==> r == Err::<(), Error>(Error::InvalidSuccessor(old(self).spec_expected_data_index())),
            owner.expected_data_index == old(self).spec_expected_data_index()
                && owner.expected_permissions_index != old(self).spec_expected_permissions_index()
                ==> r == Err::<(), Error>(Error::InvalidPermissionsSuccessor(old(self).spec_expected_permissions_index())),
            owner.expected_data_index == old(self).spec_expected_data_index()
                && owner.expected_permissions_index == old(self).spec_expected_permissions_index()
                && index != old(self).spec_expected_owners_index()
                ==> r == Err::<(), Error>(Error::InvalidSuccessor(old(self).spec_expected_owners_index())),
            r is Ok ==> final(self).spec_owners() == old(self).spec_owners().push(owner),
            r is Ok ==> final(self).spec_data() == old(self).spec_data()
                && final(self).spec_perms() == old(self).spec_perms()
                && final(self).spec_address() == old(self).spec_address(),
            r is Err ==> *final(self) == *old(self),
    {
        if owner.expected_data_index != self.expected_data_index() {
            return Err(Error::InvalidSuccessor(self.expected_data_index()));
        }
        if owner.expected_permissions_index != self.expected_permissions_index() {
            return Err(Error::InvalidPermissionsSuccessor(self.expected_permissions_index()));
        }
        if self.expected_owners_index() != index {
            return Err(Error::InvalidSuccessor(self.expected_owners_index()));
        }
        self.owners.push(owner);
        proof {
            assert(final(self).spec_perms() =~= old(self).spec_perms());
        }
        Ok(())
    }

    /// Returns true if `user` is the current owner.
    pub fn is_owner(&self, user: PublicKey) -> (r: bool)
        ensures
            r == self.spec_is_owner(user),
    {
        match self.owner_at(Index::FromEnd(1)) {
            Some(owner) => owner.public_key.equals(&user),
            None => false,
        }
    }

    /// Returns the decision for `user` making `request`, evaluated against
    /// the latest owner and the latest permission snapshot only.
    pub fn is_permitted(&self, user: PublicKey, request: Request) -> (r: bool)
        ensures
            r == self.spec_is_permitted(user, request),
    {
        match self.owner_at(Index::FromEnd(1)) {
            Some(owner) => {
                if owner.public_key.equals(&user) {
                    return true;
                }
            },
            None => {},
        }
        match self.permissions_at(Index::FromEnd(1)) {
            Some(permissions) => permissions.is_permitted(&user, &request),
            None => false,
        }
    }

    /// Appends new values to the log.
    ///
    /// In an order-enforced (sentried) sequence the caller must supply the
    /// expected index, and it must equal the current log length; otherwise
    /// the call fails with the expected value and changes nothing. An
    /// order-free sequence appends unconditionally and consults no index.
    /// The append is never partially applied.
    pub fn append(&mut self, values: Values, expected_index: Option<u64>) -> (r: Result<(), Error>)
        ensures
            r is Ok <==> (!old(self).spec_address().spec_kind().spec_is_sentried()
                || expected_index == Some(old(self).spec_expected_data_index())),
            r is Err ==> r == Err::<(), Error>(Error::InvalidSuccessor(old(self).spec_expected_data_index())),
            r is Ok ==> final(self).spec_data() == old(self).spec_data() + values.deep_view(),
            r is Ok ==> final(self).spec_owners() == old(self).spec_owners()
                && final(self).spec_perms() == old(self).spec_perms()
                && final(self).spec_address() == old(self).spec_address(),
            r is Err ==> *final(self) == *old(self),
    {
        if self.address.kind().is_sentried() {
            let matches_length = match expected_index {
                Some(i) => i == self.data.len() as u64,
                None => false,
            };
            if !matches_length {
                return Err(Error::InvalidSuccessor(self.data.len() as u64));
            }
        }
        let mut values = values;
        let ghost appended = values.deep_view();
        self.data.append(&mut values);
        proof {
            assert(final(self).spec_data() =~= old(self).spec_data() + appended);
            assert(final(self).spec_perms() =~= old(self).spec_perms());
        }
        Ok(())
    }

    /// Returns the data shell: a copy with the value log emptied and the
    /// owner and permission histories filtered to the entries whose
    /// recorded `expected_data_index` does not exceed the resolution of
    /// `expected_data_index` against the current log length. A metadata-
    /// only snapshot "as of" a historical data version.
    pub fn shell(&self, expected_data_index: Index) -> (r: Result<Sequence, Error>)
        ensures
            r is Ok <==> resolved_index(expected_data_index, self.spec_data().len() as int)
                is Some,
            r is Err ==> r == Err::<Sequence, Error>(Error::NoSuchEntry),
            r is Ok ==> ({
                let x = resolved_index(expected_data_index, self.spec_data().len() as int)->0 as u64;
                let shell = r->Ok_0;
                shell.spec_address() == self.spec_address()
                    && shell.spec_data() =~= Seq::<Seq<u8>>::empty()
                    && shell.spec_owners() == owners_up_to(self.spec_owners(), x)
                    && shell.spec_perms() == perms_up_to(self.spec_perms(), x)
            }),
    {
        let x = match to_absolute_index(expected_data_index, self.data.len()) {
            Some(i) => i as u64,
            None => {
                return Err(Error::NoSuchEntry);
            },
        };
        let mut permissions: Vec<SequencePermissions> = Vec::new();
        let mut i: usize = 0;
        proof {
            assert(self.spec_perms().take(0int) =~= Seq::<PermissionsView>::empty());
            assert(views_of(permissions@) =~= Seq::<PermissionsView>::empty());
        }
        while i < self.permissions.len()
            invariant
                0 <= i <= self.permissions@.len(),
                self.spec_perms().len() == self.permissions@.len(),
                forall|j: int| 0 <= j < self.permissions@.len() ==> #[trigger] self.spec_perms()[j]
                    == self.permissions@[j].spec_view(),
                views_of(permissions@) == perms_up_to(self.spec_perms().take(i as int), x),
            decreases self.permissions@.len() - i,
        {
            let ghost prefix = self.spec_perms().take(i as int);
            let ghost next = self.spec_perms().take(i + 1int);
            proof {
                assert(next.drop_last() =~= prefix);
                assert(next.last() == self.spec_perms()[i as int]);
                assert(perms_up_to(next, x) == (if next.last().spec_expected_data_index() <= x {
                    perms_up_to(prefix, x).push(next.last())
                } else {
                    perms_up_to(prefix, x)
                }));
            }
            if self.permissions[i].expected_data_index() <= x {
                let entry = self.permissions[i].clone();
                permissions.push(entry);
                proof {
                    assert(views_of(permissions@) =~= perms_up_to(prefix, x).push(
                        self.spec_perms()[i as int],
                    ));
                }
            }
            i += 1;
        }
        proof {
            assert(self.spec_perms().take(self.spec_perms().len() as int) =~= self.spec_perms());
        }

        let mut owners: Vec<Owner> = Vec::new();
        let mut i: usize = 0;
        proof {
            assert(self.spec_owners().take(0int) =~= Seq::<Owner>::empty());
        }
        while i < self.owners.len()
            invariant
                0 <= i <= self.owners@.len(),
                owners@ == owners_up_to(self.spec_owners().take(i as int), x),
            decreases self.owners@.len() - i,
        {
            let ghost prefix = self.spec_owners().take(i as int);
            let ghost next = self.spec_owners().take(i + 1int);
            proof {
                assert(next.drop_last() =~= prefix);
                assert(next.last() == self.spec_owners()[i as int]);
                assert(owners_up_to(next, x) == (if next.last().expected_data_index <= x {
                    owners_up_to(prefix, x).push(next.last())
                } else {
                    owners_up_to(prefix, x)
                }));
            }
            if self.owners[i].expected_data_index <= x {
                owners.push(self.owners[i]);
            }
            i += 1;
        }
        proof {
            assert(self.spec_owners().take(self.spec_owners().len() as int) =~= self.spec_owners());
        }

        let r = Sequence { address: self.address, data: Vec::new(), permissions, owners };
        proof {
            assert(r.spec_data() =~= Seq::<Seq<u8>>::empty());
        }
        Ok(r)
    }
}

impl Clone for Sequence {
    /// Returns a sequence with the same address and the same three
    /// histories.
    fn clone(&self) -> (r: Self)
        ensures
            r.spec_address() == self.spec_address(),
            r.spec_data() == self.spec_data(),
            r.spec_owners() == self.spec_owners(),
            r.spec_perms() == self.spec_perms(),
    {
        let mut data: Values = Vec::new();
        let mut i: usize = 0;
        proof {
            assert(data.deep_view() =~= self.spec_data().take(0int));
        }
        while i < self.data.len()
            invariant
                0 <= i <= self.data@.len(),
                self.spec_data().len() == self.data@.len(),
                data.deep_view() =~= self.spec_data().take(i as int),
            decreases self.data@.len() - i,
        {
            let value = clone_value(&self.data[i]);
            proof {
                assert(value.deep_view() =~= self.data@[i as int].deep_view());
            }
            let ghost pre = data@;
            let ghost appended = value.deep_view();
            data.push(value);
            proof {
                assert(data.deep_view() =~= pre.map_values(
                    |v: Vec<u8>| v.deep_view(),
                ).push(appended));
                assert(pre.map_values(|v: Vec<u8>| v.deep_view()) =~= self.spec_data().take(
                    i as int,
                ));
                assert(data.deep_view() =~= self.spec_data().take(i + 1int));
            }
            i += 1;
        }
        proof {
            assert(self.spec_data().take(self.spec_data().len() as int) =~= self.spec_data());
        }

        let mut permissions: Vec<SequencePermissions> = Vec::new();
        let mut i: usize = 0;
        proof {
            assert(views_of(permissions@) =~= self.spec_perms().take(0int));
        }
        while i < self.permissions.len()
            invariant
                0 <= i <= self.permissions@.len(),
                self.spec_perms().len() == self.permissions@.len(),
                forall|j: int| 0 <= j < self.permissions@.len() ==> #[trigger] self.spec_perms()[j]
                    == self.permissions@[j].spec_view(),
                views_of(permissions@) == self.spec_perms().take(i as int),
            decreases self.permissions@.len() - i,
        {
            let entry = self.permissions[i].clone();
            let ghost pre = permissions@;
            let ghost view = entry.spec_view();
            permissions.push(entry);
            proof {
                assert(views_of(permissions@) =~= views_of(pre).push(view));
                assert(views_of(permissions@) =~= self.spec_perms().take(i + 1int));
            }
            i += 1;
        }
        proof {
            assert(self.spec_perms().take(self.spec_perms().len() as int) =~= self.spec_perms());
        }

        let mut owners: Vec<Owner> = Vec::new();
        let mut i: usize = 0;
        while i < self.owners.len()
            invariant
                0 <= i <= self.owners@.len(),
                owners@ =~= self.spec_owners().take(i as int),
            decreases self.owners@.len() - i,
        {
            owners.push(self.owners[i]);
            i += 1;
        }
        proof {
            assert(self.spec_owners().take(self.spec_owners().len() as int) =~= self.spec_owners());
        }

        let r = Sequence { address: self.address, data, permissions, owners };
        proof {
            assert(r.spec_perms() =~= self.spec_perms());
        }
        r
    }
}

/// Object storing a sequence variant: one constructor per combination of
/// visibility and ordering enforcement, all sharing the same core.
#[derive(PartialEq, Eq, Debug)]
pub enum Data {
    /// A publicly readable, order-enforced sequence.
    PublicSentried(Sequence),
    /// A publicly readable, order-free sequence.
    Public(Sequence),
    /// A private, order-enforced sequence.
    PrivateSentried(Sequence),
    /// A private, order-free sequence.
    Private(Sequence),
}

impl Data {
    /// The sequence core held by this variant.
    pub open spec fn spec_seq(self) -> Sequence {
        match self {
            Data::PublicSentried(data) => data,
            Data::Public(data) => data,
            Data::PrivateSentried(data) => data,
            Data::Private(data) => data,
        }
    }

    /// The decision recorded for `user` making `request`: a publicly
    /// addressed sequence grants every read-class query to every caller
    /// unconditionally; everything else is referred to the core.
    pub open spec fn spec_is_permitted(self, req: Request, user: PublicKey) -> bool {
        if self.spec_seq().spec_address().spec_kind().spec_is_public() && req is Query {
            true
        } else {
            self.spec_seq().spec_is_permitted(user, req)
        }
    }

    /// Borrows the sequence core.
    fn seq(&self) -> (r: &Sequence)
        ensures
            *r == self.spec_seq(),
    {
        match self {
            Data::PublicSentried(data) => data,
            Data::Public(data) => data,
            Data::PrivateSentried(data) => data,
            Data::Private(data) => data,
        }
    }

    /// Returns the decision for `user` making `request`. The visibility
    /// is read from the address, like `is_public` and `kind`, so the
    /// decision does not depend on which variant wraps the core.
    pub fn is_permitted(&self, request: Request, user: PublicKey) -> (r: bool)
        ensures
            r == self.spec_is_permitted(request, user),
    {
        if self.seq().address().kind().is_public() && request.is_query() {
            return true;
        }
        self.seq().is_permitted(user, request)
    }

    /// Returns the address.
    pub fn address(&self) -> (r: Address)
        ensures
            r == self.spec_seq().spec_address(),
    {
        self.seq().address()
    }

    /// Returns the visibility and ordering classification.
    pub fn kind(&self) -> (r: Kind)
        ensures
            r == self.spec_seq().spec_address().spec_kind(),
    {
        self.address().kind()
    }

    /// Returns the XOR name.
    pub fn name(&self) -> (r: XorName)
        ensures
            r == self.spec_seq().spec_address().spec_name(),
    {
        self.seq().name()
    }

    /// Returns the type tag.
    pub fn tag(&self) -> (r: u64)
        ensures
            r == self.spec_seq().spec_address().spec_tag(),
    {
        self.seq().tag()
    }

    /// Returns true if the sequence is publicly readable.
    pub fn is_public(&self) -> (r: bool)
        ensures
            r == self.spec_seq().spec_address().spec_kind().spec_is_public(),
    {
        self.kind().is_public()
    }

    /// Returns true if the sequence is private.
    pub fn is_private(&self) -> (r: bool)
        ensures
            r == self.spec_seq().spec_address().spec_kind().spec_is_private(),
    {
        self.kind().is_private()
    }

    /// Returns true if appends are order-enforced.
    pub fn is_sentried(&self) -> (r: bool)
        ensures
            r == self.spec_seq().spec_address().spec_kind().spec_is_sentried(),
    {
        self.kind().is_sentried()
    }

    /// Returns the expected data index.
    pub fn expected_data_index(&self) -> (r: u64)
        ensures
            r == self.spec_seq().spec_expected_data_index(),
    {
        self.seq().expected_data_index()
    }

    /// Returns the expected permissions index.
    pub fn expected_permissions_index(&self) -> (r: u64)
        ensures
            r == self.spec_seq().spec_expected_permissions_index(),
    {
        self.seq().expected_permissions_index()
    }

    /// Returns the expected owners index.
    pub fn expected_owners_index(&self) -> (r: u64)
        ensures
            r == self.spec_seq().spec_expected_owners_index(),
    {
        self.seq().expected_owners_index()
    }

    /// Returns the values within the given range of relative indices.
    pub fn in_range(&self, start: Index, end: Index) -> (r: Option<Values>)
        ensures
            r is Some <==> resolved_range(start, end, self.spec_seq().spec_data().len() as int)
                is Some,
            r is Some ==> ({
                let rr = resolved_range(start, end, self.spec_seq().spec_data().len() as int)->0;
                r->0.deep_view() == self.spec_seq().spec_data().subrange(rr.0, rr.1)
            }),
    {
        self.seq().in_range(start, end)
    }

    /// Returns the value at the given absolute index, if present.
    pub fn get(&self, index: u64) -> (r: Option<&Value>)
        ensures
            r is Some <==> index < self.spec_seq().spec_data().len(),
            r is Some ==> r->0@ == self.spec_seq().spec_data()[index as int],
    {
        self.seq().get(index)
    }

    /// Returns the three current history lengths.
    pub fn indices(&self) -> (r: ExpectedIndices)
        ensures
            r.expected_data_index == self.spec_seq().spec_expected_data_index(),
            r.expected_owners_index == self.spec_seq().spec_expected_owners_index(),
            r.expected_permissions_index == self.spec_seq().spec_expected_permissions_index(),
    {
        self.seq().indices()
    }

    /// Returns the current last entry of the log, if any.
    pub fn current_data_entry(&self) -> (r: Option<DataEntry>)
        ensures
            r is Some <==> self.spec_seq().spec_data().len() > 0,
            r is Some ==> r->0.index == self.spec_seq().spec_expected_data_index()
                && r->0.value@ == self.spec_seq().spec_data().last(),
    {
        self.seq().current_data_entry()
    }

    /// Returns the owner entry at the given relative index, if present.
    pub fn owner_at(&self, index: Index) -> (r: Option<Owner>)
        ensures
            r is Some <==> ({
                let ri = resolved_index(index, self.spec_seq().spec_owners().len() as int);
                ri is Some && ri->0 < self.spec_seq().spec_owners().len()
            }),
            r is Some ==> r->0 == self.spec_seq().spec_owners()[resolved_index(
                index,
                self.spec_seq().spec_owners().len() as int,
            )->0],
    {
        self.seq().owner_at(index)
    }

    /// Returns true if `user` is the current owner.
    pub fn is_owner(&self, user: PublicKey) -> (r: bool)
        ensures
            r == self.spec_seq().spec_is_owner(user),
    {
        self.seq().is_owner(user)
    }

    /// Returns the public permission snapshot at the given relative index.
    ///
    /// A private variant answers `NoSuchData`; a missing entry answers
    /// `NoSuchEntry`.
    pub fn public_permissions_at(&self, index: Index) -> (r: Result<&PublicPermissions, Error>)
        ensures
            self is PrivateSentried || self is Private ==> r == Err::<
                &PublicPermissions,
                Error,
            >(Error::NoSuchData),
            self is PublicSentried || self is Public ==> {
                let ps = self.spec_seq().spec_perms();
                let ri = resolved_index(index, ps.len() as int);
                &&& (r is Ok <==> ri is Some && ri->0 < ps.len() && ps[ri->0] is Public)
                &&& r is Ok ==> ps[ri->0] == (PermissionsView::Public {
                    table: r->Ok_0.spec_table(),
                    expected_data_index: r->Ok_0.expected_data_index,
                    expected_owners_index: r->Ok_0.expected_owners_index,
                })
                &&& r is Err ==> r == Err::<&PublicPermissions, Error>(Error::NoSuchEntry)
            },
    {
        let data = match self {
            Data::PublicSentried(data) => data,
            Data::Public(data) => data,
            _ => {
                return Err(Error::NoSuchData);
            },
        };
        match data.permissions_at(index) {
            Some(SequencePermissions::Public(permissions)) => Ok(permissions),
            _ => Err(Error::NoSuchEntry),
        }
    }

    /// Returns the private permission snapshot at the given relative
    /// index.
    ///
    /// A public variant answers `NoSuchData`; a missing entry answers
    /// `NoSuchEntry`.
    pub fn private_permissions_at(&self, index: Index) -> (r: Result<&PrivatePermissions, Error>)
        ensures
            self is PublicSentried || self is Public ==> r == Err::<
                &PrivatePermissions,
                Error,
            >(Error::NoSuchData),
            self is PrivateSentried || self is Private ==> {
                let ps = self.spec_seq().spec_perms();
                let ri = resolved_index(index, ps.len() as int);
                &&& (r is Ok <==> ri is Some && ri->0 < ps.len() && ps[ri->0] is Private)
                &&& r is Ok ==> ps[ri->0] == (PermissionsView::Private {
                    table: r->Ok_0.spec_table(),
                    expected_data_index: r->Ok_0.expected_data_index,
                    expected_owners_index: r->Ok_0.expected_owners_index,
                })
                &&& r is Err ==> r == Err::<&PrivatePermissions, Error>(Error::NoSuchEntry)
            },
    {
        let data = match self {
            Data::PrivateSentried(data) => data,
            Data::Private(data) => data,
            _ => {
                return Err(Error::NoSuchData);
            },
        };
        match data.permissions_at(index) {
            Some(SequencePermissions::Private(permissions)) => Ok(permissions),
            _ => Err(Error::NoSuchEntry),
        }
    }

    /// Returns the policy the public snapshot at `index` records for
    /// `user`, as a copy.
    pub fn public_user_permissions_at(&self, user: User, index: Index) -> (r: Result<
        PublicPermissionSet,
        Error,
    >)
        ensures
            self is PrivateSentried || self is Private ==> r == Err::<
                PublicPermissionSet,
                Error,
            >(Error::NoSuchData),
            self is PublicSentried || self is Public ==> {
                let ps = self.spec_seq().spec_perms();
                let ri = resolved_index(index, ps.len() as int);
                &&& (r is Ok <==> ri is Some && ri->0 < ps.len() && ps[ri->0] is Public
                    && spec_user_lookup(ps[ri->0]->Public_table, user) is Some)
                &&& r is Ok ==> Some(r->Ok_0.spec_pairs()) == spec_user_lookup(
                    ps[ri->0]->Public_table,
                    user,
                )
                &&& r is Err ==> r == Err::<PublicPermissionSet, Error>(Error::NoSuchEntry)
            },
    {
        let permissions = match self.public_permissions_at(index) {
            Ok(permissions) => permissions,
            Err(e) => {
                return Err(e);
            },
        };
        match permissions.user_permissions(&user) {
            Some(set) => Ok(set.clone()),
            None => Err(Error::NoSuchEntry),
        }
    }

    /// Returns the policy the private snapshot at `index` records for
    /// `user`, as a copy.
    pub fn private_user_permissions_at(&self, user: PublicKey, index: Index) -> (r: Result<
        PrivatePermissionSet,
        Error,
    >)
        ensures
            self is PublicSentried || self is Public ==> r == Err::<
                PrivatePermissionSet,
                Error,
            >(Error::NoSuchData),
            self is PrivateSentried || self is Private ==> {
                let ps = self.spec_seq().spec_perms();
                let ri = resolved_index(index, ps.len() as int);
                &&& (r is Ok <==> ri is Some && ri->0 < ps.len() && ps[ri->0] is Private
                    && spec_key_lookup(ps[ri->0]->Private_table, user) is Some)
                &&& r is Ok ==> Some(r->Ok_0.spec_pairs()) == spec_key_lookup(
                    ps[ri->0]->Private_table,
                    user,
                )
                &&& r is Err ==> r == Err::<PrivatePermissionSet, Error>(Error::NoSuchEntry)
            },
    {
        let permissions = match self.private_permissions_at(index) {
            Ok(permissions) => permissions,
            Err(e) => {
                return Err(e);
            },
        };
        match permissions.user_permissions(&user) {
            Some(set) => Ok(set.clone()),
            None => Err(Error::NoSuchEntry),
        }
    }

    /// Returns the data shell of the held sequence, in the same variant.
    pub fn shell(&self, index: Index) -> (r: Result<Data, Error>)
        ensures
            r is Ok <==> resolved_index(index, self.spec_seq().spec_data().len() as int) is Some,
            r is Err ==> r == Err::<Data, Error>(Error::NoSuchEntry),
            r is Ok ==> ({
                let x = resolved_index(index, self.spec_seq().spec_data().len() as int)->0 as u64;
                let shell = r->Ok_0.spec_seq();
                &&& (self is PublicSentried <==> r->Ok_0 is PublicSentried)
                &&& (self is Public <==> r->Ok_0 is Public)
                &&& (self is PrivateSentried <==> r->Ok_0 is PrivateSentried)
                &&& (self is Private <==> r->Ok_0 is Private)
                &&& shell.spec_address() == self.spec_seq().spec_address()
                &&& shell.spec_data() =~= Seq::<Seq<u8>>::empty()
                &&& shell.spec_owners() == owners_up_to(self.spec_seq().spec_owners(), x)
                &&& shell.spec_perms() == perms_up_to(self.spec_seq().spec_perms(), x)
            }),
    {
        match self {
            Data::PublicSentried(data) => match data.shell(index) {
                Ok(shell) => Ok(Data::PublicSentried(shell)),
                Err(e) => Err(e),
            },
            Data::Public(data) => match data.shell(index) {
                Ok(shell) => Ok(Data::Public(shell)),
                Err(e) => Err(e),
            },
            Data::PrivateSentried(data) => match data.shell(index) {
                Ok(shell) => Ok(Data::PrivateSentried(shell)),
                Err(e) => Err(e),
            },
            Data::Private(data) => match data.shell(index) {
                Ok(shell) => Ok(Data::Private(shell)),
                Err(e) => Err(e),
            },
        }
    }
}

impl Clone for Data {
    /// Returns a copy holding an equal sequence core, in the same
    /// variant.
    fn clone(&self) -> (r: Self)
        ensures
            (self is PublicSentried <==> r is PublicSentried),
            (self is Public <==> r is Public),
            (self is PrivateSentried <==> r is PrivateSentried),
            (self is Private <==> r is Private),
            r.spec_seq().spec_address() == self.spec_seq().spec_address(),
            r.spec_seq().spec_data() == self.spec_seq().spec_data(),
            r.spec_seq().spec_owners() == self.spec_seq().spec_owners(),
            r.spec_seq().spec_perms() == self.spec_seq().spec_perms(),
    {
        match self {
            Data::PublicSentried(data) => Data::PublicSentried(data.clone()),
            Data::Public(data) => Data::Public(data.clone()),
            Data::PrivateSentried(data) => Data::PrivateSentried(data.clone()),
            Data::Private(data) => Data::Private(data.clone()),
        }
    }
}

impl From<Sequence> for Data {
    /// Wraps a sequence in the variant matching its address kind.
    fn from(data: Sequence) -> (r: Self) {
        match data.address().kind() {
            Kind::PublicSentried => Data::PublicSentried(data),
            Kind::Public => Data::Public(data),
            Kind::PrivateSentried => Data::PrivateSentried(data),
            Kind::Private => Data::Private(data),
        }
    }
}

impl vstd::std_specs::convert::FromSpecImpl<Sequence> for Data {
    open spec fn obeys_from_spec() -> bool {
        true
    }

    open spec fn from_spec(data: Sequence) -> Self {
        match data.spec_address().spec_kind() {
            Kind::PublicSentried => Data::PublicSentried(data),
            Kind::Public => Data::Public(data),
            Kind::PrivateSentried => Data::PrivateSentried(data),
            Kind::Private => Data::Private(data),
        }
    }
}

/// A request to append values to the sequence at an address.
#[derive(Clone, PartialEq, Eq, Debug)]
pub struct AppendOperation {
    /// Address of a sequence object on the network.
    pub address: Address,
    /// A list of values to append.
    pub values: Values,
}

/// The latest owner is always permitted every request on their own
/// sequence, independent of the permission table contents.
pub proof fn lemma_owner_always_permitted(s: Sequence, req: Request)
    requires
        s.spec_owners().len() > 0,
    ensures
        s.spec_is_permitted(s.spec_owners().last().public_key, req),
{
}

/// The latest owner is always permitted every request on their own data,
/// independent of the permission table contents, in every variant.
pub proof fn lemma_owner_always_permitted_data(data: Data, req: Request)
    requires
        data.spec_seq().spec_owners().len() > 0,
    ensures
        data.spec_is_permitted(req, data.spec_seq().spec_owners().last().public_key),
{
}

/// The causal ordering every reachable sequence maintains: each history
/// entry records history lengths observed at its insertion, so recorded
/// lengths never exceed the current ones and never decrease along a
/// history.
pub open spec fn spec_causally_ordered(s: Sequence) -> bool {
    &&& forall|i: int, j: int| 0 <= i <= j < s.spec_owners().len()
        ==> #[trigger] s.spec_owners()[i].expected_data_index <= #[trigger] s.spec_owners()[j].expected_data_index
            && s.spec_owners()[i].expected_permissions_index
            <= s.spec_owners()[j].expected_permissions_index
    &&& forall|i: int, j: int| 0 <= i <= j < s.spec_perms().len()
        ==> #[trigger] s.spec_perms()[i].spec_expected_data_index()
            <= #[trigger] s.spec_perms()[j].spec_expected_data_index()
            && s.spec_perms()[i].spec_expected_owners_index()
            <= s.spec_perms()[j].spec_expected_owners_index()
    &&& s.spec_owners().len() > 0 ==> s.spec_owners().last().expected_data_index
        <= s.spec_expected_data_index() && s.spec_owners().last().expected_permissions_index
        <= s.spec_expected_permissions_index()
    &&& s.spec_perms().len() > 0 ==> s.spec_perms().last().spec_expected_data_index()
        <= s.spec_expected_data_index() && s.spec_perms().last().spec_expected_owners_index()
        <= s.spec_expected_owners_index()
}

/// A new sequence is causally ordered.
pub proof fn lemma_new_causally_ordered(s: Sequence)
    requires
        s.spec_data().len() == 0,
        s.spec_owners().len() == 0,
        s.spec_perms().len() == 0,
    ensures
        spec_causally_ordered(s),
{
}

/// A successful `set_owner` preserves causal ordering: the appended entry
/// records exactly the history lengths observed immediately before it was
/// appended.
pub proof fn lemma_set_owner_preserves_order(pre: Sequence, post: Sequence, owner: Owner)
    requires
        spec_causally_ordered(pre),
        post.spec_owners().len() <= u64::MAX,
        owner.expected_data_index == pre.spec_expected_data_index(),
        owner.expected_permissions_index == pre.spec_expected_permissions_index(),
        post.spec_owners() == pre.spec_owners().push(owner),
        post.spec_data() == pre.spec_data(),
        post.spec_perms() == pre.spec_perms(),
    ensures
        spec_causally_ordered(post),
{
    assert forall|i: int, j: int| 0 <= i <= j < post.spec_owners().len()
        implies #[trigger] post.spec_owners()[i].expected_data_index
            <= #[trigger] post.spec_owners()[j].expected_data_index
            && post.spec_owners()[i].expected_permissions_index
            <= post.spec_owners()[j].expected_permissions_index by {
        if j < pre.spec_owners().len() {
            assert(post.spec_owners()[i] == pre.spec_owners()[i]);
            assert(post.spec_owners()[j] == pre.spec_owners()[j]);
        } else {
            assert(post.spec_owners()[j] == owner);
            if i < pre.spec_owners().len() {
                assert(post.spec_owners()[i] == pre.spec_owners()[i]);
                assert(pre.spec_owners()[i].expected_data_index <= pre.spec_owners().last().expected_data_index);
                assert(pre.spec_owners()[i].expected_permissions_index
                    <= pre.spec_owners().last().expected_permissions_index);
            }
        }
    }
    assert(post.spec_owners()[pre.spec_owners().len() as int] == owner);
    assert(post.spec_owners().last() == owner);
    assert(pre.spec_expected_owners_index() <= post.spec_expected_owners_index());
}

/// A successful `set_permissions` preserves causal ordering: the appended
/// snapshot records exactly the history lengths observed immediately
/// before it was appended.
pub proof fn lemma_set_permissions_preserves_order(
    pre: Sequence,
    post: Sequence,
    view: PermissionsView,
)
    requires
        spec_causally_ordered(pre),
        post.spec_perms().len() <= u64::MAX,
        view.spec_expected_data_index() == pre.spec_expected_data_index(),
        view.spec_expected_owners_index() == pre.spec_expected_owners_index(),
        post.spec_perms() == pre.spec_perms().push(view),
        post.spec_data() == pre.spec_data(),
        post.spec_owners() == pre.spec_owners(),
    ensures
        spec_causally_ordered(post),
{
    assert forall|i: int, j: int| 0 <= i <= j < post.spec_perms().len()
        implies #[trigger] post.spec_perms()[i].spec_expected_data_index()
            <= #[trigger] post.spec_perms()[j].spec_expected_data_index()
            && post.spec_perms()[i].spec_expected_owners_index()
            <= post.spec_perms()[j].spec_expected_owners_index() by {
        if j < pre.spec_perms().len() {
            assert(post.spec_perms()[i] == pre.spec_perms()[i]);
            assert(post.spec_perms()[j] == pre.spec_perms()[j]);
        } else {
            assert(post.spec_perms()[j] == view);
            if i < pre.spec_perms().len() {
                assert(post.spec_perms()[i] == pre.spec_perms()[i]);
                assert(pre.spec_perms()[i].spec_expected_data_index()
                    <= pre.spec_perms().last().spec_expected_data_index());
                assert(pre.spec_perms()[i].spec_expected_owners_index()
                    <= pre.spec_perms().last().spec_expected_owners_index());
            }
        }
    }
    assert(post.spec_perms()[pre.spec_perms().len() as int] == view);
    assert(post.spec_perms().last() == view);
    assert(pre.spec_expected_permissions_index() <= post.spec_expected_permissions_index());
}

/// A successful `append` preserves causal ordering: the value log only
/// grows, so recorded data indices stay within the current length.
pub proof fn lemma_append_preserves_order(pre: Sequence, post: Sequence, values: Seq<Seq<u8>>)
    requires
        spec_causally_ordered(pre),
        post.spec_data().len() <= u64::MAX,
        post.spec_data() == pre.spec_data() + values,
        post.spec_owners() == pre.spec_owners(),
        post.spec_perms() == pre.spec_perms(),
    ensures
        spec_causally_ordered(post),
{
    assert(pre.spec_data().len() <= post.spec_data().len());
    assert(pre.spec_expected_data_index() <= post.spec_expected_data_index());
}


} // verus!
