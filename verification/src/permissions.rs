//! Permission snapshots for the sequence structure.
//!
//! A snapshot is a per-subject policy table beside the data and owner
//! history lengths observed when the snapshot was appended. The public
//! flavour keys its table by [`User`] and falls back to a wildcard
//! `Anyone` entry; the private flavour keys its table by [`PublicKey`] and
//! has no fallback: absence means denial.
//!
//! Policy tables are held as association vectors; a later entry for the
//! same subject overrides an earlier one, mirroring insertion into a map.

use vstd::prelude::*;
use crate::keys::PublicKey;
use crate::shared_data::User;

verus! {

/// A hard-erasure command class.
#[derive(Clone, Copy, PartialEq, Eq, Structural, PartialOrd, Ord, Debug, Hash)]
pub enum HardErasureCmd {
    /// Permanently delete an entry.
    HardDelete,
    /// Permanently overwrite an entry.
    HardUpdate,
}

/// A write class whose permission can be granted or denied.
#[derive(Clone, Copy, PartialEq, Eq, Structural, PartialOrd, Ord, Debug, Hash)]
pub enum SequenceWrite {
    /// Appending values.
    Append,
    /// Changing the permission table.
    ModifyPermissions,
    /// Hard erasure of history.
    HardErasure(HardErasureCmd),
}

/// The aspects of a sequence whose permissions can themselves be modified.
#[derive(Clone, Copy, PartialEq, Eq, Structural, PartialOrd, Ord, Debug, Hash)]
pub enum ModifyableSequencePermissions {
    /// Reading the data log.
    ReadData,
    /// Reading the owner history.
    ReadOwners,
    /// Reading the permission history.
    ReadPermissions,
    /// A write class.
    Write(SequenceWrite),
}

/// A command on a sequence.
#[derive(Clone, Copy, PartialEq, Eq, Structural, PartialOrd, Ord, Debug, Hash)]
pub enum SequenceCmd {
    /// Append values to the data log.
    Append,
    /// Modify a class of permissions.
    ModifyPermissions(ModifyableSequencePermissions),
}

/// A read-class query on a sequence.
#[derive(Clone, Copy, PartialEq, Eq, Structural, PartialOrd, Ord, Debug, Hash)]
pub enum SequenceQuery {
    /// Read the data log.
    ReadData,
    /// Read the owner history.
    ReadOwners,
    /// Read the permission history.
    ReadPermissions,
}

/// The command classes, by data structure.
#[derive(Clone, Copy, PartialEq, Eq, Structural, PartialOrd, Ord, Debug, Hash)]
pub enum CmdType {
    /// A command on a sequence.
    Sequence(SequenceCmd),
}

/// The query classes, by data structure.
#[derive(Clone, Copy, PartialEq, Eq, Structural, PartialOrd, Ord, Debug, Hash)]
pub enum QueryType {
    /// A query on a sequence.
    Sequence(SequenceQuery),
}

/// A request whose permission is evaluated: a read-class query or a
/// state-changing command.
#[derive(Clone, Copy, PartialEq, Eq, Structural, PartialOrd, Ord, Debug, Hash)]
pub enum Request {
    /// A read-class query.
    Query(QueryType),
    /// A state-changing command.
    Cmd(CmdType),
}

impl Request {
    /// True for read-class queries, which a public sequence grants to
    /// every caller unconditionally.
    pub open spec fn spec_is_query(self) -> bool {
        self is Query
    }

    /// Returns true if this is a read-class query.
    pub fn is_query(&self) -> (r: bool)
        ensures
            r == self.spec_is_query(),
    {
        matches!(self, Request::Query(_))
    }
}

/// The decision a policy table records for a request class: the decision
/// of the latest entry for that class, or nothing when no entry names it.
pub open spec fn spec_request_lookup(pairs: Seq<(Request, bool)>, req: Request) -> Option<bool>
    decreases pairs.len(),
{
    if pairs.len() == 0 {
        None
    } else if pairs.last().0 == req {
        Some(pairs.last().1)
    } else {
        spec_request_lookup(pairs.drop_last(), req)
    }
}

/// The policy table a public snapshot holds for a subject: the table of
/// the latest entry for that subject, or nothing when no entry names it.
pub open spec fn spec_user_lookup(
    table: Seq<(User, Seq<(Request, bool)>)>,
    user: User,
) -> Option<Seq<(Request, bool)>>
    decreases table.len(),
{
    if table.len() == 0 {
        None
    } else if table.last().0 == user {
        Some(table.last().1)
    } else {
        spec_user_lookup(table.drop_last(), user)
    }
}

/// The policy table a private snapshot holds for a key: the table of the
/// latest entry for that key, or nothing when no entry names it.
pub open spec fn spec_key_lookup(
    table: Seq<(PublicKey, Seq<(Request, bool)>)>,
    key: PublicKey,
) -> Option<Seq<(Request, bool)>>
    decreases table.len(),
{
    if table.len() == 0 {
        None
    } else if table.last().0 == key {
        Some(table.last().1)
    } else {
        spec_key_lookup(table.drop_last(), key)
    }
}

/// The decision a public policy table records for the wildcard `Anyone`
/// subject: an explicit decision, or denial when no entry covers `req`.
pub open spec fn spec_anyone_permits(table: Seq<(User, Seq<(Request, bool)>)>, req: Request) -> bool {
    match spec_user_lookup(table, User::Anyone) {
        Some(pairs) => match spec_request_lookup(pairs, req) {
            Some(b) => b,
            None => false,
        },
        None => false,
    }
}

/// The decision a public policy table records for `user` making `req`: the
/// explicit per-key decision when one exists, else the wildcard `Anyone`
/// decision, else denial.
pub open spec fn spec_public_permits(
    table: Seq<(User, Seq<(Request, bool)>)>,
    user: PublicKey,
    req: Request,
) -> bool {
    match spec_user_lookup(table, User::Specific(user)) {
        Some(pairs) => match spec_request_lookup(pairs, req) {
            Some(b) => b,
            None => spec_anyone_permits(table, req),
        },
        None => spec_anyone_permits(table, req),
    }
}

/// The decision a private policy table records for `user` making `req`: an
/// explicit allowance is required; an explicit denial or the absence of any
/// entry denies.
pub open spec fn spec_private_permits(
    table: Seq<(PublicKey, Seq<(Request, bool)>)>,
    user: PublicKey,
    req: Request,
) -> bool {
    match spec_key_lookup(table, user) {
        Some(pairs) => spec_request_lookup(pairs, req) == Some(true),
        None => false,
    }
}

/// The per-request decisions granted to one subject: an explicit allow or
/// deny for each request class named in it.
#[derive(PartialEq, Eq, Debug)]
pub struct PublicPermissionSet {
    /// The recorded (request, decision) pairs, in insertion order; a later
    /// pair for the same request overrides an earlier one.
    pub permissions: Vec<(Request, bool)>,
}

impl PublicPermissionSet {
    /// The recorded (request, decision) pairs, in insertion order.
    pub open spec fn spec_pairs(self) -> Seq<(Request, bool)> {
        self.permissions@
    }

    /// Records the given (request, decision) pairs.
    pub fn new(permissions: Vec<(Request, bool)>) -> (r: Self)
        ensures
            r.spec_pairs() == permissions@,
    {
        PublicPermissionSet { permissions }
    }

    /// The decision recorded for `request`, if any.
    pub fn is_permitted(&self, request: &Request) -> (r: Option<bool>)
        ensures
            r == spec_request_lookup(self.spec_pairs(), *request),
    {
        lookup_request(&self.permissions, request)
    }
}

/// The per-request decisions granted to one key of a private sequence.
#[derive(PartialEq, Eq, Debug)]
pub struct PrivatePermissionSet {
    /// The recorded (request, decision) pairs, in insertion order; a later
    /// pair for the same request overrides an earlier one.
    pub permissions: Vec<(Request, bool)>,
}

impl PrivatePermissionSet {
    /// The recorded (request, decision) pairs, in insertion order.
    pub open spec fn spec_pairs(self) -> Seq<(Request, bool)> {
        self.permissions@
    }

    /// Records the given (request, decision) pairs.
    pub fn new(permissions: Vec<(Request, bool)>) -> (r: Self)
        ensures
            r.spec_pairs() == permissions@,
    {
        PrivatePermissionSet { permissions }
    }

    /// The decision recorded for `request`, if any.
    pub fn is_permitted(&self, request: &Request) -> (r: Option<bool>)
        ensures
            r == spec_request_lookup(self.spec_pairs(), *request),
    {
        lookup_request(&self.permissions, request)
    }
}

/// Finds the decision of the latest pair naming `request`.
fn lookup_request(pairs: &Vec<(Request, bool)>, request: &Request) -> (r: Option<bool>)
    ensures
        r == spec_request_lookup(pairs@, *request),
{
    let mut found: Option<bool> = None;
    let mut i: usize = 0;
    proof {
        assert(pairs@.take(0int) =~= Seq::<(Request, bool)>::empty());
    }
    while i < pairs.len()
        invariant
            0 <= i <= pairs@.len(),
            found == spec_request_lookup(pairs@.take(i as int), *request),
        decreases pairs@.len() - i,
    {
        let pair = pairs[i];
        proof {
            assert(pairs@.take(i + 1int).drop_last() =~= pairs@.take(i as int));
            assert(pairs@.take(i + 1int).last() == pairs@[i as int]);
        }
        if pair.0 == *request {
            found = Some(pair.1);
        }
        i += 1;
    }
    proof {
        assert(pairs@.take(pairs@.len() as int) =~= pairs@);
    }
    found
}

/// A public permission snapshot: a policy table keyed by [`User`], beside
/// the data and owner history lengths observed when it was appended.
///
/// When a key has no entry of its own, the wildcard `Anyone` entry is
/// consulted; an explicit per-key entry always overrides the wildcard.
#[derive(PartialEq, Eq, Debug)]
pub struct PublicPermissions {
    /// The policy table, in insertion order; a later entry for the same
    /// subject overrides an earlier one.
    pub permissions: Vec<(User, PublicPermissionSet)>,
    /// The data log length observed when this snapshot was appended.
    pub expected_data_index: u64,
    /// The owner history length observed when this snapshot was appended.
    pub expected_owners_index: u64,
}

impl PublicPermissions {
    /// The policy table, with each subject's pairs spelled out.
    pub open spec fn spec_table(self) -> Seq<(User, Seq<(Request, bool)>)> {
        self.permissions@.map_values(|e: (User, PublicPermissionSet)| (e.0, e.1.spec_pairs()))
    }

    /// The decision this snapshot records for `user` making `req`.
    pub open spec fn spec_is_permitted(self, user: PublicKey, req: Request) -> bool {
        spec_public_permits(self.spec_table(), user, req)
    }

    /// Returns the decision for `user` making `request`.
    pub fn is_permitted(&self, user: &PublicKey, request: &Request) -> (r: bool)
        ensures
            r == self.spec_is_permitted(*user, *request),
    {
        match self.user_permissions(&User::Specific(*user)) {
            Some(set) => match set.is_permitted(request) {
                Some(b) => b,
                None => self.anyone_permitted(request),
            },
            None => self.anyone_permitted(request),
        }
    }

    /// Returns the wildcard decision for `request`.
    fn anyone_permitted(&self, request: &Request) -> (r: bool)
        ensures
            r == spec_anyone_permits(self.spec_table(), *request),
    {
        match self.user_permissions(&User::Anyone) {
            Some(set) => match set.is_permitted(request) {
                Some(b) => b,
                None => false,
            },
            None => false,
        }
    }

    /// Returns the policy of the latest entry naming `user`, if any.
    pub fn user_permissions(&self, user: &User) -> (r: Option<&PublicPermissionSet>)
        ensures
            r is Some <==> spec_user_lookup(self.spec_table(), *user) is Some,
            r is Some ==> spec_user_lookup(self.spec_table(), *user) == Some(r->0.spec_pairs()),
    {
        let ghost table = self.spec_table();
        let mut found: Option<usize> = None;
        let mut i: usize = 0;
        proof {
            assert(table.take(0int) =~= Seq::<(User, Seq<(Request, bool)>)>::empty());
        }
        while i < self.permissions.len()
            invariant
                0 <= i <= self.permissions@.len(),
                table == self.spec_table(),
                table.len() == self.permissions@.len(),
                forall|j: int| 0 <= j < table.len() ==> #[trigger] table[j]
                    == (self.permissions@[j].0, self.permissions@[j].1.spec_pairs()),
                (match found {
                    Some(j) => j < i && spec_user_lookup(table.take(i as int), *user) == Some(
                        self.permissions@[j as int].1.spec_pairs(),
                    ),
                    None => spec_user_lookup(table.take(i as int), *user) is None,
                }),
            decreases self.permissions@.len() - i,
        {
            proof {
                assert(table.take(i + 1int).drop_last() =~= table.take(i as int));
                assert(table.take(i + 1int).last() == table[i as int]);
            }
            if self.permissions[i].0.equals(user) {
                found = Some(i);
            }
            i += 1;
        }
        proof {
            assert(table.take(table.len() as int) =~= table);
        }
        match found {
            Some(j) => Some(&self.permissions[j].1),
            None => None,
        }
    }
}

/// A private permission snapshot: a policy table keyed by [`PublicKey`],
/// beside the data and owner history lengths observed when it was
/// appended. There is no wildcard: a key without an entry is denied
/// everything.
#[derive(PartialEq, Eq, Debug)]
pub struct PrivatePermissions {
    /// The policy table, in insertion order; a later entry for the same
    /// key overrides an earlier one.
    pub permissions: Vec<(PublicKey, PrivatePermissionSet)>,
    /// The data log length observed when this snapshot was appended.
    pub expected_data_index: u64,
    /// The owner history length observed when this snapshot was appended.
    pub expected_owners_index: u64,
}

impl PrivatePermissions {
    /// The policy table, with each key's pairs spelled out.
    pub open spec fn spec_table(self) -> Seq<(PublicKey, Seq<(Request, bool)>)> {
        self.permissions@.map_values(|e: (PublicKey, PrivatePermissionSet)| (e.0, e.1.spec_pairs()))
    }

    /// The decision this snapshot records for `user` making `req`.
    pub open spec fn spec_is_permitted(self, user: PublicKey, req: Request) -> bool {
        spec_private_permits(self.spec_table(), user, req)
    }

    /// Returns the decision for `user` making `request`.
    pub fn is_permitted(&self, user: &PublicKey, request: &Request) -> (r: bool)
        ensures
            r == self.spec_is_permitted(*user, *request),
    {
        match self.user_permissions(user) {
            Some(set) => match set.is_permitted(request) {
                Some(b) => b,
                None => false,
            },
            None => false,
        }
    }

    /// Returns the policy of the latest entry naming `key`, if any.
    pub fn user_permissions(&self, key: &PublicKey) -> (r: Option<&PrivatePermissionSet>)
        ensures
            r is Some <==> spec_key_lookup(self.spec_table(), *key) is Some,
            r is Some ==> spec_key_lookup(self.spec_table(), *key) == Some(r->0.spec_pairs()),
    {
        let ghost table = self.spec_table();
        let mut found: Option<usize> = None;
        let mut i: usize = 0;
        proof {
            assert(table.take(0int) =~= Seq::<(PublicKey, Seq<(Request, bool)>)>::empty());
        }
        while i < self.permissions.len()
            invariant
                0 <= i <= self.permissions@.len(),
                table == self.spec_table(),
                table.len() == self.permissions@.len(),
                forall|j: int| 0 <= j < table.len() ==> #[trigger] table[j]
                    == (self.permissions@[j].0, self.permissions@[j].1.spec_pairs()),
                (match found {
                    Some(j) => j < i && spec_key_lookup(table.take(i as int), *key) == Some(
                        self.permissions@[j as int].1.spec_pairs(),
                    ),
                    None => spec_key_lookup(table.take(i as int), *key) is None,
                }),
            decreases self.permissions@.len() - i,
        {
            proof {
                assert(table.take(i + 1int).drop_last() =~= table.take(i as int));
                assert(table.take(i + 1int).last() == table[i as int]);
            }
            if self.permissions[i].0.equals(key) {
                found = Some(i);
            }
            i += 1;
        }
        proof {
            assert(table.take(table.len() as int) =~= table);
        }
        match found {
            Some(j) => Some(&self.permissions[j].1),
            None => None,
        }
    }
}


/// Copies a policy-pair vector.
fn clone_request_pairs(pairs: &Vec<(Request, bool)>) -> (r: Vec<(Request, bool)>)
    ensures
        r@ == pairs@,
{
    let mut out: Vec<(Request, bool)> = Vec::new();
    let mut i: usize = 0;
    while i < pairs.len()
        invariant
            0 <= i <= pairs@.len(),
            out@ =~= pairs@.take(i as int),
        decreases pairs@.len() - i,
    {
        out.push(pairs[i]);
        i += 1;
    }
    proof {
        assert(pairs@.take(pairs@.len() as int) =~= pairs@);
    }
    out
}

impl Clone for PublicPermissionSet {
    /// Returns a set with the same pairs.
    fn clone(&self) -> (r: Self)
        ensures
            r.spec_pairs() == self.spec_pairs(),
    {
        PublicPermissionSet { permissions: clone_request_pairs(&self.permissions) }
    }
}

impl Clone for PrivatePermissionSet {
    /// Returns a set with the same pairs.
    fn clone(&self) -> (r: Self)
        ensures
            r.spec_pairs() == self.spec_pairs(),
    {
        PrivatePermissionSet { permissions: clone_request_pairs(&self.permissions) }
    }
}

impl Clone for PublicPermissions {
    /// Returns a snapshot with the same table and recorded lengths.
    fn clone(&self) -> (r: Self)
        ensures
            r.spec_table() == self.spec_table(),
            r.expected_data_index == self.expected_data_index,
            r.expected_owners_index == self.expected_owners_index,
    {
        let mut table: Vec<(User, PublicPermissionSet)> = Vec::new();
        let mut i: usize = 0;
        while i < self.permissions.len()
            invariant
                0 <= i <= self.permissions@.len(),
                table@.len() == i,
                forall|j: int| 0 <= j < i ==> (#[trigger] table@[j]).0 == self.permissions@[j].0
                    && table@[j].1.spec_pairs() == self.permissions@[j].1.spec_pairs(),
            decreases self.permissions@.len() - i,
        {
            let entry = (self.permissions[i].0, self.permissions[i].1.clone());
            table.push(entry);
            i += 1;
        }
        let r = PublicPermissions {
            permissions: table,
            expected_data_index: self.expected_data_index,
            expected_owners_index: self.expected_owners_index,
        };
        proof {
            assert(r.spec_table() =~= self.spec_table());
        }
        r
    }
}

impl Clone for PrivatePermissions {
    /// Returns a snapshot with the same table and recorded lengths.
    fn clone(&self) -> (r: Self)
        ensures
            r.spec_table() == self.spec_table(),
            r.expected_data_index == self.expected_data_index,
            r.expected_owners_index == self.expected_owners_index,
    {
        let mut table: Vec<(PublicKey, PrivatePermissionSet)> = Vec::new();
        let mut i: usize = 0;
        while i < self.permissions.len()
            invariant
                0 <= i <= self.permissions@.len(),
                table@.len() == i,
                forall|j: int| 0 <= j < i ==> (#[trigger] table@[j]).0 == self.permissions@[j].0
                    && table@[j].1.spec_pairs() == self.permissions@[j].1.spec_pairs(),
            decreases self.permissions@.len() - i,
        {
            let entry = (self.permissions[i].0, self.permissions[i].1.clone());
            table.push(entry);
            i += 1;
        }
        let r = PrivatePermissions {
            permissions: table,
            expected_data_index: self.expected_data_index,
            expected_owners_index: self.expected_owners_index,
        };
        proof {
            assert(r.spec_table() =~= self.spec_table());
        }
        r
    }
}

impl User {
    /// Compares two subjects for equality.
    pub fn equals(&self, other: &User) -> (r: bool)
        ensures
            r == (*self == *other),
    {
        match (self, other) {
            (User::Anyone, User::Anyone) => true,
            (User::Specific(a), User::Specific(b)) => a.equals(b),
            _ => false,
        }
    }
}

} // verus!
