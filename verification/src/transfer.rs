//! The value-transfer state progression and its threshold-proof types.
//!
//! A client builds a [`Transfer`] and signs it, producing a
//! [`ValidateTransfer`]. Each section member willing to accept the
//! transfer signs those exact bytes with its threshold-group key share,
//! producing a [`TransferValidated`] vote. Shares from at least
//! quorum-many distinct members are combined, externally to this crate,
//! into one group signature, yielding a [`ProofOfAgreement`]: the
//! section's consensus certificate for the debit. No single party holds
//! unilateral authority at any step.
//!
//! Replay and double spending are refused by the [`TransferRegistry`]:
//! the `(actor, counter)` pair of a transfer is the sole de-duplication
//! key, and the counter is strictly increasing per actor.

use vstd::prelude::*;
use vstd::bytes::{spec_u64_to_le_bytes, u64_to_le_bytes};
use crate::codec::{key_to_bytes, spec_key_bytes};
use crate::errors::Error;
use crate::keys::{same_scheme, spec_scheme_verifies, PublicKey, Signature, SignatureShare};
use crate::money::Money;

verus! {

broadcast use vstd::array::group_array_axioms;

/// A causal identifier of one transfer: the debited actor's key and a
/// per-actor counter. Uniqueness of the pair is the double-spend guard;
/// no other field may be used for that purpose.
#[derive(Clone, Copy, PartialEq, Eq, PartialOrd, Ord, Hash, Debug)]
pub struct TransferId {
    /// The key of the actor being debited.
    pub actor: PublicKey,
    /// The actor's strictly increasing transfer counter.
    pub counter: u64,
}

/// Determines the behaviour of a transfer when validation over the
/// different possible states is done.
#[derive(Clone, Copy, PartialEq, Eq, Structural, PartialOrd, Ord, Hash, Debug)]
pub enum TransferRestrictions {
    /// Fails the transfer if the actor key has no registered history.
    RequireHistory,
    /// Fails the transfer if the actor key has registered history.
    ExpectNoHistory,
    /// Transfers regardless of previous history.
    NoRestriction,
}

/// One transfer of money from the actor named by `id` to `to`.
#[derive(Clone, Copy, PartialEq, Eq, PartialOrd, Ord, Hash, Debug)]
pub struct Transfer {
    /// The causal transfer identifier.
    pub id: TransferId,
    /// The destination to transfer to.
    pub to: PublicKey,
    /// The amount to transfer.
    pub amount: Money,
    /// The restriction policy the sections enforce on validation.
    pub restrictions: TransferRestrictions,
}

/// The canonical byte of a restriction policy.
pub open spec fn spec_restriction_byte(r: TransferRestrictions) -> u8 {
    match r {
        TransferRestrictions::RequireHistory => 0,
        TransferRestrictions::ExpectNoHistory => 1,
        TransferRestrictions::NoRestriction => 2,
    }
}

/// The canonical bytes of a transfer: the actor key, the counter, the
/// destination key, the amount, and the restriction byte, in that order.
/// Signatures over a transfer are produced and verified over these bytes.
pub open spec fn spec_transfer_bytes(t: Transfer) -> Seq<u8> {
    spec_key_bytes(t.id.actor) + spec_u64_to_le_bytes(t.id.counter) + spec_key_bytes(t.to)
        + spec_u64_to_le_bytes(t.amount.nano) + seq![spec_restriction_byte(t.restrictions)]
}

/// Builds the canonical bytes of a transfer.
pub fn transfer_to_bytes(t: &Transfer) -> (r: Vec<u8>)
    ensures
        r@ == spec_transfer_bytes(*t),
{
    let mut out = key_to_bytes(&t.id.actor);
    let mut counter_bytes = u64_to_le_bytes(t.id.counter);
    out.append(&mut counter_bytes);
    let mut to_bytes = key_to_bytes(&t.to);
    out.append(&mut to_bytes);
    let mut amount_bytes = u64_to_le_bytes(t.amount.nano);
    out.append(&mut amount_bytes);
    let byte: u8 = match t.restrictions {
        TransferRestrictions::RequireHistory => 0,
        TransferRestrictions::ExpectNoHistory => 1,
        TransferRestrictions::NoRestriction => 2,
    };
    out.push(byte);
    proof {
        assert(out@ =~= spec_transfer_bytes(*t));
    }
    out
}


/// The canonical encoding of transfers is injective: identical bytes mean
/// an identical transfer, so a signature over the bytes binds every field
/// of the transfer.
pub proof fn lemma_transfer_bytes_injective(a: Transfer, b: Transfer)
    requires
        spec_transfer_bytes(a) == spec_transfer_bytes(b),
    ensures
        a == b,
{
    vstd::bytes::lemma_auto_spec_u64_to_from_le_bytes();
    crate::codec::lemma_key_bytes_shape(a.id.actor);
    crate::codec::lemma_key_bytes_shape(b.id.actor);
    crate::codec::lemma_key_bytes_shape(a.to);
    crate::codec::lemma_key_bytes_shape(b.to);
    let ea = spec_transfer_bytes(a);
    let eb = spec_transfer_bytes(b);
    let ka = spec_key_bytes(a.id.actor);
    let kb = spec_key_bytes(b.id.actor);

    // The leading scheme tag fixes the actor key length on both sides.
    assert(ea[0] == ka[0]);
    assert(eb[0] == kb[0]);
    assert(ka.len() == kb.len());
    let la = ka.len() as int;

    // Actor keys.
    assert forall|i: int| 0 <= i < la implies ka[i] == kb[i] by {
        assert(ea[i] == ka[i]);
        assert(eb[i] == kb[i]);
    }
    assert(ka =~= kb);
    crate::codec::lemma_key_bytes_injective(a.id.actor, b.id.actor);

    // Counters.
    let ca = spec_u64_to_le_bytes(a.id.counter);
    let cb = spec_u64_to_le_bytes(b.id.counter);
    assert forall|i: int| 0 <= i < 8 implies ca[i] == cb[i] by {
        assert(ea[la + i] == ca[i]);
        assert(eb[la + i] == cb[i]);
    }
    assert(ca =~= cb);
    assert(a.id.counter == b.id.counter);

    // The scheme tag at the next position fixes the destination key
    // length on both sides.
    let ta = spec_key_bytes(a.to);
    let tb = spec_key_bytes(b.to);
    assert(ea[la + 8] == ta[0]);
    assert(eb[la + 8] == tb[0]);
    assert(ta.len() == tb.len());
    let lt = ta.len() as int;

    // Destination keys.
    assert forall|i: int| 0 <= i < lt implies ta[i] == tb[i] by {
        assert(ea[la + 8 + i] == ta[i]);
        assert(eb[la + 8 + i] == tb[i]);
    }
    assert(ta =~= tb);
    crate::codec::lemma_key_bytes_injective(a.to, b.to);

    // Amounts.
    let ma = spec_u64_to_le_bytes(a.amount.nano);
    let mb = spec_u64_to_le_bytes(b.amount.nano);
    assert forall|i: int| 0 <= i < 8 implies ma[i] == mb[i] by {
        assert(ea[la + 8 + lt + i] == ma[i]);
        assert(eb[la + 8 + lt + i] == mb[i]);
    }
    assert(ma =~= mb);
    assert(a.amount.nano == b.amount.nano);

    // The restriction byte distinguishes the three policies.
    assert(ea[la + 8 + lt + 8] == spec_restriction_byte(a.restrictions));
    assert(eb[la + 8 + lt + 8] == spec_restriction_byte(b.restrictions));
    assert(a.restrictions == b.restrictions);
}

/// A client's command to validate a transfer: the transfer and the
/// client's signature over its canonical bytes.
#[derive(Clone, Copy, PartialEq, Eq, PartialOrd, Ord, Hash, Debug)]
pub struct ValidateTransfer {
    /// The transfer.
    pub transfer: Transfer,
    /// Client signature over the transfer's canonical bytes.
    pub client_signature: Signature,
}

impl ValidateTransfer {
    /// Returns `Ok(())` iff the client signature names the same scheme as
    /// the actor key of the transfer and the scheme's native predicate
    /// accepts it over the transfer's canonical bytes. The command carries
    /// no authority before this call succeeds.
    pub fn verify(&self) -> (r: Result<(), Error>)
        ensures
            !same_scheme(self.transfer.id.actor, self.client_signature) <==> r == Err::<
                (),
                Error,
            >(Error::SigningKeyTypeMismatch),
            same_scheme(self.transfer.id.actor, self.client_signature) ==> (r is Ok
                <==> spec_scheme_verifies(
                self.transfer.id.actor,
                self.client_signature,
                spec_transfer_bytes(self.transfer),
            )),
            same_scheme(self.transfer.id.actor, self.client_signature) && !spec_scheme_verifies(
                self.transfer.id.actor,
                self.client_signature,
                spec_transfer_bytes(self.transfer),
            ) ==> r == Err::<(), Error>(Error::InvalidSignature),
    {
        let bytes = transfer_to_bytes(&self.transfer);
        self.transfer.id.actor.verify(&self.client_signature, bytes.as_slice())
    }
}

/// The canonical bytes of a signature: one scheme tag, then the share
/// index for a share signature, then the signature bytes of the scheme.
pub open spec fn spec_signature_bytes(s: Signature) -> Seq<u8> {
    match s {
        Signature::Ed25519(b) => seq![0u8] + b@,
        Signature::Bls(b) => seq![1u8] + b@,
        Signature::BlsShare(share) => seq![2u8] + spec_u64_to_le_bytes(share.index as u64)
            + share.share@,
    }
}

/// Builds the canonical bytes of a signature.
pub fn signature_to_bytes(s: &Signature) -> (r: Vec<u8>)
    ensures
        r@ == spec_signature_bytes(*s),
{
    let mut out: Vec<u8> = Vec::new();
    match s {
        Signature::Ed25519(b) => {
            out.push(0u8);
            crate::codec::append_array(&mut out, b);
        },
        Signature::Bls(b) => {
            out.push(1u8);
            crate::codec::append_array(&mut out, b);
        },
        Signature::BlsShare(share) => {
            out.push(2u8);
            let mut index_bytes = u64_to_le_bytes(share.index as u64);
            out.append(&mut index_bytes);
            crate::codec::append_array(&mut out, &share.share);
        },
    }
    proof {
        assert(out@ =~= spec_signature_bytes(*s));
    }
    out
}

/// The canonical bytes of a validate command: the transfer bytes, then
/// the client signature bytes. An elder's share signature and the
/// section's combined signature are produced and verified over exactly
/// these bytes.
pub open spec fn spec_validate_transfer_bytes(v: ValidateTransfer) -> Seq<u8> {
    spec_transfer_bytes(v.transfer) + spec_signature_bytes(v.client_signature)
}

/// Builds the canonical bytes of a validate command.
pub fn validate_transfer_to_bytes(v: &ValidateTransfer) -> (r: Vec<u8>)
    ensures
        r@ == spec_validate_transfer_bytes(*v),
{
    let mut out = transfer_to_bytes(&v.transfer);
    let mut sig_bytes = signature_to_bytes(&v.client_signature);
    out.append(&mut sig_bytes);
    proof {
        assert(out@ =~= spec_validate_transfer_bytes(*v));
    }
    out
}


/// The canonical bytes of a signature are self-delimiting: the leading
/// scheme tag determines their length.
pub proof fn lemma_signature_bytes_shape(s: Signature)
    ensures
        spec_signature_bytes(s).len() >= 1,
        spec_signature_bytes(s)[0] == 0 || spec_signature_bytes(s)[0] == 1
            || spec_signature_bytes(s)[0] == 2,
        spec_signature_bytes(s)[0] == 0 ==> spec_signature_bytes(s).len() == 65,
        spec_signature_bytes(s)[0] == 1 ==> spec_signature_bytes(s).len() == 97,
        spec_signature_bytes(s)[0] == 2 ==> spec_signature_bytes(s).len() == 105,
{
    vstd::bytes::lemma_auto_spec_u64_to_from_le_bytes();
    match s {
        Signature::Ed25519(b) => {
            assert(spec_signature_bytes(s)[0] == 0);
        },
        Signature::Bls(b) => {
            assert(spec_signature_bytes(s)[0] == 1);
        },
        Signature::BlsShare(share) => {
            assert(spec_signature_bytes(s)[0] == 2);
        },
    }
}

/// The canonical encoding of signatures is injective: identical bytes
/// mean an identical signature, share index included.
pub proof fn lemma_signature_bytes_injective(a: Signature, b: Signature)
    requires
        spec_signature_bytes(a) == spec_signature_bytes(b),
    ensures
        a == b,
{
    vstd::bytes::lemma_auto_spec_u64_to_from_le_bytes();
    lemma_signature_bytes_shape(a);
    lemma_signature_bytes_shape(b);
    let ea = spec_signature_bytes(a);
    let eb = spec_signature_bytes(b);
    assert(ea[0] == eb[0]);
    match (a, b) {
        (Signature::Ed25519(x), Signature::Ed25519(y)) => {
            assert forall|i: int| 0 <= i < 64 implies x@[i] == y@[i] by {
                assert(ea[1 + i] == x@[i]);
                assert(eb[1 + i] == y@[i]);
            }
            assert(x =~= y);
        },
        (Signature::Bls(x), Signature::Bls(y)) => {
            assert forall|i: int| 0 <= i < 96 implies x@[i] == y@[i] by {
                assert(ea[1 + i] == x@[i]);
                assert(eb[1 + i] == y@[i]);
            }
            assert(x =~= y);
        },
        (Signature::BlsShare(x), Signature::BlsShare(y)) => {
            let ia = spec_u64_to_le_bytes(x.index as u64);
            let ib = spec_u64_to_le_bytes(y.index as u64);
            assert forall|i: int| 0 <= i < 8 implies ia[i] == ib[i] by {
                assert(ea[1 + i] == ia[i]);
                assert(eb[1 + i] == ib[i]);
            }
            assert(ia =~= ib);
            assert(x.index as u64 == y.index as u64);
            assert(x.index == y.index);
            assert forall|i: int| 0 <= i < 96 implies x.share@[i] == y.share@[i] by {
                assert(ea[9 + i] == x.share@[i]);
                assert(eb[9 + i] == y.share@[i]);
            }
            assert(x.share =~= y.share);
        },
        _ => {},
    }
}

/// The canonical encoding of validate commands is injective: the section
/// signature of a consensus certificate binds the whole command, transfer
/// and client signature alike.
pub proof fn lemma_validate_transfer_bytes_injective(a: ValidateTransfer, b: ValidateTransfer)
    requires
        spec_validate_transfer_bytes(a) == spec_validate_transfer_bytes(b),
    ensures
        a == b,
{
    crate::codec::lemma_key_bytes_shape(a.transfer.id.actor);
    crate::codec::lemma_key_bytes_shape(b.transfer.id.actor);
    crate::codec::lemma_key_bytes_shape(a.transfer.to);
    crate::codec::lemma_key_bytes_shape(b.transfer.to);
    vstd::bytes::lemma_auto_spec_u64_to_from_le_bytes();
    let ea = spec_validate_transfer_bytes(a);
    let eb = spec_validate_transfer_bytes(b);
    let ta = spec_transfer_bytes(a.transfer);
    let tb = spec_transfer_bytes(b.transfer);

    // The two leading scheme tags fix the transfer block length on both
    // sides: the encoding is self-delimiting.
    let la = spec_key_bytes(a.transfer.id.actor).len() as int;
    let lb = spec_key_bytes(b.transfer.id.actor).len() as int;
    assert(ea[0] == spec_key_bytes(a.transfer.id.actor)[0]);
    assert(eb[0] == spec_key_bytes(b.transfer.id.actor)[0]);
    assert(la == lb);
    assert(ea[la + 8] == spec_key_bytes(a.transfer.to)[0]);
    assert(eb[la + 8] == spec_key_bytes(b.transfer.to)[0]);
    assert(spec_key_bytes(a.transfer.to).len() == spec_key_bytes(b.transfer.to).len());
    assert(ta.len() == tb.len());
    let n = ta.len() as int;

    // The transfer blocks agree, so the transfers do.
    assert forall|i: int| 0 <= i < n implies ta[i] == tb[i] by {
        assert(ea[i] == ta[i]);
        assert(eb[i] == tb[i]);
    }
    assert(ta =~= tb);
    lemma_transfer_bytes_injective(a.transfer, b.transfer);

    // The signature blocks agree, so the client signatures do.
    let sa = spec_signature_bytes(a.client_signature);
    let sb = spec_signature_bytes(b.client_signature);
    assert(ea.len() == ta.len() + sa.len());
    assert(eb.len() == tb.len() + sb.len());
    assert(sa.len() == sb.len());
    assert forall|i: int| 0 <= i < sa.len() implies sa[i] == sb[i] by {
        assert(ea[n + i] == sa[i]);
        assert(eb[n + i] == sb[i]);
    }
    assert(sa =~= sb);
    lemma_signature_bytes_injective(a.client_signature, b.client_signature);
}

/// One elder's vote: the client's validate command beside the elder's
/// threshold-group signature share over its canonical bytes. The share
/// carries the elder's share index, which external aggregation logic
/// needs to combine shares.
#[derive(Clone, Copy, PartialEq, Eq, PartialOrd, Ord, Hash, Debug)]
pub struct TransferValidated {
    /// The command generated by the client.
    pub transfer_cmd: ValidateTransfer,
    /// Elder signature share over the command's canonical bytes.
    pub elder_signature: SignatureShare,
}

impl TransferValidated {
    /// Returns `Ok(())` iff `elder_key` is a key share and the share
    /// scheme's native predicate accepts the elder's signature share over
    /// the command's canonical bytes.
    pub fn verify(&self, elder_key: &PublicKey) -> (r: Result<(), Error>)
        ensures
            !(*elder_key is BlsShare) <==> r == Err::<(), Error>(Error::SigningKeyTypeMismatch),
            *elder_key is BlsShare ==> (r is Ok <==> spec_scheme_verifies(
                *elder_key,
                Signature::BlsShare(self.elder_signature),
                spec_validate_transfer_bytes(self.transfer_cmd),
            )),
            *elder_key is BlsShare && !spec_scheme_verifies(
                *elder_key,
                Signature::BlsShare(self.elder_signature),
                spec_validate_transfer_bytes(self.transfer_cmd),
            ) ==> r == Err::<(), Error>(Error::InvalidSignature),
    {
        let bytes = validate_transfer_to_bytes(&self.transfer_cmd);
        elder_key.verify(&Signature::BlsShare(self.elder_signature), bytes.as_slice())
    }
}

/// The section's consensus certificate for a debit: the client's validate
/// command beside a group signature formed externally from at least
/// quorum-many distinct elders' shares.
#[derive(Clone, Copy, PartialEq, Eq, PartialOrd, Ord, Hash, Debug)]
pub struct ProofOfAgreement {
    /// The command generated by the client.
    pub transfer_cmd: ValidateTransfer,
    /// Quorum of elder signatures over the command, combined into one
    /// group signature.
    pub section_sig: Signature,
}

impl ProofOfAgreement {
    /// Returns `Ok(())` iff the combined section signature names the same
    /// scheme as `section_key` and the scheme's native predicate accepts
    /// it over the command's canonical bytes. The certificate carries no
    /// authority before this call succeeds.
    pub fn verify(&self, section_key: &PublicKey) -> (r: Result<(), Error>)
        ensures
            !same_scheme(*section_key, self.section_sig) <==> r == Err::<(), Error>(
                Error::SigningKeyTypeMismatch,
            ),
            same_scheme(*section_key, self.section_sig) ==> (r is Ok <==> spec_scheme_verifies(
                *section_key,
                self.section_sig,
                spec_validate_transfer_bytes(self.transfer_cmd),
            )),
            same_scheme(*section_key, self.section_sig) && !spec_scheme_verifies(
                *section_key,
                self.section_sig,
                spec_validate_transfer_bytes(self.transfer_cmd),
            ) ==> r == Err::<(), Error>(Error::InvalidSignature),
    {
        let bytes = validate_transfer_to_bytes(&self.transfer_cmd);
        section_key.verify(&self.section_sig, bytes.as_slice())
    }
}

/// A command carrying a consensus certificate to the section that holds
/// the debited actor's balance.
#[derive(Clone, Copy, PartialEq, Eq, PartialOrd, Ord, Hash, Debug)]
pub struct RegisterTransfer {
    /// The transfer certificate.
    pub agreement: ProofOfAgreement,
}

/// The event raised when a `RegisterTransfer` command has succeeded.
#[derive(Clone, Copy, PartialEq, Eq, PartialOrd, Ord, Hash, Debug)]
pub struct TransferRegistered {
    /// The transfer certificate.
    pub agreement: ProofOfAgreement,
}

/// Notification of a registered transfer sent to the recipient.
#[derive(Clone, Copy, PartialEq, Eq, PartialOrd, Ord, Hash, Debug)]
pub struct TransferNotification(pub ProofOfAgreement);


impl crate::keys::CanonicalEncoding for Transfer {
    open spec fn spec_canonical_bytes(&self) -> Seq<u8> {
        spec_transfer_bytes(*self)
    }

    fn canonical_bytes(&self) -> (r: Vec<u8>) {
        transfer_to_bytes(self)
    }
}

impl crate::keys::CanonicalEncoding for ValidateTransfer {
    open spec fn spec_canonical_bytes(&self) -> Seq<u8> {
        spec_validate_transfer_bytes(*self)
    }

    fn canonical_bytes(&self) -> (r: Vec<u8>) {
        validate_transfer_to_bytes(self)
    }
}

/// The highest counter registered for `actor`, if any transfer of that
/// actor is registered.
pub open spec fn spec_highest_counter(s: Seq<Transfer>, actor: PublicKey) -> Option<u64>
    decreases s.len(),
{
    if s.len() == 0 {
        None
    } else {
        let rest = spec_highest_counter(s.drop_last(), actor);
        if s.last().id.actor == actor {
            match rest {
                None => Some(s.last().id.counter),
                Some(m) => if s.last().id.counter > m {
                    Some(s.last().id.counter)
                } else {
                    Some(m)
                },
            }
        } else {
            rest
        }
    }
}

/// Every registered counter of `actor` is at most the highest one.
pub proof fn lemma_highest_counter_bounds(s: Seq<Transfer>, actor: PublicKey, i: int)
    requires
        0 <= i < s.len(),
        s[i].id.actor == actor,
    ensures
        spec_highest_counter(s, actor) is Some,
        s[i].id.counter <= spec_highest_counter(s, actor)->0,
    decreases s.len(),
{
    if i < s.len() - 1 {
        assert(s.drop_last()[i] == s[i]);
        lemma_highest_counter_bounds(s.drop_last(), actor, i);
    }
}

/// The record a section keeps of the transfers it has registered for the
/// actors it is responsible for. Counters are strictly per-actor
/// monotonic; the `(actor, counter)` pair is the sole de-duplication key.
#[derive(PartialEq, Eq, Debug)]
pub struct TransferRegistry {
    /// The registered transfers, in registration order.
    registered: Vec<Transfer>,
}

impl TransferRegistry {
    /// The registered transfers, in registration order.
    pub closed spec fn spec_history(self) -> Seq<Transfer> {
        self.registered@
    }

    /// True when some transfer of `actor` is registered.
    pub open spec fn spec_has_history(self, actor: PublicKey) -> bool {
        spec_highest_counter(self.spec_history(), actor) is Some
    }

    /// The outcome `validate` owes for a command against this registry.
    pub open spec fn spec_validation(self, cmd: ValidateTransfer) -> Result<(), Error> {
        let id = cmd.transfer.id;
        match spec_highest_counter(self.spec_history(), id.actor) {
            Some(m) => if id.counter <= m {
                Err(Error::InvalidSuccessor(if m < u64::MAX {
                    (m + 1) as u64
                } else {
                    u64::MAX
                }))
            } else if cmd.transfer.restrictions == TransferRestrictions::ExpectNoHistory {
                Err(Error::UnexpectedHistory)
            } else {
                Ok(())
            },
            None => if cmd.transfer.restrictions == TransferRestrictions::RequireHistory {
                Err(Error::NoHistory)
            } else {
                Ok(())
            },
        }
    }

    /// Creates an empty registry.
    pub fn new() -> (r: Self)
        ensures
            r.spec_history() =~= Seq::<Transfer>::empty(),
    {
        TransferRegistry { registered: Vec::new() }
    }

    /// Finds the highest counter registered for `actor`.
    fn highest_counter(&self, actor: &PublicKey) -> (r: Option<u64>)
        ensures
            r == spec_highest_counter(self.spec_history(), *actor),
    {
        let mut found: Option<u64> = None;
        let mut i: usize = 0;
        proof {
            assert(self.spec_history().take(0int) =~= Seq::<Transfer>::empty());
        }
        while i < self.registered.len()
            invariant
                0 <= i <= self.spec_history().len(),
                found == spec_highest_counter(self.spec_history().take(i as int), *actor),
            decreases self.spec_history().len() - i,
        {
            let entry = self.registered[i];
            proof {
                assert(self.spec_history().take(i + 1int).drop_last() =~= self.spec_history().take(
                    i as int,
                ));
                assert(self.spec_history().take(i + 1int).last() == self.spec_history()[i as int]);
            }
            if entry.id.actor.equals(actor) {
                found = match found {
                    None => Some(entry.id.counter),
                    Some(m) => if entry.id.counter > m {
                        Some(entry.id.counter)
                    } else {
                        Some(m)
                    },
                };
            }
            i += 1;
        }
        proof {
            assert(self.spec_history().take(self.spec_history().len() as int) =~= self
                .spec_history());
        }
        found
    }

    /// Decides whether this section accepts a validate command.
    ///
    /// A command whose counter does not exceed every registered counter of
    /// its actor is a replay and is refused, naming the lowest acceptable
    /// counter. A `RequireHistory` transfer is refused when the actor has
    /// no registered history; an `ExpectNoHistory` transfer is refused
    /// when it has some; `NoRestriction` imposes no such precondition.
    pub fn validate(&self, cmd: &ValidateTransfer) -> (r: Result<(), Error>)
        ensures
            r == self.spec_validation(*cmd),
    {
        match self.highest_counter(&cmd.transfer.id.actor) {
            Some(m) => {
                if cmd.transfer.id.counter <= m {
                    Err(Error::InvalidSuccessor(if m < u64::MAX {
                        m + 1
                    } else {
                        u64::MAX
                    }))
                } else if matches!(cmd.transfer.restrictions, TransferRestrictions::ExpectNoHistory) {
                    Err(Error::UnexpectedHistory)
                } else {
                    Ok(())
                }
            },
            None => {
                if matches!(cmd.transfer.restrictions, TransferRestrictions::RequireHistory) {
                    Err(Error::NoHistory)
                } else {
                    Ok(())
                }
            },
        }
    }

    /// Registers a consensused transfer.
    ///
    /// The command is refused, and the registry left unchanged, iff the
    /// transfer's counter does not exceed every counter already registered
    /// for its actor: the counter is the sole de-duplication key, so a
    /// replayed certificate is rejected here. Success appends exactly one
    /// entry and answers with the registration event.
    pub fn register(&mut self, register: RegisterTransfer) -> (r: Result<TransferRegistered, Error>)
        ensures
            ({
                let id = register.agreement.transfer_cmd.transfer.id;
                match spec_highest_counter(old(self).spec_history(), id.actor) {
                    Some(m) => (r is Ok <==> id.counter > m) && (id.counter <= m ==> r == Err::<
                        TransferRegistered,
                        Error,
                    >(Error::InvalidSuccessor(if m < u64::MAX {
                        (m + 1) as u64
                    } else {
                        u64::MAX
                    }))),
                    None => r is Ok,
                }
            }),
            r is Ok ==> final(self).spec_history() == old(self).spec_history().push(
                register.agreement.transfer_cmd.transfer,
            ) && r->Ok_0.agreement == register.agreement,
            r is Err ==> *final(self) == *old(self),
    {
        let transfer = register.agreement.transfer_cmd.transfer;
        match self.highest_counter(&transfer.id.actor) {
            Some(m) => {
                if transfer.id.counter <= m {
                    return Err(Error::InvalidSuccessor(if m < u64::MAX {
                        m + 1
                    } else {
                        u64::MAX
                    }));
                }
            },
            None => {},
        }
        self.registered.push(transfer);
        Ok(TransferRegistered { agreement: register.agreement })
    }
}

/// Per-actor counters are strictly increasing along the registration
/// order, so every `(actor, counter)` pair is registered at most once.
pub open spec fn spec_counters_strictly_monotonic(s: Seq<Transfer>) -> bool {
    forall|i: int, j: int| 0 <= i < j < s.len() && #[trigger] s[i].id.actor == #[trigger] s[j].id.actor
        ==> s[i].id.counter < s[j].id.counter
}

/// A successful registration preserves strict per-actor counter
/// monotonicity: the appended transfer's counter exceeds every counter
/// registered for its actor.
pub proof fn lemma_register_preserves_monotonicity(pre: Seq<Transfer>, t: Transfer)
    requires
        spec_counters_strictly_monotonic(pre),
        (match spec_highest_counter(pre, t.id.actor) {
            Some(m) => t.id.counter > m,
            None => true,
        }),
    ensures
        spec_counters_strictly_monotonic(pre.push(t)),
{
    let post = pre.push(t);
    assert forall|i: int, j: int| 0 <= i < j < post.len() && #[trigger] post[i].id.actor
        == #[trigger] post[j].id.actor implies post[i].id.counter < post[j].id.counter by {
        if j < pre.len() {
            assert(post[i] == pre[i]);
            assert(post[j] == pre[j]);
        } else {
            assert(post[j] == t);
            assert(post[i] == pre[i]);
            lemma_highest_counter_bounds(pre, t.id.actor, i);
        }
    }
}

} // verus!
