use safe_nd::errors::Error;
use safe_nd::keys::{Keypair, Signature};
use safe_nd::money::Money;
use safe_nd::request::{AuthorisationKind, MiscAuthKind, MoneyAuthKind, MoneyRequest, Response, Type};
use safe_nd::transfer::{
    validate_transfer_to_bytes, ProofOfAgreement, RegisterTransfer, Transfer, TransferId,
    TransferRegistry, TransferRestrictions, TransferValidated, ValidateTransfer,
};
use safe_nd::XorName;

/// Builds a transfer of `counter` under `restrictions` and signs it with
/// the actor's keypair.
fn signed_transfer(
    actor: &Keypair,
    to: &Keypair,
    counter: u64,
    restrictions: TransferRestrictions,
) -> ValidateTransfer {
    let transfer = Transfer {
        id: TransferId {
            actor: actor.public_key(),
            counter,
        },
        to: to.public_key(),
        amount: Money::from_nano(10),
        restrictions,
    };
    let bytes = safe_nd::transfer::transfer_to_bytes(&transfer);
    ValidateTransfer {
        transfer,
        client_signature: actor.sign(&bytes),
    }
}

fn agreement_for(cmd: ValidateTransfer, section: &Keypair) -> ProofOfAgreement {
    let bytes = validate_transfer_to_bytes(&cmd);
    ProofOfAgreement {
        transfer_cmd: cmd,
        section_sig: section.sign(&bytes),
    }
}

#[test]
fn restriction_gating_against_history() {
    let actor = Keypair::new_bls();
    let to = Keypair::new_bls();
    let section = Keypair::new_bls();
    let mut registry = TransferRegistry::new();

    // With no history, `RequireHistory` is refused and `NoRestriction`
    // passes.
    let cmd = signed_transfer(&actor, &to, 1, TransferRestrictions::RequireHistory);
    assert_eq!(registry.validate(&cmd), Err(Error::NoHistory));
    let cmd = signed_transfer(&actor, &to, 1, TransferRestrictions::NoRestriction);
    assert_eq!(registry.validate(&cmd), Ok(()));

    // Register a first transfer for the actor.
    let register = RegisterTransfer {
        agreement: agreement_for(cmd, &section),
    };
    let registered = registry.register(register).unwrap();
    assert_eq!(registered.agreement, register.agreement);

    // A section already holding a prior transfer for the actor refuses
    // `ExpectNoHistory`, and accepts `NoRestriction` regardless.
    let cmd = signed_transfer(&actor, &to, 2, TransferRestrictions::ExpectNoHistory);
    assert_eq!(registry.validate(&cmd), Err(Error::UnexpectedHistory));
    let cmd = signed_transfer(&actor, &to, 2, TransferRestrictions::NoRestriction);
    assert_eq!(registry.validate(&cmd), Ok(()));
    // And `RequireHistory` now passes.
    let cmd = signed_transfer(&actor, &to, 2, TransferRestrictions::RequireHistory);
    assert_eq!(registry.validate(&cmd), Ok(()));
}

#[test]
fn replayed_transfer_is_rejected() {
    let actor = Keypair::new_bls();
    let to = Keypair::new_bls();
    let section = Keypair::new_bls();
    let mut registry = TransferRegistry::new();

    let cmd = signed_transfer(&actor, &to, 5, TransferRestrictions::NoRestriction);
    let register = RegisterTransfer {
        agreement: agreement_for(cmd, &section),
    };
    registry.register(register).unwrap();

    // The same (actor, counter) pair is refused: the registry names the
    // lowest counter it would accept.
    assert_eq!(
        registry.register(register),
        Err(Error::InvalidSuccessor(6))
    );
    // An older counter is refused too.
    let old_cmd = signed_transfer(&actor, &to, 3, TransferRestrictions::NoRestriction);
    assert_eq!(
        registry.validate(&old_cmd),
        Err(Error::InvalidSuccessor(6))
    );
    // Another actor is unaffected.
    let other = Keypair::new_bls();
    let other_cmd = signed_transfer(&other, &to, 1, TransferRestrictions::NoRestriction);
    assert_eq!(registry.validate(&other_cmd), Ok(()));
}

#[test]
fn validate_transfer_signature() {
    let actor = Keypair::new_bls();
    let to = Keypair::new_bls();

    // A genuine command verifies.
    let cmd = signed_transfer(&actor, &to, 1, TransferRestrictions::NoRestriction);
    assert_eq!(cmd.verify(), Ok(()));

    // Tampering with the transfer invalidates the signature.
    let mut tampered = cmd;
    tampered.transfer.amount = Money::from_nano(1_000_000);
    assert_eq!(tampered.verify(), Err(Error::InvalidSignature));

    // A signature of another scheme is a scheme mismatch.
    let ed = Keypair::new_ed25519();
    let mut mismatched = cmd;
    mismatched.client_signature = ed.sign(b"anything");
    assert_eq!(mismatched.verify(), Err(Error::SigningKeyTypeMismatch));
}

#[test]
fn proof_of_agreement_verification() {
    let actor = Keypair::new_bls();
    let to = Keypair::new_bls();
    let section = Keypair::new_bls();

    let cmd = signed_transfer(&actor, &to, 1, TransferRestrictions::NoRestriction);
    let agreement = agreement_for(cmd, &section);

    assert_eq!(agreement.verify(&section.public_key()), Ok(()));
    // Another section's key does not validate the certificate.
    let other_section = Keypair::new_bls();
    assert_eq!(
        agreement.verify(&other_section.public_key()),
        Err(Error::InvalidSignature)
    );
    // A key of another scheme is a scheme mismatch.
    let ed = Keypair::new_ed25519();
    assert_eq!(
        agreement.verify(&ed.public_key()),
        Err(Error::SigningKeyTypeMismatch)
    );
}

#[test]
fn transfer_validated_share_verification() {
    let actor = Keypair::new_bls();
    let to = Keypair::new_bls();
    let mut rng = rand::thread_rng();
    let set = threshold_crypto::SecretKeySet::random(1, &mut rng);
    let elder = Keypair::new_bls_share(0, set.secret_key_share(0), set.public_keys());

    let cmd = signed_transfer(&actor, &to, 1, TransferRestrictions::NoRestriction);
    let bytes = validate_transfer_to_bytes(&cmd);
    let share = match elder.sign(&bytes) {
        Signature::BlsShare(share) => share,
        other => panic!("Unexpected signature variant: {:?}", other),
    };
    let vote = TransferValidated {
        transfer_cmd: cmd,
        elder_signature: share,
    };

    assert_eq!(vote.verify(&elder.public_key()), Ok(()));
    // A full group key is not a share key.
    assert_eq!(
        vote.verify(&actor.public_key()),
        Err(Error::SigningKeyTypeMismatch)
    );
}

#[test]
fn money_request_routing() {
    let actor = Keypair::new_bls();
    let to = Keypair::new_bls();
    let section = Keypair::new_bls();
    let cmd = signed_transfer(&actor, &to, 1, TransferRestrictions::NoRestriction);
    let agreement = agreement_for(cmd, &section);

    let validate = MoneyRequest::ValidateTransfer {
        signed_transfer: cmd,
    };
    let register = MoneyRequest::RegisterTransfer { agreement };
    let propagate = MoneyRequest::PropagateTransfer { agreement };
    let balance = MoneyRequest::GetBalance(actor.public_key());
    let history = MoneyRequest::GetHistory {
        at: actor.public_key(),
        since_version: 0,
    };

    // Request classes.
    assert_eq!(validate.get_type(), Type::Transfer);
    assert_eq!(register.get_type(), Type::Transfer);
    assert_eq!(propagate.get_type(), Type::Transfer);
    assert_eq!(balance.get_type(), Type::PrivateGet);
    assert_eq!(history.get_type(), Type::PrivateGet);

    // Authorization classes: the certificate carries its own authority.
    assert_eq!(register.authorisation_kind(), AuthorisationKind::NotNeeded);
    assert_eq!(propagate.authorisation_kind(), AuthorisationKind::NotNeeded);
    assert_eq!(
        validate.authorisation_kind(),
        AuthorisationKind::Misc(MiscAuthKind::MutAndTransferMoney)
    );
    assert_eq!(
        balance.authorisation_kind(),
        AuthorisationKind::Money(MoneyAuthKind::GetBalance)
    );
    assert_eq!(
        history.authorisation_kind(),
        AuthorisationKind::Money(MoneyAuthKind::GetHistory)
    );

    // Destinations: debit side for validation and registration, credit
    // side for propagation, none for the local queries.
    assert_eq!(
        validate.dest_address(),
        Some(XorName::from_public_key(&actor.public_key()))
    );
    assert_eq!(
        register.dest_address(),
        Some(XorName::from_public_key(&actor.public_key()))
    );
    assert_eq!(
        propagate.dest_address(),
        Some(XorName::from_public_key(&to.public_key()))
    );
    assert_eq!(balance.dest_address(), None);
    assert_eq!(history.dest_address(), None);

    // Error responses match the request variant.
    assert_eq!(
        balance.error_response(Error::NoSuchEntry),
        Response::GetBalance(Err(Error::NoSuchEntry))
    );
    assert_eq!(
        validate.error_response(Error::InvalidSignature),
        Response::TransferValidation(Err(Error::InvalidSignature))
    );
}

#[test]
fn money_units() {
    let amount = Money::from_nano(123_456_789);
    assert_eq!(amount.as_nano(), 123_456_789);
}

#[test]
fn proven_value_verification() {
    let actor = Keypair::new_bls();
    let to = Keypair::new_bls();
    let cmd = signed_transfer(&actor, &to, 1, TransferRestrictions::NoRestriction);
    let attestation = safe_nd::keys::Proof {
        public_key: actor.public_key(),
        signature: cmd.client_signature,
    };
    let proven = safe_nd::keys::Proven {
        value: cmd.transfer,
        attestation,
    };
    assert_eq!(proven.verify(), Ok(()));

    // A tampered payload no longer matches the attestation.
    let mut tampered = proven;
    tampered.value.amount = Money::from_nano(999);
    assert_eq!(tampered.verify(), Err(Error::InvalidSignature));

    // A key of another scheme is refused before any cryptography runs.
    let mismatched = safe_nd::keys::Proven {
        value: cmd.transfer,
        attestation: safe_nd::keys::Proof {
            public_key: Keypair::new_ed25519().public_key(),
            signature: cmd.client_signature,
        },
    };
    assert_eq!(mismatched.verify(), Err(Error::SigningKeyTypeMismatch));
}
