use safe_nd::errors::Error;
use safe_nd::keys::Keypair;
use safe_nd::permissions::{CmdType, QueryType, Request, SequenceCmd, SequenceQuery};
use safe_nd::sequence::{Data, DataEntry, Sequence, SequencePermissions};
use safe_nd::shared_data::{to_absolute_index, to_absolute_range, Index, Kind, Owner};
use safe_nd::permissions::PrivatePermissions;
use safe_nd::{AppPermissions, Blob, MapData, XorName};

fn append_cmd() -> Request {
    Request::Cmd(CmdType::Sequence(SequenceCmd::Append))
}

fn read_query() -> Request {
    Request::Query(QueryType::Sequence(SequenceQuery::ReadData))
}

#[test]
fn index_resolution() {
    // From the start: any offset up to the length resolves to itself.
    assert_eq!(to_absolute_index(Index::FromStart(0), 5), Some(0));
    assert_eq!(to_absolute_index(Index::FromStart(3), 5), Some(3));
    assert_eq!(to_absolute_index(Index::FromStart(5), 5), Some(5));
    assert_eq!(to_absolute_index(Index::FromStart(6), 5), None);
    // From the end: an offset up to the length counts back from it.
    assert_eq!(to_absolute_index(Index::FromEnd(0), 5), Some(5));
    assert_eq!(to_absolute_index(Index::FromEnd(2), 5), Some(3));
    assert_eq!(to_absolute_index(Index::FromEnd(5), 5), Some(0));
    assert_eq!(to_absolute_index(Index::FromEnd(6), 5), None);
}

#[test]
fn range_resolution() {
    // Equal bounds give a valid empty range.
    assert_eq!(
        to_absolute_range(Index::FromStart(2), Index::FromStart(2), 5),
        Some((2, 2))
    );
    assert_eq!(
        to_absolute_range(Index::FromStart(1), Index::FromEnd(1), 5),
        Some((1, 4))
    );
    // Crossed bounds do not resolve.
    assert_eq!(
        to_absolute_range(Index::FromStart(3), Index::FromStart(2), 5),
        None
    );
    // An unresolvable bound fails the range.
    assert_eq!(
        to_absolute_range(Index::FromStart(0), Index::FromStart(6), 5),
        None
    );
}

#[test]
fn public_sequence_reads_without_owner() {
    // A public, order-enforced sequence with no owner: any read-class
    // query from any key succeeds; any append fails authorization.
    let data = Data::from(Sequence::new(Kind::PublicSentried, XorName([3; 32]), 9));
    let stranger = Keypair::new_bls().public_key();
    let another = Keypair::new_ed25519().public_key();
    assert!(data.is_permitted(read_query(), stranger));
    assert!(data.is_permitted(read_query(), another));
    assert!(!data.is_permitted(append_cmd(), stranger));
    assert!(!data.is_permitted(append_cmd(), another));
}

#[test]
fn successor_mismatch_error_values() {
    let owner_pk = Keypair::new_bls().public_key();
    let mut data = Sequence::new(Kind::PublicSentried, XorName([2; 32]), 7);
    data.append(vec![b"a".to_vec()], Some(0)).unwrap();

    // A sentried append naming the wrong index reports the expected one.
    assert_eq!(
        data.append(vec![b"b".to_vec()], Some(3)),
        Err(Error::InvalidSuccessor(1))
    );
    assert_eq!(data.append(vec![b"b".to_vec()], None), Err(Error::InvalidSuccessor(1)));

    // An owner entry naming the wrong permission history length reports
    // the expected one.
    assert_eq!(
        data.set_owner(
            Owner {
                public_key: owner_pk,
                expected_data_index: 1,
                expected_permissions_index: 4,
            },
            0,
        ),
        Err(Error::InvalidPermissionsSuccessor(0))
    );
    // A wrong supplied owner index reports the expected one.
    assert_eq!(
        data.set_owner(
            Owner {
                public_key: owner_pk,
                expected_data_index: 1,
                expected_permissions_index: 0,
            },
            5,
        ),
        Err(Error::InvalidSuccessor(0))
    );
    data.set_owner(
        Owner {
            public_key: owner_pk,
            expected_data_index: 1,
            expected_permissions_index: 0,
        },
        0,
    )
    .unwrap();

    // A permission entry naming the wrong owner history length reports
    // the expected one.
    assert_eq!(
        data.set_permissions(
            SequencePermissions::Public(safe_nd::permissions::PublicPermissions {
                permissions: Vec::new(),
                expected_data_index: 1,
                expected_owners_index: 0,
            }),
            0,
        ),
        Err(Error::InvalidOwnersSuccessor(1))
    );
}

#[test]
fn shell_filters_by_data_version() {
    let owner_pk = Keypair::new_bls().public_key();
    let owner_pk1 = Keypair::new_bls().public_key();
    let mut data = Sequence::new(Kind::Private, XorName([4; 32]), 11);

    data.append(vec![b"one".to_vec()], None).unwrap();
    data.set_owner(
        Owner {
            public_key: owner_pk,
            expected_data_index: 1,
            expected_permissions_index: 0,
        },
        0,
    )
    .unwrap();
    data.append(vec![b"two".to_vec()], None).unwrap();
    data.set_owner(
        Owner {
            public_key: owner_pk1,
            expected_data_index: 2,
            expected_permissions_index: 0,
        },
        1,
    )
    .unwrap();

    // As of data version 1 only the first owner is kept; the value log of
    // a shell is always empty.
    let shell = data.shell(Index::FromStart(1)).unwrap();
    assert_eq!(shell.expected_owners_index(), 1);
    assert_eq!(shell.expected_data_index(), 0);
    assert_eq!(shell.current_data_entry(), None);
    assert_eq!(
        shell.owner_at(Index::FromEnd(1)).unwrap().public_key,
        owner_pk
    );

    // As of the current version both owners are kept.
    let shell = data.shell(Index::FromEnd(0)).unwrap();
    assert_eq!(shell.expected_owners_index(), 2);

    // An unresolvable version is a missing entry.
    assert_eq!(data.shell(Index::FromStart(3)), Err(Error::NoSuchEntry));
}

#[test]
fn current_data_entry_reports_length_and_last_value() {
    let mut data = Sequence::new(Kind::Public, XorName([5; 32]), 1);
    assert_eq!(data.current_data_entry(), None);
    data.append(vec![b"first".to_vec(), b"second".to_vec()], None)
        .unwrap();
    assert_eq!(
        data.current_data_entry(),
        Some(DataEntry::new(2, b"second".to_vec()))
    );
    assert_eq!(data.get(0).unwrap(), &b"first".to_vec());
    assert_eq!(data.get(1).unwrap(), &b"second".to_vec());
    assert_eq!(data.get(2), None);
    assert_eq!(data.values().len(), 2);

    let indices = data.indices();
    assert_eq!(indices.expected_data_index, 2);
    assert_eq!(indices.expected_owners_index, 0);
    assert_eq!(indices.expected_permissions_index, 0);
}

#[test]
fn private_snapshot_denies_unlisted_requests() {
    // An explicit denial and the absence of an entry both deny, and a
    // denial recorded later overrides an allowance recorded earlier.
    let user = Keypair::new_bls().public_key();
    let mut snapshot = PrivatePermissions {
        permissions: Vec::new(),
        expected_data_index: 0,
        expected_owners_index: 0,
    };
    let pairs = vec![(append_cmd(), true), (append_cmd(), false)];
    snapshot
        .permissions
        .push((user, safe_nd::permissions::PrivatePermissionSet::new(pairs)));
    assert!(!snapshot.is_permitted(&user, &append_cmd()));
    assert!(!snapshot.is_permitted(&user, &read_query()));
}

#[test]
fn data_variants_report_visibility() {
    let sequence = Data::from(Sequence::new(Kind::Public, XorName([6; 32]), 2));
    assert!(safe_nd::Data::Sequence(sequence).is_pub());
    let sequence = Data::from(Sequence::new(Kind::PrivateSentried, XorName([6; 32]), 2));
    let wrapped = safe_nd::Data::Sequence(sequence);
    assert!(!wrapped.is_pub());
    assert!(wrapped.is_unpub());

    assert!(safe_nd::Data::Immutable(Blob::Public(b"payload".to_vec())).is_pub());
    assert!(safe_nd::Data::Immutable(Blob::Private(b"payload".to_vec())).is_unpub());
    assert!(safe_nd::Data::Mutable(MapData {
        name: XorName([7; 32]),
        tag: 1,
    })
    .is_unpub());
}

#[test]
fn app_permissions_default_to_nothing() {
    let permissions = AppPermissions::default();
    assert!(!permissions.data_mutations);
    assert!(!permissions.transfer_money);
    assert!(!permissions.read_balance);
    assert!(!permissions.read_transfer_history);
}

#[test]
fn sequence_kind_axes() {
    let data = Data::from(Sequence::new(Kind::PublicSentried, XorName([8; 32]), 3));
    assert!(data.is_public());
    assert!(!data.is_private());
    assert!(data.is_sentried());
    assert_eq!(data.kind(), Kind::PublicSentried);
    assert_eq!(data.name(), XorName([8; 32]));
    assert_eq!(data.tag(), 3);

    let data = Data::from(Sequence::new(Kind::Private, XorName([9; 32]), 4));
    assert!(!data.is_public());
    assert!(data.is_private());
    assert!(!data.is_sentried());
}

#[test]
fn histories_record_preinsertion_lengths() {
    // Each appended entry records exactly the collection lengths observed
    // immediately before it was appended, and no call shrinks a history.
    let owner_pk = Keypair::new_bls().public_key();
    let mut data = Sequence::new(Kind::Private, XorName([10; 32]), 5);
    data.append(vec![b"v0".to_vec()], None).unwrap();
    data.set_owner(
        Owner {
            public_key: owner_pk,
            expected_data_index: 1,
            expected_permissions_index: 0,
        },
        0,
    )
    .unwrap();
    data.set_permissions(
        SequencePermissions::Private(PrivatePermissions {
            permissions: Vec::new(),
            expected_data_index: 1,
            expected_owners_index: 1,
        }),
        0,
    )
    .unwrap();

    let owner = data.owner_at(Index::FromStart(0)).unwrap();
    assert_eq!(owner.expected_data_index, 1);
    assert_eq!(owner.expected_permissions_index, 0);
    let snapshot = data
        .permission_history_range(Index::FromStart(0), Index::FromEnd(0))
        .unwrap();
    assert_eq!(snapshot.len(), 1);
    assert_eq!(snapshot[0].expected_data_index(), 1);
    assert_eq!(snapshot[0].expected_owners_index(), 1);
}

#[test]
fn rejection_leaves_state_unchanged() {
    // A call whose expected-index fields mismatch leaves all three
    // histories unchanged, not merely the one it targeted.
    let owner_pk = Keypair::new_bls().public_key();
    let mut data = Sequence::new(Kind::PrivateSentried, XorName([11; 32]), 5);
    data.append(vec![b"v0".to_vec()], Some(0)).unwrap();
    data.set_owner(
        Owner {
            public_key: owner_pk,
            expected_data_index: 1,
            expected_permissions_index: 0,
        },
        0,
    )
    .unwrap();
    let before = data.clone();

    assert!(data.append(vec![b"v1".to_vec()], Some(9)).is_err());
    assert!(data
        .set_owner(
            Owner {
                public_key: owner_pk,
                expected_data_index: 9,
                expected_permissions_index: 0,
            },
            1,
        )
        .is_err());
    assert!(data
        .set_permissions(
            SequencePermissions::Private(PrivatePermissions {
                permissions: Vec::new(),
                expected_data_index: 9,
                expected_owners_index: 1,
            }),
            0,
        )
        .is_err());

    assert_eq!(data, before);
}

#[test]
fn latest_owner_is_always_permitted() {
    // The latest owner is permitted every request on their own data,
    // whatever the permission table holds.
    let first_owner = Keypair::new_bls().public_key();
    let second_owner = Keypair::new_bls().public_key();
    let mut map = Sequence::new(Kind::Private, XorName([12; 32]), 5);
    map.set_owner(
        Owner {
            public_key: first_owner,
            expected_data_index: 0,
            expected_permissions_index: 0,
        },
        0,
    )
    .unwrap();
    // A snapshot that explicitly denies the owner everything.
    let mut snapshot = PrivatePermissions {
        permissions: Vec::new(),
        expected_data_index: 0,
        expected_owners_index: 1,
    };
    snapshot.permissions.push((
        second_owner,
        safe_nd::permissions::PrivatePermissionSet::new(vec![
            (append_cmd(), false),
            (read_query(), false),
        ]),
    ));
    map.set_permissions(SequencePermissions::Private(snapshot), 0)
        .unwrap();
    map.set_owner(
        Owner {
            public_key: second_owner,
            expected_data_index: 0,
            expected_permissions_index: 1,
        },
        1,
    )
    .unwrap();

    let data = Data::from(map);
    assert!(data.is_permitted(append_cmd(), second_owner));
    assert!(data.is_permitted(read_query(), second_owner));
    // The superseded owner holds no such authority.
    assert!(!data.is_permitted(append_cmd(), first_owner));
}
