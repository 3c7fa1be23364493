use safe_nd::errors::Error;
use safe_nd::keys::{Keypair, PublicKey};
use safe_nd::permissions::{
    CmdType, HardErasureCmd, ModifyableSequencePermissions, PrivatePermissionSet,
    PrivatePermissions, PublicPermissionSet, PublicPermissions, QueryType, Request, SequenceCmd,
    SequenceQuery, SequenceWrite,
};
use safe_nd::sequence::{Data, Sequence, SequencePermissions};
use safe_nd::shared_data::{Address, Index, Kind, Owner, User};
use safe_nd::XorName;

fn gen_public_key() -> PublicKey {
    Keypair::new_bls().public_key()
}

pub fn get_append_cmd() -> Request {
    Request::Cmd(CmdType::Sequence(SequenceCmd::Append))
}

fn get_read_query(query: SequenceQuery) -> Request {
    Request::Query(QueryType::Sequence(query))
}

fn get_full_read_permissions() -> Vec<Request> {
    vec![
        Request::Query(QueryType::Sequence(SequenceQuery::ReadData)),
        Request::Query(QueryType::Sequence(SequenceQuery::ReadOwners)),
        Request::Query(QueryType::Sequence(SequenceQuery::ReadPermissions)),
    ]
}

fn get_modify_permissions(permission: ModifyableSequencePermissions) -> Request {
    Request::Cmd(CmdType::Sequence(SequenceCmd::ModifyPermissions(permission)))
}

fn get_full_modify_permissions() -> Vec<Request> {
    vec![
        Request::Cmd(CmdType::Sequence(SequenceCmd::ModifyPermissions(
            ModifyableSequencePermissions::ReadData,
        ))),
        Request::Cmd(CmdType::Sequence(SequenceCmd::ModifyPermissions(
            ModifyableSequencePermissions::ReadOwners,
        ))),
        Request::Cmd(CmdType::Sequence(SequenceCmd::ModifyPermissions(
            ModifyableSequencePermissions::ReadPermissions,
        ))),
        Request::Cmd(CmdType::Sequence(SequenceCmd::ModifyPermissions(
            ModifyableSequencePermissions::Write(SequenceWrite::Append),
        ))),
        Request::Cmd(CmdType::Sequence(SequenceCmd::ModifyPermissions(
            ModifyableSequencePermissions::Write(SequenceWrite::ModifyPermissions),
        ))),
        Request::Cmd(CmdType::Sequence(SequenceCmd::ModifyPermissions(
            ModifyableSequencePermissions::Write(SequenceWrite::HardErasure(
                HardErasureCmd::HardDelete,
            )),
        ))),
        Request::Cmd(CmdType::Sequence(SequenceCmd::ModifyPermissions(
            ModifyableSequencePermissions::Write(SequenceWrite::HardErasure(
                HardErasureCmd::HardUpdate,
            )),
        ))),
    ]
}

pub fn assert_read_permitted(data: &Data, public_key: PublicKey, permitted: bool) {
    assert_eq!(
        data.is_permitted(get_read_query(SequenceQuery::ReadData), public_key),
        permitted
    );
    assert_eq!(
        data.is_permitted(get_read_query(SequenceQuery::ReadOwners), public_key),
        permitted
    );
    assert_eq!(
        data.is_permitted(get_read_query(SequenceQuery::ReadPermissions), public_key),
        permitted
    );
}

pub fn assert_modify_permissions_permitted(data: &Data, public_key: PublicKey, permitted: bool) {
    assert_eq!(
        data.is_permitted(
            get_modify_permissions(ModifyableSequencePermissions::ReadData),
            public_key
        ),
        permitted
    );
    assert_eq!(
        data.is_permitted(
            get_modify_permissions(ModifyableSequencePermissions::ReadOwners),
            public_key
        ),
        permitted
    );
    assert_eq!(
        data.is_permitted(
            get_modify_permissions(ModifyableSequencePermissions::ReadPermissions),
            public_key
        ),
        permitted
    );
    assert_eq!(
        data.is_permitted(
            get_modify_permissions(ModifyableSequencePermissions::Write(SequenceWrite::Append)),
            public_key
        ),
        permitted
    );
    assert_eq!(
        data.is_permitted(
            get_modify_permissions(ModifyableSequencePermissions::Write(
                SequenceWrite::ModifyPermissions
            )),
            public_key
        ),
        permitted
    );
    assert_eq!(
        data.is_permitted(
            get_modify_permissions(ModifyableSequencePermissions::Write(
                SequenceWrite::HardErasure(HardErasureCmd::HardDelete)
            )),
            public_key
        ),
        permitted
    );
    assert_eq!(
        data.is_permitted(
            get_modify_permissions(ModifyableSequencePermissions::Write(
                SequenceWrite::HardErasure(HardErasureCmd::HardUpdate)
            )),
            public_key
        ),
        permitted
    );
}

#[test]
fn set_permissions() {
    let mut data = Sequence::new(Kind::PrivateSentried, XorName([1; 32]), 10000);

    // Set the first permissions with correct expected indices - should pass.
    let res = data.set_permissions(
        SequencePermissions::Private(PrivatePermissions {
            permissions: Vec::new(),
            expected_data_index: 0,
            expected_owners_index: 0,
        }),
        0,
    );

    match res {
        Ok(()) => (),
        Err(x) => panic!("Unexpected error: {:?}", x),
    }

    // Verify that the permissions are part of the history.
    assert_eq!(
        data.permission_history_range(Index::FromStart(0), Index::FromEnd(0))
            .unwrap()
            .len(),
        1
    );

    // Set permissions with incorrect expected indices - should fail.
    let res = data.set_permissions(
        SequencePermissions::Private(PrivatePermissions {
            permissions: Vec::new(),
            expected_data_index: 64,
            expected_owners_index: 0,
        }),
        1,
    );

    match res {
        Err(_) => (),
        Ok(()) => panic!("Unexpected Ok(()) result"),
    }

    // Verify that the history of permissions remains unchanged.
    assert_eq!(
        data.permission_history_range(Index::FromStart(0), Index::FromEnd(0))
            .unwrap()
            .len(),
        1
    );
}

#[test]
fn set_owners() {
    let owner_pk = gen_public_key();

    let mut data = Sequence::new(Kind::PrivateSentried, XorName([1; 32]), 10000);

    // Set the first owner with correct expected indices - should pass.
    let res = data.set_owner(
        Owner {
            public_key: owner_pk,
            expected_data_index: 0,
            expected_permissions_index: 0,
        },
        0,
    );

    match res {
        Ok(()) => (),
        Err(x) => panic!("Unexpected error: {:?}", x),
    }

    // Verify that the owner is part of the history.
    assert_eq!(
        data.owner_history_range(Index::FromStart(0), Index::FromEnd(0))
            .unwrap()
            .len(),
        1
    );

    // Set owner with incorrect expected indices - should fail.
    let res = data.set_owner(
        Owner {
            public_key: owner_pk,
            expected_data_index: 64,
            expected_permissions_index: 0,
        },
        1,
    );

    match res {
        Err(_) => (),
        Ok(()) => panic!("Unexpected Ok(()) result"),
    }

    // Verify that the history of owners remains unchanged.
    assert_eq!(
        data.owner_history_range(Index::FromStart(0), Index::FromEnd(0))
            .unwrap()
            .len(),
        1
    );
}

#[test]
fn append_sentried_data() {
    let mut data = Sequence::new(Kind::PublicSentried, XorName([1; 32]), 10000);
    data.append(vec![b"hello".to_vec(), b"world".to_vec()], Some(0))
        .unwrap();
}

#[test]
fn assert_shell() {
    let owner_pk = gen_public_key();
    let owner_pk1 = gen_public_key();

    let mut data = Sequence::new(Kind::PrivateSentried, XorName([1; 32]), 10000);

    let _ = data.set_owner(
        Owner {
            public_key: owner_pk,
            expected_data_index: 0,
            expected_permissions_index: 0,
        },
        0,
    );

    let _ = data.set_owner(
        Owner {
            public_key: owner_pk1,
            expected_data_index: 0,
            expected_permissions_index: 0,
        },
        1,
    );

    assert_eq!(
        data.expected_owners_index(),
        data.shell(Index::FromStart(0)).unwrap().expected_owners_index()
    );
}

#[test]
fn zbase32_encode_decode_adata_address() {
    let name = XorName(rand::random());
    let address = Address::PrivateSentried { name, tag: 15000 };
    let encoded = address.encode_to_zbase32();
    let decoded = Address::decode_from_zbase32(&encoded).unwrap();
    assert_eq!(address, decoded);
}

#[test]
fn append_private_data() {
    let mut data = Sequence::new(Kind::Private, XorName(rand::random()), 10);

    // Assert that the values are appended.
    let values1 = vec![
        b"KEY1".to_vec(),
        b"VALUE1".to_vec(),
        b"KEY2".to_vec(),
        b"VALUE2".to_vec(),
    ];

    data.append(values1, None).unwrap();
}

#[test]
fn append_private_sentried_data() {
    let mut data = Sequence::new(Kind::PrivateSentried, XorName(rand::random()), 10);

    // Assert that the values are appended.
    let values1 = vec![
        b"KEY1".to_vec(),
        b"VALUE1".to_vec(),
        b"KEY2".to_vec(),
        b"VALUE2".to_vec(),
    ];
    data.append(values1, Some(0)).unwrap();
}

#[test]
fn in_range() {
    let mut data = Sequence::new(Kind::PublicSentried, XorName(rand::random()), 10);
    let values = vec![
        b"key0".to_vec(),
        b"value0".to_vec(),
        b"key1".to_vec(),
        b"value1".to_vec(),
    ];
    data.append(values, Some(0)).unwrap();

    assert_eq!(
        data.in_range(Index::FromStart(0), Index::FromStart(0)),
        Some(vec![])
    );
    assert_eq!(
        data.in_range(Index::FromStart(0), Index::FromStart(2)),
        Some(vec![b"key0".to_vec(), b"value0".to_vec()])
    );
    assert_eq!(
        data.in_range(Index::FromStart(0), Index::FromStart(4)),
        Some(vec![
            b"key0".to_vec(),
            b"value0".to_vec(),
            b"key1".to_vec(),
            b"value1".to_vec(),
        ])
    );

    assert_eq!(
        data.in_range(Index::FromEnd(4), Index::FromEnd(2)),
        Some(vec![b"key0".to_vec(), b"value0".to_vec(),])
    );
    assert_eq!(
        data.in_range(Index::FromEnd(4), Index::FromEnd(0)),
        Some(vec![
            b"key0".to_vec(),
            b"value0".to_vec(),
            b"key1".to_vec(),
            b"value1".to_vec(),
        ])
    );

    assert_eq!(
        data.in_range(Index::FromStart(0), Index::FromEnd(0)),
        Some(vec![
            b"key0".to_vec(),
            b"value0".to_vec(),
            b"key1".to_vec(),
            b"value1".to_vec(),
        ])
    );

    // start > end
    assert_eq!(
        data.in_range(Index::FromStart(1), Index::FromStart(0)),
        None
    );
    assert_eq!(data.in_range(Index::FromEnd(1), Index::FromEnd(2)), None);

    // overflow
    assert_eq!(
        data.in_range(Index::FromStart(0), Index::FromStart(5)),
        None
    );
    assert_eq!(data.in_range(Index::FromEnd(5), Index::FromEnd(0)), None);
}

#[test]
fn can_retrieve_permissions() {
    let public_key = gen_public_key();
    let invalid_public_key = gen_public_key();

    let mut pub_permissions = PublicPermissions {
        permissions: Vec::new(),
        expected_data_index: 0,
        expected_owners_index: 0,
    };
    pub_permissions.permissions.push((
        User::Specific(public_key),
        PublicPermissionSet::new(Vec::new()),
    ));

    let mut private_permissions = PrivatePermissions {
        permissions: Vec::new(),
        expected_data_index: 0,
        expected_owners_index: 0,
    };
    private_permissions
        .permissions
        .push((public_key, PrivatePermissionSet::new(Vec::new())));

    // pub, unseq
    let mut data = Sequence::new(Kind::Public, XorName(rand::random()), 20);
    data.set_permissions(SequencePermissions::Public(pub_permissions.clone()), 0)
        .unwrap();
    let data = Data::from(data);

    assert_eq!(
        data.public_permissions_at(Index::FromStart(0)),
        Ok(&pub_permissions)
    );
    assert_eq!(
        data.private_permissions_at(Index::FromStart(0)),
        Err(Error::NoSuchData)
    );

    assert_eq!(
        data.public_user_permissions_at(User::Specific(public_key), Index::FromStart(0)),
        Ok(PublicPermissionSet::new(Vec::new()))
    );
    assert_eq!(
        data.private_user_permissions_at(public_key, Index::FromStart(0)),
        Err(Error::NoSuchData)
    );
    assert_eq!(
        data.public_user_permissions_at(User::Specific(invalid_public_key), Index::FromStart(0)),
        Err(Error::NoSuchEntry)
    );

    // pub, seq
    let mut data = Sequence::new(Kind::PublicSentried, XorName(rand::random()), 20);
    data.set_permissions(SequencePermissions::Public(pub_permissions.clone()), 0)
        .unwrap();
    let data = Data::from(data);

    assert_eq!(
        data.public_permissions_at(Index::FromStart(0)),
        Ok(&pub_permissions)
    );
    assert_eq!(
        data.private_permissions_at(Index::FromStart(0)),
        Err(Error::NoSuchData)
    );

    assert_eq!(
        data.public_user_permissions_at(User::Specific(public_key), Index::FromStart(0)),
        Ok(PublicPermissionSet::new(Vec::new()))
    );
    assert_eq!(
        data.private_user_permissions_at(public_key, Index::FromStart(0)),
        Err(Error::NoSuchData)
    );
    assert_eq!(
        data.public_user_permissions_at(User::Specific(invalid_public_key), Index::FromStart(0)),
        Err(Error::NoSuchEntry)
    );

    // Private, unseq
    let mut data = Sequence::new(Kind::Private, XorName(rand::random()), 20);
    data.set_permissions(
        SequencePermissions::Private(private_permissions.clone()),
        0,
    )
    .unwrap();
    let data = Data::from(data);

    assert_eq!(
        data.private_permissions_at(Index::FromStart(0)),
        Ok(&private_permissions)
    );
    assert_eq!(
        data.public_permissions_at(Index::FromStart(0)),
        Err(Error::NoSuchData)
    );

    assert_eq!(
        data.private_user_permissions_at(public_key, Index::FromStart(0)),
        Ok(PrivatePermissionSet::new(Vec::new()))
    );
    assert_eq!(
        data.public_user_permissions_at(User::Specific(public_key), Index::FromStart(0)),
        Err(Error::NoSuchData)
    );
    assert_eq!(
        data.private_user_permissions_at(invalid_public_key, Index::FromStart(0)),
        Err(Error::NoSuchEntry)
    );

    // Private, seq
    let mut data = Sequence::new(Kind::PrivateSentried, XorName(rand::random()), 20);
    data.set_permissions(
        SequencePermissions::Private(private_permissions.clone()),
        0,
    )
    .unwrap();
    let data = Data::from(data);

    assert_eq!(
        data.private_permissions_at(Index::FromStart(0)),
        Ok(&private_permissions)
    );
    assert_eq!(
        data.public_permissions_at(Index::FromStart(0)),
        Err(Error::NoSuchData)
    );

    assert_eq!(
        data.private_user_permissions_at(public_key, Index::FromStart(0)),
        Ok(PrivatePermissionSet::new(Vec::new()))
    );
    assert_eq!(
        data.public_user_permissions_at(User::Specific(public_key), Index::FromStart(0)),
        Err(Error::NoSuchData)
    );
    assert_eq!(
        data.private_user_permissions_at(invalid_public_key, Index::FromStart(0)),
        Err(Error::NoSuchEntry)
    );
}

#[test]
fn validates_public_permissions() {
    let public_key_0 = gen_public_key();
    let public_key_1 = gen_public_key();
    let public_key_2 = gen_public_key();
    let mut map = Sequence::new(Kind::PublicSentried, XorName([1; 32]), 100);

    // no owner
    let data = Data::from(map.clone());
    assert_eq!(data.is_permitted(get_append_cmd(), public_key_0), false);
    // data is Public - read always allowed
    assert_read_permitted(&data, public_key_0, true);

    // no permissions
    map.set_owner(
        Owner {
            public_key: public_key_0,
            expected_data_index: 0,
            expected_permissions_index: 0,
        },
        0,
    )
    .unwrap();
    let data = Data::from(map.clone());

    assert_eq!(data.is_permitted(get_append_cmd(), public_key_0), true);
    assert_eq!(data.is_permitted(get_append_cmd(), public_key_1), false);
    // data is Public - read always allowed
    assert_read_permitted(&data, public_key_0, true);
    assert_read_permitted(&data, public_key_1, true);

    // with permissions
    let mut permissions = PublicPermissions {
        permissions: Vec::new(),
        expected_data_index: 0,
        expected_owners_index: 1,
    };
    let mut set = Vec::new();
    set.push((get_append_cmd(), true));
    permissions
        .permissions
        .push((User::Anyone, PublicPermissionSet::new(set)));
    let mut set = Vec::new();
    for cmd in get_full_modify_permissions() {
        set.push((cmd, true));
    }
    permissions
        .permissions
        .push((User::Specific(public_key_1), PublicPermissionSet::new(set)));
    map.set_permissions(SequencePermissions::Public(permissions), 0)
        .unwrap();
    let data = Data::from(map);

    // existing key fallback
    assert_eq!(data.is_permitted(get_append_cmd(), public_key_1), true);
    // existing key override
    assert_modify_permissions_permitted(&data, public_key_1, true);
    // non-existing keys are handled by `Anyone`
    assert_eq!(data.is_permitted(get_append_cmd(), public_key_2), true);
    assert_modify_permissions_permitted(&data, public_key_2, false);
    // data is Public - read always allowed
    assert_read_permitted(&data, public_key_0, true);
    assert_read_permitted(&data, public_key_1, true);
    assert_read_permitted(&data, public_key_2, true);
}

#[test]
fn validates_private_permissions() {
    let public_key_0 = gen_public_key();
    let public_key_1 = gen_public_key();
    let public_key_2 = gen_public_key();
    let mut map = Sequence::new(Kind::PrivateSentried, XorName([1; 32]), 100);

    // no owner
    let data = Data::from(map.clone());
    assert_read_permitted(&data, public_key_0, false);

    // no permissions
    map.set_owner(
        Owner {
            public_key: public_key_0,
            expected_data_index: 0,
            expected_permissions_index: 0,
        },
        0,
    )
    .unwrap();
    let data = Data::from(map.clone());

    assert_read_permitted(&data, public_key_0, true);
    assert_read_permitted(&data, public_key_1, false);

    // with permissions
    let mut permissions = PrivatePermissions {
        permissions: Vec::new(),
        expected_data_index: 0,
        expected_owners_index: 1,
    };
    let mut set = Vec::new();
    set.push((get_append_cmd(), true));
    for query in get_full_read_permissions() {
        set.push((query, true));
    }
    for cmd in get_full_modify_permissions() {
        set.push((cmd, false));
    }
    permissions
        .permissions
        .push((public_key_1, PrivatePermissionSet::new(set)));
    map.set_permissions(SequencePermissions::Private(permissions), 0)
        .unwrap();
    let data = Data::from(map);

    // existing key
    assert_read_permitted(&data, public_key_1, true);
    assert_eq!(data.is_permitted(get_append_cmd(), public_key_1), true);
    assert_modify_permissions_permitted(&data, public_key_1, false);

    // non-existing key
    assert_read_permitted(&data, public_key_2, false);
    assert_eq!(data.is_permitted(get_append_cmd(), public_key_2), false);
    assert_modify_permissions_permitted(&data, public_key_2, false);
}
