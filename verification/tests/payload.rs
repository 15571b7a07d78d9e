use sha2::{Digest, Sha224};
use tfslite::payload::{
    DataBlock, Payload, PayloadBuildError, PayloadBuilder, PayloadOperation,
};
use tfslite::types::{FileId, FileMode, Permission};

fn missing_text(result: Result<Payload, PayloadBuildError>) -> String {
    match result {
        Err(PayloadBuildError::MissingField(text)) => text,
        other => panic!("expected a missing field, got {:?}", other),
    }
}

#[test]
fn file_create_takes_identity_mode_and_name() {
    let id = FileId::from_u128(0x0102030405060708090a0b0c0d0e0f10);
    let payload = PayloadBuilder::new(PayloadOperation::FileCreate)
        .with_uuid(id)
        .with_mode(FileMode::Immutable)
        .with_filename("x".to_string())
        .build()
        .unwrap();
    assert_eq!(payload.operation, PayloadOperation::FileCreate);
    assert_eq!(
        payload.uuid,
        vec![1, 2, 3, 4, 5, 6, 7, 8, 9, 10, 11, 12, 13, 14, 15, 16]
    );
    assert_eq!(payload.mode, FileMode::Immutable);
    assert_eq!(payload.filename, "x");
    assert!(payload.block.is_none());
    assert_eq!(payload.amount, 0);
}

#[test]
fn file_create_without_name_has_empty_name() {
    let payload = PayloadBuilder::new(PayloadOperation::FileCreate)
        .with_uuid(FileId::from_u128(7))
        .with_mode(FileMode::Destroyable)
        .build()
        .unwrap();
    assert_eq!(payload.filename, "");
    assert_eq!(payload.mode, FileMode::Destroyable);
}

#[test]
fn file_create_reports_missing_fields_in_order() {
    assert_eq!(
        missing_text(PayloadBuilder::new(PayloadOperation::FileCreate).build()),
        "Field 'uuid' is required"
    );
    assert_eq!(
        missing_text(
            PayloadBuilder::new(PayloadOperation::FileCreate)
                .with_mode(FileMode::Immutable)
                .build()
        ),
        "Field 'uuid' is required"
    );
    assert_eq!(
        missing_text(
            PayloadBuilder::new(PayloadOperation::FileCreate)
                .with_uuid(FileId::from_u128(1))
                .build()
        ),
        "Field 'mode' is required"
    );
}

#[test]
fn file_append_without_block_is_refused() {
    assert_eq!(
        missing_text(
            PayloadBuilder::new(PayloadOperation::FileAppend)
                .with_uuid(FileId::from_u128(1))
                .build()
        ),
        "Field 'block' is required"
    );
    assert_eq!(
        missing_text(
            PayloadBuilder::new(PayloadOperation::FileAppend)
                .with_block(vec![1, 2, 3])
                .build()
        ),
        "Field 'uuid' is required"
    );
}

#[test]
fn file_append_block_carries_sha224_of_its_data() {
    let data = b"some bytes of a file".to_vec();
    let payload = PayloadBuilder::new(PayloadOperation::FileAppend)
        .with_uuid(FileId::from_u128(1))
        .with_block(data.clone())
        .build()
        .unwrap();
    let block = payload.block.as_ref().unwrap();
    assert_eq!(block.data(), &data);
    assert_eq!(block.sha224(), &Sha224::digest(&data).to_vec());
    assert_eq!(block.sha224().len(), 28);
    assert_ne!(block.sha224(), &data);
}

#[test]
fn file_append_of_no_bytes_has_the_digest_of_nothing() {
    let payload = PayloadBuilder::new(PayloadOperation::FileAppend)
        .with_uuid(FileId::from_u128(1))
        .with_block(Vec::new())
        .build()
        .unwrap();
    let block = payload.block.unwrap();
    assert!(block.data().is_empty());
    assert_eq!(
        hex::encode(block.sha224()),
        "d14a028c2a3a2bc9476102bb288234c415a2b01f828ea62ac5b3e42f"
    );
}

#[test]
fn seal_and_destroy_need_the_identity_only() {
    for operation in [PayloadOperation::FileSeal, PayloadOperation::FileDestroy] {
        assert_eq!(
            missing_text(PayloadBuilder::new(operation).build()),
            "Field 'uuid' is required"
        );
        let payload = PayloadBuilder::new(operation)
            .with_uuid(FileId::from_u128(3))
            .with_filename("ignored".to_string())
            .with_amount(5)
            .build()
            .unwrap();
        assert_eq!(payload.operation, operation);
        assert_eq!(payload.filename, "");
        assert_eq!(payload.amount, 0);
        assert_eq!(payload.uuid.len(), 16);
    }
}

#[test]
fn deposit_and_transfer_need_address_and_amount() {
    for operation in [
        PayloadOperation::AccountDeposit,
        PayloadOperation::AccountTransfer,
    ] {
        assert_eq!(
            missing_text(PayloadBuilder::new(operation).with_amount(1).build()),
            "Field 'address' is required"
        );
        assert_eq!(
            missing_text(PayloadBuilder::new(operation).with_address(vec![1]).build()),
            "Field 'amount' is required"
        );
        let payload = PayloadBuilder::new(operation)
            .with_address(vec![9, 8, 7])
            .with_amount(1_000_000_000)
            .build()
            .unwrap();
        assert_eq!(payload.address, vec![9, 8, 7]);
        assert_eq!(payload.amount, 1_000_000_000);
        assert!(payload.uuid.is_empty());
    }
}

#[test]
fn permission_set_needs_permission_and_key() {
    assert_eq!(
        missing_text(
            PayloadBuilder::new(PayloadOperation::PermissionSet)
                .with_permission_public_key(vec![1])
                .build()
        ),
        "Field 'permission' is required"
    );
    assert_eq!(
        missing_text(
            PayloadBuilder::new(PayloadOperation::PermissionSet)
                .with_permission(Permission::Batcher)
                .build()
        ),
        "Field 'permission_public_key' is required"
    );
    let payload = PayloadBuilder::new(PayloadOperation::PermissionSet)
        .with_permission(Permission::Deposit)
        .with_permission_public_key(vec![4, 5])
        .build()
        .unwrap();
    assert_eq!(payload.permission, Permission::Deposit);
    assert_eq!(payload.permission_public_key, vec![4, 5]);
}

#[test]
fn permission_clear_needs_the_permission() {
    assert_eq!(
        missing_text(PayloadBuilder::new(PayloadOperation::PermissionClear).build()),
        "Field 'permission' is required"
    );
    let payload = PayloadBuilder::new(PayloadOperation::PermissionClear)
        .with_permission(Permission::Timestamp)
        .with_permission_public_key(vec![1])
        .build()
        .unwrap();
    assert_eq!(payload.permission, Permission::Timestamp);
    assert!(payload.permission_public_key.is_empty());
}

#[test]
fn timestamp_set_without_timestamps_is_refused() {
    assert_eq!(
        missing_text(
            PayloadBuilder::new(PayloadOperation::TimestampSet)
                .with_uuid(FileId::from_u128(1))
                .build()
        ),
        "At least one of the the fields 'timestamp_create', 'timestamp_append' or 'timestamp_seal' must be set"
    );
    assert_eq!(
        missing_text(
            PayloadBuilder::new(PayloadOperation::TimestampSet)
                .with_timestamp_seal(1)
                .build()
        ),
        "Field 'uuid' is required"
    );
}

#[test]
fn timestamp_set_takes_any_of_the_three() {
    let payload = PayloadBuilder::new(PayloadOperation::TimestampSet)
        .with_uuid(FileId::from_u128(1))
        .with_timestamp_append(-5)
        .build()
        .unwrap();
    assert_eq!(payload.timestamp_create, 0);
    assert_eq!(payload.timestamp_append, -5);
    assert_eq!(payload.timestamp_seal, 0);
    let payload = PayloadBuilder::new(PayloadOperation::TimestampSet)
        .with_uuid(FileId::from_u128(1))
        .with_timestamp_create(1700000000)
        .with_timestamp_seal(i64::MAX)
        .build()
        .unwrap();
    assert_eq!(payload.timestamp_create, 1700000000);
    assert_eq!(payload.timestamp_seal, i64::MAX);
}

#[test]
fn build_error_says_its_kind() {
    let error = PayloadBuilder::new(PayloadOperation::FileSeal)
        .build()
        .unwrap_err();
    assert_eq!(error.to_string(), "MissingField: Field 'uuid' is required");
    let other = PayloadBuildError::SerializationError("broken".to_string());
    assert_eq!(other.to_string(), "SerializationError: broken");
}

fn same_payload(a: &Payload, b: &Payload) -> bool {
    a.operation == b.operation
        && a.uuid == b.uuid
        && a.mode == b.mode
        && a.filename == b.filename
        && a.address == b.address
        && a.amount == b.amount
        && a.permission == b.permission
        && a.permission_public_key == b.permission_public_key
        && a.timestamp_create == b.timestamp_create
        && a.timestamp_append == b.timestamp_append
        && a.timestamp_seal == b.timestamp_seal
        && match (&a.block, &b.block) {
            (Some(x), Some(y)) => x.data() == y.data() && x.sha224() == y.sha224(),
            (None, None) => true,
            _ => false,
        }
}

#[test]
fn payload_round_trips_through_its_bytes() {
    let payloads = vec![
        PayloadBuilder::new(PayloadOperation::FileCreate)
            .with_uuid(FileId::from_u128(u128::MAX))
            .with_mode(FileMode::Immutable)
            .with_filename("r\u{e9}sum\u{e9}.txt".to_string())
            .build()
            .unwrap(),
        PayloadBuilder::new(PayloadOperation::FileAppend)
            .with_uuid(FileId::from_u128(42))
            .with_block((0..=255u8).cycle().take(1000).collect())
            .build()
            .unwrap(),
        PayloadBuilder::new(PayloadOperation::FileAppend)
            .with_uuid(FileId::from_u128(42))
            .with_block(Vec::new())
            .build()
            .unwrap(),
        PayloadBuilder::new(PayloadOperation::FileSeal)
            .with_uuid(FileId::from_u128(0))
            .build()
            .unwrap(),
        PayloadBuilder::new(PayloadOperation::AccountDeposit)
            .with_address(vec![2; 33])
            .with_amount(u64::MAX)
            .build()
            .unwrap(),
        PayloadBuilder::new(PayloadOperation::PermissionSet)
            .with_permission(Permission::Timestamp)
            .with_permission_public_key(vec![3; 33])
            .build()
            .unwrap(),
        PayloadBuilder::new(PayloadOperation::TimestampSet)
            .with_uuid(FileId::from_u128(9))
            .with_timestamp_create(-1)
            .with_timestamp_append(i64::MIN)
            .with_timestamp_seal(i64::MAX)
            .build()
            .unwrap(),
    ];
    for payload in payloads {
        let bytes = payload.encode();
        let back = Payload::decode(&bytes).expect("the bytes of a payload read back");
        assert!(same_payload(&payload, &back));
        assert_eq!(back.encode(), bytes);
    }
}

#[test]
fn payload_with_wrong_block_digest_is_not_read() {
    let payload = PayloadBuilder::new(PayloadOperation::FileAppend)
        .with_uuid(FileId::from_u128(42))
        .with_block(vec![1, 2, 3, 4])
        .build()
        .unwrap();
    let mut bytes = payload.encode();
    let last = bytes.len() - 1;
    bytes[last] ^= 1;
    assert!(Payload::decode(&bytes).is_none());
}

#[test]
fn payload_with_unknown_operation_is_not_read() {
    assert!(Payload::decode(&[0x08, 0x09]).is_none());
    assert!(Payload::decode(&[0x08, 0x08]).is_some());
    assert!(Payload::decode(&[0x18, 0x02]).is_none());
    assert!(Payload::decode(&[0x40, 0x05]).is_none());
    assert!(Payload::decode(&[0x2a, 0x02, 0xff, 0xfe]).is_none());
    assert!(Payload::decode(&[0x08]).is_none());
}

#[test]
fn empty_bytes_are_the_blank_file_create() {
    let payload = Payload::decode(&[]).unwrap();
    assert!(same_payload(
        &payload,
        &Payload::blank(PayloadOperation::FileCreate)
    ));
    assert!(Payload::blank(PayloadOperation::FileCreate)
        .encode()
        .is_empty());
}

#[test]
fn data_block_checks_its_digest() {
    let data = vec![5u8; 10];
    let digest = Sha224::digest(&data).to_vec();
    assert!(DataBlock::checked(data.clone(), digest.clone()).is_some());
    assert!(DataBlock::checked(data.clone(), vec![0; 28]).is_none());
    assert!(DataBlock::checked(vec![6u8; 10], digest).is_none());
    let block = DataBlock::new(data.clone());
    assert_eq!(block.data(), &data);
    assert_eq!(block.sha224(), &Sha224::digest(&data).to_vec());
}

#[test]
fn operations_have_their_numbers() {
    let all = [
        PayloadOperation::FileCreate,
        PayloadOperation::FileAppend,
        PayloadOperation::FileSeal,
        PayloadOperation::FileDestroy,
        PayloadOperation::AccountDeposit,
        PayloadOperation::AccountTransfer,
        PayloadOperation::PermissionSet,
        PayloadOperation::PermissionClear,
        PayloadOperation::TimestampSet,
    ];
    for (number, operation) in all.iter().enumerate() {
        assert_eq!(operation.to_wire(), number as u64);
        assert_eq!(PayloadOperation::from_wire(number as u64), Some(*operation));
    }
    assert_eq!(PayloadOperation::from_wire(9), None);
}

#[test]
fn payload_is_read_past_fields_that_it_does_not_know() {
    let payload = PayloadBuilder::new(PayloadOperation::FileSeal)
        .with_uuid(FileId::from_u128(77))
        .build()
        .unwrap();
    let mut bytes = payload.encode();
    bytes.extend_from_slice(&[0x69, 1, 2, 3, 4, 5, 6, 7, 8]);
    bytes.extend_from_slice(&[0x75, 1, 2, 3, 4]);
    bytes.extend_from_slice(&[0x78, 0x01]);
    let back = Payload::decode(&bytes).unwrap();
    assert!(same_payload(&payload, &back));
}
