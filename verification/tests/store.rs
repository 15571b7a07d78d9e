use tfslite::keys::PrivateKey;
use tfslite::payload::{PayloadBuilder, PayloadOperation};
use tfslite::state::{
    sort_by_order, LocalStateStoreError, TransactionInfo, TransactionStatus,
};
use tfslite::store::MemoryStateStore;
use tfslite::transaction::{Transaction, TransactionBuilder};
use tfslite::types::{FileId, FileMode};

fn new_id() -> FileId {
    FileId::from_u128(rand::random::<u128>())
}

fn seal(key: &PrivateKey, id: FileId) -> Transaction {
    TransactionBuilder::new()
        .with_payload(
            PayloadBuilder::new(PayloadOperation::FileSeal)
                .with_uuid(id)
                .build()
                .unwrap(),
        )
        .build(key)
        .unwrap()
}

#[test]
fn test_local_state_store() {
    let mut store = MemoryStateStore::new();
    let key = PrivateKey::generate_random_key();
    let uuid = new_id();
    let mut tx_ids: Vec<String> = Vec::new();

    let payload1 = PayloadBuilder::new(PayloadOperation::FileCreate)
        .with_uuid(uuid)
        .with_mode(FileMode::Immutable)
        .build()
        .unwrap();
    let tx1 = TransactionBuilder::new()
        .with_payload(payload1)
        .build(&key)
        .expect("Couldn't build tx1");
    tx_ids.push(tx1.get_header_signature().to_string());
    store.add_tx(&uuid, &tx1).unwrap();

    let payload2 = PayloadBuilder::new(PayloadOperation::FileAppend)
        .with_uuid(uuid)
        .with_block(Vec::new())
        .build()
        .unwrap();
    let tx2 = TransactionBuilder::new()
        .with_payload(payload2)
        .build(&key)
        .expect("Couldn't build tx2");
    tx_ids.push(tx2.get_header_signature().to_string());
    store.add_tx(&uuid, &tx2).unwrap();

    let payload3 = PayloadBuilder::new(PayloadOperation::FileSeal)
        .with_uuid(uuid)
        .build()
        .unwrap();
    let tx3 = TransactionBuilder::new()
        .with_payload(payload3)
        .build(&key)
        .expect("Couldn't build tx3");
    tx_ids.push(tx3.get_header_signature().to_string());
    store.add_tx(&uuid, &tx3).unwrap();

    let pending = store.get_txs(&uuid).unwrap();
    assert_eq!(pending.len(), 3);
    for (place, ti) in pending.iter().enumerate() {
        assert_eq!(ti.order, place as u64);
        assert_eq!(ti.tx_id, tx_ids[place]);
        assert_eq!(ti.status, TransactionStatus::Local);
        assert_eq!(ti.submit_id, None);
        let bytes = store.get_tx_bytes(&ti.tx_id).unwrap();
        assert!(!bytes.is_empty());
    }
    assert_eq!(store.get_tx_bytes(&tx_ids[0]).unwrap(), tx1.encode());

    let files = store.get_files().unwrap();
    assert_eq!(files, vec![uuid]);

    store.flush_txs(&uuid).unwrap();

    let error = store
        .get_txs(&uuid)
        .expect_err("Should be no txs for this uuid");
    assert!(matches!(error, LocalStateStoreError::NoSuchFile));
    assert!(store.get_files().unwrap().is_empty());
    assert!(matches!(
        store.get_tx_bytes(&tx_ids[0]),
        Err(LocalStateStoreError::NoSuchTransaction)
    ));
}

#[test]
fn orders_count_up_from_zero_for_each_file() {
    let mut store = MemoryStateStore::new();
    let key = PrivateKey::generate_random_key();
    let first = new_id();
    let second = new_id();
    let mut expected_first = Vec::new();
    let mut expected_second = Vec::new();
    for round in 0..10 {
        let tx = seal(&key, first);
        expected_first.push(tx.get_header_signature().to_string());
        store.add_tx(&first, &tx).unwrap();
        if round % 3 == 0 {
            let tx = seal(&key, second);
            expected_second.push(tx.get_header_signature().to_string());
            store.add_tx(&second, &tx).unwrap();
        }
    }
    let rows = store.get_txs(&first).unwrap();
    assert_eq!(rows.len(), 10);
    for (place, row) in rows.iter().enumerate() {
        assert_eq!(row.order, place as u64);
        assert_eq!(row.tx_id, expected_first[place]);
    }
    let rows = store.get_txs(&second).unwrap();
    assert_eq!(rows.len(), 4);
    for (place, row) in rows.iter().enumerate() {
        assert_eq!(row.order, place as u64);
        assert_eq!(row.tx_id, expected_second[place]);
    }
    assert_eq!(store.get_files().unwrap(), vec![first, second]);
}

#[test]
fn unknown_file_has_no_transactions() {
    let store = MemoryStateStore::new();
    assert!(matches!(
        store.get_txs(&new_id()),
        Err(LocalStateStoreError::NoSuchFile)
    ));
    assert!(store.get_files().unwrap().is_empty());
}

#[test]
fn same_transaction_is_not_stored_twice() {
    let mut store = MemoryStateStore::new();
    let key = PrivateKey::generate_random_key();
    let id = new_id();
    let tx = seal(&key, id);
    store.add_tx(&id, &tx).unwrap();
    let error = store.add_tx(&id, &tx).unwrap_err();
    assert!(
        matches!(&error, LocalStateStoreError::ImplementationError(text) if text == "transaction is already stored")
    );
    let other = new_id();
    assert!(store.add_tx(&other, &tx).is_err());
    assert_eq!(store.get_txs(&id).unwrap().len(), 1);
    assert!(matches!(
        store.get_txs(&other),
        Err(LocalStateStoreError::NoSuchFile)
    ));
}

#[test]
fn update_sets_what_is_given() {
    let mut store = MemoryStateStore::new();
    let key = PrivateKey::generate_random_key();
    let id = new_id();
    let a = seal(&key, id);
    let b = seal(&key, id);
    store.add_tx(&id, &a).unwrap();
    store.add_tx(&id, &b).unwrap();
    let b_id = b.get_header_signature().to_string();

    store
        .update_tx(&b_id, Some("handle-1".to_string()), None)
        .unwrap();
    let rows = store.get_txs(&id).unwrap();
    assert_eq!(rows[1].submit_id, Some("handle-1".to_string()));
    assert_eq!(rows[1].status, TransactionStatus::Local);
    assert_eq!(rows[0].submit_id, None);

    store
        .update_tx(&b_id, None, Some(TransactionStatus::Pending))
        .unwrap();
    let rows = store.get_txs(&id).unwrap();
    assert_eq!(rows[1].submit_id, Some("handle-1".to_string()));
    assert_eq!(rows[1].status, TransactionStatus::Pending);

    store
        .update_tx(
            &b_id,
            Some("handle-2".to_string()),
            Some(TransactionStatus::Committed),
        )
        .unwrap();
    store.update_tx(&b_id, None, None).unwrap();
    let rows = store.get_txs(&id).unwrap();
    assert_eq!(rows[1].order, 1);
    assert_eq!(rows[1].tx_id, b_id);
    assert_eq!(rows[1].submit_id, Some("handle-2".to_string()));
    assert_eq!(rows[1].status, TransactionStatus::Committed);
    assert_eq!(rows[0].status, TransactionStatus::Local);
    assert_eq!(store.get_tx_bytes(&b_id).unwrap(), b.encode());
}

#[test]
fn update_of_unknown_transaction_fails() {
    let mut store = MemoryStateStore::new();
    let error = store
        .update_tx(&"nothing".to_string(), None, Some(TransactionStatus::Queued))
        .unwrap_err();
    assert!(matches!(error, LocalStateStoreError::NoSuchTransaction));
    assert!(matches!(
        store.get_tx_bytes(&"nothing".to_string()),
        Err(LocalStateStoreError::NoSuchTransaction)
    ));
}

#[test]
fn flush_forgets_one_file_only() {
    let mut store = MemoryStateStore::new();
    let key = PrivateKey::generate_random_key();
    let kept = new_id();
    let gone = new_id();
    let kept_tx = seal(&key, kept);
    let gone_tx = seal(&key, gone);
    store.add_tx(&gone, &gone_tx).unwrap();
    store.add_tx(&kept, &kept_tx).unwrap();
    store.flush_txs(&gone).unwrap();
    store.flush_txs(&gone).unwrap();
    store.flush_txs(&new_id()).unwrap();
    assert_eq!(store.get_files().unwrap(), vec![kept]);
    assert_eq!(store.get_txs(&kept).unwrap().len(), 1);
    assert!(matches!(
        store.get_txs(&gone),
        Err(LocalStateStoreError::NoSuchFile)
    ));
    assert!(store
        .get_tx_bytes(&gone_tx.get_header_signature().to_string())
        .is_err());
    store.add_tx(&gone, &gone_tx).unwrap();
    assert_eq!(store.get_txs(&gone).unwrap()[0].order, 0);
}

#[test]
fn status_names_round_trip() {
    let all = [
        (TransactionStatus::Local, "LOCAL"),
        (TransactionStatus::Queued, "QUEUED"),
        (TransactionStatus::Pending, "PENDING"),
        (TransactionStatus::Committed, "COMMITTED"),
        (TransactionStatus::Unknown, "UNKNOWN"),
        (TransactionStatus::InvalidStatus, "INVALID_STATUS"),
    ];
    for (status, name) in all {
        assert_eq!(String::from(status), name);
        assert_eq!(status.to_string(), name);
        assert_eq!(TransactionStatus::from(String::from(status)), status);
        assert_eq!(TransactionStatus::parse(name), status);
    }
    for other in ["", "local", "Committed", "DONE", "LOCAL ", "UNKNOWN\n"] {
        assert_eq!(
            TransactionStatus::from(other.to_string()),
            TransactionStatus::InvalidStatus
        );
    }
}

#[test]
fn unknown_and_unreadable_statuses_count_as_local() {
    assert_eq!(TransactionStatus::Unknown.normalize(), TransactionStatus::Local);
    assert_eq!(
        TransactionStatus::InvalidStatus.normalize(),
        TransactionStatus::Local
    );
    for status in [
        TransactionStatus::Local,
        TransactionStatus::Queued,
        TransactionStatus::Pending,
        TransactionStatus::Committed,
    ] {
        assert_eq!(status.normalize(), status);
    }
}

#[test]
fn rows_become_records() {
    let info = TransactionInfo::from_row("id".to_string(), 4, String::new(), "PENDING");
    assert_eq!(info.order, 4);
    assert_eq!(info.tx_id, "id");
    assert_eq!(info.submit_id, None);
    assert_eq!(info.status, TransactionStatus::Pending);
    assert_eq!(info.submit_id_column(), "");
    let info = TransactionInfo::from_row("id".to_string(), 0, "h".to_string(), "nonsense");
    assert_eq!(info.submit_id, Some("h".to_string()));
    assert_eq!(info.status, TransactionStatus::InvalidStatus);
    assert_eq!(info.submit_id_column(), "h");
    let fresh = TransactionInfo::fresh(3, "t".to_string());
    assert_eq!(fresh.order, 3);
    assert_eq!(fresh.submit_id, None);
    assert_eq!(fresh.status, TransactionStatus::Local);
    let copy = fresh.duplicate();
    assert_eq!(copy.tx_id, "t");
    assert_eq!(copy.order, 3);
}

#[test]
fn update_of_a_record_tells_whether_anything_was_given() {
    let mut info = TransactionInfo::fresh(0, "t".to_string());
    assert!(!info.apply_update(None, None));
    assert!(info.apply_update(Some("h".to_string()), None));
    assert_eq!(info.submit_id, Some("h".to_string()));
    assert!(info.apply_update(None, Some(TransactionStatus::Queued)));
    assert_eq!(info.submit_id, Some("h".to_string()));
    assert_eq!(info.status, TransactionStatus::Queued);
}

#[test]
fn records_are_sorted_by_order() {
    let mut rows: Vec<TransactionInfo> = [5u64, 1, 4, 0, 3, 2, 2]
        .iter()
        .map(|order| TransactionInfo::fresh(*order, format!("tx{}", order)))
        .collect();
    sort_by_order(&mut rows);
    let orders: Vec<u64> = rows.iter().map(|row| row.order).collect();
    assert_eq!(orders, vec![0, 1, 2, 2, 3, 4, 5]);
    assert_eq!(rows[0].tx_id, "tx0");
    assert_eq!(rows[6].tx_id, "tx5");
    let mut none: Vec<TransactionInfo> = Vec::new();
    sort_by_order(&mut none);
    assert!(none.is_empty());
}

#[test]
fn file_made_known_starts_at_order_zero() {
    let mut store = MemoryStateStore::new();
    let key = PrivateKey::generate_random_key();
    let id = new_id();
    assert!(matches!(
        store.check_has_file(&id),
        Err(LocalStateStoreError::NoSuchFile)
    ));
    store.set_has_file(&id).unwrap();
    assert!(store.check_has_file(&id).is_ok());
    assert!(store.get_txs(&id).unwrap().is_empty());
    assert_eq!(store.get_files().unwrap(), vec![id]);
    let first = seal(&key, id);
    store.add_tx(&id, &first).unwrap();
    assert_eq!(store.get_txs(&id).unwrap()[0].order, 0);
    store.set_has_file(&id).unwrap();
    let rows = store.get_txs(&id).unwrap();
    assert_eq!(rows.len(), 1);
    assert_eq!(rows[0].tx_id, first.get_header_signature());
    let second = seal(&key, id);
    store.add_tx(&id, &second).unwrap();
    assert_eq!(store.get_txs(&id).unwrap()[1].order, 1);
    assert_eq!(store.get_files().unwrap(), vec![id]);
}
