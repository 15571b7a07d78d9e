use tfslite::client::{
    account_balance_url, account_files_url, batcher_public_key_url, build_info_url, endpoint,
    parse_batcher_public_key, response_error, status_url, submit_url, AccountBalance,
    FileListEntry, FileListParseError, TFSLiteClientError, TFSLiteClientErrorType, Timestamp,
};
use tfslite::keys::PublicKey;
use tfslite::types::{FileId, FileMode, FileState, Permission};

#[test]
fn endpoints_follow_the_service() {
    let base = "http://localhost:3455";
    assert_eq!(build_info_url(base), "http://localhost:3455/build-info");
    assert_eq!(
        batcher_public_key_url(base),
        "http://localhost:3455/batcher-public-key"
    );
    assert_eq!(submit_url(base), "http://localhost:3455/transaction/submit");
    assert_eq!(
        status_url(base),
        "http://localhost:3455/transaction/status/multiple"
    );
    assert_eq!(endpoint("a", "/b"), "a/b");
}

#[test]
fn account_endpoints_need_an_account() {
    let key = PublicKey::load_from_bytes(&[0x02, 0xab, 0xcd]);
    assert_eq!(
        account_balance_url("http://h", Some(&key)).unwrap(),
        "http://h/account/balance/02abcd"
    );
    assert_eq!(
        account_files_url("http://h", Some(&key)).unwrap(),
        "http://h/account/files/02abcd"
    );
    let error = account_balance_url("http://h", None).unwrap_err();
    assert_eq!(error.error_type(), TFSLiteClientErrorType::InvalidAccount);
    assert_eq!(error.to_string(), "InvalidAccountError");
    let error = account_files_url("http://h", None).unwrap_err();
    assert_eq!(error.error_type(), TFSLiteClientErrorType::InvalidAccount);
}

#[test]
fn client_errors_say_their_kind() {
    let error = TFSLiteClientError::new(
        TFSLiteClientErrorType::TransportError,
        Some("refused".to_string()),
    );
    assert_eq!(error.to_string(), "TransportError: refused");
    let error = TFSLiteClientError::new(TFSLiteClientErrorType::TransportError, None);
    assert_eq!(error.to_string(), "TransportError: <no msg>");
    let error = TFSLiteClientError::new(
        TFSLiteClientErrorType::DecodeError,
        Some("bad json".to_string()),
    );
    assert_eq!(error.to_string(), "DecodeError: bad json");
    let error = TFSLiteClientError::new(TFSLiteClientErrorType::DecodeError, None);
    assert_eq!(error.to_string(), "DecodeError: <no msg>");
    let error = TFSLiteClientError::new(
        TFSLiteClientErrorType::InvalidAccount,
        Some("ignored".to_string()),
    );
    assert_eq!(error.to_string(), "InvalidAccountError");
}

#[test]
fn answers_that_are_no_success_become_transport_errors() {
    let error = response_error("500 Internal Server Error", Some("boom".to_string()));
    assert_eq!(error.error_type(), TFSLiteClientErrorType::TransportError);
    assert_eq!(
        error.to_string(),
        "TransportError: Response Code: 500 Internal Server Error, Message: boom"
    );
    let error = response_error("404 Not Found", None);
    assert_eq!(
        error.to_string(),
        "TransportError: Response Code: 404 Not Found, Message: (No Message Found)"
    );
}

#[test]
fn batcher_key_is_read_from_hexadecimal() {
    let key = parse_batcher_public_key("02ABcd").unwrap();
    assert_eq!(key.as_slice(), &[0x02, 0xab, 0xcd]);
    let error = parse_batcher_public_key("02abc").unwrap_err();
    assert_eq!(error.error_type(), TFSLiteClientErrorType::DecodeError);
    assert_eq!(error.to_string(), "DecodeError: invalid hexadecimal text");
    assert!(parse_batcher_public_key("no").is_err());
}

#[test]
fn file_list_entries_are_read_from_names() {
    let id = FileId::from_u128(5);
    let when = Timestamp { seconds: 1700000000, nanoseconds: 5 };
    let entry =
        FileListEntry::parse(id, "OPEN", "IMMUTABLE", Some(when), Some("n".to_string())).unwrap();
    assert_eq!(entry.get_id(), id);
    assert_eq!(entry.get_state(), FileState::Open);
    assert_eq!(entry.get_mode(), FileMode::Immutable);
    assert_eq!(entry.get_last_updated(), Some(when));
    assert_eq!(entry.get_name(), Some("n".to_string()));
    let entry = FileListEntry::parse(id, "SEALED", "DESTROYABLE", None, None).unwrap();
    assert_eq!(entry.get_state(), FileState::Sealed);
    assert_eq!(entry.get_mode(), FileMode::Destroyable);
    assert_eq!(entry.get_last_updated(), None);
    assert_eq!(entry.get_name(), None);
    assert_eq!(
        FileListEntry::parse(id, "open", "IMMUTABLE", None, None).unwrap_err(),
        FileListParseError
    );
    assert!(FileListEntry::parse(id, "OPEN", "", None, None).is_err());
    assert!(FileListEntry::parse(id, "CLOSED", "IMMUTABLE", None, None).is_err());
    assert_eq!(FileListParseError.to_string(), "FileListParseError");
}

#[test]
fn balance_is_a_number() {
    assert_eq!(AccountBalance(42).as_u64(), 42);
    assert_eq!(AccountBalance(u64::MAX).as_u64(), u64::MAX);
}

#[test]
fn permissions_have_their_digits_and_names() {
    let all = [
        (Permission::Unset, "00", "Permission::Unset"),
        (Permission::SetPermission, "01", "Permission::SetPermission"),
        (Permission::Batcher, "02", "Permission::Batcher"),
        (Permission::Deposit, "03", "Permission::Deposit"),
        (Permission::Timestamp, "04", "Permission::Timestamp"),
    ];
    for (number, (permission, hex, name)) in all.iter().enumerate() {
        assert_eq!(permission.to_hex(), *hex);
        assert_eq!(permission.to_string(), *name);
        assert_eq!(permission.to_wire(), number as u64);
        assert_eq!(Permission::from_wire(number as u64), Some(*permission));
    }
    assert_eq!(Permission::from_wire(5), None);
}

#[test]
fn states_and_modes_have_their_names() {
    assert_eq!(FileState::Open.to_string(), "OPEN");
    assert_eq!(FileState::Sealed.to_string(), "SEALED");
    assert_eq!(FileMode::Destroyable.to_string(), "DESTROYABLE");
    assert_eq!(FileMode::Immutable.to_string(), "IMMUTABLE");
    assert_eq!(FileMode::Destroyable.to_wire(), 0);
    assert_eq!(FileMode::Immutable.to_wire(), 1);
    assert_eq!(FileMode::from_wire(1), Some(FileMode::Immutable));
    assert_eq!(FileMode::from_wire(2), None);
}

#[test]
fn file_identity_has_the_bytes_of_a_uuid() {
    for value in [0u128, 1, 0x0102030405060708090a0b0c0d0e0f10, u128::MAX, 1 << 127] {
        let id = FileId::from_u128(value);
        assert_eq!(id.as_u128(), value);
        assert_eq!(id.as_bytes(), uuid::Uuid::from_u128(value).as_bytes().to_vec());
        assert_eq!(id.as_bytes(), value.to_be_bytes().to_vec());
    }
    let random = uuid::Uuid::new_v4();
    assert_eq!(
        FileId::from_u128(random.as_u128()).as_bytes(),
        random.as_bytes().to_vec()
    );
}
