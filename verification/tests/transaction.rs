use protobuf::CodedOutputStream;
use sha2::{Digest, Sha512};
use tfslite::batch::{BatchBuildError, BatchBuilder, BatchHeader};
use tfslite::common::{get_tfslite_prefix, FAMILY_NAME, FAMILY_VERSION, FILE_CREATE_COST};
use tfslite::keys::{PrivateKey, PublicKey, Signature, Signer, SigningError};
use tfslite::payload::{Payload, PayloadBuilder, PayloadOperation};
use tfslite::transaction::{
    Transaction, TransactionBuildError, TransactionBuilder, TransactionExt, TransactionHeader,
    ValidationFault,
};
use tfslite::types::{FileId, FileMode};

fn create_payload(id: FileId) -> Payload {
    PayloadBuilder::new(PayloadOperation::FileCreate)
        .with_uuid(id)
        .with_mode(FileMode::Immutable)
        .with_filename("x".to_string())
        .build()
        .unwrap()
}

fn header_of(transaction: &Transaction) -> TransactionHeader {
    TransactionHeader::decode(transaction.get_header()).expect("the header reads back")
}

#[test]
fn constants_are_those_of_the_family() {
    assert_eq!(FAMILY_NAME, "tfslite");
    assert_eq!(FAMILY_VERSION, "0.1");
    assert_eq!(FILE_CREATE_COST, 100_000_000);
}

#[test]
fn prefix_is_the_head_of_the_digest_of_the_family_name() {
    let expected = hex::encode(Sha512::digest(b"tfslite"))[..6].to_string();
    assert_eq!(get_tfslite_prefix(), expected);
    assert_eq!(get_tfslite_prefix().len(), 6);
}

#[test]
fn build_create_transaction_and_validate() {
    let key = PrivateKey::generate_random_key();
    let id = FileId::from_u128(rand::random::<u128>());
    let transaction = TransactionBuilder::new()
        .with_payload(create_payload(id))
        .build(&key)
        .unwrap();
    assert!(transaction.validate().is_ok());
    assert_eq!(transaction.get_header_signature().len(), 128);
    assert!(transaction
        .get_header_signature()
        .chars()
        .all(|c| c.is_ascii_hexdigit() && !c.is_ascii_uppercase()));
}

#[test]
fn header_is_filled_as_the_family_asks() {
    let key = PrivateKey::generate_random_key();
    let payload = create_payload(FileId::from_u128(5));
    let payload_bytes = payload.encode();
    let transaction = TransactionBuilder::new()
        .with_payload(payload)
        .build(&key)
        .unwrap();
    let header = header_of(&transaction);
    let signer_hex = key.public_key().unwrap().as_hex();
    assert_eq!(header.signer_public_key, signer_hex);
    assert_eq!(header.batcher_public_key, signer_hex);
    assert!(header.dependencies.is_empty());
    assert_eq!(header.family_name, "tfslite");
    assert_eq!(header.family_version, "0.1");
    assert_eq!(header.inputs, vec![get_tfslite_prefix()]);
    assert_eq!(header.outputs, vec![get_tfslite_prefix()]);
    assert_eq!(header.nonce.len(), 64);
    assert_eq!(header.payload_sha512, hex::encode(Sha512::digest(&payload_bytes)));
    assert_eq!(transaction.get_payload(), payload_bytes.as_slice());
}

#[test]
fn builder_takes_what_it_is_given() {
    let key = PrivateKey::generate_random_key();
    let transaction = TransactionBuilder::new()
        .with_payload(create_payload(FileId::from_u128(5)))
        .with_batcher_public_key(vec![0x02, 0xaa])
        .with_dependencies(vec!["first".to_string(), "second".to_string()])
        .with_family_name("other".to_string())
        .with_family_version("2.0".to_string())
        .with_nonce(vec![1, 2, 3])
        .build(&key)
        .unwrap();
    let header = header_of(&transaction);
    assert_eq!(header.batcher_public_key, "02aa");
    assert_eq!(header.dependencies, vec!["first".to_string(), "second".to_string()]);
    assert_eq!(header.family_name, "other");
    assert_eq!(header.family_version, "2.0");
    assert_eq!(header.nonce, "010203");
    assert!(transaction.validate().is_ok());
}

#[test]
fn same_input_and_nonce_give_the_same_transaction() {
    let key = PrivateKey::generate_random_key();
    let build = || {
        TransactionBuilder::new()
            .with_payload(create_payload(FileId::from_u128(5)))
            .with_nonce(vec![7; 32])
            .build(&key)
            .unwrap()
    };
    let first = build();
    let second = build();
    assert_eq!(first.get_header_signature(), second.get_header_signature());
    assert_eq!(first.get_header(), second.get_header());
    let fresh = TransactionBuilder::new()
        .with_payload(create_payload(FileId::from_u128(5)))
        .build(&key)
        .unwrap();
    assert_ne!(fresh.get_header_signature(), first.get_header_signature());
}

#[test]
fn missing_payload_is_reported() {
    let key = PrivateKey::generate_random_key();
    let error = TransactionBuilder::new().build(&key).unwrap_err();
    assert!(
        matches!(&error, TransactionBuildError::MissingField(text) if text == "Field 'payload' is required")
    );
    assert_eq!(
        error.to_string(),
        "MissingField: Field 'payload' is required"
    );
}

#[test]
fn signer_that_fails_is_reported() {
    let key = PrivateKey::load_from_bytes(&[0u8; 32]);
    let error = TransactionBuilder::new()
        .with_payload(create_payload(FileId::from_u128(5)))
        .build(&key)
        .unwrap_err();
    assert!(matches!(error, TransactionBuildError::SigningError(_)));
    assert!(error.to_string().starts_with("SigningError: "));
}

struct KeyOnlySigner {
    key: PrivateKey,
}

impl Signer for KeyOnlySigner {
    fn sign(&self, _data: &[u8]) -> Result<Signature, SigningError> {
        Err(SigningError::new("no pen".to_string()))
    }

    fn public_key(&self) -> Result<PublicKey, SigningError> {
        self.key.public_key()
    }
}

#[test]
fn failure_to_sign_says_what_was_signed() {
    let signer = KeyOnlySigner { key: PrivateKey::generate_random_key() };
    let error = TransactionBuilder::new()
        .with_payload(create_payload(FileId::from_u128(5)))
        .build(&signer)
        .unwrap_err();
    assert!(
        matches!(&error, TransactionBuildError::SigningError(text) if text == "Unable to sign tx: no pen")
    );
    let error = TransactionBuilder::new().build(&signer).unwrap_err();
    assert!(matches!(error, TransactionBuildError::MissingField(_)));
    let error = BatchBuilder::new()
        .with_transactions(vec![])
        .build(&signer)
        .unwrap_err();
    assert!(
        matches!(&error, BatchBuildError::SigningError(text) if text == "Unable to sign batch: no pen")
    );
    assert_eq!(error.to_string(), "SigningError: Unable to sign batch: no pen");
}

#[test]
fn signer_can_be_any_implementation() {
    let key = PrivateKey::generate_random_key();
    let boxed: Box<dyn Signer> = Box::new(key.clone());
    let transaction = TransactionBuilder::new()
        .with_payload(create_payload(FileId::from_u128(5)))
        .with_nonce(vec![1; 32])
        .build(boxed.as_ref())
        .unwrap();
    let direct = TransactionBuilder::new()
        .with_payload(create_payload(FileId::from_u128(5)))
        .with_nonce(vec![1; 32])
        .build(&key)
        .unwrap();
    assert_eq!(transaction.get_header_signature(), direct.get_header_signature());
    assert!(transaction.validate().is_ok());
}

#[test]
fn three_step_chain_names_its_dependencies() {
    let key = PrivateKey::generate_random_key();
    let id = FileId::from_u128(rand::random::<u128>());
    let first = TransactionBuilder::new()
        .with_payload(
            PayloadBuilder::new(PayloadOperation::FileCreate)
                .with_uuid(id)
                .with_mode(FileMode::Immutable)
                .build()
                .unwrap(),
        )
        .build(&key)
        .unwrap();
    let second = TransactionBuilder::new()
        .with_payload(
            PayloadBuilder::new(PayloadOperation::FileAppend)
                .with_uuid(id)
                .with_block(Vec::new())
                .build()
                .unwrap(),
        )
        .with_dependencies(vec![first.get_header_signature().to_string()])
        .build(&key)
        .unwrap();
    let third = TransactionBuilder::new()
        .with_payload(
            PayloadBuilder::new(PayloadOperation::FileSeal)
                .with_uuid(id)
                .build()
                .unwrap(),
        )
        .with_dependencies(vec![second.get_header_signature().to_string()])
        .build(&key)
        .unwrap();
    assert!(header_of(&first).dependencies.is_empty());
    assert_eq!(
        header_of(&second).dependencies,
        vec![first.get_header_signature().to_string()]
    );
    assert_eq!(
        header_of(&third).dependencies,
        vec![second.get_header_signature().to_string()]
    );
    for transaction in [&first, &second, &third] {
        assert!(transaction.validate().is_ok());
    }
}

#[test]
fn tampered_payload_fails_validation() {
    let key = PrivateKey::generate_random_key();
    let mut transaction = TransactionBuilder::new()
        .with_payload(create_payload(FileId::from_u128(5)))
        .build(&key)
        .unwrap();
    transaction.payload[0] ^= 0x01;
    let error = transaction.validate().unwrap_err();
    assert_eq!(error.cause(), ValidationFault::PayloadHashMismatch);
    assert_eq!(error.message(), "payload hash does not match header");
    assert_eq!(
        error.to_string(),
        "ValidateTransactionError: payload hash does not match header"
    );
}

#[test]
fn tampered_header_fails_validation() {
    let key = PrivateKey::generate_random_key();
    let built = TransactionBuilder::new()
        .with_payload(create_payload(FileId::from_u128(5)))
        .build(&key)
        .unwrap();
    let mut header = header_of(&built);
    header.family_version = "0.2".to_string();
    let forged = Transaction {
        header: header.encode(),
        header_signature: built.header_signature.clone(),
        payload: built.payload.clone(),
    };
    let error = forged.validate().unwrap_err();
    assert_eq!(error.cause(), ValidationFault::SignatureInvalid);
    assert_eq!(
        error.to_string(),
        "ValidateTransactionError: Transaction signature is invalid"
    );
}

#[test]
fn validation_names_the_first_fault() {
    let key = PrivateKey::generate_random_key();
    let built = TransactionBuilder::new()
        .with_payload(create_payload(FileId::from_u128(5)))
        .build(&key)
        .unwrap();

    let unreadable = Transaction {
        header: vec![0x0a, 0x05, 0x01],
        header_signature: built.header_signature.clone(),
        payload: built.payload.clone(),
    };
    let error = unreadable.validate().unwrap_err();
    assert_eq!(error.cause(), ValidationFault::HeaderUnreadable);
    assert_eq!(
        error.to_string(),
        "ValidateTransactionError: Transaction header could not be parsed"
    );

    let mut header = header_of(&built);
    header.signer_public_key = "not hexadecimal".to_string();
    let no_key = Transaction {
        header: header.encode(),
        header_signature: built.header_signature.clone(),
        payload: built.payload.clone(),
    };
    let error = no_key.validate().unwrap_err();
    assert_eq!(error.cause(), ValidationFault::SignerKeyUnreadable);
    assert_eq!(
        error.to_string(),
        "ValidateTransactionError: Transaction signer public key could not be loaded"
    );

    let no_signature = Transaction {
        header: built.header.clone(),
        header_signature: "xyz".to_string(),
        payload: built.payload.clone(),
    };
    let error = no_signature.validate().unwrap_err();
    assert_eq!(error.cause(), ValidationFault::SignatureUnreadable);
    assert_eq!(
        error.to_string(),
        "ValidateTransactionError: Error loading Transaction signature: invalid hexadecimal text"
    );

    let short_signature = Transaction {
        header: built.header.clone(),
        header_signature: "abcd".to_string(),
        payload: built.payload.clone(),
    };
    let error = short_signature.validate().unwrap_err();
    assert_eq!(error.cause(), ValidationFault::VerificationFailed);
    assert!(error
        .to_string()
        .starts_with("ValidateTransactionError: Error during signature verification: "));
}

#[test]
fn header_bytes_match_the_protobuf_crate() {
    let header = TransactionHeader {
        batcher_public_key: "02aa".to_string(),
        dependencies: vec!["d1".to_string(), "d2".to_string()],
        family_name: "tfslite".to_string(),
        family_version: "0.1".to_string(),
        inputs: vec!["abcdef".to_string()],
        nonce: "00ff".to_string(),
        outputs: vec!["abcdef".to_string()],
        payload_sha512: "1234".to_string(),
        signer_public_key: "03bb".to_string(),
    };
    let mut expected = Vec::new();
    {
        let mut stream = CodedOutputStream::vec(&mut expected);
        stream.write_string(1, "02aa").unwrap();
        stream.write_string(2, "d1").unwrap();
        stream.write_string(2, "d2").unwrap();
        stream.write_string(3, "tfslite").unwrap();
        stream.write_string(4, "0.1").unwrap();
        stream.write_string(5, "abcdef").unwrap();
        stream.write_string(6, "00ff").unwrap();
        stream.write_string(7, "abcdef").unwrap();
        stream.write_string(9, "1234").unwrap();
        stream.write_string(10, "03bb").unwrap();
        stream.flush().unwrap();
    }
    assert_eq!(header.encode(), expected);
}

#[test]
fn transaction_bytes_match_the_protobuf_crate() {
    let transaction = Transaction {
        header: vec![1, 2, 3],
        header_signature: "abcd".to_string(),
        payload: vec![9; 200],
    };
    let mut expected = Vec::new();
    {
        let mut stream = CodedOutputStream::vec(&mut expected);
        stream.write_bytes(1, &[1, 2, 3]).unwrap();
        stream.write_string(2, "abcd").unwrap();
        stream.write_bytes(3, &[9; 200]).unwrap();
        stream.flush().unwrap();
    }
    assert_eq!(transaction.encode(), expected);
}

#[test]
fn header_round_trips_through_its_bytes() {
    let header = TransactionHeader {
        batcher_public_key: "02aa".to_string(),
        dependencies: vec!["d1".to_string(), String::new(), "d\u{fc}".to_string()],
        family_name: "tfslite".to_string(),
        family_version: String::new(),
        inputs: vec![],
        nonce: "00ff".to_string(),
        outputs: vec!["abcdef".to_string()],
        payload_sha512: "1234".to_string(),
        signer_public_key: "03bb".to_string(),
    };
    let back = TransactionHeader::decode(&header.encode()).unwrap();
    assert_eq!(back.batcher_public_key, header.batcher_public_key);
    assert_eq!(back.dependencies, header.dependencies);
    assert_eq!(back.family_name, header.family_name);
    assert_eq!(back.family_version, header.family_version);
    assert_eq!(back.inputs, header.inputs);
    assert_eq!(back.nonce, header.nonce);
    assert_eq!(back.outputs, header.outputs);
    assert_eq!(back.payload_sha512, header.payload_sha512);
    assert_eq!(back.signer_public_key, header.signer_public_key);
    assert!(TransactionHeader::decode(&[0x0a, 0x01, 0xff]).is_none());
    assert!(TransactionHeader::decode(&[0x12, 0x01, 0xff]).is_none());
}

#[test]
fn transaction_round_trips_through_its_bytes() {
    let key = PrivateKey::generate_random_key();
    let built = TransactionBuilder::new()
        .with_payload(create_payload(FileId::from_u128(5)))
        .build(&key)
        .unwrap();
    let back = Transaction::decode(&built.encode()).unwrap();
    assert_eq!(back.header, built.header);
    assert_eq!(back.header_signature, built.header_signature);
    assert_eq!(back.payload, built.payload);
    assert!(back.validate().is_ok());
    let empty = Transaction::decode(&[]).unwrap();
    assert!(empty.header.is_empty() && empty.header_signature.is_empty());
    assert!(Transaction::decode(&[0x12, 0x01, 0x80]).is_none());
}

#[test]
fn batch_lists_its_transactions_under_the_batcher() {
    let key = PrivateKey::generate_random_key();
    let batcher = PrivateKey::generate_random_key();
    let transactions: Vec<Transaction> = (0..3u128)
        .map(|n| {
            TransactionBuilder::new()
                .with_payload(create_payload(FileId::from_u128(n)))
                .build(&key)
                .unwrap()
        })
        .collect();
    let ids: Vec<String> = transactions
        .iter()
        .map(|t| t.get_header_signature().to_string())
        .collect();
    let batch = BatchBuilder::new()
        .with_transactions(transactions)
        .build(&batcher)
        .unwrap();
    let header = BatchHeader::decode(&batch.header).unwrap();
    assert_eq!(header.signer_public_key, batcher.public_key().unwrap().as_hex());
    assert_eq!(header.transaction_ids, ids);
    assert_eq!(batch.transactions.len(), 3);
    assert_eq!(batch.transactions[1].header_signature, ids[1]);
    assert_eq!(batch.header_signature.len(), 128);
    assert_eq!(
        batch.header_signature,
        batcher.sign(&batch.header).unwrap().as_hex()
    );
}

#[test]
fn batch_without_transactions_is_refused() {
    let key = PrivateKey::generate_random_key();
    let error = BatchBuilder::new().build(&key).unwrap_err();
    assert!(
        matches!(&error, BatchBuildError::MissingField(text) if text == "Field 'transactions' is required")
    );
    assert_eq!(
        error.to_string(),
        "MissingField: Field 'transactions' is required"
    );
    let refused = BatchBuilder::new()
        .with_transactions(vec![])
        .build(&PrivateKey::load_from_bytes(&[0u8; 32]))
        .unwrap_err();
    assert!(matches!(refused, BatchBuildError::SigningError(_)));
}

#[test]
fn batch_header_matches_the_protobuf_crate() {
    let header = BatchHeader {
        signer_public_key: "02aa".to_string(),
        transaction_ids: vec!["t1".to_string(), "t2".to_string()],
    };
    let mut expected = Vec::new();
    {
        let mut stream = CodedOutputStream::vec(&mut expected);
        stream.write_string(1, "02aa").unwrap();
        stream.write_string(2, "t1").unwrap();
        stream.write_string(2, "t2").unwrap();
        stream.flush().unwrap();
    }
    assert_eq!(header.encode(), expected);
    let back = BatchHeader::decode(&expected).unwrap();
    assert_eq!(back.signer_public_key, "02aa");
    assert_eq!(back.transaction_ids, header.transaction_ids);
}
