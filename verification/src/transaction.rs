//! Signed transactions: the header that describes a payload, the builder that fills and signs it,
//! and the check that a recipient makes.

use crate::common::{get_tfslite_prefix, tfslite_prefix, FAMILY_NAME, FAMILY_VERSION};
use crate::digest::{sha512_digest, sha512_hex};
use crate::fields::{
    all_bytes, bytes_at, bytes_piece, lemma_after_bytes_piece, lemma_after_repeated_piece,
    lemma_utf8_each_round_trip, read_bytes_at, read_text_at, read_texts_at, repeated_piece,
    text_at, text_views, texts_at, utf8_each, Writer,
};
use crate::hex_codec::{encode, hex_decode, hex_encode, lemma_hex_round_trip};
use crate::keys::{
    secp256k1_public_key, secp256k1_signature, secp256k1_verification, PrivateKey, PublicKey,
    Signature, Signer, SigningError, Verifier,
};
use crate::payload::{parse_payload, payload_wire, Payload, PayloadView};
use crate::wire::{
    decode_fields, encode_fields, lemma_fields_round_trip, parse_fields, valid_fields, WireField,
};
use vstd::prelude::*;
use vstd::string::*;
use vstd::utf8::*;

verus! {

/// The number of random bytes in a nonce that the builder makes.
pub const NONCE_LENGTH: usize = 32;

/// `Rng::fill` of the rand crate, on the generator of the calling thread: as many bytes as asked
/// for, each as the generator gives it. Nothing is claimed of the bytes but their number. The
/// call does not return where the system gives the generator no seed.
#[verifier::external_body]
fn random_bytes(count: usize) -> (bytes: Vec<u8>)
    ensures
        bytes@.len() == count,
{
    let mut bytes = vec![0u8; count];
    rand::Rng::fill(&mut rand::thread_rng(), &mut bytes[..]);
    bytes
}

/// What a transaction header holds, as mathematical values.
pub struct TransactionHeaderView {
    pub batcher_public_key: Seq<char>,
    pub dependencies: Seq<Seq<char>>,
    pub family_name: Seq<char>,
    pub family_version: Seq<char>,
    pub inputs: Seq<Seq<char>>,
    pub nonce: Seq<char>,
    pub outputs: Seq<Seq<char>>,
    pub payload_sha512: Seq<char>,
    pub signer_public_key: Seq<char>,
}

/// Whether the UTF-8 bytes of each text fit 64 bits in length.
pub open spec fn texts_fit(texts: Seq<Seq<char>>) -> bool {
    forall|i: int| 0 <= i < texts.len() ==> (#[trigger] utf8_each(texts)[i]).len() <= u64::MAX
}

impl TransactionHeaderView {
    /// Every length fits 64 bits, so that the header can be written.
    pub open spec fn fits(self) -> bool {
        &&& encode_utf8(self.batcher_public_key).len() <= u64::MAX
        &&& texts_fit(self.dependencies)
        &&& encode_utf8(self.family_name).len() <= u64::MAX
        &&& encode_utf8(self.family_version).len() <= u64::MAX
        &&& texts_fit(self.inputs)
        &&& encode_utf8(self.nonce).len() <= u64::MAX
        &&& texts_fit(self.outputs)
        &&& encode_utf8(self.payload_sha512).len() <= u64::MAX
        &&& encode_utf8(self.signer_public_key).len() <= u64::MAX
    }
}

/// What a transaction says of itself: who signed it, who may batch it, what it depends on, and
/// the digest of its payload.
#[derive(Debug)]
pub struct TransactionHeader {
    pub batcher_public_key: String,
    pub dependencies: Vec<String>,
    pub family_name: String,
    pub family_version: String,
    pub inputs: Vec<String>,
    pub nonce: String,
    pub outputs: Vec<String>,
    pub payload_sha512: String,
    pub signer_public_key: String,
}

impl View for TransactionHeader {
    type V = TransactionHeaderView;

    open spec fn view(&self) -> TransactionHeaderView {
        TransactionHeaderView {
            batcher_public_key: self.batcher_public_key@,
            dependencies: text_views(self.dependencies@),
            family_name: self.family_name@,
            family_version: self.family_version@,
            inputs: text_views(self.inputs@),
            nonce: self.nonce@,
            outputs: text_views(self.outputs@),
            payload_sha512: self.payload_sha512@,
            signer_public_key: self.signer_public_key@,
        }
    }
}

/// The fields of a header, in the order in which they are written.
pub open spec fn header_fields(h: TransactionHeaderView) -> Seq<WireField> {
    Seq::<WireField>::empty() + bytes_piece(1, encode_utf8(h.batcher_public_key)) + repeated_piece(
        2,
        utf8_each(h.dependencies),
    ) + bytes_piece(3, encode_utf8(h.family_name)) + bytes_piece(4, encode_utf8(h.family_version))
        + repeated_piece(5, utf8_each(h.inputs)) + bytes_piece(6, encode_utf8(h.nonce))
        + repeated_piece(7, utf8_each(h.outputs)) + bytes_piece(9, encode_utf8(h.payload_sha512))
        + bytes_piece(10, encode_utf8(h.signer_public_key))
}

/// The bytes of a header: what is signed.
pub open spec fn header_wire(h: TransactionHeaderView) -> Seq<u8> {
    encode_fields(header_fields(h))
}

/// The header that a run of fields holds; `None` where some text is not UTF-8.
pub open spec fn header_of_fields(fields: Seq<WireField>) -> Option<TransactionHeaderView> {
    let batcher_public_key = text_at(fields, 1);
    let dependencies = texts_at(fields, 2);
    let family_name = text_at(fields, 3);
    let family_version = text_at(fields, 4);
    let inputs = texts_at(fields, 5);
    let nonce = text_at(fields, 6);
    let outputs = texts_at(fields, 7);
    let payload_sha512 = text_at(fields, 9);
    let signer_public_key = text_at(fields, 10);
    if batcher_public_key is Some && dependencies is Some && family_name is Some && family_version
        is Some && inputs is Some && nonce is Some && outputs is Some && payload_sha512 is Some
        && signer_public_key is Some {
        Some(
            TransactionHeaderView {
                batcher_public_key: batcher_public_key->0,
                dependencies: dependencies->0,
                family_name: family_name->0,
                family_version: family_version->0,
                inputs: inputs->0,
                nonce: nonce->0,
                outputs: outputs->0,
                payload_sha512: payload_sha512->0,
                signer_public_key: signer_public_key->0,
            },
        )
    } else {
        None
    }
}

/// The header that bytes hold; `None` where they are malformed or some text is not UTF-8.
pub open spec fn parse_header(bytes: Seq<u8>) -> Option<TransactionHeaderView> {
    match decode_fields(bytes) {
        Some(fields) => header_of_fields(fields),
        None => None,
    }
}

proof fn lemma_text_back(fields: Seq<WireField>, number: int, text: Seq<char>)
    requires
        bytes_at(fields, number) =~= encode_utf8(text),
    ensures
        text_at(fields, number) == Some(text),
{
    encode_utf8_valid_utf8(text);
    encode_utf8_decode_utf8(text);
}

proof fn lemma_texts_back(fields: Seq<WireField>, number: int, texts: Seq<Seq<char>>)
    requires
        all_bytes(fields, number) =~= utf8_each(texts),
    ensures
        texts_at(fields, number) == Some(texts),
{
    lemma_utf8_each_round_trip(texts);
}

/// Reading gives back a written header, field for field.
pub proof fn lemma_header_round_trip(h: TransactionHeaderView)
    requires
        h.fits(),
    ensures
        parse_header(header_wire(h)) == Some(h),
{
    let f0 = Seq::<WireField>::empty();
    let f1 = f0 + bytes_piece(1, encode_utf8(h.batcher_public_key));
    let f2 = f1 + repeated_piece(2, utf8_each(h.dependencies));
    let f3 = f2 + bytes_piece(3, encode_utf8(h.family_name));
    let f4 = f3 + bytes_piece(4, encode_utf8(h.family_version));
    let f5 = f4 + repeated_piece(5, utf8_each(h.inputs));
    let f6 = f5 + bytes_piece(6, encode_utf8(h.nonce));
    let f7 = f6 + repeated_piece(7, utf8_each(h.outputs));
    let f8 = f7 + bytes_piece(9, encode_utf8(h.payload_sha512));
    let f9 = f8 + bytes_piece(10, encode_utf8(h.signer_public_key));
    lemma_after_bytes_piece(f0, 1, encode_utf8(h.batcher_public_key));
    lemma_after_repeated_piece(f1, 2, utf8_each(h.dependencies));
    lemma_after_bytes_piece(f2, 3, encode_utf8(h.family_name));
    lemma_after_bytes_piece(f3, 4, encode_utf8(h.family_version));
    lemma_after_repeated_piece(f4, 5, utf8_each(h.inputs));
    lemma_after_bytes_piece(f5, 6, encode_utf8(h.nonce));
    lemma_after_repeated_piece(f6, 7, utf8_each(h.outputs));
    lemma_after_bytes_piece(f7, 9, encode_utf8(h.payload_sha512));
    lemma_after_bytes_piece(f8, 10, encode_utf8(h.signer_public_key));
    assert(valid_fields(f1));
    assert(valid_fields(f2));
    assert(valid_fields(f5));
    assert(valid_fields(f7));
    assert(valid_fields(f9));
    lemma_fields_round_trip(f9);
    lemma_text_back(f9, 1, h.batcher_public_key);
    assert(all_bytes(f9, 2) =~= utf8_each(h.dependencies));
    lemma_texts_back(f9, 2, h.dependencies);
    lemma_text_back(f9, 3, h.family_name);
    lemma_text_back(f9, 4, h.family_version);
    assert(all_bytes(f9, 5) =~= utf8_each(h.inputs));
    lemma_texts_back(f9, 5, h.inputs);
    lemma_text_back(f9, 6, h.nonce);
    assert(all_bytes(f9, 7) =~= utf8_each(h.outputs));
    lemma_texts_back(f9, 7, h.outputs);
    lemma_text_back(f9, 9, h.payload_sha512);
    lemma_text_back(f9, 10, h.signer_public_key);
}

impl TransactionHeader {
    /// The bytes of the header. Reading them gives the header back.
    pub fn encode(&self) -> (bytes: Vec<u8>)
        ensures
            bytes@ == header_wire(self@),
            parse_header(bytes@) == Some(self@),
    {
        let mut writer = Writer::new();
        writer.put_text(1, self.batcher_public_key.as_str());
        writer.put_texts(2, &self.dependencies);
        writer.put_text(3, self.family_name.as_str());
        writer.put_text(4, self.family_version.as_str());
        writer.put_texts(5, &self.inputs);
        writer.put_text(6, self.nonce.as_str());
        writer.put_texts(7, &self.outputs);
        writer.put_text(9, self.payload_sha512.as_str());
        writer.put_text(10, self.signer_public_key.as_str());
        let bytes = writer.finish();
        proof {
            lemma_header_round_trip(self@);
        }
        bytes
    }

    /// Reads a header from its bytes.
    pub fn decode(bytes: &[u8]) -> (r: Option<TransactionHeader>)
        ensures
            match parse_header(bytes@) {
                Some(h) => r is Some && r->0@ == h,
                None => r is None,
            },
    {
        let fields = match parse_fields(bytes) {
            Some(fields) => fields,
            None => {
                return None;
            },
        };
        let batcher_public_key = match read_text_at(&fields, 1) {
            Some(text) => text,
            None => {
                return None;
            },
        };
        let dependencies = match read_texts_at(&fields, 2) {
            Some(texts) => texts,
            None => {
                return None;
            },
        };
        let family_name = match read_text_at(&fields, 3) {
            Some(text) => text,
            None => {
                return None;
            },
        };
        let family_version = match read_text_at(&fields, 4) {
            Some(text) => text,
            None => {
                return None;
            },
        };
        let inputs = match read_texts_at(&fields, 5) {
            Some(texts) => texts,
            None => {
                return None;
            },
        };
        let nonce = match read_text_at(&fields, 6) {
            Some(text) => text,
            None => {
                return None;
            },
        };
        let outputs = match read_texts_at(&fields, 7) {
            Some(texts) => texts,
            None => {
                return None;
            },
        };
        let payload_sha512 = match read_text_at(&fields, 9) {
            Some(text) => text,
            None => {
                return None;
            },
        };
        let signer_public_key = match read_text_at(&fields, 10) {
            Some(text) => text,
            None => {
                return None;
            },
        };
        Some(
            TransactionHeader {
                batcher_public_key,
                dependencies,
                family_name,
                family_version,
                inputs,
                nonce,
                outputs,
                payload_sha512,
                signer_public_key,
            },
        )
    }
}

/// What a transaction holds, as mathematical values.
pub struct TransactionView {
    pub header: Seq<u8>,
    pub header_signature: Seq<char>,
    pub payload: Seq<u8>,
}

impl TransactionView {
    /// Every length fits 64 bits, so that the transaction can be written.
    pub open spec fn fits(self) -> bool {
        &&& self.header.len() <= u64::MAX
        &&& encode_utf8(self.header_signature).len() <= u64::MAX
        &&& self.payload.len() <= u64::MAX
    }
}

/// A transaction: the bytes of its header, the signature over those bytes in hexadecimal digits,
/// which is also the transaction's identity, and the bytes of its payload.
#[derive(Debug)]
pub struct Transaction {
    pub header: Vec<u8>,
    pub header_signature: String,
    pub payload: Vec<u8>,
}

impl View for Transaction {
    type V = TransactionView;

    open spec fn view(&self) -> TransactionView {
        TransactionView {
            header: self.header@,
            header_signature: self.header_signature@,
            payload: self.payload@,
        }
    }
}

/// The fields of a transaction, in the order in which they are written.
pub open spec fn transaction_fields(t: TransactionView) -> Seq<WireField> {
    Seq::<WireField>::empty() + bytes_piece(1, t.header) + bytes_piece(
        2,
        encode_utf8(t.header_signature),
    ) + bytes_piece(3, t.payload)
}

/// The bytes of a transaction: what is stored and submitted.
pub open spec fn transaction_wire(t: TransactionView) -> Seq<u8> {
    encode_fields(transaction_fields(t))
}

/// The transaction that a run of fields holds; `None` where the signature is not UTF-8.
pub open spec fn transaction_of_fields(fields: Seq<WireField>) -> Option<TransactionView> {
    match text_at(fields, 2) {
        Some(signature) => Some(
            TransactionView {
                header: bytes_at(fields, 1),
                header_signature: signature,
                payload: bytes_at(fields, 3),
            },
        ),
        None => None,
    }
}

/// The transaction that bytes hold; `None` where they are malformed.
pub open spec fn parse_transaction(bytes: Seq<u8>) -> Option<TransactionView> {
    match decode_fields(bytes) {
        Some(fields) => transaction_of_fields(fields),
        None => None,
    }
}

/// Reading gives back a written transaction, field for field.
pub proof fn lemma_transaction_round_trip(t: TransactionView)
    requires
        t.fits(),
    ensures
        parse_transaction(transaction_wire(t)) == Some(t),
{
    let f0 = Seq::<WireField>::empty();
    let f1 = f0 + bytes_piece(1, t.header);
    let f2 = f1 + bytes_piece(2, encode_utf8(t.header_signature));
    let f3 = f2 + bytes_piece(3, t.payload);
    lemma_after_bytes_piece(f0, 1, t.header);
    lemma_after_bytes_piece(f1, 2, encode_utf8(t.header_signature));
    lemma_after_bytes_piece(f2, 3, t.payload);
    lemma_fields_round_trip(f3);
    lemma_text_back(f3, 2, t.header_signature);
    assert(bytes_at(f3, 1) =~= t.header);
    assert(bytes_at(f3, 3) =~= t.payload);
}

impl Transaction {
    /// The bytes of the transaction. Reading them gives the transaction back.
    pub fn encode(&self) -> (bytes: Vec<u8>)
        ensures
            bytes@ == transaction_wire(self@),
            parse_transaction(bytes@) == Some(self@),
    {
        let mut writer = Writer::new();
        writer.put_bytes(1, self.header.as_slice());
        writer.put_text(2, self.header_signature.as_str());
        writer.put_bytes(3, self.payload.as_slice());
        let bytes = writer.finish();
        proof {
            lemma_transaction_round_trip(self@);
        }
        bytes
    }

    /// Reads a transaction from its bytes.
    pub fn decode(bytes: &[u8]) -> (r: Option<Transaction>)
        ensures
            match parse_transaction(bytes@) {
                Some(t) => r is Some && r->0@ == t,
                None => r is None,
            },
    {
        let fields = match parse_fields(bytes) {
            Some(fields) => fields,
            None => {
                return None;
            },
        };
        match read_text_at(&fields, 2) {
            Some(header_signature) => Some(
                Transaction {
                    header: read_bytes_at(&fields, 1),
                    header_signature,
                    payload: read_bytes_at(&fields, 3),
                },
            ),
            None => None,
        }
    }

    /// The bytes of the header.
    pub fn get_header(&self) -> (header: &[u8])
        ensures
            header@ == self@.header,
    {
        self.header.as_slice()
    }

    /// The signature over the header, which is the identity of the transaction.
    pub fn get_header_signature(&self) -> (signature: &str)
        ensures
            signature@ == self@.header_signature,
    {
        self.header_signature.as_str()
    }

    /// The bytes of the payload.
    pub fn get_payload(&self) -> (payload: &[u8])
        ensures
            payload@ == self@.payload,
    {
        self.payload.as_slice()
    }
}

/// Why a transaction could not be built.
#[derive(Debug)]
pub enum TransactionBuildError {
    SerializationError(String),
    MissingField(String),
    SigningError(String),
}

/// Why a transaction could not be built, as mathematical values.
pub enum BuildFailure {
    SerializationError(Seq<char>),
    MissingField(Seq<char>),
    SigningError(Seq<char>),
}

impl View for TransactionBuildError {
    type V = BuildFailure;

    open spec fn view(&self) -> BuildFailure {
        match self {
            TransactionBuildError::SerializationError(s) => BuildFailure::SerializationError(s@),
            TransactionBuildError::MissingField(s) => BuildFailure::MissingField(s@),
            TransactionBuildError::SigningError(s) => BuildFailure::SigningError(s@),
        }
    }
}

impl TransactionBuildError {
    /// The kind of the error and its reason, in words.
    pub open spec fn text(self) -> Seq<char> {
        match self {
            TransactionBuildError::SerializationError(s) => "SerializationError: "@ + s@,
            TransactionBuildError::MissingField(s) => "MissingField: "@ + s@,
            TransactionBuildError::SigningError(s) => "SigningError: "@ + s@,
        }
    }

    /// The kind of the error and its reason, in words.
    pub fn to_string(&self) -> (text: String)
        ensures
            text@ == self.text(),
    {
        match self {
            TransactionBuildError::SerializationError(s) => {
                let mut text = String::from_str("SerializationError: ");
                text.append(s.as_str());
                text
            },
            TransactionBuildError::MissingField(s) => {
                let mut text = String::from_str("MissingField: ");
                text.append(s.as_str());
                text
            },
            TransactionBuildError::SigningError(s) => {
                let mut text = String::from_str("SigningError: ");
                text.append(s.as_str());
                text
            },
        }
    }

    /// The error that stands for a failure to sign, with the same reason.
    pub fn from_signing_error(value: SigningError) -> (e: TransactionBuildError)
        ensures
            e matches TransactionBuildError::SigningError(s) && s@ == value.text(),
    {
        TransactionBuildError::SigningError(value.to_string())
    }
}

/// What a builder has been given so far, as mathematical values.
pub struct TransactionBuilderView {
    pub batcher_public_key: Option<Seq<u8>>,
    pub dependencies: Option<Seq<Seq<char>>>,
    pub family_name: Option<Seq<char>>,
    pub family_version: Option<Seq<char>>,
    pub nonce: Option<Seq<u8>>,
    pub payload: Option<PayloadView>,
}

/// The reason given when the family name is missing.
pub open spec fn missing_family_name() -> Seq<char> {
    "Field 'family_name' is required"@
}

/// The reason given when the family version is missing.
pub open spec fn missing_family_version() -> Seq<char> {
    "Field 'family_version' is required"@
}

/// The reason given when the payload is missing.
pub open spec fn missing_payload() -> Seq<char> {
    "Field 'payload' is required"@
}

/// The header of the transaction that a builder makes for a signer with the given public key,
/// where `random` is the nonce to use if the builder was given none; or the reason why a field
/// is missing.
pub open spec fn header_outcome(
    b: TransactionBuilderView,
    signer_key: Seq<u8>,
    random: Seq<u8>,
) -> Result<TransactionHeaderView, Seq<char>> {
    if b.family_name is None {
        Err(missing_family_name())
    } else if b.family_version is None {
        Err(missing_family_version())
    } else if b.payload is None {
        Err(missing_payload())
    } else {
        Ok(
            TransactionHeaderView {
                batcher_public_key: hex_encode(
                    match b.batcher_public_key {
                        Some(key) => key,
                        None => signer_key,
                    },
                ),
                dependencies: match b.dependencies {
                    Some(dependencies) => dependencies,
                    None => Seq::empty(),
                },
                family_name: b.family_name->0,
                family_version: b.family_version->0,
                inputs: seq![tfslite_prefix()],
                nonce: hex_encode(
                    match b.nonce {
                        Some(nonce) => nonce,
                        None => random,
                    },
                ),
                outputs: seq![tfslite_prefix()],
                payload_sha512: hex_encode(sha512_digest(payload_wire(b.payload->0))),
                signer_public_key: hex_encode(signer_key),
            },
        )
    }
}

/// A transaction that is complete but for its signature.
#[derive(Debug)]
pub struct UnsignedTransaction {
    pub header: TransactionHeader,
    pub header_bytes: Vec<u8>,
    pub payload_bytes: Vec<u8>,
}

impl UnsignedTransaction {
    /// The bytes are those of the header; they read back as the header.
    pub open spec fn wf(self) -> bool {
        &&& self.header_bytes@ == header_wire(self.header@)
        &&& parse_header(self.header_bytes@) == Some(self.header@)
    }

    /// Attaches the signature over the header bytes.
    pub fn finish(self, signature: &Signature) -> (tx: Transaction)
        ensures
            tx@ == (TransactionView {
                header: self.header_bytes@,
                header_signature: hex_encode(signature@),
                payload: self.payload_bytes@,
            }),
    {
        Transaction {
            header: self.header_bytes,
            header_signature: signature.as_hex(),
            payload: self.payload_bytes,
        }
    }
}

/// Whether `tx` is a transaction that the builder `b` can have made: its payload is the
/// builder's, and its header is the one that the builder makes for some signer's public key and,
/// where the builder was given no nonce, some nonce of thirty-two bytes.
pub open spec fn built_from(b: TransactionBuilderView, tx: TransactionView) -> bool {
    exists|signer_key: Seq<u8>, random: Seq<u8>|
        {
            &&& random.len() == NONCE_LENGTH
            &&& (#[trigger] header_outcome(b, signer_key, random)) matches Ok(h)
            &&& tx.header == header_wire(h)
            &&& parse_header(tx.header) == Some(h)
            &&& tx.payload == payload_wire(b.payload->0)
            &&& parse_payload(tx.payload) == b.payload
        }
}

/// In every transaction that a builder makes, the header reads back, names the digest of the
/// payload that travels with it, and lists the dependencies that the builder was given.
pub proof fn lemma_built_header(b: TransactionBuilderView, tx: TransactionView)
    requires
        built_from(b, tx),
    ensures
        parse_header(tx.header) matches Some(h) && h.payload_sha512 == hex_encode(
            sha512_digest(tx.payload),
        ) && h.dependencies == (match b.dependencies {
            Some(dependencies) => dependencies,
            None => Seq::empty(),
        }) && h.inputs == seq![tfslite_prefix()] && h.outputs == seq![tfslite_prefix()]
            && h.family_name == b.family_name->0 && h.family_version == b.family_version->0 && (
        b.batcher_public_key matches Some(key) ==> h.batcher_public_key == hex_encode(key)) && (
        b.batcher_public_key is None ==> h.batcher_public_key == h.signer_public_key) && (
        b.nonce matches Some(nonce) ==> h.nonce == hex_encode(nonce)),
        parse_payload(tx.payload) == b.payload,
        b.payload is Some,
{
    let (signer_key, random) = choose|signer_key: Seq<u8>, random: Seq<u8>|
        {
            &&& random.len() == NONCE_LENGTH
            &&& (#[trigger] header_outcome(b, signer_key, random)) matches Ok(h)
            &&& tx.header == header_wire(h)
            &&& parse_header(tx.header) == Some(h)
            &&& tx.payload == payload_wire(b.payload->0)
            &&& parse_payload(tx.payload) == b.payload
        };
    assert(header_outcome(b, signer_key, random) is Ok);
}

/// What building gives for the answers of the signer: the failure to tell the key, else a
/// missing field, else the failure to sign, else the transaction made of the header bytes, the
/// signature in hexadecimal digits and the payload bytes.
pub open spec fn signed_outcome(
    b: TransactionBuilderView,
    random: Seq<u8>,
    key_answer: Result<PublicKey, SigningError>,
    sign_answer: Result<Signature, SigningError>,
) -> Result<TransactionView, BuildFailure> {
    match key_answer {
        Err(e) => Err(BuildFailure::SigningError(e.text())),
        Ok(key) => match header_outcome(b, key@, random) {
            Err(reason) => Err(BuildFailure::MissingField(reason)),
            Ok(h) => match sign_answer {
                Err(e) => Err(BuildFailure::SigningError("Unable to sign tx: "@ + e.text())),
                Ok(signature) => Ok(
                    TransactionView {
                        header: header_wire(h),
                        header_signature: hex_encode(signature@),
                        payload: payload_wire(b.payload->0),
                    },
                ),
            },
        },
    }
}

/// A result of building, by its views.
pub open spec fn build_view(r: Result<Transaction, TransactionBuildError>) -> Result<
    TransactionView,
    BuildFailure,
> {
    match r {
        Ok(tx) => Ok(tx@),
        Err(e) => Err(e@),
    }
}

/// Whether `r` is what building gives with this signer: the signer was asked for its key, then,
/// if the key came and no field was missing, for a signature over the bytes of the header, and
/// `r` is what follows from its answers. Where the builder was given no nonce, the nonce is some
/// thirty-two bytes. The bytes of the header and of the payload read back as what was written.
pub open spec fn built_by<S: Signer + ?Sized>(
    signer: &S,
    b: TransactionBuilderView,
    r: Result<Transaction, TransactionBuildError>,
) -> bool {
    exists|
        random: Seq<u8>,
        key_answer: Result<PublicKey, SigningError>,
        sign_answer: Result<Signature, SigningError>,
    |
        {
            &&& b.nonce is None ==> random.len() == NONCE_LENGTH
            &&& signer.may_tell_key(key_answer)
            &&& key_answer matches Ok(key) ==> (header_outcome(b, key@, random) matches Ok(h)
                ==> signer.may_sign(header_wire(h), sign_answer) && parse_header(header_wire(h))
                == Some(h) && parse_payload(payload_wire(b.payload->0)) == b.payload)
            &&& #[trigger] signed_outcome(b, random, key_answer, sign_answer) == build_view(r)
        }
}

/// Collects what a transaction needs and, on `build`, fills the header, has it signed and
/// attaches the payload.
#[derive(Debug)]
pub struct TransactionBuilder {
    batcher_public_key: Option<Vec<u8>>,
    dependencies: Option<Vec<String>>,
    family_name: Option<String>,
    family_version: Option<String>,
    nonce: Option<Vec<u8>>,
    payload: Option<Payload>,
}

impl View for TransactionBuilder {
    type V = TransactionBuilderView;

    closed spec fn view(&self) -> TransactionBuilderView {
        TransactionBuilderView {
            batcher_public_key: match self.batcher_public_key {
                Some(key) => Some(key@),
                None => None,
            },
            dependencies: match self.dependencies {
                Some(dependencies) => Some(text_views(dependencies@)),
                None => None,
            },
            family_name: match self.family_name {
                Some(name) => Some(name@),
                None => None,
            },
            family_version: match self.family_version {
                Some(version) => Some(version@),
                None => None,
            },
            nonce: match self.nonce {
                Some(nonce) => Some(nonce@),
                None => None,
            },
            payload: match self.payload {
                Some(payload) => Some(payload@),
                None => None,
            },
        }
    }
}

impl Default for TransactionBuilder {
    /// A builder for the family of this crate, with nothing else given.
    fn default() -> (builder: TransactionBuilder)
        ensures
            builder@ == (TransactionBuilderView {
                batcher_public_key: None,
                dependencies: None,
                family_name: Some(FAMILY_NAME@),
                family_version: Some(FAMILY_VERSION@),
                nonce: None,
                payload: None,
            }),
    {
        TransactionBuilder {
            batcher_public_key: None,
            dependencies: None,
            family_name: Some(String::from_str(FAMILY_NAME)),
            family_version: Some(String::from_str(FAMILY_VERSION)),
            nonce: None,
            payload: None,
        }
    }
}

fn missing(reason: &str) -> (e: TransactionBuildError)
    ensures
        e matches TransactionBuildError::MissingField(text) && text@ == reason@,
{
    TransactionBuildError::MissingField(String::from_str(reason))
}

impl TransactionBuilder {
    /// A builder for the family of this crate, with nothing else given.
    pub fn new() -> (builder: TransactionBuilder)
        ensures
            builder@ == (TransactionBuilderView {
                batcher_public_key: None,
                dependencies: None,
                family_name: Some(FAMILY_NAME@),
                family_version: Some(FAMILY_VERSION@),
                nonce: None,
                payload: None,
            }),
    {
        TransactionBuilder {
            batcher_public_key: None,
            dependencies: None,
            family_name: Some(String::from_str(FAMILY_NAME)),
            family_version: Some(String::from_str(FAMILY_VERSION)),
            nonce: None,
            payload: None,
        }
    }

    /// Names the key that may batch the transaction, in place of the signer's own.
    pub fn with_batcher_public_key(self, batcher_public_key: Vec<u8>) -> (builder:
        TransactionBuilder)
        ensures
            builder@ == (TransactionBuilderView {
                batcher_public_key: Some(batcher_public_key@),
                ..self@
            }),
    {
        let mut builder = self;
        builder.batcher_public_key = Some(batcher_public_key);
        builder
    }

    /// Lists the transactions that must be applied before this one.
    pub fn with_dependencies(self, dependencies: Vec<String>) -> (builder: TransactionBuilder)
        ensures
            builder@ == (TransactionBuilderView {
                dependencies: Some(text_views(dependencies@)),
                ..self@
            }),
    {
        let mut builder = self;
        builder.dependencies = Some(dependencies);
        builder
    }

    /// Names another transaction family.
    pub fn with_family_name(self, family_name: String) -> (builder: TransactionBuilder)
        ensures
            builder@ == (TransactionBuilderView { family_name: Some(family_name@), ..self@ }),
    {
        let mut builder = self;
        builder.family_name = Some(family_name);
        builder
    }

    /// Names another version of the transaction family.
    pub fn with_family_version(self, family_version: String) -> (builder: TransactionBuilder)
        ensures
            builder@ == (TransactionBuilderView {
                family_version: Some(family_version@),
                ..self@
            }),
    {
        let mut builder = self;
        builder.family_version = Some(family_version);
        builder
    }

    /// Gives the nonce, in place of a random one.
    pub fn with_nonce(self, nonce: Vec<u8>) -> (builder: TransactionBuilder)
        ensures
            builder@ == (TransactionBuilderView { nonce: Some(nonce@), ..self@ }),
    {
        let mut builder = self;
        builder.nonce = Some(nonce);
        builder
    }

    /// Gives the payload.
    pub fn with_payload(self, payload: Payload) -> (builder: TransactionBuilder)
        ensures
            builder@ == (TransactionBuilderView { payload: Some(payload@), ..self@ }),
    {
        let mut builder = self;
        builder.payload = Some(payload);
        builder
    }

    /// Fills the header for a signer whose public key is known, and encodes header and payload.
    /// `random` is the nonce to use if the builder was given none.
    pub fn prepare(self, signer_public_key: &PublicKey, random: Vec<u8>) -> (r: Result<
        UnsignedTransaction,
        TransactionBuildError,
    >)
        ensures
            match header_outcome(self@, signer_public_key@, random@) {
                Ok(h) => r matches Ok(unsigned) && unsigned.header@ == h && unsigned.wf()
                    && unsigned.payload_bytes@ == payload_wire(self@.payload->0) && parse_payload(
                    unsigned.payload_bytes@,
                ) == self@.payload && h.payload_sha512.len() == 128,
                Err(reason) => r matches Err(TransactionBuildError::MissingField(text)) && text@
                    == reason,
            },
    {
        let signer_hex = signer_public_key.as_hex();
        let batcher_hex = match &self.batcher_public_key {
            Some(key) => encode(key.as_slice()),
            None => signer_public_key.as_hex(),
        };
        let dependencies = match self.dependencies {
            Some(dependencies) => dependencies,
            None => Vec::new(),
        };
        let family_name = match self.family_name {
            Some(name) => name,
            None => {
                return Err(missing("Field 'family_name' is required"));
            },
        };
        let family_version = match self.family_version {
            Some(version) => version,
            None => {
                return Err(missing("Field 'family_version' is required"));
            },
        };
        let mut inputs: Vec<String> = Vec::new();
        inputs.push(get_tfslite_prefix());
        let mut outputs: Vec<String> = Vec::new();
        outputs.push(get_tfslite_prefix());
        let nonce = match self.nonce {
            Some(nonce) => nonce,
            None => random,
        };
        let payload = match self.payload {
            Some(payload) => payload,
            None => {
                return Err(missing("Field 'payload' is required"));
            },
        };
        let payload_bytes = payload.encode();
        let header = TransactionHeader {
            batcher_public_key: batcher_hex,
            dependencies,
            family_name,
            family_version,
            inputs,
            nonce: encode(nonce.as_slice()),
            outputs,
            payload_sha512: sha512_hex(payload_bytes.as_slice()),
            signer_public_key: signer_hex,
        };
        proof {
            assert(text_views(header.inputs@) =~= seq![tfslite_prefix()]);
            assert(text_views(header.outputs@) =~= seq![tfslite_prefix()]);
            assert(text_views(Seq::<String>::empty()) =~= Seq::<Seq<char>>::empty());
        }
        let header_bytes = header.encode();
        Ok(UnsignedTransaction { header, header_bytes, payload_bytes })
    }

    /// Builds the transaction: asks the signer for its public key, fills the header, asks the
    /// signer for a signature over the header bytes, and attaches it.
    ///
    /// The result is the one that follows from the signer's answers. In particular a transaction
    /// that comes back is one that this builder can have made, and a missing field is reported
    /// unless the signer failed first.
    pub fn build<S: Signer + ?Sized>(self, signer: &S) -> (r: Result<
        Transaction,
        TransactionBuildError,
    >)
        ensures
            built_by(signer, self@, r),
            r matches Ok(tx) ==> built_from(self@, tx@),
            r matches Ok(tx) ==> parse_header(tx@.header) matches Some(h)
                && h.payload_sha512.len() == 128 && (self@.nonce is None ==> h.nonce.len() == 2
                * NONCE_LENGTH),
            r matches Err(TransactionBuildError::MissingField(text)) ==> header_outcome(
                self@,
                Seq::empty(),
                Seq::empty(),
            ) == Err::<TransactionHeaderView, Seq<char>>(text@),
            !(r matches Err(TransactionBuildError::SerializationError(_))),
            header_outcome(self@, Seq::empty(), Seq::empty()) is Err ==> r is Err,
    {
        let ghost view = self@;
        let ghost unused = Seq::new(NONCE_LENGTH as nat, |i: int| 0u8);
        let key_answer = signer.public_key();
        let ghost key_seen = key_answer;
        let signer_public_key = match key_answer {
            Ok(key) => key,
            Err(e) => {
                let ghost failure = e;
                let r = Err(TransactionBuildError::from_signing_error(e));
                proof {
                    assert(signed_outcome(view, unused, key_seen, Err(failure)) == build_view(r));
                }
                return r;
            },
        };
        let random = if self.nonce.is_none() {
            random_bytes(NONCE_LENGTH)
        } else {
            Vec::new()
        };
        let ghost witness = if view.nonce is None {
            random@
        } else {
            unused
        };
        proof {
            assert(header_outcome(view, signer_public_key@, witness) == header_outcome(
                view,
                signer_public_key@,
                random@,
            ));
        }
        let unsigned = match self.prepare(&signer_public_key, random) {
            Ok(unsigned) => unsigned,
            Err(e) => {
                proof {
                    let idle: Result<Signature, SigningError> = Err(arbitrary());
                    assert(signed_outcome(view, witness, key_seen, idle) == build_view(Err(e)));
                }
                return Err(e);
            },
        };
        let sign_answer = signer.sign(unsigned.header_bytes.as_slice());
        let ghost sign_seen = sign_answer;
        let signature = match sign_answer {
            Ok(signature) => signature,
            Err(e) => {
                let mut text = String::from_str("Unable to sign tx: ");
                text.append(e.to_string().as_str());
                let r = Err(TransactionBuildError::SigningError(text));
                proof {
                    assert(signed_outcome(view, witness, key_seen, sign_seen) == build_view(r));
                }
                return r;
            },
        };
        let tx = unsigned.finish(&signature);
        proof {
            assert(header_outcome(view, signer_public_key@, witness) is Ok);
            assert(built_from(view, tx@));
            assert(signed_outcome(view, witness, key_seen, sign_seen) == build_view(Ok(tx)));
        }
        Ok(tx)
    }
}

/// What is wrong with a transaction that fails validation: the first of these that applies.
#[derive(Clone, Copy, Debug, PartialEq, Eq, Structural)]
pub enum ValidationFault {
    HeaderUnreadable,
    SignerKeyUnreadable,
    SignatureUnreadable,
    VerificationFailed,
    SignatureInvalid,
    PayloadHashMismatch,
}

/// The fault of a transaction, if it has one: the header must read, the signer's key and the
/// signature must be hexadecimal, the signature must verify over the header bytes, and the header
/// must name the digest of the payload.
pub open spec fn validation_fault(tx: TransactionView) -> Option<ValidationFault> {
    match parse_header(tx.header) {
        None => Some(ValidationFault::HeaderUnreadable),
        Some(h) => match hex_decode(h.signer_public_key) {
            None => Some(ValidationFault::SignerKeyUnreadable),
            Some(key) => match hex_decode(tx.header_signature) {
                None => Some(ValidationFault::SignatureUnreadable),
                Some(signature) => match secp256k1_verification(tx.header, signature, key) {
                    None => Some(ValidationFault::VerificationFailed),
                    Some(false) => Some(ValidationFault::SignatureInvalid),
                    Some(true) => if hex_encode(sha512_digest(tx.payload)) != h.payload_sha512 {
                        Some(ValidationFault::PayloadHashMismatch)
                    } else {
                        None
                    },
                },
            },
        },
    }
}

/// A transaction that a private key built has no fault: the header reads back, names the
/// signer's key and the digest of the payload, and carries the signature that the key made over
/// the header bytes, which verifies under the public key of the key.
pub proof fn lemma_built_with_key_validates(
    key: PrivateKey,
    b: TransactionBuilderView,
    tx: Transaction,
)
    requires
        built_by(&key, b, Ok(tx)),
    ensures
        validation_fault(tx@) is None,
        parse_header(tx@.header) matches Some(h) && h.payload_sha512 == hex_encode(
            sha512_digest(tx@.payload),
        ) && h.signer_public_key == hex_encode(secp256k1_public_key(key@)->0),
        tx@.header_signature == hex_encode(secp256k1_signature(key@, tx@.header)->0),
        secp256k1_verification(
            tx@.header,
            secp256k1_signature(key@, tx@.header)->0,
            secp256k1_public_key(key@)->0,
        ) == Some(true),
{
    let r: Result<Transaction, TransactionBuildError> = Ok(tx);
    let (random, key_answer, sign_answer) = choose|
        random: Seq<u8>,
        key_answer: Result<PublicKey, SigningError>,
        sign_answer: Result<Signature, SigningError>,
    |
        {
            &&& b.nonce is None ==> random.len() == NONCE_LENGTH
            &&& (&key).may_tell_key(key_answer)
            &&& key_answer matches Ok(k) ==> (header_outcome(b, k@, random) matches Ok(h) ==> (
            &key).may_sign(header_wire(h), sign_answer) && parse_header(header_wire(h)) == Some(h)
                && parse_payload(payload_wire(b.payload->0)) == b.payload)
            &&& #[trigger] signed_outcome(b, random, key_answer, sign_answer) == build_view(r)
        };
    assert(key_answer is Ok);
    let public_key = key_answer->Ok_0;
    assert(header_outcome(b, public_key@, random) is Ok);
    assert(sign_answer is Ok);
    let signature = sign_answer->Ok_0;
    lemma_hex_round_trip(public_key@);
    lemma_hex_round_trip(signature@);
}

/// With a private key that the curve accepts, building succeeds exactly where no field is
/// missing, and fails with the missing field otherwise.
pub proof fn lemma_accepted_key_builds(
    key: PrivateKey,
    b: TransactionBuilderView,
    r: Result<Transaction, TransactionBuildError>,
)
    requires
        built_by(&key, b, r),
        secp256k1_public_key(key@) is Some,
    ensures
        r is Ok <==> b.family_name is Some && b.family_version is Some && b.payload is Some,
        r matches Err(e) ==> e is MissingField,
{
    let (random, key_answer, sign_answer) = choose|
        random: Seq<u8>,
        key_answer: Result<PublicKey, SigningError>,
        sign_answer: Result<Signature, SigningError>,
    |
        {
            &&& b.nonce is None ==> random.len() == NONCE_LENGTH
            &&& (&key).may_tell_key(key_answer)
            &&& key_answer matches Ok(k) ==> (header_outcome(b, k@, random) matches Ok(h) ==> (
            &key).may_sign(header_wire(h), sign_answer) && parse_header(header_wire(h)) == Some(h)
                && parse_payload(payload_wire(b.payload->0)) == b.payload)
            &&& #[trigger] signed_outcome(b, random, key_answer, sign_answer) == build_view(r)
        };
    assert(key_answer is Ok);
}

/// A transaction failed validation.
#[derive(Debug)]
pub struct TransactionValidationError {
    fault: ValidationFault,
    message: String,
}

impl TransactionValidationError {
    /// What was wrong.
    pub closed spec fn fault(&self) -> ValidationFault {
        self.fault
    }

    /// What was wrong, in words.
    pub closed spec fn text(&self) -> Seq<char> {
        self.message@
    }

    /// What was wrong.
    pub fn cause(&self) -> (fault: ValidationFault)
        ensures
            fault == self.fault(),
    {
        self.fault
    }

    /// What was wrong, in words.
    pub fn message(&self) -> (text: String)
        ensures
            text@ == self.text(),
    {
        self.message.clone()
    }

    /// The kind of the error, followed by what was wrong, in words.
    pub fn to_string(&self) -> (text: String)
        ensures
            text@ == "ValidateTransactionError: "@ + self.text(),
    {
        let mut text = String::from_str("ValidateTransactionError: ");
        text.append(self.message.as_str());
        text
    }
}

/// The words for a fault; for a failure of the verification itself they are followed by the
/// verifier's own.
pub open spec fn fault_text(fault: ValidationFault) -> Seq<char> {
    match fault {
        ValidationFault::HeaderUnreadable => "Transaction header could not be parsed"@,
        ValidationFault::SignerKeyUnreadable => "Transaction signer public key could not be loaded"@,
        ValidationFault::SignatureUnreadable => "Error loading Transaction signature: invalid hexadecimal text"@,
        ValidationFault::VerificationFailed => "Error during signature verification: "@,
        ValidationFault::SignatureInvalid => "Transaction signature is invalid"@,
        ValidationFault::PayloadHashMismatch => "payload hash does not match header"@,
    }
}

fn invalid(fault: ValidationFault, message: String) -> (e: TransactionValidationError)
    ensures
        e.fault() == fault,
        e.text() == message@,
{
    TransactionValidationError { fault, message }
}

/// What a recipient checks of a transaction.
pub trait TransactionExt {
    /// Checks the signature and the payload digest of a transaction.
    fn validate(&self) -> Result<(), TransactionValidationError>;
}

impl TransactionExt for Transaction {
    /// Succeeds exactly where the transaction has no fault; otherwise names the first fault.
    fn validate(&self) -> (r: Result<(), TransactionValidationError>)
        ensures
            match validation_fault(self@) {
                None => r is Ok,
                Some(fault) => r matches Err(e) && e.fault() == fault && (if fault
                    == ValidationFault::VerificationFailed {
                    fault_text(fault).is_prefix_of(e.text())
                } else {
                    e.text() == fault_text(fault)
                }),
            },
    {
        let header = match TransactionHeader::decode(self.header.as_slice()) {
            Some(header) => header,
            None => {
                return Err(
                    invalid(
                        ValidationFault::HeaderUnreadable,
                        String::from_str("Transaction header could not be parsed"),
                    ),
                );
            },
        };
        let public_key = match PublicKey::load_from_hex(header.signer_public_key.as_str()) {
            Ok(key) => key,
            Err(_) => {
                return Err(
                    invalid(
                        ValidationFault::SignerKeyUnreadable,
                        String::from_str("Transaction signer public key could not be loaded"),
                    ),
                );
            },
        };
        let signature = match Signature::from_hex(self.header_signature.as_str()) {
            Ok(signature) => signature,
            Err(_) => {
                return Err(
                    invalid(
                        ValidationFault::SignatureUnreadable,
                        String::from_str(
                            "Error loading Transaction signature: invalid hexadecimal text",
                        ),
                    ),
                );
            },
        };
        let verified = match public_key.verify(self.header.as_slice(), &signature) {
            Ok(verified) => verified,
            Err(e) => {
                let mut text = String::from_str("Error during signature verification: ");
                let ghost head = text@;
                text.append(e.to_string().as_str());
                assert(head.is_prefix_of(text@)) by {
                    assert(text@.subrange(0, head.len() as int) =~= head);
                }
                return Err(invalid(ValidationFault::VerificationFailed, text));
            },
        };
        if !verified {
            return Err(
                invalid(
                    ValidationFault::SignatureInvalid,
                    String::from_str("Transaction signature is invalid"),
                ),
            );
        }
        let payload_hash = sha512_hex(self.payload.as_slice());
        if payload_hash != header.payload_sha512 {
            return Err(
                invalid(
                    ValidationFault::PayloadHashMismatch,
                    String::from_str("payload hash does not match header"),
                ),
            );
        }
        Ok(())
    }
}

} // verus!
