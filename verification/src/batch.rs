//! Batches: transactions gathered under the signature of the party that submits them together.

use crate::fields::{
    all_bytes, bytes_at, bytes_piece, lemma_after_bytes_piece, lemma_after_repeated_piece,
    lemma_utf8_each_round_trip, read_text_at, read_texts_at, repeated_piece, text_at, text_views,
    texts_at, utf8_each, Writer,
};
use crate::hex_codec::hex_encode;
use crate::keys::{
    secp256k1_public_key, secp256k1_signature, secp256k1_verification, PrivateKey, PublicKey,
    Signature, Signer, SigningError,
};
use crate::transaction::{texts_fit, Transaction, TransactionView};
use crate::wire::{
    decode_fields, encode_fields, lemma_fields_round_trip, parse_fields, valid_fields, WireField,
};
use vstd::prelude::*;
use vstd::string::*;
use vstd::utf8::*;

verus! {

/// Why a batch could not be built.
#[derive(Debug)]
pub enum BatchBuildError {
    SerializationError(String),
    MissingField(String),
    SigningError(String),
}

/// Why a batch could not be built, as mathematical values.
pub enum BatchFailure {
    SerializationError(Seq<char>),
    MissingField(Seq<char>),
    SigningError(Seq<char>),
}

impl View for BatchBuildError {
    type V = BatchFailure;

    open spec fn view(&self) -> BatchFailure {
        match self {
            BatchBuildError::SerializationError(s) => BatchFailure::SerializationError(s@),
            BatchBuildError::MissingField(s) => BatchFailure::MissingField(s@),
            BatchBuildError::SigningError(s) => BatchFailure::SigningError(s@),
        }
    }
}

impl BatchBuildError {
    /// The kind of the error and its reason, in words.
    pub open spec fn text(self) -> Seq<char> {
        match self {
            BatchBuildError::SerializationError(s) => "SerializationError: "@ + s@,
            BatchBuildError::MissingField(s) => "MissingField: "@ + s@,
            BatchBuildError::SigningError(s) => "SigningError: "@ + s@,
        }
    }

    /// The kind of the error and its reason, in words.
    pub fn to_string(&self) -> (text: String)
        ensures
            text@ == self.text(),
    {
        match self {
            BatchBuildError::SerializationError(s) => {
                let mut text = String::from_str("SerializationError: ");
                text.append(s.as_str());
                text
            },
            BatchBuildError::MissingField(s) => {
                let mut text = String::from_str("MissingField: ");
                text.append(s.as_str());
                text
            },
            BatchBuildError::SigningError(s) => {
                let mut text = String::from_str("SigningError: ");
                text.append(s.as_str());
                text
            },
        }
    }

    /// The error that stands for a failure to sign, with the same reason.
    pub fn from_signing_error(value: SigningError) -> (e: BatchBuildError)
        ensures
            e matches BatchBuildError::SigningError(s) && s@ == value.text(),
    {
        BatchBuildError::SigningError(value.to_string())
    }
}

/// What a batch header holds, as mathematical values.
pub struct BatchHeaderView {
    pub signer_public_key: Seq<char>,
    pub transaction_ids: Seq<Seq<char>>,
}

impl BatchHeaderView {
    /// Every length fits 64 bits, so that the header can be written.
    pub open spec fn fits(self) -> bool {
        &&& encode_utf8(self.signer_public_key).len() <= u64::MAX
        &&& texts_fit(self.transaction_ids)
    }
}

/// What a batch says of itself: who signed it and which transactions it holds, in order.
#[derive(Debug)]
pub struct BatchHeader {
    pub signer_public_key: String,
    pub transaction_ids: Vec<String>,
}

impl View for BatchHeader {
    type V = BatchHeaderView;

    open spec fn view(&self) -> BatchHeaderView {
        BatchHeaderView {
            signer_public_key: self.signer_public_key@,
            transaction_ids: text_views(self.transaction_ids@),
        }
    }
}

/// The fields of a batch header, in the order in which they are written.
pub open spec fn batch_header_fields(h: BatchHeaderView) -> Seq<WireField> {
    Seq::<WireField>::empty() + bytes_piece(1, encode_utf8(h.signer_public_key)) + repeated_piece(
        2,
        utf8_each(h.transaction_ids),
    )
}

/// The bytes of a batch header: what is signed.
pub open spec fn batch_header_wire(h: BatchHeaderView) -> Seq<u8> {
    encode_fields(batch_header_fields(h))
}

/// The batch header that bytes hold; `None` where they are malformed or some text is not UTF-8.
pub open spec fn parse_batch_header(bytes: Seq<u8>) -> Option<BatchHeaderView> {
    match decode_fields(bytes) {
        Some(fields) => {
            let signer_public_key = text_at(fields, 1);
            let transaction_ids = texts_at(fields, 2);
            if signer_public_key is Some && transaction_ids is Some {
                Some(
                    BatchHeaderView {
                        signer_public_key: signer_public_key->0,
                        transaction_ids: transaction_ids->0,
                    },
                )
            } else {
                None
            }
        },
        None => None,
    }
}

/// Reading gives back a written batch header, field for field.
pub proof fn lemma_batch_header_round_trip(h: BatchHeaderView)
    requires
        h.fits(),
    ensures
        parse_batch_header(batch_header_wire(h)) == Some(h),
{
    let f0 = Seq::<WireField>::empty();
    let f1 = f0 + bytes_piece(1, encode_utf8(h.signer_public_key));
    let f2 = f1 + repeated_piece(2, utf8_each(h.transaction_ids));
    lemma_after_bytes_piece(f0, 1, encode_utf8(h.signer_public_key));
    lemma_after_repeated_piece(f1, 2, utf8_each(h.transaction_ids));
    assert(valid_fields(f1));
    assert(valid_fields(f2));
    lemma_fields_round_trip(f2);
    encode_utf8_valid_utf8(h.signer_public_key);
    encode_utf8_decode_utf8(h.signer_public_key);
    assert(bytes_at(f2, 1) =~= encode_utf8(h.signer_public_key));
    assert(all_bytes(f2, 2) =~= utf8_each(h.transaction_ids));
    lemma_utf8_each_round_trip(h.transaction_ids);
}

impl BatchHeader {
    /// The bytes of the header. Reading them gives the header back.
    pub fn encode(&self) -> (bytes: Vec<u8>)
        ensures
            bytes@ == batch_header_wire(self@),
            parse_batch_header(bytes@) == Some(self@),
    {
        let mut writer = Writer::new();
        writer.put_text(1, self.signer_public_key.as_str());
        writer.put_texts(2, &self.transaction_ids);
        let bytes = writer.finish();
        proof {
            lemma_batch_header_round_trip(self@);
        }
        bytes
    }

    /// Reads a batch header from its bytes.
    pub fn decode(bytes: &[u8]) -> (r: Option<BatchHeader>)
        ensures
            match parse_batch_header(bytes@) {
                Some(h) => r is Some && r->0@ == h,
                None => r is None,
            },
    {
        let fields = match parse_fields(bytes) {
            Some(fields) => fields,
            None => {
                return None;
            },
        };
        let signer_public_key = match read_text_at(&fields, 1) {
            Some(text) => text,
            None => {
                return None;
            },
        };
        match read_texts_at(&fields, 2) {
            Some(transaction_ids) => Some(BatchHeader { signer_public_key, transaction_ids }),
            None => None,
        }
    }
}

/// Each transaction of a list, by its view.
pub open spec fn transaction_views(transactions: Seq<Transaction>) -> Seq<TransactionView> {
    transactions.map_values(|t: Transaction| t@)
}

/// The identities of the transactions of a list, in order.
pub open spec fn transaction_ids(transactions: Seq<TransactionView>) -> Seq<Seq<char>> {
    Seq::new(transactions.len(), |i: int| transactions[i].header_signature)
}

/// What a batch holds, as mathematical values.
pub struct BatchView {
    pub header: Seq<u8>,
    pub header_signature: Seq<char>,
    pub transactions: Seq<TransactionView>,
}

/// A batch: the bytes of its header, the signature over those bytes in hexadecimal digits, and
/// the transactions.
#[derive(Debug)]
pub struct Batch {
    pub header: Vec<u8>,
    pub header_signature: String,
    pub transactions: Vec<Transaction>,
}

impl View for Batch {
    type V = BatchView;

    open spec fn view(&self) -> BatchView {
        BatchView {
            header: self.header@,
            header_signature: self.header_signature@,
            transactions: transaction_views(self.transactions@),
        }
    }
}

/// A batch that is complete but for its signature.
#[derive(Debug)]
pub struct UnsignedBatch {
    pub header: BatchHeader,
    pub header_bytes: Vec<u8>,
    pub transactions: Vec<Transaction>,
}

impl UnsignedBatch {
    /// The bytes are those of the header; they read back as the header.
    pub open spec fn wf(self) -> bool {
        &&& self.header_bytes@ == batch_header_wire(self.header@)
        &&& parse_batch_header(self.header_bytes@) == Some(self.header@)
    }

    /// Attaches the signature over the header bytes.
    pub fn finish(self, signature: &Signature) -> (batch: Batch)
        ensures
            batch@ == (BatchView {
                header: self.header_bytes@,
                header_signature: hex_encode(signature@),
                transactions: transaction_views(self.transactions@),
            }),
    {
        Batch {
            header: self.header_bytes,
            header_signature: signature.as_hex(),
            transactions: self.transactions,
        }
    }
}

/// The reason given when the transactions are missing.
pub open spec fn missing_transactions() -> Seq<char> {
    "Field 'transactions' is required"@
}

/// The header of the batch that holds `transactions` under a signer with the given public key.
pub open spec fn batch_header_for(
    transactions: Seq<TransactionView>,
    signer_key: Seq<u8>,
) -> BatchHeaderView {
    BatchHeaderView {
        signer_public_key: hex_encode(signer_key),
        transaction_ids: transaction_ids(transactions),
    }
}

/// Whether `batch` is a batch of `transactions` under some signer: it holds them, and its header
/// reads back as the header for them under some public key.
pub open spec fn batch_of(transactions: Seq<TransactionView>, batch: BatchView) -> bool {
    &&& batch.transactions == transactions
    &&& exists|signer_key: Seq<u8>|
        {
            &&& batch.header == batch_header_wire(
                #[trigger] batch_header_for(transactions, signer_key),
            )
            &&& parse_batch_header(batch.header) == Some(
                batch_header_for(transactions, signer_key),
            )
        }
}

/// The header of a batch lists the identities of its transactions, in their order.
pub proof fn lemma_batch_lists_its_transactions(
    transactions: Seq<TransactionView>,
    batch: BatchView,
)
    requires
        batch_of(transactions, batch),
    ensures
        parse_batch_header(batch.header) matches Some(h) && h.transaction_ids == transaction_ids(
            batch.transactions,
        ),
{
    let signer_key = choose|signer_key: Seq<u8>|
        {
            &&& batch.header == batch_header_wire(
                #[trigger] batch_header_for(transactions, signer_key),
            )
            &&& parse_batch_header(batch.header) == Some(
                batch_header_for(transactions, signer_key),
            )
        };
    assert(parse_batch_header(batch.header) == Some(batch_header_for(transactions, signer_key)));
}

/// What building gives for the answers of the signer: the failure to tell the key, else the
/// missing transactions, else the failure to sign, else the batch made of the header bytes, the
/// signature in hexadecimal digits and the transactions.
pub open spec fn signed_batch_outcome(
    given: Option<Seq<TransactionView>>,
    key_answer: Result<PublicKey, SigningError>,
    sign_answer: Result<Signature, SigningError>,
) -> Result<BatchView, BatchFailure> {
    match key_answer {
        Err(e) => Err(BatchFailure::SigningError(e.text())),
        Ok(key) => match given {
            None => Err(BatchFailure::MissingField(missing_transactions())),
            Some(transactions) => match sign_answer {
                Err(e) => Err(BatchFailure::SigningError("Unable to sign batch: "@ + e.text())),
                Ok(signature) => Ok(
                    BatchView {
                        header: batch_header_wire(batch_header_for(transactions, key@)),
                        header_signature: hex_encode(signature@),
                        transactions,
                    },
                ),
            },
        },
    }
}

/// A result of building, by its views.
pub open spec fn batch_build_view(r: Result<Batch, BatchBuildError>) -> Result<
    BatchView,
    BatchFailure,
> {
    match r {
        Ok(batch) => Ok(batch@),
        Err(e) => Err(e@),
    }
}

/// Whether `r` is what building gives with this signer: the signer was asked for its key, then,
/// if the key came and the transactions were given, for a signature over the bytes of the
/// header, and `r` is what follows from its answers. The bytes of the header read back as the
/// header that names the signer's key and the identities of the transactions.
pub open spec fn batch_built_by<S: Signer + ?Sized>(
    signer: &S,
    given: Option<Seq<TransactionView>>,
    r: Result<Batch, BatchBuildError>,
) -> bool {
    exists|
        key_answer: Result<PublicKey, SigningError>,
        sign_answer: Result<Signature, SigningError>,
    |
        {
            &&& signer.may_tell_key(key_answer)
            &&& key_answer matches Ok(key) ==> (given matches Some(transactions)
                ==> signer.may_sign(
                batch_header_wire(batch_header_for(transactions, key@)),
                sign_answer,
            ) && parse_batch_header(batch_header_wire(batch_header_for(transactions, key@)))
                == Some(batch_header_for(transactions, key@)))
            &&& #[trigger] signed_batch_outcome(given, key_answer, sign_answer)
                == batch_build_view(r)
        }
}

/// A batch that a private key built carries a header that reads back, names the public key of
/// the key and the identities of the batch's transactions in their order, and carries the
/// signature that the key made over the header bytes, which verifies under that public key.
pub proof fn lemma_batch_built_with_key(
    key: PrivateKey,
    given: Option<Seq<TransactionView>>,
    batch: Batch,
)
    requires
        batch_built_by(&key, given, Ok(batch)),
    ensures
        given == Some(batch@.transactions),
        parse_batch_header(batch@.header) matches Some(h) && h.signer_public_key == hex_encode(
            secp256k1_public_key(key@)->0,
        ) && h.transaction_ids == transaction_ids(batch@.transactions),
        batch@.header_signature == hex_encode(secp256k1_signature(key@, batch@.header)->0),
        secp256k1_verification(
            batch@.header,
            secp256k1_signature(key@, batch@.header)->0,
            secp256k1_public_key(key@)->0,
        ) == Some(true),
{
    let r: Result<Batch, BatchBuildError> = Ok(batch);
    let (key_answer, sign_answer) = choose|
        key_answer: Result<PublicKey, SigningError>,
        sign_answer: Result<Signature, SigningError>,
    |
        {
            &&& (&key).may_tell_key(key_answer)
            &&& key_answer matches Ok(k) ==> (given matches Some(transactions) ==> (
            &key).may_sign(batch_header_wire(batch_header_for(transactions, k@)), sign_answer)
                && parse_batch_header(batch_header_wire(batch_header_for(transactions, k@)))
                == Some(batch_header_for(transactions, k@)))
            &&& #[trigger] signed_batch_outcome(given, key_answer, sign_answer)
                == batch_build_view(r)
        };
    assert(key_answer is Ok);
    assert(given is Some);
    assert(sign_answer is Ok);
}

/// Collects the transactions of a batch and, on `build`, has their list signed.
#[derive(Debug)]
pub struct BatchBuilder {
    transactions: Option<Vec<Transaction>>,
}

impl Default for BatchBuilder {
    /// A builder with no transactions given.
    fn default() -> (builder: BatchBuilder)
        ensures
            builder.given() is None,
    {
        BatchBuilder { transactions: None }
    }
}

impl BatchBuilder {
    /// The transactions given so far.
    pub closed spec fn given(&self) -> Option<Seq<TransactionView>> {
        match self.transactions {
            Some(transactions) => Some(transaction_views(transactions@)),
            None => None,
        }
    }

    /// A builder with no transactions given.
    pub fn new() -> (builder: BatchBuilder)
        ensures
            builder.given() is None,
    {
        BatchBuilder { transactions: None }
    }

    /// Gives the transactions of the batch.
    pub fn with_transactions(self, transactions: Vec<Transaction>) -> (builder: BatchBuilder)
        ensures
            builder.given() == Some(transaction_views(transactions@)),
    {
        let mut builder = self;
        builder.transactions = Some(transactions);
        builder
    }

    /// Fills the header for a signer whose public key is known, and encodes it.
    pub fn prepare(self, signer_public_key: &PublicKey) -> (r: Result<
        UnsignedBatch,
        BatchBuildError,
    >)
        ensures
            match self.given() {
                Some(transactions) => r matches Ok(unsigned) && unsigned.wf() && unsigned.header@
                    == batch_header_for(transactions, signer_public_key@) && transaction_views(
                    unsigned.transactions@,
                ) == transactions,
                None => r matches Err(BatchBuildError::MissingField(text)) && text@
                    == missing_transactions(),
            },
    {
        let transactions = match self.transactions {
            Some(transactions) => transactions,
            None => {
                return Err(
                    BatchBuildError::MissingField(
                        String::from_str("Field 'transactions' is required"),
                    ),
                );
            },
        };
        let mut ids: Vec<String> = Vec::new();
        let mut i: usize = 0;
        while i < transactions.len()
            invariant
                i <= transactions.len(),
                ids@.len() == i,
                forall|k: int| 0 <= k < i ==> (#[trigger] ids@[k])@ == transactions@[k]@.header_signature,
            decreases transactions.len() - i,
        {
            ids.push(transactions[i].header_signature.clone());
            i = i + 1;
        }
        let header = BatchHeader { signer_public_key: signer_public_key.as_hex(), transaction_ids: ids };
        proof {
            assert(text_views(header.transaction_ids@) =~= transaction_ids(
                transaction_views(transactions@),
            ));
        }
        let header_bytes = header.encode();
        Ok(UnsignedBatch { header, header_bytes, transactions })
    }

    /// Builds the batch: asks the signer for its public key, lists the transactions in the
    /// header, asks the signer for a signature over the header bytes, and attaches it.
    ///
    /// The result is the one that follows from the signer's answers. In particular a batch that
    /// comes back holds the transactions given, and missing transactions are reported unless the
    /// signer failed first.
    pub fn build<S: Signer + ?Sized>(self, signer: &S) -> (r: Result<Batch, BatchBuildError>)
        ensures
            batch_built_by(signer, self.given(), r),
            r matches Ok(batch) ==> self.given() matches Some(transactions) && batch_of(
                transactions,
                batch@,
            ),
            r matches Err(BatchBuildError::MissingField(text)) ==> self.given() is None && text@
                == missing_transactions(),
            !(r matches Err(BatchBuildError::SerializationError(_))),
            self.given() is None ==> r is Err,
    {
        let ghost given = self.given();
        let key_answer = signer.public_key();
        let ghost key_seen = key_answer;
        let signer_public_key = match key_answer {
            Ok(key) => key,
            Err(e) => {
                let ghost failure = e;
                let r = Err(BatchBuildError::from_signing_error(e));
                proof {
                    assert(signed_batch_outcome(given, key_seen, Err(failure)) == batch_build_view(
                        r,
                    ));
                }
                return r;
            },
        };
        let unsigned = match self.prepare(&signer_public_key) {
            Ok(unsigned) => unsigned,
            Err(e) => {
                proof {
                    let idle: Result<Signature, SigningError> = Err(arbitrary());
                    assert(signed_batch_outcome(given, key_seen, idle) == batch_build_view(Err(e)));
                }
                return Err(e);
            },
        };
        let sign_answer = signer.sign(unsigned.header_bytes.as_slice());
        let ghost sign_seen = sign_answer;
        let signature = match sign_answer {
            Ok(signature) => signature,
            Err(e) => {
                let mut text = String::from_str("Unable to sign batch: ");
                text.append(e.to_string().as_str());
                let r = Err(BatchBuildError::SigningError(text));
                proof {
                    assert(signed_batch_outcome(given, key_seen, sign_seen) == batch_build_view(r));
                }
                return r;
            },
        };
        let batch = unsigned.finish(&signature);
        proof {
            let h = batch_header_for(given->0, signer_public_key@);
            assert(batch@.header == batch_header_wire(h));
            assert(batch_of(given->0, batch@));
            assert(signed_batch_outcome(given, key_seen, sign_seen) == batch_build_view(Ok(batch)));
        }
        Ok(batch)
    }
}

} // verus!
