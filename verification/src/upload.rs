//! The preparation of an upload: how many transactions a file makes, which one comes next, and
//! what each of them carries.
//!
//! Reading the file and storing the transactions are the caller's part. The caller hands in the
//! bytes that it read and is told what to store and what progress to report.

use crate::common::{FAMILY_NAME, FAMILY_VERSION, FILE_CREATE_COST};
use crate::digest::sha224_digest;
use crate::fields::text_views;
use crate::hex_codec::hex_encode;
use crate::keys::{PublicKey, Signer, SigningError};
use crate::payload::{
    parse_payload, DataBlockView, PayloadBuilder, PayloadOperation, PayloadView,
};
use crate::transaction::{
    built_by, lemma_built_header, parse_header, BuildFailure, Transaction, TransactionBuildError,
    TransactionBuilder, TransactionBuilderView, TransactionView,
};
use crate::types::{FileId, FileMode};
use vstd::prelude::*;
use vstd::string::*;

verus! {

/// The number of bytes of one block unless the caller chooses another.
pub const DEFAULT_CHUNK_SIZE: usize = 131072;

/// The deposit that precedes the creation of a file: ten times what the creation costs.
pub const DEPOSIT_AMOUNT: u64 = 1000000000;

/// The number of blocks that a file of `file_size` bytes makes, each of `chunk_size` bytes but
/// the last, which holds what is left.
pub open spec fn chunk_count(file_size: nat, chunk_size: nat) -> nat
    recommends
        chunk_size > 0,
{
    file_size / chunk_size + if file_size % chunk_size > 0 {
        1nat
    } else {
        0nat
    }
}

/// The number of bytes of block `index`.
pub open spec fn chunk_length(file_size: nat, chunk_size: nat, index: nat) -> nat
    recommends
        chunk_size > 0,
        index < chunk_count(file_size, chunk_size),
{
    if (index + 1) * chunk_size <= file_size {
        chunk_size
    } else {
        (file_size - index * chunk_size) as nat
    }
}

/// The number of transactions of an upload: one for each block, and three more for the deposit,
/// the creation and the seal.
pub open spec fn total_transactions_of(file_size: nat, chunk_size: nat) -> nat
    recommends
        chunk_size > 0,
{
    chunk_count(file_size, chunk_size) + 3
}

/// Every block begins inside the file, is not empty and is no longer than the chunk size.
pub proof fn lemma_chunk_bounds(file_size: nat, chunk_size: nat, index: nat)
    requires
        chunk_size > 0,
        index < chunk_count(file_size, chunk_size),
    ensures
        index * chunk_size < file_size,
        0 < chunk_length(file_size, chunk_size, index) <= chunk_size,
        index * chunk_size + chunk_length(file_size, chunk_size, index) <= file_size,
        index + 1 < chunk_count(file_size, chunk_size) ==> chunk_length(
            file_size,
            chunk_size,
            index,
        ) == chunk_size,
        index + 1 == chunk_count(file_size, chunk_size) ==> index * chunk_size + chunk_length(
            file_size,
            chunk_size,
            index,
        ) == file_size,
{
    let q = file_size / chunk_size;
    let r = file_size % chunk_size;
    assert(file_size == q * chunk_size + r && 0 <= r < chunk_size) by (nonlinear_arith)
        requires
            chunk_size > 0,
            q == file_size / chunk_size,
            r == file_size % chunk_size,
    ;
    assert(index * chunk_size + chunk_size == (index + 1) * chunk_size) by (nonlinear_arith);
    if index < q {
        assert((index + 1) * chunk_size <= q * chunk_size) by (nonlinear_arith)
            requires
                index + 1 <= q,
                chunk_size > 0,
        ;
        if index + 1 == chunk_count(file_size, chunk_size) {
            assert(r == 0);
            assert(index + 1 == q);
        }
    } else {
        assert(index == q);
        assert(r > 0);
    }
}

/// Where the size of a file is a multiple of the chunk size, every block is full: there is no
/// short block at the end.
pub proof fn lemma_whole_chunks(file_size: nat, chunk_size: nat, index: nat)
    requires
        chunk_size > 0,
        file_size % chunk_size == 0,
        index < chunk_count(file_size, chunk_size),
    ensures
        chunk_length(file_size, chunk_size, index) == chunk_size,
        chunk_count(file_size, chunk_size) * chunk_size == file_size,
{
    let q = file_size / chunk_size;
    assert(file_size == q * chunk_size) by (nonlinear_arith)
        requires
            chunk_size > 0,
            q == file_size / chunk_size,
            file_size % chunk_size == 0,
    ;
    assert((index + 1) * chunk_size <= q * chunk_size) by (nonlinear_arith)
        requires
            index + 1 <= q,
            chunk_size > 0,
    ;
}

/// The number of transactions of an upload; `None` where the chunk size is zero or the number
/// does not fit 64 bits.
pub fn total_transactions(file_size: u64, chunk_size: u64) -> (total: Option<u64>)
    ensures
        match total {
            Some(n) => chunk_size > 0 && n == total_transactions_of(
                file_size as nat,
                chunk_size as nat,
            ),
            None => chunk_size == 0 || total_transactions_of(file_size as nat, chunk_size as nat)
                > u64::MAX,
        },
{
    if chunk_size == 0 {
        return None;
    }
    let whole: u64 = file_size / chunk_size;
    let partial: u64 = if file_size % chunk_size > 0 {
        1
    } else {
        0
    };
    if whole > u64::MAX - 3 - partial {
        return None;
    }
    Some(whole + partial + 3)
}

/// What an upload emits next.
#[derive(Clone, Copy, Debug, PartialEq, Eq, Structural)]
pub enum PrepareStep {
    /// The deposit that pays for the file.
    Deposit,
    /// The creation of the file.
    Create,
    /// An append of the block with this number, which has this many bytes.
    Append { index: u64, length: u64 },
    /// The seal.
    Seal,
    /// Nothing: every transaction has been emitted.
    Finished,
}

/// The step that follows when `emitted` transactions have been emitted: first the deposit, then
/// the creation, then one append for each block, then the seal.
pub open spec fn step_at(file_size: nat, chunk_size: nat, emitted: nat) -> PrepareStep {
    let count = chunk_count(file_size, chunk_size);
    if emitted == 0 {
        PrepareStep::Deposit
    } else if emitted == 1 {
        PrepareStep::Create
    } else if emitted - 2 < count {
        PrepareStep::Append {
            index: (emitted - 2) as u64,
            length: chunk_length(file_size, chunk_size, (emitted - 2) as nat) as u64,
        }
    } else if emitted - 2 == count {
        PrepareStep::Seal
    } else {
        PrepareStep::Finished
    }
}

/// The operation of the transaction that a step emits.
pub open spec fn operation_of(step: PrepareStep) -> PayloadOperation {
    match step {
        PrepareStep::Deposit => PayloadOperation::AccountDeposit,
        PrepareStep::Create => PayloadOperation::FileCreate,
        PrepareStep::Append { .. } => PayloadOperation::FileAppend,
        _ => PayloadOperation::FileSeal,
    }
}

/// An empty file makes exactly three transactions: the deposit, the creation and the seal, and
/// no append.
pub proof fn lemma_empty_file(chunk_size: nat)
    requires
        chunk_size > 0,
    ensures
        total_transactions_of(0, chunk_size) == 3,
        step_at(0, chunk_size, 0) == PrepareStep::Deposit,
        step_at(0, chunk_size, 1) == PrepareStep::Create,
        step_at(0, chunk_size, 2) == PrepareStep::Seal,
        step_at(0, chunk_size, 3) == PrepareStep::Finished,
{
    assert(0nat / chunk_size == 0 && 0nat % chunk_size == 0) by (nonlinear_arith)
        requires
            chunk_size > 0,
    ;
}

/// An upload is finished exactly when as many transactions have been emitted as its total says,
/// and every step before that emits one.
pub proof fn lemma_steps_match_total(file_size: nat, chunk_size: nat, emitted: nat)
    requires
        chunk_size > 0,
    ensures
        step_at(file_size, chunk_size, emitted) == PrepareStep::Finished <==> emitted
            >= total_transactions_of(file_size, chunk_size),
{
}

/// Whether what the caller hands in is what the step needs: the bytes of the block for an
/// append, nothing for any other step.
pub open spec fn input_fits(step: PrepareStep, chunk: Option<Seq<u8>>) -> bool {
    match step {
        PrepareStep::Append { length, .. } => chunk matches Some(data) && data.len() == length,
        PrepareStep::Finished => false,
        _ => chunk is None,
    }
}

/// Whether each transaction names the one before it as its only dependency, and the first names
/// none.
pub open spec fn chain_linked(history: Seq<TransactionView>) -> bool {
    forall|i: int|
        0 <= i < history.len() ==> (parse_header((#[trigger] history[i]).header) matches Some(h)
            && h.dependencies == if i == 0 {
            Seq::<Seq<char>>::empty()
        } else {
            seq![history[i - 1].header_signature]
        })
}

/// Whether transaction `i` carries the operation of step `i`.
pub open spec fn operations_planned(
    history: Seq<TransactionView>,
    file_size: nat,
    chunk_size: nat,
) -> bool {
    forall|i: int|
        0 <= i < history.len() ==> (parse_payload((#[trigger] history[i]).payload) matches Some(p)
            && p.operation == operation_of(step_at(file_size, chunk_size, i as nat)))
}

/// Why a step of an upload failed.
#[derive(Debug)]
pub enum PrepareError {
    /// The chunk size is zero, or the file makes more transactions than 64 bits count.
    InvalidPlan,
    /// What was handed in is not what the step needs.
    UnexpectedInput,
    /// The signer did not give its public key.
    Signing(SigningError),
    /// The transaction could not be built.
    Transaction(TransactionBuildError),
}

/// Why a step of an upload failed, as mathematical values.
pub enum PrepareFailure {
    InvalidPlan,
    UnexpectedInput,
    Signing(Seq<char>),
    Transaction(BuildFailure),
}

impl View for PrepareError {
    type V = PrepareFailure;

    open spec fn view(&self) -> PrepareFailure {
        match self {
            PrepareError::InvalidPlan => PrepareFailure::InvalidPlan,
            PrepareError::UnexpectedInput => PrepareFailure::UnexpectedInput,
            PrepareError::Signing(e) => PrepareFailure::Signing(e.text()),
            PrepareError::Transaction(e) => PrepareFailure::Transaction(e@),
        }
    }
}

/// What is known before a file is prepared.
#[derive(Debug)]
pub struct FileUpload {
    uuid: FileId,
    batcher_public_key: Vec<u8>,
    chunk_size: usize,
    filename: Option<String>,
}

impl FileUpload {
    /// The identity of the file.
    pub closed spec fn uuid(&self) -> FileId {
        self.uuid
    }

    /// The key of the party that batches the transactions.
    pub closed spec fn batcher_public_key(&self) -> Seq<u8> {
        self.batcher_public_key@
    }

    /// The number of bytes of one block.
    pub closed spec fn chunk_size(&self) -> usize {
        self.chunk_size
    }

    /// The name that the caller gave to the file, if any.
    pub closed spec fn filename(&self) -> Option<Seq<char>> {
        match self.filename {
            Some(name) => Some(name@),
            None => None,
        }
    }

    /// An upload of the file with the given identity, batched under the given key, in blocks of
    /// the default size, under the name of the file itself.
    pub fn new(uuid: FileId, batcher_public_key: Vec<u8>) -> (upload: FileUpload)
        ensures
            upload.uuid() == uuid,
            upload.batcher_public_key() == batcher_public_key@,
            upload.chunk_size() == DEFAULT_CHUNK_SIZE,
            upload.filename() is None,
    {
        FileUpload { uuid, batcher_public_key, chunk_size: DEFAULT_CHUNK_SIZE, filename: None }
    }

    /// Chooses the number of bytes of one block.
    pub fn set_chunk_size(&mut self, chunk_size: usize)
        ensures
            final(self).chunk_size() == chunk_size,
            final(self).uuid() == old(self).uuid(),
            final(self).batcher_public_key() == old(self).batcher_public_key(),
            final(self).filename() == old(self).filename(),
    {
        self.chunk_size = chunk_size;
    }

    /// Chooses the name under which the file is created.
    pub fn set_filename(&mut self, filename: &str)
        ensures
            final(self).filename() == Some(filename@),
            final(self).uuid() == old(self).uuid(),
            final(self).batcher_public_key() == old(self).batcher_public_key(),
            final(self).chunk_size() == old(self).chunk_size(),
    {
        self.filename = Some(String::from_str(filename));
    }

    /// Begins the preparation of a file of `file_size` bytes. The file is created under the name
    /// that was chosen, or else under `file_name`, the name of the file itself.
    pub fn prepare(&self, file_size: u64, file_name: &str) -> (r: Result<
        PrepareState,
        PrepareError,
    >)
        ensures
            match r {
                Ok(state) => state.wf() && state@ == (PrepareView {
                    file_id: self.uuid(),
                    filename: match self.filename() {
                        Some(name) => name,
                        None => file_name@,
                    },
                    batcher_public_key: self.batcher_public_key(),
                    chunk_size: self.chunk_size() as u64,
                    file_size,
                    emitted: 0,
                    previous: None,
                    history: Seq::empty(),
                }),
                Err(e) => e is InvalidPlan,
            },
            r is Ok <==> self.chunk_size() > 0 && total_transactions_of(
                file_size as nat,
                self.chunk_size() as nat,
            ) <= u64::MAX,
    {
        if total_transactions(file_size, self.chunk_size as u64).is_none() {
            return Err(PrepareError::InvalidPlan);
        }
        let filename = match &self.filename {
            Some(name) => name.clone(),
            None => String::from_str(file_name),
        };
        Ok(
            PrepareState {
                file_id: self.uuid,
                filename,
                batcher_public_key: vstd::slice::slice_to_vec(self.batcher_public_key.as_slice()),
                chunk_size: self.chunk_size as u64,
                file_size,
                progress: Progress { emitted: 0, previous: None, history: Ghost(Seq::empty()) },
            },
        )
    }
}

/// How far the preparation of a file has come, as mathematical values.
pub struct PrepareView {
    pub file_id: FileId,
    pub filename: Seq<char>,
    pub batcher_public_key: Seq<u8>,
    pub chunk_size: u64,
    pub file_size: u64,
    pub emitted: u64,
    pub previous: Option<Seq<char>>,
    pub history: Seq<TransactionView>,
}

impl PrepareView {
    /// The number of transactions of the upload.
    pub open spec fn total(self) -> nat {
        total_transactions_of(self.file_size as nat, self.chunk_size as nat)
    }

    /// The step that comes next.
    pub open spec fn step(self) -> PrepareStep {
        step_at(self.file_size as nat, self.chunk_size as nat, self.emitted as nat)
    }

    /// What holds at every point of a preparation: the plan is sound, the transactions emitted
    /// so far are as many as counted and carry the planned operations, each names the one
    /// before it as its dependency, and the last one's identity is remembered.
    pub open spec fn wf(self) -> bool {
        &&& self.chunk_size > 0
        &&& self.total() <= u64::MAX
        &&& self.emitted <= self.total()
        &&& self.history.len() == self.emitted
        &&& self.previous == if self.emitted == 0 {
            None
        } else {
            Some(self.history.last().header_signature)
        }
        &&& chain_linked(self.history)
        &&& operations_planned(self.history, self.file_size as nat, self.chunk_size as nat)
    }
}

/// How far the preparation of a file has come.
pub struct PrepareState {
    file_id: FileId,
    filename: String,
    batcher_public_key: Vec<u8>,
    chunk_size: u64,
    file_size: u64,
    progress: Progress,
}

/// What a step changes: the number of transactions emitted, the identity of the last of them,
/// and all of them in order.
struct Progress {
    emitted: u64,
    previous: Option<String>,
    history: Ghost<Seq<TransactionView>>,
}

impl View for PrepareState {
    type V = PrepareView;

    closed spec fn view(&self) -> PrepareView {
        PrepareView {
            file_id: self.file_id,
            filename: self.filename@,
            batcher_public_key: self.batcher_public_key@,
            chunk_size: self.chunk_size,
            file_size: self.file_size,
            emitted: self.progress.emitted,
            previous: match self.progress.previous {
                Some(id) => Some(id@),
                None => None,
            },
            history: self.progress.history@,
        }
    }
}

/// A transaction that was emitted, and the progress to report once it is stored.
#[derive(Debug)]
pub struct Emitted {
    pub transaction: Transaction,
    pub processed: u64,
    pub total: u64,
}

/// The payload that a step emits for the file; `address` is where the deposit goes.
pub open spec fn step_payload(
    step: PrepareStep,
    file_id: FileId,
    filename: Seq<char>,
    chunk: Option<Seq<u8>>,
    address: Seq<u8>,
) -> PayloadView {
    match step {
        PrepareStep::Deposit => PayloadView {
            address,
            amount: DEPOSIT_AMOUNT,
            ..PayloadView::blank(PayloadOperation::AccountDeposit)
        },
        PrepareStep::Create => PayloadView {
            uuid: file_id.bytes(),
            mode: FileMode::Immutable,
            filename,
            ..PayloadView::blank(PayloadOperation::FileCreate)
        },
        PrepareStep::Append { .. } => PayloadView {
            uuid: file_id.bytes(),
            block: Some(
                DataBlockView {
                    data: match chunk {
                        Some(data) => data,
                        None => Seq::empty(),
                    },
                    sha224: sha224_digest(
                        match chunk {
                            Some(data) => data,
                            None => Seq::empty(),
                        },
                    ),
                },
            ),
            ..PayloadView::blank(PayloadOperation::FileAppend)
        },
        _ => PayloadView {
            uuid: file_id.bytes(),
            ..PayloadView::blank(PayloadOperation::FileSeal)
        },
    }
}

/// What the next step asks the transaction builder for: the payload of the step, the upload's
/// batcher, the family of this crate, a fresh nonce, and the transaction before as the only
/// dependency.
pub open spec fn step_builder(
    state: PrepareView,
    chunk: Option<Seq<u8>>,
    address: Seq<u8>,
) -> TransactionBuilderView {
    TransactionBuilderView {
        batcher_public_key: Some(state.batcher_public_key),
        dependencies: Some(
            match state.previous {
                Some(id) => seq![id],
                None => Seq::empty(),
            },
        ),
        family_name: Some(FAMILY_NAME@),
        family_version: Some(FAMILY_VERSION@),
        nonce: None,
        payload: Some(step_payload(state.step(), state.file_id, state.filename, chunk, address)),
    }
}

/// The bytes of the key that was told, or none.
pub open spec fn told_key(answer: Result<PublicKey, SigningError>) -> Seq<u8> {
    match answer {
        Ok(key) => key@,
        Err(_) => Seq::empty(),
    }
}

/// What a step gives for the answer of the signer about its key, which only the deposit asks
/// for, and for what the transaction builder gave.
pub open spec fn emit_outcome(
    step: PrepareStep,
    address_answer: Result<PublicKey, SigningError>,
    built: Result<Transaction, TransactionBuildError>,
) -> Result<TransactionView, PrepareFailure> {
    if step is Deposit && address_answer is Err {
        Err(PrepareFailure::Signing(address_answer->Err_0.text()))
    } else {
        match built {
            Ok(transaction) => Ok(transaction@),
            Err(e) => Err(PrepareFailure::Transaction(e@)),
        }
    }
}

/// A result of a step, by its views.
pub open spec fn emit_view(r: Result<Emitted, PrepareError>) -> Result<
    TransactionView,
    PrepareFailure,
> {
    match r {
        Ok(emitted) => Ok(emitted.transaction@),
        Err(e) => Err(e@),
    }
}

/// Whether `r` is what the next step gives with this signer: input that does not fit is refused;
/// otherwise the deposit asks the signer for its key, the transaction builder is asked for the
/// transaction of the step, and `r` is what follows.
pub open spec fn emitted_by<S: Signer + ?Sized>(
    signer: &S,
    state: PrepareView,
    chunk: Option<Seq<u8>>,
    r: Result<Emitted, PrepareError>,
) -> bool {
    if !input_fits(state.step(), chunk) {
        r matches Err(PrepareError::UnexpectedInput)
    } else {
        exists|
            address_answer: Result<PublicKey, SigningError>,
            built: Result<Transaction, TransactionBuildError>,
        |
            {
                &&& state.step() is Deposit ==> signer.may_tell_key(address_answer)
                &&& (state.step() is Deposit ==> address_answer is Ok) ==> built_by(
                    signer,
                    step_builder(state, chunk, told_key(address_answer)),
                    built,
                )
                &&& #[trigger] emit_outcome(state.step(), address_answer, built) == emit_view(r)
            }
    }
}

/// In a well-formed preparation every transaction after the first depends on exactly the one
/// before it.
pub proof fn lemma_dependency_chain(state: PrepareView, i: int)
    requires
        state.wf(),
        1 <= i < state.history.len(),
    ensures
        parse_header(state.history[i].header) matches Some(h) && h.dependencies == seq![
            state.history[i - 1].header_signature,
        ],
{
}

impl PrepareState {
    /// What holds at every point of a preparation: no caller can make a state of which it does
    /// not hold.
    pub open spec fn wf(&self) -> bool {
        self@.wf()
    }

    #[verifier::type_invariant]
    spec fn kept(&self) -> bool {
        self@.wf()
    }

    /// The step that comes next, with the number of bytes to read for an append.
    pub fn next_step(&self) -> (step: PrepareStep)
        ensures
            step == self@.step(),
            step matches PrepareStep::Append { index, length } ==> 0 < length <= self@.chunk_size
                && index * self@.chunk_size + length <= self@.file_size,
    {
        proof {
            use_type_invariant(&*self);
        }
        let whole: u64 = self.file_size / self.chunk_size;
        let count: u64 = if self.file_size % self.chunk_size > 0 {
            whole + 1
        } else {
            whole
        };
        if self.progress.emitted == 0 {
            PrepareStep::Deposit
        } else if self.progress.emitted == 1 {
            PrepareStep::Create
        } else if self.progress.emitted - 2 < count {
            let index: u64 = self.progress.emitted - 2;
            proof {
                lemma_chunk_bounds(self.file_size as nat, self.chunk_size as nat, index as nat);
                assert(index * self.chunk_size + self.chunk_size == (index + 1) * self.chunk_size)
                    by (nonlinear_arith);
            }
            let offset: u64 = index * self.chunk_size;
            let left: u64 = self.file_size - offset;
            let length: u64 = if left >= self.chunk_size {
                self.chunk_size
            } else {
                left
            };
            PrepareStep::Append { index, length }
        } else if self.progress.emitted - 2 == count {
            PrepareStep::Seal
        } else {
            PrepareStep::Finished
        }
    }

    /// Emits the transaction of the next step and moves on. For an append `chunk` holds the bytes
    /// of the block; for any other step it is `None`.
    ///
    /// What does not fit the step is refused before the signer is asked. Otherwise the result is
    /// the one that follows from the signer's answers. A transaction that comes back carries the
    /// payload of the step, is batched under the upload's key, and depends on the transaction
    /// before it. When the step fails the preparation stands where it stood.
    pub fn emit<S: Signer + ?Sized>(&mut self, signer: &S, chunk: Option<Vec<u8>>) -> (r: Result<
        Emitted,
        PrepareError,
    >)
        ensures
            final(self).wf(),
            emitted_by(signer, old(self)@, opt_view(chunk), r),
            match r {
                Ok(e) => {
                    &&& input_fits(old(self)@.step(), opt_view(chunk))
                    &&& final(self)@ == (PrepareView {
                        emitted: (old(self)@.emitted + 1) as u64,
                        previous: Some(e.transaction@.header_signature),
                        history: old(self)@.history.push(e.transaction@),
                        ..old(self)@
                    })
                    &&& e.processed == old(self)@.emitted + 1
                    &&& e.total == old(self)@.total()
                    &&& parse_payload(e.transaction@.payload) matches Some(p) && p == step_payload(
                        old(self)@.step(),
                        old(self)@.file_id,
                        old(self)@.filename,
                        opt_view(chunk),
                        p.address,
                    )
                    &&& parse_header(e.transaction@.header) matches Some(h) && h.dependencies
                        == (match old(self)@.previous {
                        Some(id) => seq![id],
                        None => Seq::empty(),
                    }) && h.batcher_public_key == hex_encode(old(self)@.batcher_public_key)
                },
                Err(e) => final(self)@ == old(self)@ && (e is UnexpectedInput <==> !input_fits(
                    old(self)@.step(),
                    opt_view(chunk),
                )) && !(e is InvalidPlan),
            },
    {
        proof {
            use_type_invariant(&*self);
        }
        let step = self.next_step();
        let ghost given = opt_view(chunk);
        let fits = match step {
            PrepareStep::Append { length, .. } => match &chunk {
                Some(data) => data.len() as u64 == length,
                None => false,
            },
            PrepareStep::Finished => false,
            _ => chunk.is_none(),
        };
        if !fits {
            return Err(PrepareError::UnexpectedInput);
        }
        let ghost state = self@;
        let ghost idle_key: Result<PublicKey, SigningError> = Err(arbitrary());
        let ghost mut address_seen: Result<PublicKey, SigningError> = idle_key;
        let builder = match step {
            PrepareStep::Deposit => {
                let address_answer = signer.public_key();
                proof {
                    address_seen = address_answer;
                }
                let address = match address_answer {
                    Ok(key) => vstd::slice::slice_to_vec(key.as_slice()),
                    Err(e) => {
                        let r = Err(PrepareError::Signing(e));
                        proof {
                            let idle: Result<Transaction, TransactionBuildError> = Err(arbitrary());
                            assert(emit_outcome(state.step(), address_seen, idle) == emit_view(r));
                        }
                        return r;
                    },
                };
                PayloadBuilder::new(PayloadOperation::AccountDeposit).with_address(
                    address,
                ).with_amount(FILE_CREATE_COST * 10)
            },
            PrepareStep::Create => PayloadBuilder::new(PayloadOperation::FileCreate).with_uuid(
                self.file_id,
            ).with_mode(FileMode::Immutable).with_filename(self.filename.clone()),
            PrepareStep::Append { .. } => {
                let data = match chunk {
                    Some(data) => data,
                    None => Vec::new(),
                };
                PayloadBuilder::new(PayloadOperation::FileAppend).with_uuid(
                    self.file_id,
                ).with_block(data)
            },
            _ => PayloadBuilder::new(PayloadOperation::FileSeal).with_uuid(self.file_id),
        };
        let payload = match builder.build() {
            Ok(payload) => payload,
            Err(_) => vstd::pervasive::unreached(),
        };
        let mut dependencies: Vec<String> = Vec::new();
        match &self.progress.previous {
            Some(id) => {
                dependencies.push(id.clone());
            },
            None => {},
        }
        let ghost expected_dependencies: Seq<Seq<char>> = match self@.previous {
            Some(id) => seq![id],
            None => Seq::empty(),
        };
        assert(text_views(dependencies@) =~= expected_dependencies);
        let batcher = vstd::slice::slice_to_vec(self.batcher_public_key.as_slice());
        let transaction_builder = TransactionBuilder::new().with_payload(
            payload,
        ).with_batcher_public_key(batcher).with_dependencies(dependencies);
        let ghost builder_view = transaction_builder@;
        assert(builder_view == step_builder(state, given, told_key(address_seen)));
        let built = transaction_builder.build(signer);
        let ghost built_seen = built;
        let transaction = match built {
            Ok(transaction) => transaction,
            Err(e) => {
                let r = Err(PrepareError::Transaction(e));
                proof {
                    assert(emit_outcome(state.step(), address_seen, built_seen) == emit_view(r));
                }
                return r;
            },
        };
        proof {
            lemma_built_header(builder_view, transaction@);
            let before = self.progress.history@;
            let after = before.push(transaction@);
            assert(chain_linked(after)) by {
                assert forall|i: int| 0 <= i < after.len() implies (parse_header(
                    (#[trigger] after[i]).header,
                ) matches Some(h) && h.dependencies == if i == 0 {
                    Seq::<Seq<char>>::empty()
                } else {
                    seq![after[i - 1].header_signature]
                }) by {
                    if i < before.len() {
                        assert(after[i] == before[i]);
                        if i > 0 {
                            assert(after[i - 1] == before[i - 1]);
                        }
                    }
                }
            }
            assert(operations_planned(after, self.file_size as nat, self.chunk_size as nat)) by {
                assert forall|i: int| 0 <= i < after.len() implies (parse_payload(
                    (#[trigger] after[i]).payload,
                ) matches Some(p) && p.operation == operation_of(
                    step_at(self.file_size as nat, self.chunk_size as nat, i as nat),
                )) by {
                    if i < before.len() {
                        assert(after[i] == before[i]);
                    }
                }
            }
            assert(after.last() == transaction@);
        }
        let total: u64 = self.total();
        let processed: u64 = self.progress.emitted + 1;
        let ghost history = self.progress.history@.push(transaction@);
        self.progress = Progress {
            emitted: processed,
            previous: Some(transaction.header_signature.clone()),
            history: Ghost(history),
        };
        let r = Ok(Emitted { transaction, processed, total });
        proof {
            assert(emit_outcome(state.step(), address_seen, built_seen) == emit_view(r));
        }
        r
    }

    /// The number of transactions of the upload.
    pub fn total(&self) -> (total: u64)
        ensures
            total == self@.total(),
            self.wf(),
    {
        proof {
            use_type_invariant(&*self);
        }
        let whole: u64 = self.file_size / self.chunk_size;
        if self.file_size % self.chunk_size > 0 {
            whole + 4
        } else {
            whole + 3
        }
    }

    /// Whether every transaction has been emitted.
    pub fn is_finished(&self) -> (finished: bool)
        ensures
            finished == (self@.emitted == self@.total()),
            finished == (self@.step() == PrepareStep::Finished),
    {
        proof {
            use_type_invariant(&*self);
        }
        self.progress.emitted == self.total()
    }
}

/// The bytes handed in, if any.
pub open spec fn opt_view(chunk: Option<Vec<u8>>) -> Option<Seq<u8>> {
    match chunk {
        Some(data) => Some(data@),
        None => None,
    }
}

} // verus!
