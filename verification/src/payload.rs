//! The operation that a transaction carries, and the builder that checks what each operation
//! needs.

use crate::digest::{sha224, sha224_digest};
use crate::equal::same_bytes;
use crate::fields::{
    bytes_at, bytes_piece, last_bytes, lemma_after_bytes_piece, lemma_after_present_piece,
    lemma_after_varint_piece, present_piece, read_bytes_at, read_text_at, read_varint_at, text_at,
    varint_at, varint_piece, find_bytes, Writer,
};
use crate::types::{FileId, FileMode, Permission};
use crate::wire::{
    decode_fields, encode_fields, lemma_fields_round_trip, parse_fields, valid_fields, WireField,
};
use vstd::prelude::*;
use vstd::string::*;
use vstd::utf8::*;

verus! {

/// Why a payload could not be built.
#[derive(Debug)]
pub enum PayloadBuildError {
    SerializationError(String),
    MissingField(String),
}

impl PayloadBuildError {
    /// The kind of the error and its reason, in words.
    pub open spec fn text(self) -> Seq<char> {
        match self {
            PayloadBuildError::SerializationError(s) => "SerializationError: "@ + s@,
            PayloadBuildError::MissingField(s) => "MissingField: "@ + s@,
        }
    }

    /// The kind of the error and its reason, in words.
    pub fn to_string(&self) -> (text: String)
        ensures
            text@ == self.text(),
    {
        match self {
            PayloadBuildError::SerializationError(s) => {
                let mut text = String::from_str("SerializationError: ");
                text.append(s.as_str());
                text
            },
            PayloadBuildError::MissingField(s) => {
                let mut text = String::from_str("MissingField: ");
                text.append(s.as_str());
                text
            },
        }
    }
}

/// The nine operations of the file service.
#[derive(Clone, Copy, Debug, PartialEq, Eq, Structural)]
pub enum PayloadOperation {
    FileCreate,
    FileAppend,
    FileSeal,
    FileDestroy,
    AccountDeposit,
    AccountTransfer,
    PermissionSet,
    PermissionClear,
    TimestampSet,
}

impl PayloadOperation {
    /// The number that stands for the operation in a payload.
    pub open spec fn wire_number(self) -> u64 {
        match self {
            PayloadOperation::FileCreate => 0,
            PayloadOperation::FileAppend => 1,
            PayloadOperation::FileSeal => 2,
            PayloadOperation::FileDestroy => 3,
            PayloadOperation::AccountDeposit => 4,
            PayloadOperation::AccountTransfer => 5,
            PayloadOperation::PermissionSet => 6,
            PayloadOperation::PermissionClear => 7,
            PayloadOperation::TimestampSet => 8,
        }
    }

    /// The operation that a number stands for in a payload.
    pub open spec fn of_wire_number(n: u64) -> Option<PayloadOperation> {
        if n == 0 {
            Some(PayloadOperation::FileCreate)
        } else if n == 1 {
            Some(PayloadOperation::FileAppend)
        } else if n == 2 {
            Some(PayloadOperation::FileSeal)
        } else if n == 3 {
            Some(PayloadOperation::FileDestroy)
        } else if n == 4 {
            Some(PayloadOperation::AccountDeposit)
        } else if n == 5 {
            Some(PayloadOperation::AccountTransfer)
        } else if n == 6 {
            Some(PayloadOperation::PermissionSet)
        } else if n == 7 {
            Some(PayloadOperation::PermissionClear)
        } else if n == 8 {
            Some(PayloadOperation::TimestampSet)
        } else {
            None
        }
    }

    /// The number that stands for the operation in a payload.
    pub fn to_wire(&self) -> (n: u64)
        ensures
            n == self.wire_number(),
            PayloadOperation::of_wire_number(n) == Some(*self),
    {
        match self {
            PayloadOperation::FileCreate => 0,
            PayloadOperation::FileAppend => 1,
            PayloadOperation::FileSeal => 2,
            PayloadOperation::FileDestroy => 3,
            PayloadOperation::AccountDeposit => 4,
            PayloadOperation::AccountTransfer => 5,
            PayloadOperation::PermissionSet => 6,
            PayloadOperation::PermissionClear => 7,
            PayloadOperation::TimestampSet => 8,
        }
    }

    /// The operation that a number stands for in a payload.
    pub fn from_wire(n: u64) -> (operation: Option<PayloadOperation>)
        ensures
            operation == PayloadOperation::of_wire_number(n),
    {
        if n == 0 {
            Some(PayloadOperation::FileCreate)
        } else if n == 1 {
            Some(PayloadOperation::FileAppend)
        } else if n == 2 {
            Some(PayloadOperation::FileSeal)
        } else if n == 3 {
            Some(PayloadOperation::FileDestroy)
        } else if n == 4 {
            Some(PayloadOperation::AccountDeposit)
        } else if n == 5 {
            Some(PayloadOperation::AccountTransfer)
        } else if n == 6 {
            Some(PayloadOperation::PermissionSet)
        } else if n == 7 {
            Some(PayloadOperation::PermissionClear)
        } else if n == 8 {
            Some(PayloadOperation::TimestampSet)
        } else {
            None
        }
    }
}

/// A signed 64-bit number as the unsigned one with the same bits.
pub open spec fn time_to_wire(t: i64) -> u64 {
    if t >= 0 {
        t as u64
    } else {
        (t + 0x1_0000_0000_0000_0000) as u64
    }
}

/// An unsigned 64-bit number as the signed one with the same bits.
pub open spec fn time_of_wire(n: u64) -> i64 {
    if n <= i64::MAX {
        n as i64
    } else {
        (n - 0x1_0000_0000_0000_0000) as i64
    }
}

fn time_as_wire(t: i64) -> (n: u64)
    ensures
        n == time_to_wire(t),
        time_of_wire(n) == t,
{
    if t >= 0 {
        t as u64
    } else {
        u64::MAX - ((-(t + 1)) as u64)
    }
}

fn time_from_wire(n: u64) -> (t: i64)
    ensures
        t == time_of_wire(n),
{
    if n <= i64::MAX as u64 {
        n as i64
    } else {
        -((u64::MAX - n) as i64) - 1
    }
}

/// A block of file data with its digest, as mathematical values.
pub struct DataBlockView {
    pub data: Seq<u8>,
    pub sha224: Seq<u8>,
}

impl DataBlockView {
    /// The digest is the SHA-224 digest of the data, which is twenty-eight bytes long.
    pub open spec fn intact(self) -> bool {
        self.sha224 == sha224_digest(self.data) && self.sha224.len() == 28
    }
}

/// A block of file data with its SHA-224 digest. No block exists whose digest is not that of its
/// data, twenty-eight bytes long.
#[derive(Debug)]
pub struct DataBlock {
    data: Vec<u8>,
    sha224: Vec<u8>,
}

impl View for DataBlock {
    type V = DataBlockView;

    closed spec fn view(&self) -> DataBlockView {
        DataBlockView { data: self.data@, sha224: self.sha224@ }
    }
}

impl DataBlock {
    #[verifier::type_invariant]
    spec fn digest_matches(self) -> bool {
        self.sha224@ == sha224_digest(self.data@) && self.sha224@.len() == 28
    }

    /// The block that holds `data`; its digest is computed here.
    pub fn new(data: Vec<u8>) -> (block: DataBlock)
        ensures
            block@.data == data@,
            block@.intact(),
    {
        let sha224 = sha224(data.as_slice());
        DataBlock { data, sha224 }
    }

    /// The block made of a digest and data that were received together; `None` where the digest
    /// is not that of the data.
    pub fn checked(data: Vec<u8>, sha224: Vec<u8>) -> (block: Option<DataBlock>)
        ensures
            match block {
                Some(b) => b@ == (DataBlockView { data: data@, sha224: sha224@ }) && b@.intact(),
                None => sha224@ != sha224_digest(data@),
            },
    {
        let expected = crate::digest::sha224(data.as_slice());
        if same_bytes(expected.as_slice(), sha224.as_slice()) {
            Some(DataBlock { data, sha224 })
        } else {
            None
        }
    }

    /// The data of the block.
    pub fn data(&self) -> (data: &Vec<u8>)
        ensures
            data@ == self@.data,
    {
        &self.data
    }

    /// The SHA-224 digest of the data.
    pub fn sha224(&self) -> (digest: &Vec<u8>)
        ensures
            digest@ == self@.sha224,
            self@.intact(),
    {
        proof {
            use_type_invariant(self);
        }
        &self.sha224
    }

    /// The bytes of the block as a message.
    pub fn encode(&self) -> (bytes: Vec<u8>)
        ensures
            bytes@ == encode_fields(block_fields(self@)),
            self@.intact(),
            self@.data.len() <= usize::MAX,
            self@.sha224.len() <= usize::MAX,
    {
        proof {
            use_type_invariant(self);
        }
        let mut writer = Writer::new();
        writer.put_bytes(1, self.data.as_slice());
        writer.put_bytes(2, self.sha224.as_slice());
        writer.finish()
    }
}

/// What a payload holds, as mathematical values.
pub struct PayloadView {
    pub operation: PayloadOperation,
    pub uuid: Seq<u8>,
    pub mode: FileMode,
    pub block: Option<DataBlockView>,
    pub filename: Seq<char>,
    pub address: Seq<u8>,
    pub amount: u64,
    pub permission: Permission,
    pub permission_public_key: Seq<u8>,
    pub timestamp_create: i64,
    pub timestamp_append: i64,
    pub timestamp_seal: i64,
}

impl PayloadView {
    /// The payload of an operation with nothing filled in.
    pub open spec fn blank(operation: PayloadOperation) -> PayloadView {
        PayloadView {
            operation,
            uuid: Seq::empty(),
            mode: FileMode::Destroyable,
            block: None,
            filename: Seq::empty(),
            address: Seq::empty(),
            amount: 0,
            permission: Permission::Unset,
            permission_public_key: Seq::empty(),
            timestamp_create: 0,
            timestamp_append: 0,
            timestamp_seal: 0,
        }
    }

    /// The block, if there is one, carries the digest of its data.
    pub open spec fn block_intact(self) -> bool {
        self.block matches Some(b) ==> b.intact()
    }

    /// Every length fits 64 bits, so that the payload can be written.
    pub open spec fn fits(self) -> bool {
        &&& self.uuid.len() <= u64::MAX
        &&& encode_utf8(self.filename).len() <= u64::MAX
        &&& self.address.len() <= u64::MAX
        &&& self.permission_public_key.len() <= u64::MAX
        &&& self.block matches Some(b) ==> b.data.len() <= u64::MAX && b.sha224.len() <= u64::MAX
            && encode_fields(block_fields(b)).len() <= u64::MAX
    }
}

/// The operation of a transaction and what it applies to. A field that an operation does not use
/// holds nothing: no bytes, no text, zero, or the first value of its kind.
#[derive(Debug)]
pub struct Payload {
    pub operation: PayloadOperation,
    pub uuid: Vec<u8>,
    pub mode: FileMode,
    pub block: Option<DataBlock>,
    pub filename: String,
    pub address: Vec<u8>,
    pub amount: u64,
    pub permission: Permission,
    pub permission_public_key: Vec<u8>,
    pub timestamp_create: i64,
    pub timestamp_append: i64,
    pub timestamp_seal: i64,
}

impl View for Payload {
    type V = PayloadView;

    open spec fn view(&self) -> PayloadView {
        PayloadView {
            operation: self.operation,
            uuid: self.uuid@,
            mode: self.mode,
            block: match self.block {
                Some(b) => Some(b@),
                None => None,
            },
            filename: self.filename@,
            address: self.address@,
            amount: self.amount,
            permission: self.permission,
            permission_public_key: self.permission_public_key@,
            timestamp_create: self.timestamp_create,
            timestamp_append: self.timestamp_append,
            timestamp_seal: self.timestamp_seal,
        }
    }
}

/// The fields of a block, in the order in which they are written.
pub open spec fn block_fields(b: DataBlockView) -> Seq<WireField> {
    Seq::<WireField>::empty() + bytes_piece(1, b.data) + bytes_piece(2, b.sha224)
}

/// The field that holds a block: the block as a message of its own, or nothing.
pub open spec fn block_piece(block: Option<DataBlockView>) -> Seq<WireField> {
    match block {
        Some(b) => present_piece(4, encode_fields(block_fields(b))),
        None => Seq::empty(),
    }
}

/// The fields of a payload, in the order in which they are written.
pub open spec fn payload_fields(p: PayloadView) -> Seq<WireField> {
    Seq::<WireField>::empty() + varint_piece(1, p.operation.wire_number()) + bytes_piece(2, p.uuid)
        + varint_piece(3, p.mode.wire_number()) + block_piece(p.block) + bytes_piece(
        5,
        encode_utf8(p.filename),
    ) + bytes_piece(6, p.address) + varint_piece(7, p.amount) + varint_piece(
        8,
        p.permission.wire_number(),
    ) + bytes_piece(9, p.permission_public_key) + varint_piece(
        10,
        time_to_wire(p.timestamp_create),
    ) + varint_piece(11, time_to_wire(p.timestamp_append)) + varint_piece(
        12,
        time_to_wire(p.timestamp_seal),
    )
}

/// The bytes of a payload.
pub open spec fn payload_wire(p: PayloadView) -> Seq<u8> {
    encode_fields(payload_fields(p))
}

/// The block that the fields of a payload hold: `Some(None)` where there is none, `None` where
/// the field cannot be read or the digest is not that of the data.
pub open spec fn block_at(fields: Seq<WireField>) -> Option<Option<DataBlockView>> {
    match last_bytes(fields, 4) {
        None => Some(None),
        Some(bytes) => match decode_fields(bytes) {
            None => None,
            Some(inner) => {
                let b = DataBlockView { data: bytes_at(inner, 1), sha224: bytes_at(inner, 2) };
                if b.intact() {
                    Some(Some(b))
                } else {
                    None
                }
            },
        },
    }
}

/// The payload that a run of fields holds.
pub open spec fn payload_of_fields(fields: Seq<WireField>) -> Option<PayloadView> {
    let operation = PayloadOperation::of_wire_number(varint_at(fields, 1));
    let mode = FileMode::of_wire_number(varint_at(fields, 3));
    let block = block_at(fields);
    let filename = text_at(fields, 5);
    let permission = Permission::of_wire_number(varint_at(fields, 8));
    if operation is Some && mode is Some && block is Some && filename is Some && permission
        is Some {
        Some(
            PayloadView {
                operation: operation->0,
                uuid: bytes_at(fields, 2),
                mode: mode->0,
                block: block->0,
                filename: filename->0,
                address: bytes_at(fields, 6),
                amount: varint_at(fields, 7),
                permission: permission->0,
                permission_public_key: bytes_at(fields, 9),
                timestamp_create: time_of_wire(varint_at(fields, 10)),
                timestamp_append: time_of_wire(varint_at(fields, 11)),
                timestamp_seal: time_of_wire(varint_at(fields, 12)),
            },
        )
    } else {
        None
    }
}

/// The payload that bytes hold; `None` where they are malformed, name an operation, a mode or a
/// permission that does not exist, hold a file name that is not UTF-8, or hold a block whose
/// digest is not that of its data.
pub open spec fn parse_payload(bytes: Seq<u8>) -> Option<PayloadView> {
    match decode_fields(bytes) {
        Some(fields) => payload_of_fields(fields),
        None => None,
    }
}

proof fn lemma_block_round_trip(b: DataBlockView)
    requires
        b.data.len() <= u64::MAX,
        b.sha224.len() <= u64::MAX,
    ensures
        decode_fields(encode_fields(block_fields(b))) == Some(block_fields(b)),
        bytes_at(block_fields(b), 1) == b.data,
        bytes_at(block_fields(b), 2) == b.sha224,
{
    let f0 = Seq::<WireField>::empty();
    let f1 = f0 + bytes_piece(1, b.data);
    let f2 = f1 + bytes_piece(2, b.sha224);
    lemma_after_bytes_piece(f0, 1, b.data);
    lemma_after_bytes_piece(f1, 2, b.sha224);
    lemma_fields_round_trip(f2);
    assert(bytes_at(f2, 1) =~= b.data);
    assert(bytes_at(f2, 2) =~= b.sha224);
}

/// Reading gives back a written payload, field for field.
pub proof fn lemma_payload_round_trip(p: PayloadView)
    requires
        p.fits(),
        p.block_intact(),
    ensures
        parse_payload(payload_wire(p)) == Some(p),
{
    let name = encode_utf8(p.filename);
    let f0 = Seq::<WireField>::empty();
    let f1 = f0 + varint_piece(1, p.operation.wire_number());
    let f2 = f1 + bytes_piece(2, p.uuid);
    let f3 = f2 + varint_piece(3, p.mode.wire_number());
    let f4 = f3 + block_piece(p.block);
    let f5 = f4 + bytes_piece(5, name);
    let f6 = f5 + bytes_piece(6, p.address);
    let f7 = f6 + varint_piece(7, p.amount);
    let f8 = f7 + varint_piece(8, p.permission.wire_number());
    let f9 = f8 + bytes_piece(9, p.permission_public_key);
    let f10 = f9 + varint_piece(10, time_to_wire(p.timestamp_create));
    let f11 = f10 + varint_piece(11, time_to_wire(p.timestamp_append));
    let f12 = f11 + varint_piece(12, time_to_wire(p.timestamp_seal));
    lemma_after_varint_piece(f0, 1, p.operation.wire_number());
    lemma_after_bytes_piece(f1, 2, p.uuid);
    lemma_after_varint_piece(f2, 3, p.mode.wire_number());
    match p.block {
        Some(b) => {
            lemma_after_present_piece(f3, 4, encode_fields(block_fields(b)));
            lemma_block_round_trip(b);
        },
        None => {
            assert(f4 =~= f3);
        },
    }
    lemma_after_bytes_piece(f4, 5, name);
    lemma_after_bytes_piece(f5, 6, p.address);
    lemma_after_varint_piece(f6, 7, p.amount);
    lemma_after_varint_piece(f7, 8, p.permission.wire_number());
    lemma_after_bytes_piece(f8, 9, p.permission_public_key);
    lemma_after_varint_piece(f9, 10, time_to_wire(p.timestamp_create));
    lemma_after_varint_piece(f10, 11, time_to_wire(p.timestamp_append));
    lemma_after_varint_piece(f11, 12, time_to_wire(p.timestamp_seal));
    assert(valid_fields(f12));
    lemma_fields_round_trip(f12);
    encode_utf8_valid_utf8(p.filename);
    encode_utf8_decode_utf8(p.filename);
    let q = payload_of_fields(f12);
    assert(varint_at(f12, 1) == p.operation.wire_number());
    assert(bytes_at(f12, 2) =~= p.uuid);
    assert(varint_at(f12, 3) == p.mode.wire_number());
    assert(block_at(f12) == Some(p.block));
    assert(bytes_at(f12, 5) =~= name);
    assert(bytes_at(f12, 6) =~= p.address);
    assert(varint_at(f12, 7) == p.amount);
    assert(varint_at(f12, 8) == p.permission.wire_number());
    assert(bytes_at(f12, 9) =~= p.permission_public_key);
    assert(varint_at(f12, 10) == time_to_wire(p.timestamp_create));
    assert(varint_at(f12, 11) == time_to_wire(p.timestamp_append));
    assert(varint_at(f12, 12) == time_to_wire(p.timestamp_seal));
    assert(q == Some(p));
}

impl Payload {
    /// The payload of an operation with nothing filled in.
    pub fn blank(operation: PayloadOperation) -> (payload: Payload)
        ensures
            payload@ == PayloadView::blank(operation),
    {
        Payload {
            operation,
            uuid: Vec::new(),
            mode: FileMode::Destroyable,
            block: None,
            filename: String::new(),
            address: Vec::new(),
            amount: 0,
            permission: Permission::Unset,
            permission_public_key: Vec::new(),
            timestamp_create: 0,
            timestamp_append: 0,
            timestamp_seal: 0,
        }
    }

    /// The bytes of the payload. Reading them gives the payload back.
    pub fn encode(&self) -> (bytes: Vec<u8>)
        ensures
            bytes@ == payload_wire(self@),
            parse_payload(bytes@) == Some(self@),
            self@.block_intact(),
    {
        let mut writer = Writer::new();
        writer.put_varint(1, self.operation.to_wire());
        writer.put_bytes(2, self.uuid.as_slice());
        writer.put_varint(3, self.mode.to_wire());
        let ghost before_block = writer.fields();
        match &self.block {
            Some(block) => {
                let inner = block.encode();
                writer.put_present(4, inner.as_slice());
            },
            None => {
                assert(before_block + block_piece(self@.block) =~= before_block);
            },
        }
        assert(writer.fields() == before_block + block_piece(self@.block));
        writer.put_text(5, self.filename.as_str());
        writer.put_bytes(6, self.address.as_slice());
        writer.put_varint(7, self.amount);
        writer.put_varint(8, self.permission.to_wire());
        writer.put_bytes(9, self.permission_public_key.as_slice());
        writer.put_varint(10, time_as_wire(self.timestamp_create));
        writer.put_varint(11, time_as_wire(self.timestamp_append));
        writer.put_varint(12, time_as_wire(self.timestamp_seal));
        let bytes = writer.finish();
        proof {
            lemma_payload_round_trip(self@);
        }
        bytes
    }

    /// Reads a payload from its bytes.
    pub fn decode(bytes: &[u8]) -> (r: Option<Payload>)
        ensures
            match parse_payload(bytes@) {
                Some(p) => r is Some && r->0@ == p,
                None => r is None,
            },
    {
        let fields = match parse_fields(bytes) {
            Some(fields) => fields,
            None => {
                return None;
            },
        };
        let operation = match PayloadOperation::from_wire(read_varint_at(&fields, 1)) {
            Some(operation) => operation,
            None => {
                return None;
            },
        };
        let mode = match FileMode::from_wire(read_varint_at(&fields, 3)) {
            Some(mode) => mode,
            None => {
                return None;
            },
        };
        let block = match find_bytes(&fields, 4) {
            None => None,
            Some(bytes) => {
                let inner = match parse_fields(bytes.as_slice()) {
                    Some(inner) => inner,
                    None => {
                        return None;
                    },
                };
                match DataBlock::checked(read_bytes_at(&inner, 1), read_bytes_at(&inner, 2)) {
                    Some(block) => Some(block),
                    None => {
                        return None;
                    },
                }
            },
        };
        let filename = match read_text_at(&fields, 5) {
            Some(filename) => filename,
            None => {
                return None;
            },
        };
        let permission = match Permission::from_wire(read_varint_at(&fields, 8)) {
            Some(permission) => permission,
            None => {
                return None;
            },
        };
        Some(
            Payload {
                operation,
                uuid: read_bytes_at(&fields, 2),
                mode,
                block,
                filename,
                address: read_bytes_at(&fields, 6),
                amount: read_varint_at(&fields, 7),
                permission,
                permission_public_key: read_bytes_at(&fields, 9),
                timestamp_create: time_from_wire(read_varint_at(&fields, 10)),
                timestamp_append: time_from_wire(read_varint_at(&fields, 11)),
                timestamp_seal: time_from_wire(read_varint_at(&fields, 12)),
            },
        )
    }
}

/// What a builder has been given so far, as mathematical values.
pub struct PayloadBuilderView {
    pub operation: PayloadOperation,
    pub uuid: Option<FileId>,
    pub mode: Option<FileMode>,
    pub block: Option<DataBlockView>,
    pub filename: Option<Seq<char>>,
    pub address: Option<Seq<u8>>,
    pub amount: Option<u64>,
    pub permission: Option<Permission>,
    pub permission_public_key: Option<Seq<u8>>,
    pub timestamp_create: Option<i64>,
    pub timestamp_append: Option<i64>,
    pub timestamp_seal: Option<i64>,
}

/// The reason given when the file identity is missing.
pub open spec fn missing_uuid() -> Seq<char> {
    "Field 'uuid' is required"@
}

/// The reason given when the mode is missing.
pub open spec fn missing_mode() -> Seq<char> {
    "Field 'mode' is required"@
}

/// The reason given when the block is missing.
pub open spec fn missing_block() -> Seq<char> {
    "Field 'block' is required"@
}

/// The reason given when the address is missing.
pub open spec fn missing_address() -> Seq<char> {
    "Field 'address' is required"@
}

/// The reason given when the amount is missing.
pub open spec fn missing_amount() -> Seq<char> {
    "Field 'amount' is required"@
}

/// The reason given when the permission is missing.
pub open spec fn missing_permission() -> Seq<char> {
    "Field 'permission' is required"@
}

/// The reason given when the key of a permission is missing.
pub open spec fn missing_permission_public_key() -> Seq<char> {
    "Field 'permission_public_key' is required"@
}

/// The reason given when no timestamp is set.
pub open spec fn missing_timestamp() -> Seq<char> {
    "At least one of the the fields 'timestamp_create', 'timestamp_append' or 'timestamp_seal' must be set"@
}

/// The time that was set, or zero.
pub open spec fn time_or_zero(t: Option<i64>) -> i64 {
    match t {
        Some(t) => t,
        None => 0,
    }
}

/// What building gives: the payload, or the reason why a field is missing. Each operation asks
/// for its own fields, in a fixed order, and takes no others into the payload.
pub open spec fn build_outcome(b: PayloadBuilderView) -> Result<PayloadView, Seq<char>> {
    let blank = PayloadView::blank(b.operation);
    match b.operation {
        PayloadOperation::FileCreate => if b.uuid is None {
            Err(missing_uuid())
        } else if b.mode is None {
            Err(missing_mode())
        } else {
            Ok(
                PayloadView {
                    uuid: b.uuid->0.bytes(),
                    mode: b.mode->0,
                    filename: match b.filename {
                        Some(name) => name,
                        None => Seq::empty(),
                    },
                    ..blank
                },
            )
        },
        PayloadOperation::FileAppend => if b.uuid is None {
            Err(missing_uuid())
        } else if b.block is None {
            Err(missing_block())
        } else {
            Ok(PayloadView { uuid: b.uuid->0.bytes(), block: b.block, ..blank })
        },
        PayloadOperation::FileSeal | PayloadOperation::FileDestroy => if b.uuid is None {
            Err(missing_uuid())
        } else {
            Ok(PayloadView { uuid: b.uuid->0.bytes(), ..blank })
        },
        PayloadOperation::AccountDeposit | PayloadOperation::AccountTransfer => if b.address
            is None {
            Err(missing_address())
        } else if b.amount is None {
            Err(missing_amount())
        } else {
            Ok(PayloadView { address: b.address->0, amount: b.amount->0, ..blank })
        },
        PayloadOperation::PermissionSet => if b.permission is None {
            Err(missing_permission())
        } else if b.permission_public_key is None {
            Err(missing_permission_public_key())
        } else {
            Ok(
                PayloadView {
                    permission: b.permission->0,
                    permission_public_key: b.permission_public_key->0,
                    ..blank
                },
            )
        },
        PayloadOperation::PermissionClear => if b.permission is None {
            Err(missing_permission())
        } else {
            Ok(PayloadView { permission: b.permission->0, ..blank })
        },
        PayloadOperation::TimestampSet => if b.uuid is None {
            Err(missing_uuid())
        } else if b.timestamp_create is None && b.timestamp_append is None && b.timestamp_seal
            is None {
            Err(missing_timestamp())
        } else {
            Ok(
                PayloadView {
                    uuid: b.uuid->0.bytes(),
                    timestamp_create: time_or_zero(b.timestamp_create),
                    timestamp_append: time_or_zero(b.timestamp_append),
                    timestamp_seal: time_or_zero(b.timestamp_seal),
                    ..blank
                },
            )
        },
    }
}

/// Setting timestamps without a timestamp is refused, whatever else is given.
pub proof fn lemma_timestamp_set_needs_a_timestamp(b: PayloadBuilderView)
    requires
        b.operation == PayloadOperation::TimestampSet,
        b.timestamp_create is None,
        b.timestamp_append is None,
        b.timestamp_seal is None,
    ensures
        build_outcome(b) is Err,
{
}

/// An append without a block is refused, whatever else is given.
pub proof fn lemma_append_needs_a_block(b: PayloadBuilderView)
    requires
        b.operation == PayloadOperation::FileAppend,
        b.block is None,
    ensures
        build_outcome(b) is Err,
{
}

/// Collects the fields of one operation and checks, on `build`, that none that it needs is
/// missing.
#[derive(Debug)]
pub struct PayloadBuilder {
    operation: PayloadOperation,
    uuid: Option<FileId>,
    mode: Option<FileMode>,
    block: Option<DataBlock>,
    filename: Option<String>,
    address: Option<Vec<u8>>,
    amount: Option<u64>,
    permission: Option<Permission>,
    permission_public_key: Option<Vec<u8>>,
    timestamp_create: Option<i64>,
    timestamp_append: Option<i64>,
    timestamp_seal: Option<i64>,
}

impl View for PayloadBuilder {
    type V = PayloadBuilderView;

    closed spec fn view(&self) -> PayloadBuilderView {
        PayloadBuilderView {
            operation: self.operation,
            uuid: self.uuid,
            mode: self.mode,
            block: match self.block {
                Some(b) => Some(b@),
                None => None,
            },
            filename: match self.filename {
                Some(name) => Some(name@),
                None => None,
            },
            address: match self.address {
                Some(a) => Some(a@),
                None => None,
            },
            amount: self.amount,
            permission: self.permission,
            permission_public_key: match self.permission_public_key {
                Some(k) => Some(k@),
                None => None,
            },
            timestamp_create: self.timestamp_create,
            timestamp_append: self.timestamp_append,
            timestamp_seal: self.timestamp_seal,
        }
    }
}

fn missing(reason: &str) -> (e: PayloadBuildError)
    ensures
        e matches PayloadBuildError::MissingField(text) && text@ == reason@,
{
    PayloadBuildError::MissingField(String::from_str(reason))
}

impl PayloadBuilder {
    /// A builder for one operation, with no field given.
    pub fn new(operation: PayloadOperation) -> (builder: PayloadBuilder)
        ensures
            builder@ == (PayloadBuilderView {
                operation,
                uuid: None,
                mode: None,
                block: None,
                filename: None,
                address: None,
                amount: None,
                permission: None,
                permission_public_key: None,
                timestamp_create: None,
                timestamp_append: None,
                timestamp_seal: None,
            }),
    {
        PayloadBuilder {
            operation,
            uuid: None,
            mode: None,
            block: None,
            filename: None,
            address: None,
            amount: None,
            permission: None,
            permission_public_key: None,
            timestamp_create: None,
            timestamp_append: None,
            timestamp_seal: None,
        }
    }

    /// Gives the identity of the file.
    pub fn with_uuid(self, uuid: FileId) -> (builder: PayloadBuilder)
        ensures
            builder@ == (PayloadBuilderView { uuid: Some(uuid), ..self@ }),
    {
        let mut builder = self;
        builder.uuid = Some(uuid);
        builder
    }

    /// Gives the mode of the file.
    pub fn with_mode(self, mode: FileMode) -> (builder: PayloadBuilder)
        ensures
            builder@ == (PayloadBuilderView { mode: Some(mode), ..self@ }),
    {
        let mut builder = self;
        builder.mode = Some(mode);
        builder
    }

    /// Gives the data to append. The digest of the block is computed here, not taken from the
    /// caller.
    pub fn with_block(self, data: Vec<u8>) -> (builder: PayloadBuilder)
        ensures
            builder@ == (PayloadBuilderView {
                block: Some(DataBlockView { data: data@, sha224: sha224_digest(data@) }),
                ..self@
            }),
            builder@.block matches Some(block) && block.intact(),
    {
        let mut builder = self;
        builder.block = Some(DataBlock::new(data));
        builder
    }

    /// Gives the name of the file.
    pub fn with_filename(self, filename: String) -> (builder: PayloadBuilder)
        ensures
            builder@ == (PayloadBuilderView { filename: Some(filename@), ..self@ }),
    {
        let mut builder = self;
        builder.filename = Some(filename);
        builder
    }

    /// Gives the address of the account.
    pub fn with_address(self, address: Vec<u8>) -> (builder: PayloadBuilder)
        ensures
            builder@ == (PayloadBuilderView { address: Some(address@), ..self@ }),
    {
        let mut builder = self;
        builder.address = Some(address);
        builder
    }

    /// Gives the amount to deposit or to transfer.
    pub fn with_amount(self, amount: u64) -> (builder: PayloadBuilder)
        ensures
            builder@ == (PayloadBuilderView { amount: Some(amount), ..self@ }),
    {
        let mut builder = self;
        builder.amount = Some(amount);
        builder
    }

    /// Gives the permission to set or to clear.
    pub fn with_permission(self, perm: Permission) -> (builder: PayloadBuilder)
        ensures
            builder@ == (PayloadBuilderView { permission: Some(perm), ..self@ }),
    {
        let mut builder = self;
        builder.permission = Some(perm);
        builder
    }

    /// Gives the key that the permission is set for.
    pub fn with_permission_public_key(self, public_key: Vec<u8>) -> (builder: PayloadBuilder)
        ensures
            builder@ == (PayloadBuilderView {
                permission_public_key: Some(public_key@),
                ..self@
            }),
    {
        let mut builder = self;
        builder.permission_public_key = Some(public_key);
        builder
    }

    /// Gives the time of creation.
    pub fn with_timestamp_create(self, timestamp: i64) -> (builder: PayloadBuilder)
        ensures
            builder@ == (PayloadBuilderView { timestamp_create: Some(timestamp), ..self@ }),
    {
        let mut builder = self;
        builder.timestamp_create = Some(timestamp);
        builder
    }

    /// Gives the time of the last append.
    pub fn with_timestamp_append(self, timestamp: i64) -> (builder: PayloadBuilder)
        ensures
            builder@ == (PayloadBuilderView { timestamp_append: Some(timestamp), ..self@ }),
    {
        let mut builder = self;
        builder.timestamp_append = Some(timestamp);
        builder
    }

    /// Gives the time of sealing.
    pub fn with_timestamp_seal(self, timestamp: i64) -> (builder: PayloadBuilder)
        ensures
            builder@ == (PayloadBuilderView { timestamp_seal: Some(timestamp), ..self@ }),
    {
        let mut builder = self;
        builder.timestamp_seal = Some(timestamp);
        builder
    }

    /// Builds the payload of the operation, or says which field is missing.
    pub fn build(self) -> (r: Result<Payload, PayloadBuildError>)
        ensures
            match build_outcome(self@) {
                Ok(p) => r is Ok && r->Ok_0@ == p,
                Err(reason) => r matches Err(PayloadBuildError::MissingField(text)) && text@
                    == reason,
            },
            r matches Ok(p) ==> p@.block_intact(),
    {
        let mut payload = Payload::blank(self.operation);
        match self.operation {
            PayloadOperation::FileCreate => {
                match self.uuid {
                    Some(uuid) => {
                        payload.uuid = uuid.as_bytes();
                    },
                    None => {
                        return Err(missing("Field 'uuid' is required"));
                    },
                }
                match self.mode {
                    Some(mode) => {
                        payload.mode = mode;
                    },
                    None => {
                        return Err(missing("Field 'mode' is required"));
                    },
                }
                match self.filename {
                    Some(filename) => {
                        payload.filename = filename;
                    },
                    None => {},
                }
            },
            PayloadOperation::FileAppend => {
                match self.uuid {
                    Some(uuid) => {
                        payload.uuid = uuid.as_bytes();
                    },
                    None => {
                        return Err(missing("Field 'uuid' is required"));
                    },
                }
                match self.block {
                    Some(block) => {
                        proof {
                            use_type_invariant(&block);
                        }
                        payload.block = Some(block);
                    },
                    None => {
                        return Err(missing("Field 'block' is required"));
                    },
                }
            },
            PayloadOperation::FileSeal | PayloadOperation::FileDestroy => {
                match self.uuid {
                    Some(uuid) => {
                        payload.uuid = uuid.as_bytes();
                    },
                    None => {
                        return Err(missing("Field 'uuid' is required"));
                    },
                }
            },
            PayloadOperation::AccountDeposit | PayloadOperation::AccountTransfer => {
                match self.address {
                    Some(address) => {
                        payload.address = address;
                    },
                    None => {
                        return Err(missing("Field 'address' is required"));
                    },
                }
                match self.amount {
                    Some(amount) => {
                        payload.amount = amount;
                    },
                    None => {
                        return Err(missing("Field 'amount' is required"));
                    },
                }
            },
            PayloadOperation::PermissionSet => {
                match self.permission {
                    Some(permission) => {
                        payload.permission = permission;
                    },
                    None => {
                        return Err(missing("Field 'permission' is required"));
                    },
                }
                match self.permission_public_key {
                    Some(key) => {
                        payload.permission_public_key = key;
                    },
                    None => {
                        return Err(missing("Field 'permission_public_key' is required"));
                    },
                }
            },
            PayloadOperation::PermissionClear => {
                match self.permission {
                    Some(permission) => {
                        payload.permission = permission;
                    },
                    None => {
                        return Err(missing("Field 'permission' is required"));
                    },
                }
            },
            PayloadOperation::TimestampSet => {
                match self.uuid {
                    Some(uuid) => {
                        payload.uuid = uuid.as_bytes();
                    },
                    None => {
                        return Err(missing("Field 'uuid' is required"));
                    },
                }
                if self.timestamp_create.is_none() && self.timestamp_append.is_none()
                    && self.timestamp_seal.is_none() {
                    return Err(
                        missing(
                            "At least one of the the fields 'timestamp_create', 'timestamp_append' or 'timestamp_seal' must be set",
                        ),
                    );
                }
                match self.timestamp_create {
                    Some(timestamp) => {
                        payload.timestamp_create = timestamp;
                    },
                    None => {},
                }
                match self.timestamp_append {
                    Some(timestamp) => {
                        payload.timestamp_append = timestamp;
                    },
                    None => {},
                }
                match self.timestamp_seal {
                    Some(timestamp) => {
                        payload.timestamp_seal = timestamp;
                    },
                    None => {},
                }
            },
        }
        Ok(payload)
    }
}

} // verus!
