//! The tagged, length-prefixed binary encoding that every message travels in.
//!
//! A message is a run of fields. Each field starts with a key, `number * 8 + kind`, written as a
//! base-128 integer; kind 0 is followed by one base-128 integer, kind 2 by a length and that many
//! bytes, kind 1 by eight bytes and kind 5 by four. The messages of this crate write kinds 0 and
//! 2 only; a reader also takes fields of kinds 1 and 5, so that it can pass over them, and
//! rejects any other kind.

use vstd::prelude::*;

verus! {

/// The largest field number that a key can carry.
pub const MAX_FIELD_NUMBER: u32 = 0x1FFF_FFFF;

/// No base-128 integer is read past this many bytes.
pub const MAX_VARINT_BYTES: u8 = 10;

/// What a field holds, as a mathematical value.
pub enum WireValue {
    Varint(u64),
    Bytes(Seq<u8>),
    /// A value of fixed width, eight bytes or four, kept as its bytes.
    Fixed(Seq<u8>),
}

/// A field, as a mathematical value.
pub struct WireField {
    pub number: int,
    pub value: WireValue,
}

/// What a field holds.
#[derive(Debug)]
pub enum FieldValue {
    Varint(u64),
    Bytes(Vec<u8>),
    /// A value of fixed width, eight bytes or four, kept as its bytes.
    Fixed(Vec<u8>),
}

/// One field of a message.
#[derive(Debug)]
pub struct Field {
    pub number: u32,
    pub value: FieldValue,
}

impl View for Field {
    type V = WireField;

    open spec fn view(&self) -> WireField {
        WireField {
            number: self.number as int,
            value: match self.value {
                FieldValue::Varint(v) => WireValue::Varint(v),
                FieldValue::Bytes(b) => WireValue::Bytes(b@),
                FieldValue::Fixed(b) => WireValue::Fixed(b@),
            },
        }
    }
}

/// The fields of a list, each by its view.
pub open spec fn views(fields: Seq<Field>) -> Seq<WireField> {
    fields.map_values(|f: Field| f@)
}

/// Base-128 digits, least significant first; every byte but the last has its high bit set.
pub open spec fn varint(v: nat) -> Seq<u8>
    decreases v,
{
    if v < 128 {
        seq![v as u8]
    } else {
        seq![(128 + v % 128) as u8] + varint(v / 128)
    }
}

/// The base-128 integer at the head of `bytes` and the number of bytes it takes, reading at most
/// `limit` bytes. `None` where the bytes end early, the limit is passed, or the value does not
/// fit 64 bits. Digits of zero at the high end are accepted.
pub open spec fn read_varint(bytes: Seq<u8>, limit: nat) -> Option<(u64, nat)>
    decreases limit,
{
    if limit == 0 || bytes.len() == 0 {
        None
    } else if bytes[0] < 128 {
        Some((bytes[0] as u64, 1))
    } else {
        match read_varint(bytes.skip(1), (limit - 1) as nat) {
            Some((v, k)) => if (bytes[0] - 128) + 128 * v <= u64::MAX {
                Some((((bytes[0] - 128) + 128 * v) as u64, k + 1))
            } else {
                None
            },
            None => None,
        }
    }
}

/// Whether a field can be written: its number fits a key, its length fits 64 bits, and a value
/// of fixed width has eight bytes or four.
pub open spec fn valid_field(f: WireField) -> bool {
    &&& 1 <= f.number <= MAX_FIELD_NUMBER
    &&& f.value matches WireValue::Bytes(b) ==> b.len() <= u64::MAX
    &&& f.value matches WireValue::Fixed(b) ==> b.len() == 8 || b.len() == 4
}

/// The kind under which a value of fixed width is written: 1 for eight bytes, 5 for four.
pub open spec fn fixed_kind(width: nat) -> int {
    if width == 8 {
        1
    } else {
        5
    }
}

/// Whether every field of a list can be written.
pub open spec fn valid_fields(fields: Seq<WireField>) -> bool {
    forall|i: int| 0 <= i < fields.len() ==> valid_field(#[trigger] fields[i])
}

/// The bytes of one field: key, then value.
pub open spec fn encode_field(f: WireField) -> Seq<u8> {
    match f.value {
        WireValue::Varint(v) => varint((f.number * 8) as nat) + varint(v as nat),
        WireValue::Bytes(b) => varint((f.number * 8 + 2) as nat) + varint(b.len()) + b,
        WireValue::Fixed(b) => varint((f.number * 8 + fixed_kind(b.len())) as nat) + b,
    }
}

/// The bytes of a run of fields, one after the other.
pub open spec fn encode_fields(fields: Seq<WireField>) -> Seq<u8>
    decreases fields.len(),
{
    if fields.len() == 0 {
        Seq::empty()
    } else {
        encode_fields(fields.drop_last()) + encode_field(fields.last())
    }
}

/// The field at the head of `bytes` and the number of bytes it takes.
pub open spec fn decode_field(bytes: Seq<u8>) -> Option<(WireField, nat)> {
    match read_varint(bytes, MAX_VARINT_BYTES as nat) {
        None => None,
        Some((key, k)) => {
            let number = key as int / 8;
            let kind = key as int % 8;
            if number < 1 || number > MAX_FIELD_NUMBER {
                None
            } else if kind == 1 || kind == 5 {
                let width: nat = if kind == 1 {
                    8
                } else {
                    4
                };
                if k + width <= bytes.len() {
                    Some(
                        (
                            WireField {
                                number,
                                value: WireValue::Fixed(bytes.subrange(k as int, (k + width) as int)),
                            },
                            (k + width) as nat,
                        ),
                    )
                } else {
                    None
                }
            } else if kind == 0 || kind == 2 {
                match read_varint(bytes.skip(k as int), MAX_VARINT_BYTES as nat) {
                    None => None,
                    Some((v, k2)) => if kind == 0 {
                        Some((WireField { number, value: WireValue::Varint(v) }, k + k2))
                    } else if k + k2 + v <= bytes.len() {
                        Some(
                            (
                                WireField {
                                    number,
                                    value: WireValue::Bytes(
                                        bytes.subrange((k + k2) as int, (k + k2 + v) as int),
                                    ),
                                },
                                (k + k2 + v) as nat,
                            ),
                        )
                    } else {
                        None
                    },
                }
            } else {
                None
            }
        },
    }
}

/// The fields that `bytes` hold from end to end; `None` where some field is malformed.
pub open spec fn decode_fields(bytes: Seq<u8>) -> Option<Seq<WireField>>
    decreases bytes.len(),
{
    if bytes.len() == 0 {
        Some(Seq::empty())
    } else {
        match decode_field(bytes) {
            None => None,
            Some((f, k)) => if k == 0 || k > bytes.len() {
                None
            } else {
                match decode_fields(bytes.skip(k as int)) {
                    Some(rest) => Some(seq![f] + rest),
                    None => None,
                }
            },
        }
    }
}

spec fn capacity(digits: nat) -> nat
    decreases digits,
{
    if digits == 0 {
        1
    } else {
        128 * capacity((digits - 1) as nat)
    }
}

proof fn lemma_varint_len(v: nat, digits: nat)
    requires
        digits >= 1,
        v < capacity(digits),
    ensures
        1 <= varint(v).len() <= digits,
    decreases v,
{
    reveal_with_fuel(capacity, 2);
    if v >= 128 {
        lemma_varint_len(v / 128, (digits - 1) as nat);
    }
}

/// A 64-bit value takes between one and ten bytes.
pub proof fn lemma_varint_fits(v: nat)
    requires
        v <= u64::MAX,
    ensures
        1 <= varint(v).len() <= MAX_VARINT_BYTES,
{
    assert(capacity(10) > u64::MAX) by {
        assert(capacity(0) == 1);
        assert(capacity(1) == 128);
        assert(capacity(2) == 128 * 128);
        assert(capacity(3) == 128 * 128 * 128);
        assert(capacity(4) == 128 * 128 * 128 * 128);
        assert(capacity(5) == 128 * 128 * 128 * 128 * 128);
        assert(capacity(6) == 0x400_0000_0000);
        assert(capacity(7) == 0x2_0000_0000_0000);
        assert(capacity(8) == 0x100_0000_0000_0000);
        assert(capacity(9) == 0x8000_0000_0000_0000);
        assert(capacity(10) == 128 * capacity(9));
    }
    lemma_varint_len(v, 10);
}

/// Reading gives back a written value, whatever follows it.
pub proof fn lemma_varint_round_trip(v: nat, rest: Seq<u8>, limit: nat)
    requires
        v <= u64::MAX,
        varint(v).len() <= limit,
    ensures
        read_varint(varint(v) + rest, limit) == Some((v as u64, varint(v).len())),
    decreases v,
{
    let bytes = varint(v) + rest;
    if v >= 128 {
        assert(bytes.skip(1) =~= varint(v / 128) + rest);
        lemma_varint_round_trip(v / 128, rest, (limit - 1) as nat);
    }
}

proof fn lemma_key_parts(number: int, kind: int)
    requires
        1 <= number <= MAX_FIELD_NUMBER,
        0 <= kind < 8,
    ensures
        (number * 8 + kind) / 8 == number,
        (number * 8 + kind) % 8 == kind,
        0 <= number * 8 + kind <= u64::MAX,
{
}

proof fn lemma_varint_field_round_trip(f: WireField, rest: Seq<u8>)
    requires
        valid_field(f),
        f.value is Varint,
    ensures
        decode_field(encode_field(f) + rest) == Some((f, encode_field(f).len())),
        encode_field(f).len() > 0,
{
    let v = f.value->Varint_0;
    let bytes = encode_field(f) + rest;
    let key = (f.number * 8) as nat;
    lemma_key_parts(f.number, 0);
    lemma_varint_fits(key);
    lemma_varint_fits(v as nat);
    assert(bytes =~= varint(key) + (varint(v as nat) + rest));
    lemma_varint_round_trip(key, varint(v as nat) + rest, 10);
    assert(bytes.skip(varint(key).len() as int) =~= varint(v as nat) + rest);
    lemma_varint_round_trip(v as nat, rest, 10);
}

proof fn lemma_bytes_field_round_trip(f: WireField, rest: Seq<u8>)
    requires
        valid_field(f),
        f.value is Bytes,
    ensures
        decode_field(encode_field(f) + rest) == Some((f, encode_field(f).len())),
        encode_field(f).len() > 0,
{
    let b = f.value->Bytes_0;
    let bytes = encode_field(f) + rest;
    let key = (f.number * 8 + 2) as nat;
    lemma_key_parts(f.number, 2);
    lemma_varint_fits(key);
    lemma_varint_fits(b.len());
    assert(bytes =~= varint(key) + (varint(b.len()) + (b + rest)));
    lemma_varint_round_trip(key, varint(b.len()) + (b + rest), 10);
    assert(bytes.skip(varint(key).len() as int) =~= varint(b.len()) + (b + rest));
    lemma_varint_round_trip(b.len(), b + rest, 10);
    let start = varint(key).len() + varint(b.len()).len();
    assert(bytes.subrange(start as int, (start + b.len()) as int) =~= b);
}

proof fn lemma_fixed_field_round_trip(f: WireField, rest: Seq<u8>)
    requires
        valid_field(f),
        f.value is Fixed,
    ensures
        decode_field(encode_field(f) + rest) == Some((f, encode_field(f).len())),
        encode_field(f).len() > 0,
{
    let b = f.value->Fixed_0;
    let bytes = encode_field(f) + rest;
    let kind = fixed_kind(b.len());
    let key = (f.number * 8 + kind) as nat;
    lemma_key_parts(f.number, kind);
    lemma_varint_fits(key);
    assert(bytes =~= varint(key) + (b + rest));
    lemma_varint_round_trip(key, b + rest, 10);
    let start = varint(key).len();
    assert(bytes.subrange(start as int, (start + b.len()) as int) =~= b);
}

/// Reading gives back a written field, whatever follows it.
pub proof fn lemma_field_round_trip(f: WireField, rest: Seq<u8>)
    requires
        valid_field(f),
    ensures
        decode_field(encode_field(f) + rest) == Some((f, encode_field(f).len())),
        encode_field(f).len() > 0,
{
    match f.value {
        WireValue::Varint(_) => lemma_varint_field_round_trip(f, rest),
        WireValue::Bytes(_) => lemma_bytes_field_round_trip(f, rest),
        WireValue::Fixed(_) => lemma_fixed_field_round_trip(f, rest),
    }
}

/// The bytes of two runs of fields, joined, are the bytes of the joined run.
pub proof fn lemma_encode_fields_concat(a: Seq<WireField>, b: Seq<WireField>)
    ensures
        encode_fields(a + b) == encode_fields(a) + encode_fields(b),
    decreases b.len(),
{
    if b.len() == 0 {
        assert(a + b =~= a);
        assert(encode_fields(a) + encode_fields(b) =~= encode_fields(a));
    } else {
        assert((a + b).drop_last() =~= a + b.drop_last());
        assert((a + b).last() == b.last());
        lemma_encode_fields_concat(a, b.drop_last());
        assert(encode_fields(a + b) =~= encode_fields(a) + encode_fields(b));
    }
}

/// Reading gives back a written run of fields.
pub proof fn lemma_fields_round_trip(fields: Seq<WireField>)
    requires
        valid_fields(fields),
    ensures
        decode_fields(encode_fields(fields)) == Some(fields),
    decreases fields.len(),
{
    if fields.len() == 0 {
    } else {
        let head = fields[0];
        let tail = fields.skip(1);
        assert(fields =~= seq![head] + tail);
        lemma_encode_fields_concat(seq![head], tail);
        assert(seq![head].drop_last() =~= Seq::<WireField>::empty());
        assert(encode_fields(Seq::<WireField>::empty()) =~= Seq::<u8>::empty());
        assert(encode_fields(seq![head]) =~= encode_field(head));
        let bytes = encode_fields(fields);
        assert(bytes == encode_field(head) + encode_fields(tail));
        lemma_field_round_trip(head, encode_fields(tail));
        assert(bytes.skip(encode_field(head).len() as int) =~= encode_fields(tail));
        assert(valid_fields(tail)) by {
            assert forall|i: int| 0 <= i < tail.len() implies valid_field(#[trigger] tail[i]) by {
                assert(tail[i] == fields[i + 1]);
            }
        }
        lemma_fields_round_trip(tail);
    }
}

/// Appends a value as a base-128 integer.
pub fn put_varint(out: &mut Vec<u8>, v: u64)
    ensures
        final(out)@ == old(out)@ + varint(v as nat),
{
    let mut rest: u64 = v;
    while rest >= 128
        invariant
            old(out)@ + varint(v as nat) == out@ + varint(rest as nat),
        decreases rest,
    {
        let digit: u8 = (128 + rest % 128) as u8;
        proof {
            assert(out@.push(digit) + varint((rest / 128) as nat) =~= out@ + varint(rest as nat));
        }
        out.push(digit);
        rest = rest / 128;
    }
    proof {
        assert(out@.push(rest as u8) =~= out@ + varint(rest as nat));
    }
    out.push(rest as u8);
}

/// Appends a field that holds an integer.
pub fn put_varint_field(out: &mut Vec<u8>, number: u32, v: u64)
    requires
        1 <= number <= MAX_FIELD_NUMBER,
    ensures
        final(out)@ == old(out)@ + encode_field(
            WireField { number: number as int, value: WireValue::Varint(v) },
        ),
{
    let key: u64 = number as u64 * 8;
    put_varint(out, key);
    put_varint(out, v);
    proof {
        assert(out@ =~= old(out)@ + (varint(key as nat) + varint(v as nat)));
    }
}

/// Appends a field that holds bytes.
pub fn put_bytes_field(out: &mut Vec<u8>, number: u32, data: &[u8])
    requires
        1 <= number <= MAX_FIELD_NUMBER,
    ensures
        final(out)@ == old(out)@ + encode_field(
            WireField { number: number as int, value: WireValue::Bytes(data@) },
        ),
{
    let key: u64 = number as u64 * 8 + 2;
    put_varint(out, key);
    put_varint(out, data.len() as u64);
    out.extend_from_slice(data);
    proof {
        assert(out@ =~= old(out)@ + (varint(key as nat) + varint(data@.len()) + data@));
    }
}

fn take_varint(bytes: &[u8], pos: usize, limit: u8) -> (r: Option<(u64, usize)>)
    requires
        pos <= bytes@.len(),
    ensures
        match read_varint(bytes@.skip(pos as int), limit as nat) {
            Some((v, k)) => {
                &&& r matches Some(pair)
                &&& pair.0 == v
                &&& pair.1 == pos + k
                &&& 1 <= k
                &&& pos + k <= bytes@.len()
            },
            None => r is None,
        },
    decreases limit,
{
    if limit == 0 || pos >= bytes.len() {
        return None;
    }
    let first: u8 = bytes[pos];
    assert(bytes@.skip(pos as int)[0] == first);
    if first < 128 {
        return Some((first as u64, pos + 1));
    }
    assert(bytes@.skip(pos as int).skip(1) =~= bytes@.skip(pos as int + 1));
    match take_varint(bytes, pos + 1, limit - 1) {
        None => None,
        Some((v, end)) => {
            let wide: u128 = (first - 128) as u128 + 128 * (v as u128);
            if wide <= u64::MAX as u128 {
                Some((wide as u64, end))
            } else {
                None
            }
        },
    }
}

fn take_field(bytes: &[u8], pos: usize) -> (r: Option<(Field, usize)>)
    requires
        pos <= bytes@.len(),
    ensures
        match decode_field(bytes@.skip(pos as int)) {
            Some((f, k)) => {
                &&& r matches Some(pair)
                &&& pair.0@ == f
                &&& pair.1 == pos + k
                &&& 1 <= k
                &&& pos + k <= bytes@.len()
            },
            None => r is None,
        },
{
    let ghost tail = bytes@.skip(pos as int);
    match take_varint(bytes, pos, MAX_VARINT_BYTES) {
        None => None,
        Some((key, after_key)) => {
            let number: u64 = key / 8;
            let kind: u64 = key % 8;
            if number < 1 || number > MAX_FIELD_NUMBER as u64 {
                return None;
            }
            if kind == 1 || kind == 5 {
                let width: usize = if kind == 1 {
                    8
                } else {
                    4
                };
                if bytes.len() - after_key < width {
                    return None;
                }
                let end: usize = after_key + width;
                let data = vstd::slice::slice_to_vec(
                    vstd::slice::slice_subrange(bytes, after_key, end),
                );
                assert(data@ =~= tail.subrange(after_key - pos, end - pos));
                return Some((Field { number: number as u32, value: FieldValue::Fixed(data) }, end));
            }
            if kind != 0 && kind != 2 {
                return None;
            }
            assert(tail.skip(after_key - pos) =~= bytes@.skip(after_key as int));
            match take_varint(bytes, after_key, MAX_VARINT_BYTES) {
                None => None,
                Some((v, after_value)) => {
                    if kind == 0 {
                        return Some(
                            (
                                Field { number: number as u32, value: FieldValue::Varint(v) },
                                after_value,
                            ),
                        );
                    }
                    let room: usize = bytes.len() - after_value;
                    if v > room as u64 {
                        return None;
                    }
                    let end: usize = after_value + v as usize;
                    let data = vstd::slice::slice_to_vec(
                        vstd::slice::slice_subrange(bytes, after_value, end),
                    );
                    assert(data@ =~= tail.subrange(after_value - pos, end - pos));
                    Some((Field { number: number as u32, value: FieldValue::Bytes(data) }, end))
                },
            }
        },
    }
}

/// Splits a message into its fields, in the order in which they stand.
///
/// Gives `None` where a key or a length is malformed, a field runs past the end, a field number
/// is zero or too large, or a field is of a kind other than 0, 1, 2 and 5.
pub fn parse_fields(bytes: &[u8]) -> (r: Option<Vec<Field>>)
    ensures
        match decode_fields(bytes@) {
            Some(fields) => r is Some && views(r->0@) == fields,
            None => r is None,
        },
{
    let mut fields: Vec<Field> = Vec::new();
    let mut pos: usize = 0;
    assert(bytes@.skip(0) =~= bytes@);
    while pos < bytes.len()
        invariant
            pos <= bytes@.len(),
            match decode_fields(bytes@.skip(pos as int)) {
                Some(rest) => decode_fields(bytes@) == Some(views(fields@) + rest),
                None => decode_fields(bytes@) is None,
            },
        decreases bytes@.len() - pos,
    {
        let ghost tail = bytes@.skip(pos as int);
        match take_field(bytes, pos) {
            None => {
                return None;
            },
            Some((field, end)) => {
                proof {
                    assert(tail.skip(end - pos) =~= bytes@.skip(end as int));
                    let rest = decode_fields(bytes@.skip(end as int));
                    if rest is Some {
                        assert(views(fields@.push(field)) + rest->0 =~= views(fields@) + (seq![
                            field@,
                        ] + rest->0));
                    }
                }
                fields.push(field);
                pos = end;
            },
        }
    }
    proof {
        assert(views(fields@) + Seq::<WireField>::empty() =~= views(fields@));
    }
    Some(fields)
}

} // verus!
