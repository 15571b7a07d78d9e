//! Reading and writing the fields of a message by number.
//!
//! A writer leaves out a field that holds nothing: an integer of zero, bytes or text of length
//! zero. A reader takes the last field of a given number that is of the expected kind, and takes
//! a field that is missing to hold nothing. Fields of other numbers or of another kind are
//! passed over.

use crate::wire::{
    encode_field, encode_fields, lemma_encode_fields_concat, put_bytes_field, put_varint_field,
    valid_field, valid_fields, views, Field, FieldValue, WireField, WireValue, MAX_FIELD_NUMBER,
};
use vstd::prelude::*;
use vstd::string::*;
use vstd::utf8::*;

verus! {

/// The integer of the last integer field numbered `number`, if there is one.
pub open spec fn last_varint(fields: Seq<WireField>, number: int) -> Option<u64>
    decreases fields.len(),
{
    if fields.len() == 0 {
        None
    } else if fields.last().number == number && fields.last().value is Varint {
        Some(fields.last().value->Varint_0)
    } else {
        last_varint(fields.drop_last(), number)
    }
}

/// The bytes of the last bytes field numbered `number`, if there is one.
pub open spec fn last_bytes(fields: Seq<WireField>, number: int) -> Option<Seq<u8>>
    decreases fields.len(),
{
    if fields.len() == 0 {
        None
    } else if fields.last().number == number && fields.last().value is Bytes {
        Some(fields.last().value->Bytes_0)
    } else {
        last_bytes(fields.drop_last(), number)
    }
}

/// The bytes of every bytes field numbered `number`, in the order in which they stand.
pub open spec fn all_bytes(fields: Seq<WireField>, number: int) -> Seq<Seq<u8>>
    decreases fields.len(),
{
    if fields.len() == 0 {
        Seq::empty()
    } else if fields.last().number == number && fields.last().value is Bytes {
        all_bytes(fields.drop_last(), number).push(fields.last().value->Bytes_0)
    } else {
        all_bytes(fields.drop_last(), number)
    }
}

/// An integer field, left out when the integer is zero.
pub open spec fn varint_piece(number: int, v: u64) -> Seq<WireField> {
    if v == 0 {
        Seq::empty()
    } else {
        seq![WireField { number, value: WireValue::Varint(v) }]
    }
}

/// A bytes field, left out when there are no bytes.
pub open spec fn bytes_piece(number: int, data: Seq<u8>) -> Seq<WireField> {
    if data.len() == 0 {
        Seq::empty()
    } else {
        seq![WireField { number, value: WireValue::Bytes(data) }]
    }
}

/// A bytes field that is written even when it holds no bytes.
pub open spec fn present_piece(number: int, data: Seq<u8>) -> Seq<WireField> {
    seq![WireField { number, value: WireValue::Bytes(data) }]
}

/// One bytes field for each item, in order.
pub open spec fn repeated_piece(number: int, items: Seq<Seq<u8>>) -> Seq<WireField> {
    Seq::new(items.len(), |i: int| WireField { number, value: WireValue::Bytes(items[i]) })
}

/// The UTF-8 bytes of each text.
pub open spec fn utf8_each(texts: Seq<Seq<char>>) -> Seq<Seq<u8>> {
    Seq::new(texts.len(), |i: int| encode_utf8(texts[i]))
}

/// The integer that a message holds under `number`: zero where the field is missing.
pub open spec fn varint_at(fields: Seq<WireField>, number: int) -> u64 {
    match last_varint(fields, number) {
        Some(v) => v,
        None => 0,
    }
}

/// The bytes that a message holds under `number`: none where the field is missing.
pub open spec fn bytes_at(fields: Seq<WireField>, number: int) -> Seq<u8> {
    match last_bytes(fields, number) {
        Some(b) => b,
        None => Seq::empty(),
    }
}

/// The text that a message holds under `number`; `None` where the bytes are not UTF-8.
pub open spec fn text_at(fields: Seq<WireField>, number: int) -> Option<Seq<char>> {
    let b = bytes_at(fields, number);
    if valid_utf8(b) {
        Some(decode_utf8(b))
    } else {
        None
    }
}

/// Whether each of the byte strings is UTF-8.
pub open spec fn all_utf8(items: Seq<Seq<u8>>) -> bool {
    forall|i: int| 0 <= i < items.len() ==> valid_utf8(#[trigger] items[i])
}

/// The texts that a message holds under `number`; `None` where some item is not UTF-8.
pub open spec fn texts_at(fields: Seq<WireField>, number: int) -> Option<Seq<Seq<char>>> {
    let items = all_bytes(fields, number);
    if all_utf8(items) {
        Some(Seq::new(items.len(), |i: int| decode_utf8(items[i])))
    } else {
        None
    }
}

/// Each text of a list, by its view.
pub open spec fn text_views(texts: Seq<String>) -> Seq<Seq<char>> {
    texts.map_values(|t: String| t@)
}

/// What a message holds once an integer field has been added at its end.
pub proof fn lemma_after_varint_piece(a: Seq<WireField>, number: int, v: u64)
    ensures
        forall|n: int| #[trigger]
            last_varint(a + varint_piece(number, v), n) == if n == number && v != 0 {
                Some(v)
            } else {
                last_varint(a, n)
            },
        forall|n: int| #[trigger] last_bytes(a + varint_piece(number, v), n) == last_bytes(a, n),
        forall|n: int| #[trigger] all_bytes(a + varint_piece(number, v), n) == all_bytes(a, n),
        valid_fields(a) && 1 <= number <= MAX_FIELD_NUMBER ==> valid_fields(
            a + varint_piece(number, v),
        ),
{
    let whole = a + varint_piece(number, v);
    if v == 0 {
        assert(whole =~= a);
    } else {
        assert(whole.drop_last() =~= a);
    }
}

/// What a message holds once a bytes field has been added at its end.
pub proof fn lemma_after_bytes_piece(a: Seq<WireField>, number: int, data: Seq<u8>)
    ensures
        forall|n: int| #[trigger]
            last_bytes(a + bytes_piece(number, data), n) == if n == number && data.len() != 0 {
                Some(data)
            } else {
                last_bytes(a, n)
            },
        forall|n: int| #[trigger]
            all_bytes(a + bytes_piece(number, data), n) == if n == number && data.len() != 0 {
                all_bytes(a, n).push(data)
            } else {
                all_bytes(a, n)
            },
        forall|n: int| #[trigger] last_varint(a + bytes_piece(number, data), n) == last_varint(a, n),
        valid_fields(a) && 1 <= number <= MAX_FIELD_NUMBER && data.len() <= u64::MAX
            ==> valid_fields(a + bytes_piece(number, data)),
{
    let whole = a + bytes_piece(number, data);
    if data.len() == 0 {
        assert(whole =~= a);
    } else {
        assert(whole.drop_last() =~= a);
    }
}

/// What a message holds once a bytes field that is always written has been added at its end.
pub proof fn lemma_after_present_piece(a: Seq<WireField>, number: int, data: Seq<u8>)
    ensures
        forall|n: int| #[trigger]
            last_bytes(a + present_piece(number, data), n) == if n == number {
                Some(data)
            } else {
                last_bytes(a, n)
            },
        forall|n: int| #[trigger]
            all_bytes(a + present_piece(number, data), n) == if n == number {
                all_bytes(a, n).push(data)
            } else {
                all_bytes(a, n)
            },
        forall|n: int| #[trigger]
            last_varint(a + present_piece(number, data), n) == last_varint(a, n),
        valid_fields(a) && 1 <= number <= MAX_FIELD_NUMBER && data.len() <= u64::MAX
            ==> valid_fields(a + present_piece(number, data)),
{
    let whole = a + present_piece(number, data);
    assert(whole.drop_last() =~= a);
}

/// What a message holds once one bytes field for each item has been added at its end.
pub proof fn lemma_after_repeated_piece(a: Seq<WireField>, number: int, items: Seq<Seq<u8>>)
    ensures
        forall|n: int| #[trigger]
            all_bytes(a + repeated_piece(number, items), n) == if n == number {
                all_bytes(a, n) + items
            } else {
                all_bytes(a, n)
            },
        forall|n: int|
            n != number ==> #[trigger] last_bytes(a + repeated_piece(number, items), n)
                == last_bytes(a, n),
        forall|n: int| #[trigger]
            last_varint(a + repeated_piece(number, items), n) == last_varint(a, n),
        valid_fields(a) && 1 <= number <= MAX_FIELD_NUMBER && (forall|i: int|
            0 <= i < items.len() ==> (#[trigger] items[i]).len() <= u64::MAX) ==> valid_fields(
            a + repeated_piece(number, items),
        ),
    decreases items.len(),
{
    let whole = a + repeated_piece(number, items);
    if items.len() == 0 {
        assert(whole =~= a);
        assert forall|n: int| #[trigger] all_bytes(whole, n) == if n == number {
            all_bytes(a, n) + items
        } else {
            all_bytes(a, n)
        } by {
            assert(all_bytes(a, n) + items =~= all_bytes(a, n));
        }
    } else {
        let shorter = items.drop_last();
        lemma_after_repeated_piece(a, number, shorter);
        let before = a + repeated_piece(number, shorter);
        assert(whole.drop_last() =~= before);
        assert(whole.last() == WireField { number, value: WireValue::Bytes(items.last()) });
        assert forall|n: int| #[trigger] all_bytes(whole, n) == if n == number {
            all_bytes(a, n) + items
        } else {
            all_bytes(a, n)
        } by {
            assert(all_bytes(before, n) == if n == number {
                all_bytes(a, n) + shorter
            } else {
                all_bytes(a, n)
            });
            if n == number {
                assert(all_bytes(whole, n) == all_bytes(before, n).push(items.last()));
                assert((all_bytes(a, n) + shorter).push(items.last()) =~= all_bytes(a, n) + items);
            } else {
                assert(all_bytes(whole, n) == all_bytes(before, n));
            }
        }
        assert forall|n: int| n != number implies #[trigger] last_bytes(whole, n) == last_bytes(
            a,
            n,
        ) by {
            assert(last_bytes(whole, n) == last_bytes(before, n));
        }
        assert forall|n: int| #[trigger] last_varint(whole, n) == last_varint(a, n) by {
            assert(last_varint(whole, n) == last_varint(before, n));
        }
        if valid_fields(a) && 1 <= number <= MAX_FIELD_NUMBER && (forall|i: int|
            0 <= i < items.len() ==> (#[trigger] items[i]).len() <= u64::MAX) {
            assert forall|i: int| 0 <= i < shorter.len() implies (#[trigger] shorter[i]).len()
                <= u64::MAX by {
                assert(shorter[i] == items[i]);
            }
            assert(items[items.len() - 1].len() <= u64::MAX);
            assert(valid_fields(whole)) by {
                assert forall|i: int| 0 <= i < whole.len() implies valid_field(
                    #[trigger] whole[i],
                ) by {
                    if i < before.len() {
                        assert(whole[i] == before[i]);
                    }
                }
            }
        }
    }
}

/// Texts come back from their UTF-8 bytes.
pub proof fn lemma_utf8_each_round_trip(texts: Seq<Seq<char>>)
    ensures
        all_utf8(utf8_each(texts)),
        Seq::new(utf8_each(texts).len(), |i: int| decode_utf8(utf8_each(texts)[i])) == texts,
{
    let items = utf8_each(texts);
    assert forall|i: int| 0 <= i < items.len() implies valid_utf8(#[trigger] items[i]) by {
        encode_utf8_valid_utf8(texts[i]);
    }
    let back = Seq::new(items.len(), |i: int| decode_utf8(items[i]));
    assert forall|i: int| 0 <= i < texts.len() implies back[i] == texts[i] by {
        encode_utf8_decode_utf8(texts[i]);
    }
    assert(back =~= texts);
}

/// Builds a message field by field.
pub struct Writer {
    bytes: Vec<u8>,
    written: Ghost<Seq<WireField>>,
}

impl Writer {
    /// The fields written so far.
    pub closed spec fn fields(&self) -> Seq<WireField> {
        self.written@
    }

    /// The bytes written so far are those of the fields written so far: no caller can make a
    /// writer of which this does not hold.
    pub closed spec fn wf(&self) -> bool {
        self.bytes@ == encode_fields(self.written@)
    }

    #[verifier::type_invariant]
    spec fn kept(&self) -> bool {
        self.bytes@ == encode_fields(self.written@)
    }

    /// Takes out what was written; the writer is left without fields.
    fn take(&mut self) -> (taken: (Vec<u8>, Ghost<Seq<WireField>>))
        ensures
            taken.0@ == encode_fields(taken.1@),
            taken.1@ == old(self).fields(),
    {
        let mut fresh = Writer::new();
        std::mem::swap(&mut fresh, self);
        proof {
            use_type_invariant(&fresh);
        }
        let Writer { bytes, written } = fresh;
        (bytes, written)
    }

    /// A message without fields.
    pub fn new() -> (w: Writer)
        ensures
            w.wf(),
            w.fields() == Seq::<WireField>::empty(),
    {
        Writer { bytes: Vec::new(), written: Ghost(Seq::empty()) }
    }

    /// Adds an integer, unless it is zero.
    pub fn put_varint(&mut self, number: u32, v: u64)
        requires
            1 <= number <= MAX_FIELD_NUMBER,
        ensures
            final(self).wf(),
            final(self).fields() == old(self).fields() + varint_piece(number as int, v),
    {
        let ghost piece = varint_piece(number as int, v);
        let (mut bytes, written) = self.take();
        proof {
            lemma_encode_fields_concat(written@, piece);
            lemma_singleton(WireField { number: number as int, value: WireValue::Varint(v) });
        }
        if v != 0 {
            put_varint_field(&mut bytes, number, v);
        } else {
            assert(bytes@ + Seq::<u8>::empty() =~= bytes@);
        }
        *self = Writer { bytes, written: Ghost(written@ + piece) };
    }

    /// Adds bytes, unless there are none.
    pub fn put_bytes(&mut self, number: u32, data: &[u8])
        requires
            1 <= number <= MAX_FIELD_NUMBER,
        ensures
            final(self).wf(),
            final(self).fields() == old(self).fields() + bytes_piece(number as int, data@),
            data@.len() <= usize::MAX,
    {
        let ghost piece = bytes_piece(number as int, data@);
        let (mut bytes, written) = self.take();
        proof {
            lemma_encode_fields_concat(written@, piece);
            lemma_singleton(WireField { number: number as int, value: WireValue::Bytes(data@) });
        }
        if data.len() != 0 {
            put_bytes_field(&mut bytes, number, data);
        } else {
            assert(bytes@ + Seq::<u8>::empty() =~= bytes@);
        }
        *self = Writer { bytes, written: Ghost(written@ + piece) };
    }

    /// Adds bytes, even if there are none.
    pub fn put_present(&mut self, number: u32, data: &[u8])
        requires
            1 <= number <= MAX_FIELD_NUMBER,
        ensures
            final(self).wf(),
            final(self).fields() == old(self).fields() + present_piece(number as int, data@),
            data@.len() <= usize::MAX,
    {
        let length: usize = data.len();
        let ghost piece = present_piece(number as int, data@);
        let (mut bytes, written) = self.take();
        proof {
            lemma_encode_fields_concat(written@, piece);
            lemma_singleton(WireField { number: number as int, value: WireValue::Bytes(data@) });
        }
        put_bytes_field(&mut bytes, number, data);
        *self = Writer { bytes, written: Ghost(written@ + piece) };
    }

    /// Adds a text as its UTF-8 bytes, unless it is empty.
    pub fn put_text(&mut self, number: u32, text: &str)
        requires
            1 <= number <= MAX_FIELD_NUMBER,
        ensures
            final(self).wf(),
            final(self).fields() == old(self).fields() + bytes_piece(
                number as int,
                encode_utf8(text@),
            ),
            encode_utf8(text@).len() <= usize::MAX,
    {
        self.put_bytes(number, text.as_bytes());
    }

    /// Adds each text of a list as a field of its own, an empty text too.
    pub fn put_texts(&mut self, number: u32, texts: &Vec<String>)
        requires
            1 <= number <= MAX_FIELD_NUMBER,
        ensures
            final(self).wf(),
            final(self).fields() == old(self).fields() + repeated_piece(
                number as int,
                utf8_each(text_views(texts@)),
            ),
            forall|i: int|
                0 <= i < texts@.len() ==> (#[trigger] utf8_each(text_views(texts@))[i]).len()
                    <= usize::MAX,
    {
        let ghost items = utf8_each(text_views(texts@));
        let mut i: usize = 0;
        proof {
            use_type_invariant(&*self);
            assert(self.written@ + repeated_piece(number as int, items.take(0)) =~= self.written@);
        }
        while i < texts.len()
            invariant
                i <= texts.len(),
                1 <= number <= MAX_FIELD_NUMBER,
                items == utf8_each(text_views(texts@)),
                self.wf(),
                self.fields() == old(self).fields() + repeated_piece(
                    number as int,
                    items.take(i as int),
                ),
                forall|k: int| 0 <= k < i ==> (#[trigger] items[k]).len() <= usize::MAX,
            decreases texts.len() - i,
        {
            let ghost before = self.fields();
            self.put_present(number, texts[i].as_str().as_bytes());
            proof {
                assert(items[i as int] == encode_utf8(texts@[i as int]@));
                assert(before + present_piece(number as int, items[i as int]) =~= old(
                    self,
                ).fields() + repeated_piece(number as int, items.take(i as int + 1)));
            }
            i = i + 1;
        }
        proof {
            assert(items.take(i as int) =~= items);
        }
    }

    /// The bytes of the message.
    pub fn finish(self) -> (bytes: Vec<u8>)
        ensures
            bytes@ == encode_fields(self.fields()),
    {
        proof {
            use_type_invariant(&self);
        }
        self.bytes
    }
}

proof fn lemma_singleton(f: WireField)
    ensures
        encode_fields(seq![f]) == encode_field(f),
        encode_fields(Seq::<WireField>::empty()) == Seq::<u8>::empty(),
{
    assert(seq![f].drop_last() =~= Seq::<WireField>::empty());
    assert(encode_fields(Seq::<WireField>::empty()) =~= Seq::<u8>::empty());
    assert(encode_fields(seq![f]) =~= encode_field(f));
}

/// The integer under `number`.
pub fn read_varint_at(fields: &Vec<Field>, number: u32) -> (v: u64)
    ensures
        v == varint_at(views(fields@), number as int),
{
    let ghost all = views(fields@);
    let mut i: usize = fields.len();
    assert(all.take(i as int) =~= all);
    while i > 0
        invariant
            i <= fields.len(),
            all == views(fields@),
            last_varint(all, number as int) == last_varint(all.take(i as int), number as int),
        decreases i,
    {
        i = i - 1;
        proof {
            assert(all.take(i as int + 1).drop_last() =~= all.take(i as int));
            assert(all.take(i as int + 1).last() == fields@[i as int]@);
        }
        if fields[i].number == number {
            match &fields[i].value {
                FieldValue::Varint(v) => {
                    return *v;
                },
                _ => {},
            }
        }
    }
    0
}

/// The bytes under `number`, where such a field stands.
pub fn find_bytes(fields: &Vec<Field>, number: u32) -> (r: Option<&Vec<u8>>)
    ensures
        match r {
            Some(b) => last_bytes(views(fields@), number as int) == Some(b@),
            None => last_bytes(views(fields@), number as int) is None,
        },
{
    let ghost all = views(fields@);
    let mut i: usize = fields.len();
    assert(all.take(i as int) =~= all);
    while i > 0
        invariant
            i <= fields.len(),
            all == views(fields@),
            last_bytes(all, number as int) == last_bytes(all.take(i as int), number as int),
        decreases i,
    {
        i = i - 1;
        proof {
            assert(all.take(i as int + 1).drop_last() =~= all.take(i as int));
            assert(all.take(i as int + 1).last() == fields@[i as int]@);
        }
        if fields[i].number == number {
            match &fields[i].value {
                FieldValue::Bytes(b) => {
                    return Some(b);
                },
                _ => {},
            }
        }
    }
    None
}

/// The bytes under `number`: none where the field is missing.
pub fn read_bytes_at(fields: &Vec<Field>, number: u32) -> (data: Vec<u8>)
    ensures
        data@ == bytes_at(views(fields@), number as int),
{
    match find_bytes(fields, number) {
        Some(b) => vstd::slice::slice_to_vec(b.as_slice()),
        None => Vec::new(),
    }
}

/// `String::from_utf8` of the standard library: the text that the bytes encode, or nothing where
/// they are not UTF-8.
#[verifier::external_body]
fn string_from_utf8(bytes: Vec<u8>) -> (text: Option<String>)
    ensures
        text is Some <==> valid_utf8(bytes@),
        text matches Some(t) ==> t@ == decode_utf8(bytes@),
{
    String::from_utf8(bytes).ok()
}

/// The text under `number`; `None` where the bytes are not UTF-8.
pub fn read_text_at(fields: &Vec<Field>, number: u32) -> (text: Option<String>)
    ensures
        match text_at(views(fields@), number as int) {
            Some(t) => text is Some && text->0@ == t,
            None => text is None,
        },
{
    string_from_utf8(read_bytes_at(fields, number))
}

/// The texts under `number`, in order; `None` where some item is not UTF-8.
pub fn read_texts_at(fields: &Vec<Field>, number: u32) -> (texts: Option<Vec<String>>)
    ensures
        match texts_at(views(fields@), number as int) {
            Some(t) => texts is Some && text_views(texts->0@) == t,
            None => texts is None,
        },
{
    let ghost all = views(fields@);
    let ghost items = all_bytes(all, number as int);
    let mut out: Vec<String> = Vec::new();
    let mut i: usize = 0;
    while i < fields.len()
        invariant
            i <= fields.len(),
            all == views(fields@),
            items == all_bytes(all, number as int),
            all_utf8(all_bytes(all.take(i as int), number as int)),
            out@.len() == all_bytes(all.take(i as int), number as int).len(),
            text_views(out@) == Seq::new(
                all_bytes(all.take(i as int), number as int).len(),
                |k: int| decode_utf8(all_bytes(all.take(i as int), number as int)[k]),
            ),
            forall|j: int|
                i <= j <= fields.len() ==> all_bytes(all.take(i as int), number as int).is_prefix_of(
                    #[trigger] all_bytes(all.take(j), number as int),
                ),
        decreases fields.len() - i,
    {
        let ghost seen = all_bytes(all.take(i as int), number as int);
        let ghost next = all_bytes(all.take(i as int + 1), number as int);
        proof {
            assert(all.take(i as int + 1).drop_last() =~= all.take(i as int));
            assert(all.take(i as int + 1).last() == fields@[i as int]@);
            assert forall|j: int| i + 1 <= j <= fields.len() implies next.is_prefix_of(
                #[trigger] all_bytes(all.take(j), number as int),
            ) by {
                lemma_all_bytes_grows(all, number as int, i as int + 1, j);
            }
        }
        if fields[i].number == number {
            match &fields[i].value {
                FieldValue::Bytes(b) => {
                    match string_from_utf8(vstd::slice::slice_to_vec(b.as_slice())) {
                        Some(t) => {
                            let ghost earlier = out@;
                            out.push(t);
                            proof {
                                assert(next == seen.push(b@));
                                assert forall|k: int| 0 <= k < next.len() implies text_views(
                                    out@,
                                )[k] == decode_utf8(#[trigger] next[k]) by {
                                    if k < seen.len() {
                                        assert(text_views(earlier)[k] == decode_utf8(seen[k]));
                                        assert(out@[k] == earlier[k]);
                                    }
                                }
                                assert(all_utf8(next)) by {
                                    assert forall|k: int| 0 <= k < next.len() implies valid_utf8(
                                        #[trigger] next[k],
                                    ) by {
                                        if k < seen.len() {
                                            assert(next[k] == seen[k]);
                                        }
                                    }
                                }
                                assert(text_views(out@) =~= Seq::new(
                                    next.len(),
                                    |k: int| decode_utf8(next[k]),
                                ));
                            }
                        },
                        None => {
                            proof {
                                assert(next == seen.push(b@));
                                assert(all.take(fields.len() as int) =~= all);
                                assert(next.is_prefix_of(items));
                                assert(next[seen.len() as int] == b@);
                                assert(items.subrange(0, next.len() as int)[seen.len() as int]
                                    == items[seen.len() as int]);
                                assert(items[seen.len() as int] == b@);
                                assert(!all_utf8(items));
                            }
                            return None;
                        },
                    }
                },
                _ => {},
            }
        }
        i = i + 1;
    }
    proof {
        assert(all.take(i as int) =~= all);
    }
    Some(out)
}

proof fn lemma_all_bytes_grows(all: Seq<WireField>, number: int, i: int, j: int)
    requires
        0 <= i <= j <= all.len(),
    ensures
        all_bytes(all.take(i), number).is_prefix_of(all_bytes(all.take(j), number)),
    decreases j - i,
{
    if i < j {
        lemma_all_bytes_grows(all, number, i, j - 1);
        assert(all.take(j).drop_last() =~= all.take(j - 1));
    }
}

} // verus!
