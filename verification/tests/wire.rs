use protobuf::{CodedInputStream, CodedOutputStream};
use tfslite::fields::{find_bytes, read_bytes_at, read_text_at, read_texts_at, read_varint_at, Writer};
use tfslite::wire::{parse_fields, put_bytes_field, put_varint, put_varint_field, Field, FieldValue};

fn varint(v: u64) -> Vec<u8> {
    let mut out = Vec::new();
    put_varint(&mut out, v);
    out
}

#[test]
fn varint_has_known_encodings() {
    assert_eq!(varint(0), vec![0x00]);
    assert_eq!(varint(1), vec![0x01]);
    assert_eq!(varint(127), vec![0x7f]);
    assert_eq!(varint(128), vec![0x80, 0x01]);
    assert_eq!(varint(300), vec![0xac, 0x02]);
    assert_eq!(varint(16384), vec![0x80, 0x80, 0x01]);
    assert_eq!(
        varint(u64::MAX),
        vec![0xff, 0xff, 0xff, 0xff, 0xff, 0xff, 0xff, 0xff, 0xff, 0x01]
    );
}

#[test]
fn varint_matches_the_protobuf_crate() {
    for v in [0u64, 1, 127, 128, 255, 256, 65535, 1 << 32, u64::MAX - 1, u64::MAX] {
        let mut expected = Vec::new();
        {
            let mut stream = CodedOutputStream::vec(&mut expected);
            stream.write_raw_varint64(v).unwrap();
            stream.flush().unwrap();
        }
        assert_eq!(varint(v), expected);
    }
}

#[test]
fn fields_match_the_protobuf_crate() {
    let mut ours = Vec::new();
    put_varint_field(&mut ours, 1, 150);
    put_bytes_field(&mut ours, 2, b"testing");
    put_varint_field(&mut ours, 536870911, u64::MAX);
    put_bytes_field(&mut ours, 16, &[]);
    let mut expected = Vec::new();
    {
        let mut stream = CodedOutputStream::vec(&mut expected);
        stream.write_uint64(1, 150).unwrap();
        stream.write_bytes(2, b"testing").unwrap();
        stream.write_uint64(536870911, u64::MAX).unwrap();
        stream.write_bytes(16, &[]).unwrap();
        stream.flush().unwrap();
    }
    assert_eq!(ours, expected);
    assert_eq!(&ours[..3], &[0x08, 0x96, 0x01]);
}

#[test]
fn fields_are_read_by_the_protobuf_crate() {
    let mut writer = Writer::new();
    writer.put_varint(3, 77);
    writer.put_text(4, "hello");
    writer.put_bytes(5, &[1, 2, 3]);
    let bytes = writer.finish();
    let mut stream = CodedInputStream::from_bytes(&bytes);
    let (number, _) = stream.read_tag_unpack().unwrap();
    assert_eq!(number, 3);
    assert_eq!(stream.read_uint64().unwrap(), 77);
    let (number, _) = stream.read_tag_unpack().unwrap();
    assert_eq!(number, 4);
    assert_eq!(stream.read_string().unwrap(), "hello");
    let (number, _) = stream.read_tag_unpack().unwrap();
    assert_eq!(number, 5);
    assert_eq!(stream.read_bytes().unwrap(), vec![1, 2, 3]);
    assert!(stream.eof().unwrap());
}

#[test]
fn parse_gives_back_the_fields_in_order() {
    let mut bytes = Vec::new();
    put_varint_field(&mut bytes, 1, 5);
    put_bytes_field(&mut bytes, 2, b"ab");
    put_bytes_field(&mut bytes, 2, b"");
    put_varint_field(&mut bytes, 1, 0);
    let fields = parse_fields(&bytes).unwrap();
    assert_eq!(fields.len(), 4);
    assert_eq!(fields[0].number, 1);
    assert!(matches!(fields[0].value, FieldValue::Varint(5)));
    assert_eq!(fields[1].number, 2);
    assert!(matches!(&fields[1].value, FieldValue::Bytes(b) if b == b"ab"));
    assert!(matches!(&fields[2].value, FieldValue::Bytes(b) if b.is_empty()));
    assert!(matches!(fields[3].value, FieldValue::Varint(0)));
    assert!(parse_fields(&[]).unwrap().is_empty());
}

#[test]
fn parse_refuses_malformed_bytes() {
    assert!(parse_fields(&[0x08]).is_none());
    assert!(parse_fields(&[0x80]).is_none());
    assert!(parse_fields(&[0x12, 0x05, 0x01]).is_none());
    assert!(parse_fields(&[0x00, 0x01]).is_none());
    assert!(parse_fields(&[0x09, 0, 0, 0, 0, 0, 0, 0]).is_none());
    assert!(parse_fields(&[0x0d, 0, 0, 0]).is_none());
    assert!(parse_fields(&[0x0b]).is_none());
    assert!(parse_fields(&[0x0c]).is_none());
    assert!(parse_fields(&[0x0e, 0x00]).is_none());
    let eleven = [0x80, 0x80, 0x80, 0x80, 0x80, 0x80, 0x80, 0x80, 0x80, 0x80, 0x01];
    assert!(parse_fields(&eleven).is_none());
    let too_large = [0x08, 0xff, 0xff, 0xff, 0xff, 0xff, 0xff, 0xff, 0xff, 0xff, 0x02];
    assert!(parse_fields(&too_large).is_none());
}

#[test]
fn parse_accepts_padded_integers() {
    let fields = parse_fields(&[0x08, 0x81, 0x80, 0x00]).unwrap();
    assert_eq!(fields.len(), 1);
    assert!(matches!(fields[0].value, FieldValue::Varint(1)));
}

#[test]
fn readers_take_the_last_field_of_a_number() {
    let fields = vec![
        Field { number: 1, value: FieldValue::Varint(5) },
        Field { number: 2, value: FieldValue::Bytes(b"one".to_vec()) },
        Field { number: 1, value: FieldValue::Bytes(b"not an integer".to_vec()) },
        Field { number: 2, value: FieldValue::Bytes(b"two".to_vec()) },
        Field { number: 1, value: FieldValue::Varint(6) },
        Field { number: 7, value: FieldValue::Bytes(vec![0xff]) },
    ];
    assert_eq!(read_varint_at(&fields, 1), 6);
    assert_eq!(read_varint_at(&fields, 2), 0);
    assert_eq!(read_varint_at(&fields, 3), 0);
    assert_eq!(read_bytes_at(&fields, 2), b"two".to_vec());
    assert_eq!(read_bytes_at(&fields, 1), b"not an integer".to_vec());
    assert_eq!(read_bytes_at(&fields, 9), Vec::<u8>::new());
    assert_eq!(find_bytes(&fields, 9), None);
    assert_eq!(read_text_at(&fields, 2), Some("two".to_string()));
    assert_eq!(read_text_at(&fields, 9), Some(String::new()));
    assert_eq!(read_text_at(&fields, 7), None);
    assert_eq!(
        read_texts_at(&fields, 2),
        Some(vec!["one".to_string(), "two".to_string()])
    );
    assert_eq!(read_texts_at(&fields, 9), Some(vec![]));
    assert_eq!(read_texts_at(&fields, 7), None);
}

#[test]
fn writer_leaves_out_what_holds_nothing() {
    let mut writer = Writer::new();
    writer.put_varint(1, 0);
    writer.put_bytes(2, &[]);
    writer.put_text(3, "");
    writer.put_texts(4, &vec![]);
    assert!(writer.finish().is_empty());
    let mut writer = Writer::new();
    writer.put_present(2, &[]);
    writer.put_texts(4, &vec![String::new(), "a".to_string()]);
    assert_eq!(writer.finish(), vec![0x12, 0x00, 0x22, 0x00, 0x22, 0x01, 0x61]);
}

#[test]
fn reader_takes_fields_of_fixed_width() {
    let fields = parse_fields(&[0x09, 1, 2, 3, 4, 5, 6, 7, 8, 0x0d, 9, 10, 11, 12, 0x10, 0x05]).unwrap();
    assert_eq!(fields.len(), 3);
    assert_eq!(fields[0].number, 1);
    assert!(matches!(&fields[0].value, FieldValue::Fixed(b) if b == &[1, 2, 3, 4, 5, 6, 7, 8]));
    assert_eq!(fields[1].number, 1);
    assert!(matches!(&fields[1].value, FieldValue::Fixed(b) if b == &[9, 10, 11, 12]));
    assert!(matches!(fields[2].value, FieldValue::Varint(5)));
    assert_eq!(read_varint_at(&fields, 1), 0);
    assert_eq!(read_varint_at(&fields, 2), 5);
    assert_eq!(read_bytes_at(&fields, 1), Vec::<u8>::new());
}

#[test]
fn reader_passes_over_what_the_protobuf_crate_writes_as_fixed() {
    let mut bytes = Vec::new();
    {
        let mut stream = CodedOutputStream::vec(&mut bytes);
        stream.write_string(2, "kept").unwrap();
        stream.write_fixed64(13, 0x0102030405060708).unwrap();
        stream.write_fixed32(14, 0x01020304).unwrap();
        stream.write_uint64(3, 7).unwrap();
        stream.flush().unwrap();
    }
    let fields = parse_fields(&bytes).unwrap();
    assert_eq!(fields.len(), 4);
    assert_eq!(read_text_at(&fields, 2), Some("kept".to_string()));
    assert_eq!(read_varint_at(&fields, 3), 7);
    assert!(matches!(&fields[1].value, FieldValue::Fixed(b) if b == &[8, 7, 6, 5, 4, 3, 2, 1]));
    assert!(matches!(&fields[2].value, FieldValue::Fixed(b) if b == &[4, 3, 2, 1]));
}
