use spironmc::java::nbt::NbtTag;
use spironmc::java::proto::{Reader, Writer};
use spironmc::java::ProtoError;

fn encoded(tag: &NbtTag, name: &str) -> Vec<u8> {
    let mut writer = Writer::new();
    tag.encode_named(&mut writer, name).unwrap();
    writer.into_bytes()
}

fn decoded(bytes: &[u8]) -> (String, NbtTag) {
    NbtTag::decode_named(&mut Reader::new(bytes)).unwrap()
}

fn named(name: &str, tag: NbtTag) -> (String, NbtTag) {
    (name.to_owned(), tag)
}

#[test]
fn encodes_primitives_to_known_bytes() {
    assert_eq!(encoded(&NbtTag::Byte(5), "a"), vec![0x01, 0x00, 0x01, b'a', 0x05]);
    assert_eq!(encoded(&NbtTag::Short(-300), "b"), vec![0x02, 0x00, 0x01, b'b', 0xFE, 0xD4]);
    assert_eq!(encoded(&NbtTag::Int(0x01020304), ""), vec![0x03, 0x00, 0x00, 0x01, 0x02, 0x03, 0x04]);
    assert_eq!(
        encoded(&NbtTag::Float(1.5f32.to_bits()), ""),
        vec![0x05, 0x00, 0x00, 0x3F, 0xC0, 0x00, 0x00]
    );
    assert_eq!(
        encoded(&NbtTag::String("hi".to_owned()), "greeting"),
        vec![0x08, 0x00, 0x08, b'g', b'r', b'e', b'e', b't', b'i', b'n', b'g', 0x00, 0x02, b'h', b'i']
    );
}

#[test]
fn encodes_containers_to_known_bytes() {
    let list = NbtTag::List(vec![NbtTag::Int(1), NbtTag::Int(2)]);
    assert_eq!(
        encoded(&list, "l"),
        vec![0x09, 0x00, 0x01, b'l', 0x03, 0x00, 0x00, 0x00, 0x02, 0x00, 0x00, 0x00, 0x01, 0x00, 0x00, 0x00, 0x02]
    );

    let empty_list = NbtTag::List(vec![]);
    assert_eq!(encoded(&empty_list, "e"), vec![0x09, 0x00, 0x01, b'e', 0x00, 0x00, 0x00, 0x00, 0x00]);

    let empty_compound = NbtTag::Compound(Vec::new());
    assert_eq!(encoded(&empty_compound, ""), vec![0x0A, 0x00, 0x00, 0x00]);
}

#[test]
fn roundtrips_complex_structure() {
    let tag = NbtTag::compound(vec![
        named("byte", NbtTag::Byte(-128)),
        named("short", NbtTag::Short(32767)),
        named("int", NbtTag::Int(i32::MIN)),
        named("long", NbtTag::Long(i64::MAX)),
        named("float", NbtTag::Float((-0.5f32).to_bits())),
        named("double", NbtTag::Double((1.0f64 / 3.0).to_bits())),
        named("bytes", NbtTag::ByteArray(vec![-1, 0, 127])),
        named("text", NbtTag::String("Grüße 🎮".to_owned())),
        named("empty_text", NbtTag::String(String::new())),
        named(
            "nested",
            NbtTag::compound(vec![named("inner", NbtTag::Int(42)), named("empty", NbtTag::Compound(Vec::new()))]),
        ),
        named("ints", NbtTag::List(vec![NbtTag::Int(1), NbtTag::Int(-2), NbtTag::Int(3)])),
        named("empty_list", NbtTag::List(vec![])),
        named(
            "compounds",
            NbtTag::List(vec![
                NbtTag::compound(vec![named("x", NbtTag::Byte(1))]),
                NbtTag::compound(vec![named("y", NbtTag::Byte(2))]),
            ]),
        ),
        named("int_array", NbtTag::IntArray(vec![i32::MIN, 0, i32::MAX])),
        named("long_array", NbtTag::LongArray(vec![i64::MIN, i64::MAX])),
        named("empty_array", NbtTag::IntArray(vec![])),
    ]);
    let bytes = encoded(&tag, "root");
    let (name, back) = decoded(&bytes);
    assert_eq!(name, "root");
    assert_eq!(back, tag);
}

#[test]
fn unnamed_form_has_no_name_bytes() {
    let tag = NbtTag::compound(vec![named("a", NbtTag::Byte(5))]);
    let mut writer = Writer::new();
    tag.encode_unnamed(&mut writer).unwrap();
    assert_eq!(writer.into_bytes(), vec![0x0A, 0x01, 0x00, 0x01, b'a', 0x05, 0x00]);

    let mut writer = Writer::new();
    tag.encode_unnamed(&mut writer).unwrap();
    let bytes = writer.into_bytes();
    let mut reader = Reader::new(&bytes);
    assert_eq!(NbtTag::decode_unnamed(&mut reader).unwrap(), tag);
    assert_eq!(reader.remaining(), 0);
}

#[test]
fn rejects_mixed_lists() {
    let mixed = NbtTag::List(vec![NbtTag::Int(1), NbtTag::String("x".to_owned())]);
    let mut writer = Writer::new();
    assert_eq!(mixed.encode_named(&mut writer, "m"), Err(ProtoError::MixedList));
    assert!(writer.into_bytes().is_empty());
}

#[test]
fn rejects_malformed_input() {
    assert_eq!(NbtTag::decode_named(&mut Reader::new(&[])), Err(ProtoError::Truncated));
    assert_eq!(NbtTag::decode_named(&mut Reader::new(&[13, 0x00, 0x00])), Err(ProtoError::InvalidTag(13)));
    assert_eq!(NbtTag::decode_named(&mut Reader::new(&[0x03, 0x00, 0x00])), Err(ProtoError::Truncated));

    let mut writer = Writer::new();
    writer.write_u8(11);
    writer.write_u16_string("");
    writer.write_i32(-4);
    assert_eq!(NbtTag::decode_named(&mut Reader::new(&writer.into_bytes())), Err(ProtoError::NegativeLength(-4)));

    let mut writer = Writer::new();
    writer.write_u8(8);
    writer.write_u16_string("");
    writer.write_u16(2);
    writer.write_bytes(&[0xFF, 0xFF]);
    assert_eq!(NbtTag::decode_named(&mut Reader::new(&writer.into_bytes())), Err(ProtoError::InvalidUtf8));

    let mut writer = Writer::new();
    writer.write_u8(9);
    writer.write_u16_string("");
    writer.write_u8(3);
    writer.write_i32(100);
    writer.write_i32(1);
    assert_eq!(NbtTag::decode_named(&mut Reader::new(&writer.into_bytes())), Err(ProtoError::Truncated));
}

#[test]
fn rejects_extreme_nesting() {
    let mut tag = NbtTag::Int(1);
    for i in 0..600 {
        tag = NbtTag::compound(vec![(format!("n{i}"), tag)]);
    }
    let mut writer = Writer::new();
    assert_eq!(tag.encode_named(&mut writer, "deep"), Err(ProtoError::DepthExceeded));

    let mut bytes = vec![0x0A, 0x00, 0x00];
    for _ in 0..600 {
        bytes.push(0x0A);
        bytes.extend_from_slice(&[0x00, 0x01, b'k']);
    }
    bytes.push(0x03);
    bytes.extend_from_slice(&[0x00, 0x01, b'v', 0x00, 0x00, 0x00, 0x01]);
    bytes.resize(bytes.len() + 600, 0x00);
    assert_eq!(NbtTag::decode_named(&mut Reader::new(&bytes)), Err(ProtoError::DepthExceeded));
}

#[test]
fn compounds_sort_names_and_keep_the_last_duplicate() {
    let tag = NbtTag::compound(vec![
        named("b", NbtTag::Byte(1)),
        named("a", NbtTag::Byte(2)),
        named("b", NbtTag::Byte(3)),
        named("ab", NbtTag::Byte(4)),
    ]);
    assert_eq!(
        tag,
        NbtTag::Compound(vec![named("a", NbtTag::Byte(2)), named("ab", NbtTag::Byte(4)), named("b", NbtTag::Byte(3))])
    );
    // Reading sorts as well: entries written out of order come back sorted.
    let raw = NbtTag::Compound(vec![named("z", NbtTag::Byte(1)), named("y", NbtTag::Byte(2))]);
    let mut writer = Writer::new();
    raw.encode_unnamed(&mut writer).unwrap();
    let bytes = writer.into_bytes();
    assert_eq!(
        NbtTag::decode_unnamed(&mut Reader::new(&bytes)).unwrap(),
        NbtTag::Compound(vec![named("y", NbtTag::Byte(2)), named("z", NbtTag::Byte(1))])
    );
}

#[test]
fn reading_advances_past_the_tag() {
    let mut writer = Writer::new();
    NbtTag::LongArray(vec![7]).encode_named(&mut writer, "x").unwrap();
    writer.write_u8(0xAA);
    let bytes = writer.into_bytes();
    let mut reader = Reader::new(&bytes);
    let (name, tag) = NbtTag::decode_named(&mut reader).unwrap();
    assert_eq!((name.as_str(), tag), ("x", NbtTag::LongArray(vec![7])));
    assert_eq!(reader.remaining(), 1);
}

#[test]
fn unnamed_tag_reads_back_and_leaves_what_follows() {
    let tag = NbtTag::compound(vec![
        ("list".to_string(), NbtTag::List(vec![NbtTag::Int(1), NbtTag::Int(-2)])),
        ("f".to_string(), NbtTag::Float(0x3f80_0000)),
        ("name".to_string(), NbtTag::String("stone".to_string())),
    ]);
    let mut writer = Writer::new();
    tag.encode_unnamed(&mut writer).unwrap();
    writer.write_u8(0x55);
    writer.write_u8(0x66);
    let bytes = writer.into_bytes();
    let mut reader = Reader::new(&bytes);
    assert_eq!(NbtTag::decode_unnamed(&mut reader).unwrap(), tag);
    assert_eq!(reader.remaining(), 2);
}
