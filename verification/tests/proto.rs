use spironmc::java::proto::{decode_varint_prefix, decode_varlong_prefix, Reader, Writer, MAX_STRING_BYTES};
use spironmc::java::ProtoError;

fn varint_roundtrip(value: i32) {
    let mut writer = Writer::new();
    writer.write_varint(value);
    let bytes = writer.into_bytes();
    let mut reader = Reader::new(&bytes);
    assert_eq!(reader.read_varint().unwrap(), value);
    assert_eq!(reader.remaining(), 0);
}

#[test]
fn varint_encodings() {
    let mut writer = Writer::new();
    writer.write_varint(0);
    assert_eq!(writer.into_bytes(), vec![0x00]);

    let mut writer = Writer::new();
    writer.write_varint(1);
    assert_eq!(writer.into_bytes(), vec![0x01]);

    let mut writer = Writer::new();
    writer.write_varint(127);
    assert_eq!(writer.into_bytes(), vec![0x7F]);

    let mut writer = Writer::new();
    writer.write_varint(128);
    assert_eq!(writer.into_bytes(), vec![0x80, 0x01]);

    let mut writer = Writer::new();
    writer.write_varint(25565);
    assert_eq!(writer.into_bytes(), vec![0xDD, 0xC7, 0x01]);

    let mut writer = Writer::new();
    writer.write_varint(-1);
    assert_eq!(writer.into_bytes(), vec![0xFF, 0xFF, 0xFF, 0xFF, 0x0F]);
}

#[test]
fn varint_roundtrips() {
    for value in [0, 1, 2, 127, 128, 255, 25565, 2097151, i32::MAX, -1, -2, i32::MIN] {
        varint_roundtrip(value);
    }
}

#[test]
fn varint_rejects_overlong_input() {
    assert_eq!(decode_varint_prefix(&[0x80, 0x80, 0x80, 0x80, 0x80, 0x01]), Err(ProtoError::VarIntTooLong));
    assert_eq!(decode_varint_prefix(&[]), Ok(None));
    assert_eq!(decode_varint_prefix(&[0x80]), Ok(None));
}

#[test]
fn varint_read_fails_on_truncated_input() {
    let mut reader = Reader::new(&[0x80]);
    assert_eq!(reader.read_varint(), Err(ProtoError::Truncated));
}

fn varlong_roundtrip(value: i64) {
    let mut writer = Writer::new();
    writer.write_varlong(value);
    let bytes = writer.into_bytes();
    let mut reader = Reader::new(&bytes);
    assert_eq!(reader.read_varlong().unwrap(), value);
    assert_eq!(reader.remaining(), 0);
}

#[test]
fn varlong_roundtrips() {
    for value in [0, 1, 127, 128, 25565, i32::MAX as i64, i64::MAX, -1, i64::MIN] {
        varlong_roundtrip(value);
    }
}

#[test]
fn varlong_rejects_overlong_input() {
    assert_eq!(decode_varlong_prefix(&[0x80; 11]), Err(ProtoError::VarLongTooLong));
    assert_eq!(decode_varlong_prefix(&[]), Ok(None));
    let mut reader = Reader::new(&[0x80, 0x80]);
    assert_eq!(reader.read_varlong(), Err(ProtoError::Truncated));
}

#[test]
fn primitives_roundtrip_as_bits() {
    let mut writer = Writer::new();
    writer.write_u8(0xAB);
    writer.write_i8(-5);
    writer.write_bool(true);
    writer.write_bool(false);
    writer.write_u16(0xCDEF);
    writer.write_i16(-300);
    writer.write_u32(0xDEAD_BEEF);
    writer.write_i32(-123456);
    writer.write_u64(0x0123_4567_89AB_CDEF);
    writer.write_i64(-9876543210);
    writer.write_u32(1.5f32.to_bits());
    writer.write_u64((-2.25f64).to_bits());
    let bytes = writer.into_bytes();

    let mut reader = Reader::new(&bytes);
    assert_eq!(reader.read_u8().unwrap(), 0xAB);
    assert_eq!(reader.read_i8().unwrap(), -5);
    assert!(reader.read_bool().unwrap());
    assert!(!reader.read_bool().unwrap());
    assert_eq!(reader.read_u16().unwrap(), 0xCDEF);
    assert_eq!(reader.read_i16().unwrap(), -300);
    assert_eq!(reader.read_u32().unwrap(), 0xDEAD_BEEF);
    assert_eq!(reader.read_i32().unwrap(), -123456);
    assert_eq!(reader.read_u64().unwrap(), 0x0123_4567_89AB_CDEF);
    assert_eq!(reader.read_i64().unwrap(), -9876543210);
    assert_eq!(f32::from_bits(reader.read_u32().unwrap()), 1.5);
    assert_eq!(f64::from_bits(reader.read_u64().unwrap()), -2.25);
    assert_eq!(reader.remaining(), 0);
}

#[test]
fn bool_treats_nonzero_as_true() {
    let mut reader = Reader::new(&[0, 1, 2]);
    assert!(!reader.read_bool().unwrap());
    assert!(reader.read_bool().unwrap());
    assert!(reader.read_bool().unwrap());
}

#[test]
fn strings_roundtrip() {
    for text in ["", "hello", "A FeatherMC Server", "Grüße 🎮 こんにちは"] {
        let mut writer = Writer::new();
        writer.write_string(text);
        let bytes = writer.into_bytes();
        let mut reader = Reader::new(&bytes);
        assert_eq!(reader.read_string().unwrap(), text);
        assert_eq!(reader.remaining(), 0);
    }
}

#[test]
fn strings_reject_bad_input() {
    let mut writer = Writer::new();
    writer.write_varint(MAX_STRING_BYTES + 1);
    let bytes = writer.into_bytes();
    assert_eq!(Reader::new(&bytes).read_string(), Err(ProtoError::StringTooLong(MAX_STRING_BYTES + 1)));

    let mut writer = Writer::new();
    writer.write_varint(-1);
    let bytes = writer.into_bytes();
    assert_eq!(Reader::new(&bytes).read_string(), Err(ProtoError::StringTooLong(-1)));

    let mut writer = Writer::new();
    writer.write_varint(3);
    writer.write_bytes(&[0xFF, 0xFF, 0xFF]);
    let bytes = writer.into_bytes();
    assert_eq!(Reader::new(&bytes).read_string(), Err(ProtoError::InvalidUtf8));

    let mut writer = Writer::new();
    writer.write_varint(10);
    writer.write_bytes(b"short");
    let bytes = writer.into_bytes();
    assert_eq!(Reader::new(&bytes).read_string(), Err(ProtoError::Truncated));
}

#[test]
fn u16_strings_roundtrip() {
    let mut writer = Writer::new();
    writer.write_u16_string("Grüße");
    let bytes = writer.into_bytes();
    assert_eq!(&bytes[..2], &[0, 7]);
    let mut reader = Reader::new(&bytes);
    assert_eq!(reader.read_u16_string().unwrap(), "Grüße");
    assert_eq!(reader.remaining(), 0);
}

#[test]
fn positions_roundtrip() {
    for (x, y, z) in [
        (0, 100, 0),
        (8, 64, 8),
        (-1, -64, -1),
        (33_554_431, 2047, -33_554_432),
        (i32::MIN >> 6, i32::MIN >> 20, i32::MIN >> 6),
    ] {
        let mut writer = Writer::new();
        writer.write_position(x, y, z);
        let bytes = writer.into_bytes();
        assert_eq!(bytes.len(), 8);
        assert_eq!(Reader::new(&bytes).read_position().unwrap(), (x, y, z));
    }
}

#[test]
fn origin_packs_to_known_bytes() {
    let mut writer = Writer::new();
    writer.write_position(0, 100, 0);
    assert_eq!(writer.into_bytes(), vec![0, 0, 0, 0, 0, 0, 0, 100]);
}

#[test]
fn uuid_roundtrips() {
    let mut writer = Writer::new();
    writer.write_uuid(0x123E_4567_E89B_12D3_A456_4266_1417_4000);
    let bytes = writer.into_bytes();
    let mut reader = Reader::new(&bytes);
    assert_eq!(reader.read_uuid().unwrap(), 0x123E_4567_E89B_12D3_A456_4266_1417_4000);

    let mut reader = Reader::new(&[0u8; 15]);
    assert_eq!(reader.read_uuid(), Err(ProtoError::Truncated));
}

#[test]
fn reader_tracks_position_and_bytes() {
    let data = [1u8, 2, 3, 4];
    let mut reader = Reader::new(&data);
    assert_eq!(reader.read_bytes(3).unwrap(), &[1, 2, 3]);
    assert_eq!(reader.position(), 3);
    assert_eq!(reader.read_bytes(2), Err(ProtoError::Truncated));
    assert_eq!(reader.remaining(), 1);
}
