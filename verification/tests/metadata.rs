use spironmc::java::metadata::{
    decode_metadata, encode_metadata, player_metadata, MetadataEntry, MetadataKind, FLAG_SNEAKING, POSE_CROUCHING,
    POSE_STANDING,
};
use spironmc::java::proto::{Reader, Writer};
use spironmc::java::ProtoError;

fn roundtrip(entries: &[MetadataEntry]) -> Vec<MetadataEntry> {
    let mut writer = Writer::new();
    encode_metadata(entries, &mut writer);
    let bytes = writer.into_bytes();
    decode_metadata(&mut Reader::new(&bytes)).unwrap()
}

#[test]
fn encodes_player_metadata_with_terminator() {
    let entries = player_metadata(FLAG_SNEAKING, POSE_CROUCHING);
    let mut writer = Writer::new();
    encode_metadata(&entries, &mut writer);
    let bytes = writer.into_bytes();
    assert_eq!(bytes, vec![0x00, 0x00, 0x02, 0x06, 0x14, 0x05, 0xFF]);
    assert_eq!(roundtrip(&entries), entries);
}

#[test]
fn roundtrips_every_supported_kind() {
    let entries = vec![
        MetadataEntry { index: 0, kind: MetadataKind::Byte(0x42) },
        MetadataEntry { index: 1, kind: MetadataKind::VarInt(-300) },
        MetadataEntry { index: 4, kind: MetadataKind::Bool(true) },
        MetadataEntry { index: 6, kind: MetadataKind::Pose(POSE_STANDING) },
    ];
    assert_eq!(roundtrip(&entries), entries);
}

#[test]
fn empty_metadata_is_just_a_terminator() {
    let mut writer = Writer::new();
    encode_metadata(&[], &mut writer);
    assert_eq!(writer.into_bytes(), vec![0xFF]);
}

#[test]
fn rejects_unknown_serializer() {
    let mut writer = Writer::new();
    writer.write_u8(3);
    writer.write_varint(99);
    writer.write_u8(0xFF);
    let bytes = writer.into_bytes();
    assert_eq!(decode_metadata(&mut Reader::new(&bytes)), Err(ProtoError::InvalidTag(99)));
}

#[test]
fn metadata_without_terminator_is_truncated() {
    let mut writer = Writer::new();
    writer.write_u8(0);
    writer.write_varint(0);
    writer.write_u8(7);
    let bytes = writer.into_bytes();
    assert_eq!(decode_metadata(&mut Reader::new(&bytes)), Err(ProtoError::Truncated));
    let mut reader = Reader::new(&[0xFF, 0x01]);
    assert_eq!(decode_metadata(&mut reader), Ok(vec![]));
    assert_eq!(reader.remaining(), 1);
}

#[test]
fn type_ids_match_serializers() {
    assert_eq!(MetadataKind::Byte(0).type_id(), 0);
    assert_eq!(MetadataKind::VarInt(0).type_id(), 1);
    assert_eq!(MetadataKind::Bool(false).type_id(), 8);
    assert_eq!(MetadataKind::Pose(0).type_id(), 20);
}
