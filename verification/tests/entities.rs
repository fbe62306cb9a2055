use spironmc::java::entities::{
    encode_destroy_entities, encode_entity_metadata, encode_entity_position, encode_entity_position_rotation,
    encode_entity_rotation, encode_head_rotation, encode_player_info_add, encode_player_info_remove, encode_spawn_player,
    encode_teleport_entity, PLAYER_ENTITY_TYPE,
};
use spironmc::java::metadata::{decode_metadata, MetadataEntry, MetadataKind, FLAG_SNEAKING, POSE_CROUCHING};
use spironmc::java::proto::{decode_varint_prefix, Reader};

fn decode_frame(bytes: &[u8]) -> (i32, Vec<u8>) {
    let (len, header) = decode_varint_prefix(bytes).unwrap().unwrap();
    let mut reader = Reader::new(&bytes[header..header + len as usize]);
    let id = reader.read_varint().unwrap();
    (id, bytes[header + reader.position()..].to_vec())
}

fn angle_byte(angle: f32) -> u8 {
    let wrapped = ((angle % 360.0) + 360.0) % 360.0;
    (wrapped / 360.0 * 256.0) as u8
}

fn pitch_byte(pitch: f32) -> u8 {
    (pitch.clamp(-90.0, 90.0) / 360.0 * 256.0) as u8
}

#[test]
fn info_add_carries_profile() {
    let bytes = encode_player_info_add(0x99, "Steve", 0);
    let (id, payload) = decode_frame(&bytes);
    assert_eq!(id, 0x46);
    let mut reader = Reader::new(&payload);
    assert_eq!(reader.read_u8().unwrap(), 0x1D);
    assert_eq!(reader.read_varint().unwrap(), 1);
    assert_eq!(reader.read_uuid().unwrap(), 0x99);
    assert_eq!(reader.read_string().unwrap(), "Steve");
    assert_eq!(reader.read_varint().unwrap(), 0);
    assert_eq!(reader.read_varint().unwrap(), 0);
    assert!(reader.read_bool().unwrap());
    assert_eq!(reader.read_varint().unwrap(), 0);
    assert_eq!(reader.remaining(), 0);
}

#[test]
fn info_remove_lists_uuids() {
    let bytes = encode_player_info_remove(&[1, 2]);
    let (id, payload) = decode_frame(&bytes);
    assert_eq!(id, 0x45);
    let mut reader = Reader::new(&payload);
    assert_eq!(reader.read_varint().unwrap(), 2);
    assert_eq!(reader.read_uuid().unwrap(), 1);
    assert_eq!(reader.read_uuid().unwrap(), 2);
    assert_eq!(reader.remaining(), 0);
}

#[test]
fn spawn_player_has_type_and_pose() {
    let bytes = encode_spawn_player(7, 0xABCDEF, 1.5f64.to_bits(), 65.0f64.to_bits(), (-3.25f64).to_bits(), angle_byte(90.0), pitch_byte(-10.0));
    let (id, payload) = decode_frame(&bytes);
    assert_eq!(id, 0x01);
    let mut reader = Reader::new(&payload);
    assert_eq!(reader.read_varint().unwrap(), 7);
    assert_eq!(reader.read_uuid().unwrap(), 0xABCDEF);
    assert_eq!(reader.read_varint().unwrap(), PLAYER_ENTITY_TYPE);
    assert_eq!(f64::from_bits(reader.read_u64().unwrap()), 1.5);
    assert_eq!(f64::from_bits(reader.read_u64().unwrap()), 65.0);
    assert_eq!(f64::from_bits(reader.read_u64().unwrap()), -3.25);
    assert_eq!(reader.read_varint().unwrap(), 0);
    assert_eq!(reader.read_varint().unwrap(), 0);
    assert_eq!(reader.read_varint().unwrap(), 0);
    assert_eq!(reader.read_u8().unwrap(), pitch_byte(-10.0));
    assert_eq!(reader.read_u8().unwrap(), angle_byte(90.0));
    assert_eq!(reader.read_u8().unwrap(), angle_byte(90.0));
    assert_eq!(reader.read_varint().unwrap(), 0);
    assert_eq!(reader.remaining(), 0);
}

#[test]
fn movement_packets_carry_deltas_and_angles() {
    let (id, payload) = decode_frame(&encode_entity_position(3, 10, -20, 30, true));
    assert_eq!(id, 0x35);
    let mut reader = Reader::new(&payload);
    assert_eq!(reader.read_varint().unwrap(), 3);
    assert_eq!(reader.read_i16().unwrap(), 10);
    assert_eq!(reader.read_i16().unwrap(), -20);
    assert_eq!(reader.read_i16().unwrap(), 30);
    assert!(reader.read_bool().unwrap());

    let (id, payload) = decode_frame(&encode_entity_position_rotation(3, 1, 2, 3, angle_byte(45.0), pitch_byte(0.0), false));
    assert_eq!(id, 0x36);
    let mut reader = Reader::new(&payload);
    assert_eq!(reader.read_varint().unwrap(), 3);
    assert_eq!(reader.read_i16().unwrap(), 1);
    assert_eq!(reader.read_i16().unwrap(), 2);
    assert_eq!(reader.read_i16().unwrap(), 3);
    assert_eq!(reader.read_u8().unwrap(), angle_byte(45.0));
    assert_eq!(reader.read_u8().unwrap(), pitch_byte(0.0));
    assert!(!reader.read_bool().unwrap());

    let (id, payload) = decode_frame(&encode_entity_rotation(3, angle_byte(180.0), pitch_byte(30.0), true));
    assert_eq!(id, 0x38);
    let mut reader = Reader::new(&payload);
    assert_eq!(reader.read_varint().unwrap(), 3);
    assert_eq!(reader.read_u8().unwrap(), angle_byte(180.0));

    let (id, payload) = decode_frame(&encode_head_rotation(3, angle_byte(270.0)));
    assert_eq!(id, 0x53);
    let mut reader = Reader::new(&payload);
    assert_eq!(reader.read_varint().unwrap(), 3);
    assert_eq!(reader.read_u8().unwrap(), angle_byte(270.0));

    let (id, payload) = decode_frame(&encode_teleport_entity(
        3,
        1.0f64.to_bits(),
        2.0f64.to_bits(),
        3.0f64.to_bits(),
        10.0f32.to_bits(),
        20.0f32.to_bits(),
        true,
    ));
    assert_eq!(id, 0x7D);
    let mut reader = Reader::new(&payload);
    assert_eq!(reader.read_varint().unwrap(), 3);
    assert_eq!(f64::from_bits(reader.read_u64().unwrap()), 1.0);
    assert_eq!(f64::from_bits(reader.read_u64().unwrap()), 2.0);
    assert_eq!(f64::from_bits(reader.read_u64().unwrap()), 3.0);
    assert_eq!(f64::from_bits(reader.read_u64().unwrap()), 0.0);
    assert_eq!(f64::from_bits(reader.read_u64().unwrap()), 0.0);
    assert_eq!(f64::from_bits(reader.read_u64().unwrap()), 0.0);
    assert_eq!(f32::from_bits(reader.read_u32().unwrap()), 10.0);
    assert_eq!(f32::from_bits(reader.read_u32().unwrap()), 20.0);
    assert_eq!(reader.read_i32().unwrap(), 0);
    assert!(reader.read_bool().unwrap());

    let (id, payload) = decode_frame(&encode_destroy_entities(&[4, 9]));
    assert_eq!(id, 0x4D);
    let mut reader = Reader::new(&payload);
    assert_eq!(reader.read_varint().unwrap(), 2);
    assert_eq!(reader.read_varint().unwrap(), 4);
    assert_eq!(reader.read_varint().unwrap(), 9);
    assert_eq!(reader.remaining(), 0);
}

#[test]
fn metadata_packet_wraps_entries() {
    let entries = vec![
        MetadataEntry { index: 0, kind: MetadataKind::Byte(FLAG_SNEAKING) },
        MetadataEntry { index: 6, kind: MetadataKind::Pose(POSE_CROUCHING) },
    ];
    let (id, payload) = decode_frame(&encode_entity_metadata(11, &entries));
    assert_eq!(id, 0x63);
    let mut reader = Reader::new(&payload);
    assert_eq!(reader.read_varint().unwrap(), 11);
    let back = decode_metadata(&mut reader).unwrap();
    assert_eq!(back, entries);
    assert_eq!(reader.remaining(), 0);
}
