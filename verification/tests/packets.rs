use spironmc::inventory::{Item, ItemStack, INVENTORY_SIZE};
use spironmc::java::packets::{
    chat_json, decode_handshake, decode_login_start, encode_block_changed_ack, encode_block_update,
    encode_container_content, encode_container_slot, encode_default_spawn, encode_finish_configuration,
    encode_game_event, encode_health, encode_held_slot, encode_keep_alive, encode_known_packs, encode_login_disconnect,
    encode_login_success, encode_packet, encode_play_login, encode_player_abilities, encode_pong, encode_respawn,
    encode_status_response, encode_sync_position, encode_system_chat, encode_update_tags, status_json, write_slot,
    Handshake, LoginStart, BANNER_PATTERN_TAGS, DAMAGE_TYPE_TAGS, DUPLICATE_LOGIN_REASON, SULFUR_ITEM_TAGS,
};
use spironmc::java::player::GameMode;
use spironmc::java::proto::{decode_varint_prefix, Reader, Writer};
use spironmc::java::ProtoError;

fn handshake_bytes(protocol: i32, address: &str, port: u16, next: i32) -> Vec<u8> {
    let mut body = Writer::new();
    body.write_varint(protocol);
    body.write_string(address);
    body.write_u16(port);
    body.write_varint(next);
    let body = body.into_bytes();
    encode_packet(0x00, &body)
}

fn frame_body(bytes: &[u8]) -> Vec<u8> {
    let (len, header) = decode_varint_prefix(bytes).unwrap().unwrap();
    assert_eq!(len as usize, bytes.len() - header);
    bytes[header..header + len as usize].to_vec()
}

#[test]
fn decodes_handshake() {
    let bytes = handshake_bytes(776, "localhost", 25565, 1);
    let (len, header) = decode_varint_prefix(&bytes).unwrap().unwrap();
    let payload = &bytes[header..header + len as usize];
    let mut reader = Reader::new(payload);
    let id = reader.read_varint().unwrap();
    assert_eq!(id, 0x00);
    let handshake = decode_handshake(&payload[1..]).unwrap();
    assert_eq!(
        handshake,
        Handshake { protocol_version: 776, server_address: "localhost".to_owned(), server_port: 25565, next_state: 1 }
    );
}

#[test]
fn handshake_rejects_truncated_input() {
    let bytes = handshake_bytes(776, "localhost", 25565, 1);
    let (len, header) = decode_varint_prefix(&bytes).unwrap().unwrap();
    let payload = &bytes[header + 1..header + len as usize];
    assert_eq!(decode_handshake(&payload[..payload.len() - 2]), Err(ProtoError::Truncated));
}

#[test]
fn decodes_login_start_with_and_without_uuid() {
    let mut body = Writer::new();
    body.write_string("TestPlayer");
    body.write_uuid(0x123E_4567_E89B_12D3_A456_4266_1417_4000);
    assert_eq!(
        decode_login_start(&body.into_bytes()).unwrap(),
        LoginStart { name: "TestPlayer".to_owned(), uuid: Some(0x123E_4567_E89B_12D3_A456_4266_1417_4000) }
    );

    let mut body = Writer::new();
    body.write_string("OldClient");
    assert_eq!(decode_login_start(&body.into_bytes()).unwrap(), LoginStart { name: "OldClient".to_owned(), uuid: None });
}

#[test]
fn status_json_has_vanilla_shape() {
    let json = status_json("26.2", 776, "A SpironMC Server", 20);
    assert_eq!(
        json,
        "{\"version\":{\"name\":\"26.2\",\"protocol\":776},\"players\":{\"max\":20,\"online\":0},\"description\":{\"text\":\"A SpironMC Server\"}}"
    );
}

#[test]
fn json_escapes_special_characters() {
    assert_eq!(chat_json("a\"b\\c"), "{\"text\":\"a\\\"b\\\\c\"}");
    assert_eq!(
        status_json("v", 1, "a\nb\ttab", 5),
        "{\"version\":{\"name\":\"v\",\"protocol\":1},\"players\":{\"max\":5,\"online\":0},\"description\":{\"text\":\"a\\nb\\ttab\"}}"
    );
}

#[test]
fn json_escapes_control_characters_as_unicode() {
    assert_eq!(chat_json("x\u{1}y\u{1f}"), "{\"text\":\"x\\u0001y\\u001f\"}");
    assert_eq!(status_json("v", -7, "m", 0).contains("\"protocol\":-7"), true);
}

#[test]
fn encoded_packets_have_length_prefix_and_id() {
    let bytes = encode_pong(123456789);
    let (len, header) = decode_varint_prefix(&bytes).unwrap().unwrap();
    assert_eq!(len as usize, bytes.len() - header);
    let mut reader = Reader::new(&bytes[header..]);
    assert_eq!(reader.read_varint().unwrap(), 0x01);
    assert_eq!(reader.read_i64().unwrap(), 123456789);
    assert_eq!(reader.remaining(), 0);
}

#[test]
fn status_response_wraps_the_json() {
    let body = frame_body(&encode_status_response("26.2", 776, "Hi", 3));
    let mut reader = Reader::new(&body);
    assert_eq!(reader.read_varint().unwrap(), 0x00);
    assert_eq!(reader.read_string().unwrap(), status_json("26.2", 776, "Hi", 3));
    assert_eq!(reader.remaining(), 0);
}

#[test]
fn login_success_carries_profile() {
    let bytes = encode_login_success(0x123E_4567_E89B_12D3_A456_4266_1417_4000, "Steve", 0xAAAAAAAA_BBBBBBBB_CCCCCCCC_DDDDDDDD);
    let (len, header) = decode_varint_prefix(&bytes).unwrap().unwrap();
    let mut reader = Reader::new(&bytes[header..header + len as usize]);
    assert_eq!(reader.read_varint().unwrap(), 0x02);
    assert_eq!(reader.read_uuid().unwrap(), 0x123E_4567_E89B_12D3_A456_4266_1417_4000);
    assert_eq!(reader.read_string().unwrap(), "Steve");
    assert_eq!(reader.read_varint().unwrap(), 0);
    assert_eq!(reader.read_uuid().unwrap(), 0xAAAAAAAA_BBBBBBBB_CCCCCCCC_DDDDDDDD);
    assert_eq!(reader.remaining(), 0);
}

#[test]
fn configuration_packets_encode() {
    let bytes = encode_known_packs();
    let (len, header) = decode_varint_prefix(&bytes).unwrap().unwrap();
    let mut reader = Reader::new(&bytes[header..header + len as usize]);
    assert_eq!(reader.read_varint().unwrap(), 0x0E);
    assert_eq!(reader.read_varint().unwrap(), 1);
    assert_eq!(reader.read_string().unwrap(), "minecraft");
    assert_eq!(reader.read_string().unwrap(), "core");
    assert_eq!(reader.read_string().unwrap(), "26.2");
    assert_eq!(reader.remaining(), 0);

    let bytes = encode_finish_configuration();
    let (len, header) = decode_varint_prefix(&bytes).unwrap().unwrap();
    assert_eq!(len, 1);
    assert_eq!(bytes[header], 0x03);

    let bytes = encode_update_tags();
    let (len, header) = decode_varint_prefix(&bytes).unwrap().unwrap();
    let mut reader = Reader::new(&bytes[header..header + len as usize]);
    assert_eq!(reader.read_varint().unwrap(), 0x0D);
    assert_eq!(reader.read_varint().unwrap(), 3);
    for (registry, tags) in [
        ("minecraft:item", SULFUR_ITEM_TAGS.as_slice()),
        ("minecraft:damage_type", DAMAGE_TYPE_TAGS.as_slice()),
        ("minecraft:banner_pattern", BANNER_PATTERN_TAGS.as_slice()),
    ] {
        assert_eq!(reader.read_string().unwrap(), registry);
        assert_eq!(reader.read_varint().unwrap() as usize, tags.len());
        for tag in tags {
            assert_eq!(reader.read_string().unwrap(), *tag);
            assert_eq!(reader.read_varint().unwrap(), 0);
        }
    }
    assert_eq!(reader.remaining(), 0);
}

#[test]
fn block_packets_encode() {
    let bytes = encode_block_update(3, 64, -2, 1);
    let (len, header) = decode_varint_prefix(&bytes).unwrap().unwrap();
    let mut reader = Reader::new(&bytes[header..header + len as usize]);
    assert_eq!(reader.read_varint().unwrap(), 0x08);
    assert_eq!(reader.read_position().unwrap(), (3, 64, -2));
    assert_eq!(reader.read_varint().unwrap(), 1);
    assert_eq!(reader.remaining(), 0);

    let bytes = encode_block_changed_ack(41);
    let (len, header) = decode_varint_prefix(&bytes).unwrap().unwrap();
    let mut reader = Reader::new(&bytes[header..header + len as usize]);
    assert_eq!(reader.read_varint().unwrap(), 0x04);
    assert_eq!(reader.read_varint().unwrap(), 41);
    assert_eq!(reader.remaining(), 0);
}

#[test]
fn slots_encode_empty_and_full() {
    let mut writer = Writer::new();
    write_slot(&mut writer, ItemStack::empty());
    assert_eq!(writer.into_bytes(), vec![0x00]);

    let mut writer = Writer::new();
    write_slot(&mut writer, ItemStack::new(Item::Dirt, 5).unwrap());
    let bytes = writer.into_bytes();
    let mut reader = Reader::new(&bytes);
    assert_eq!(reader.read_varint().unwrap(), 5);
    assert_eq!(reader.read_varint().unwrap(), Item::Dirt.id());
    assert_eq!(reader.read_varint().unwrap(), 0);
    assert_eq!(reader.read_varint().unwrap(), 0);
    assert_eq!(reader.remaining(), 0);
}

#[test]
fn container_and_held_packets_encode() {
    let mut slots = [ItemStack::empty(); INVENTORY_SIZE];
    slots[36] = ItemStack::new(Item::Stone, 64).unwrap();
    let cursor = ItemStack::new(Item::Dirt, 7).unwrap();
    let bytes = encode_container_content(&slots, cursor, 3);
    let (len, header) = decode_varint_prefix(&bytes).unwrap().unwrap();
    let mut reader = Reader::new(&bytes[header..header + len as usize]);
    assert_eq!(reader.read_varint().unwrap(), 0x12);
    assert_eq!(reader.read_varint().unwrap(), 0);
    assert_eq!(reader.read_varint().unwrap(), 3);
    assert_eq!(reader.read_varint().unwrap(), INVENTORY_SIZE as i32);
    for index in 0..INVENTORY_SIZE {
        let count = reader.read_varint().unwrap();
        if index == 36 {
            assert_eq!(count, 64);
            assert_eq!(reader.read_varint().unwrap(), Item::Stone.id());
            assert_eq!(reader.read_varint().unwrap(), 0);
            assert_eq!(reader.read_varint().unwrap(), 0);
        } else {
            assert_eq!(count, 0);
        }
    }
    assert_eq!(reader.read_varint().unwrap(), 7);
    assert_eq!(reader.read_varint().unwrap(), Item::Dirt.id());
    assert_eq!(reader.read_varint().unwrap(), 0);
    assert_eq!(reader.read_varint().unwrap(), 0);
    assert_eq!(reader.remaining(), 0);

    let bytes = encode_container_slot(0, 4, 37, slots[36]);
    let (len, header) = decode_varint_prefix(&bytes).unwrap().unwrap();
    let mut reader = Reader::new(&bytes[header..header + len as usize]);
    assert_eq!(reader.read_varint().unwrap(), 0x14);
    assert_eq!(reader.read_varint().unwrap(), 0);
    assert_eq!(reader.read_varint().unwrap(), 4);
    assert_eq!(reader.read_i16().unwrap(), 37);
    assert_eq!(reader.read_varint().unwrap(), 64);
    assert_eq!(reader.read_varint().unwrap(), Item::Stone.id());
    assert_eq!(reader.remaining(), 2);

    let bytes = encode_held_slot(8);
    let (len, header) = decode_varint_prefix(&bytes).unwrap().unwrap();
    let mut reader = Reader::new(&bytes[header..header + len as usize]);
    assert_eq!(reader.read_varint().unwrap(), 0x69);
    assert_eq!(reader.read_varint().unwrap(), 8);
    assert_eq!(reader.remaining(), 0);
}

#[test]
fn game_event_start_chunks_encodes() {
    let body = frame_body(&encode_game_event(13, 0.0f32.to_bits()));
    let mut reader = Reader::new(&body);
    assert_eq!(reader.read_varint().unwrap(), 0x26);
    assert_eq!(reader.read_u8().unwrap(), 13);
    assert_eq!(f32::from_bits(reader.read_u32().unwrap()), 0.0);
    assert_eq!(reader.remaining(), 0);
}

#[test]
fn play_login_carries_required_fields() {
    let body = frame_body(&encode_play_login(7, "minecraft:overworld", GameMode::Survival, 20, 0));
    let mut reader = Reader::new(&body);
    assert_eq!(reader.read_varint().unwrap(), 0x31);
    assert_eq!(reader.read_i32().unwrap(), 7);
    assert!(!reader.read_bool().unwrap());
    assert_eq!(reader.read_varint().unwrap(), 1);
    assert_eq!(reader.read_string().unwrap(), "minecraft:overworld");
    assert_eq!(reader.read_varint().unwrap(), 20);
    assert_eq!(reader.read_varint().unwrap(), 10);
    assert_eq!(reader.read_varint().unwrap(), 10);
    assert!(!reader.read_bool().unwrap());
    assert!(reader.read_bool().unwrap());
    assert!(!reader.read_bool().unwrap());
    assert_eq!(reader.read_varint().unwrap(), 0);
    assert_eq!(reader.read_string().unwrap(), "minecraft:overworld");
    assert_eq!(reader.read_i64().unwrap(), 0);
    assert_eq!(reader.read_u8().unwrap(), 0);
    assert_eq!(reader.read_i8().unwrap(), -1);
    assert!(!reader.read_bool().unwrap());
    assert!(!reader.read_bool().unwrap());
    assert!(!reader.read_bool().unwrap());
    assert_eq!(reader.read_varint().unwrap(), 0);
    assert_eq!(reader.read_varint().unwrap(), 63);
    assert!(!reader.read_bool().unwrap());
    assert!(!reader.read_bool().unwrap());
    assert_eq!(reader.remaining(), 0);
}

#[test]
fn spawn_and_sync_encode() {
    let body = frame_body(&encode_default_spawn("minecraft:overworld", 0, 100, 0, 0.0f32.to_bits(), 0.0f32.to_bits()));
    let mut reader = Reader::new(&body);
    assert_eq!(reader.read_varint().unwrap(), 0x61);
    assert_eq!(reader.read_string().unwrap(), "minecraft:overworld");
    assert_eq!(reader.read_position().unwrap(), (0, 100, 0));
    assert_eq!(f32::from_bits(reader.read_u32().unwrap()), 0.0);
    assert_eq!(f32::from_bits(reader.read_u32().unwrap()), 0.0);
    assert_eq!(reader.remaining(), 0);

    let body = frame_body(&encode_sync_position(
        0.5f64.to_bits(),
        100.0f64.to_bits(),
        (-3.25f64).to_bits(),
        90.0f32.to_bits(),
        (-5.0f32).to_bits(),
        12,
    ));
    let mut reader = Reader::new(&body);
    assert_eq!(reader.read_varint().unwrap(), 0x48);
    assert_eq!(reader.read_varint().unwrap(), 12);
    assert_eq!(f64::from_bits(reader.read_u64().unwrap()), 0.5);
    assert_eq!(f64::from_bits(reader.read_u64().unwrap()), 100.0);
    assert_eq!(f64::from_bits(reader.read_u64().unwrap()), -3.25);
    assert_eq!(f64::from_bits(reader.read_u64().unwrap()), 0.0);
    assert_eq!(f64::from_bits(reader.read_u64().unwrap()), 0.0);
    assert_eq!(f64::from_bits(reader.read_u64().unwrap()), 0.0);
    assert_eq!(f32::from_bits(reader.read_u32().unwrap()), 90.0);
    assert_eq!(f32::from_bits(reader.read_u32().unwrap()), -5.0);
    assert_eq!(reader.read_i32().unwrap(), 0);
    assert_eq!(reader.remaining(), 0);

    let body = frame_body(&encode_keep_alive(987654321));
    let mut reader = Reader::new(&body);
    assert_eq!(reader.read_varint().unwrap(), 0x2C);
    assert_eq!(reader.read_i64().unwrap(), 987654321);
    assert_eq!(reader.remaining(), 0);
}

#[test]
fn player_abilities_encodes_flags() {
    let body = frame_body(&encode_player_abilities(0x0E));
    let mut reader = Reader::new(&body);
    assert_eq!(reader.read_varint().unwrap(), 0x40);
    assert_eq!(reader.read_u8().unwrap(), 0x0E);
    assert_eq!(f32::from_bits(reader.read_u32().unwrap()), 0.05);
    assert_eq!(f32::from_bits(reader.read_u32().unwrap()), 0.1);
    assert_eq!(reader.remaining(), 0);
}

#[test]
fn system_chat_encodes_plain_text_without_overlay() {
    let body = frame_body(&encode_system_chat("Hello there"));
    let mut reader = Reader::new(&body);
    assert_eq!(reader.read_varint().unwrap(), 0x79);
    assert_eq!(reader.read_u8().unwrap(), 8);
    assert_eq!(reader.read_u16_string().unwrap(), "Hello there");
    assert!(!reader.read_bool().unwrap());
    assert_eq!(reader.remaining(), 0);
}

#[test]
fn health_and_respawn_encode() {
    let body = frame_body(&encode_health(7.5f32.to_bits()));
    let mut reader = Reader::new(&body);
    assert_eq!(reader.read_varint().unwrap(), 0x68);
    assert_eq!(f32::from_bits(reader.read_u32().unwrap()), 7.5);
    assert_eq!(reader.read_varint().unwrap(), 20);
    assert_eq!(f32::from_bits(reader.read_u32().unwrap()), 5.0);
    assert_eq!(reader.remaining(), 0);

    let body = frame_body(&encode_respawn("minecraft:overworld", GameMode::Survival, 0));
    let mut reader = Reader::new(&body);
    assert_eq!(reader.read_varint().unwrap(), 0x52);
    assert_eq!(reader.read_varint().unwrap(), 0);
    assert_eq!(reader.read_string().unwrap(), "minecraft:overworld");
    assert_eq!(reader.read_i64().unwrap(), 0);
    assert_eq!(reader.read_u8().unwrap(), 0);
    assert_eq!(reader.read_i8().unwrap(), -1);
    assert!(!reader.read_bool().unwrap());
    assert!(reader.read_bool().unwrap());
    assert!(!reader.read_bool().unwrap());
    assert_eq!(reader.read_varint().unwrap(), 0);
    assert_eq!(reader.read_varint().unwrap(), 63);
    assert_eq!(reader.read_u8().unwrap(), 0);
    assert_eq!(reader.remaining(), 0);
}

#[test]
fn login_disconnect_carries_reason() {
    let body = frame_body(&encode_login_disconnect(DUPLICATE_LOGIN_REASON));
    let mut reader = Reader::new(&body);
    assert_eq!(reader.read_varint().unwrap(), 0x00);
    let reason = reader.read_string().unwrap();
    assert!(reason.contains(DUPLICATE_LOGIN_REASON));
}

#[test]
fn system_chat_longer_than_a_u16_length_gives_no_bytes() {
    assert!(encode_system_chat(&"a".repeat(65_536)).is_empty());
    assert!(!encode_system_chat(&"a".repeat(65_535)).is_empty());
}
