use spironmc::config::Config;
use spironmc::inventory::{Item, ItemStack};
use spironmc::java::player::{ability_flags, current_pose, entity_flags, is_flying_exempt, GameMode};
use spironmc::java::proto::Writer;
use spironmc::java::session::{
    edit_allowed, edit_target, face_offset, handle_packet, is_duplicate_login, new_session_id, parse_dig, session_id_from_bytes,
    parse_held_slot, parse_place, parse_player_action, player_action_flags, PacketAction, PendingEdit,
    ServerStatus, SessionState,
};
use spironmc::java::state::ProtocolState;
use spironmc::world::Block;

fn play_session() -> SessionState {
    let mut session = SessionState::new();
    session.state = ProtocolState::Play;
    session
}

fn status() -> ServerStatus {
    ServerStatus::from_config(&Config::default())
}

fn place_bytes(x: i32, y: i32, z: i32, face: i32, seq: i32) -> Vec<u8> {
    let mut body = Writer::new();
    body.write_varint(0);
    body.write_position(x, y, z);
    body.write_varint(face);
    body.write_u32(0.5f32.to_bits());
    body.write_u32(0.5f32.to_bits());
    body.write_u32(0.5f32.to_bits());
    body.write_bool(false);
    body.write_bool(false);
    body.write_varint(seq);
    body.into_bytes()
}

fn dig_bytes(status: i32, x: i32, y: i32, z: i32, face: i32, seq: i32) -> Vec<u8> {
    let mut body = Writer::new();
    body.write_varint(status);
    body.write_position(x, y, z);
    body.write_varint(face);
    body.write_varint(seq);
    body.into_bytes()
}

#[test]
fn creative_reports_abilities_and_flight_exemption() {
    assert_eq!(ability_flags(GameMode::Creative, true), 0x04 | 0x08 | 0x02);
    assert!(is_flying_exempt(GameMode::Creative, true));
    assert_eq!(ability_flags(GameMode::Creative, false), 0x04 | 0x08);
    assert!(!is_flying_exempt(GameMode::Creative, false));
}

#[test]
fn survival_has_no_abilities() {
    assert_eq!(ability_flags(GameMode::Survival, false), 0);
    assert!(!is_flying_exempt(GameMode::Survival, false));
    assert_eq!(ability_flags(GameMode::Adventure, false), 0);
}

#[test]
fn spectator_always_flies_and_is_invulnerable() {
    assert_eq!(ability_flags(GameMode::Spectator, false), 0x01 | 0x04 | 0x02);
    assert!(is_flying_exempt(GameMode::Spectator, false));
}

#[test]
fn flags_and_pose_follow_sneaking_and_sprinting() {
    assert_eq!(entity_flags(false, false), 0);
    assert_eq!(current_pose(false), 0);
    assert_eq!(entity_flags(true, false), 0x02);
    assert_eq!(current_pose(true), 5);
    assert_eq!(entity_flags(true, true), 0x0A);
    assert_eq!(entity_flags(false, true), 0x08);
}

#[test]
fn game_modes_have_ids_and_names() {
    for (mode, id, name) in [
        (GameMode::Survival, 0, "survival"),
        (GameMode::Creative, 1, "creative"),
        (GameMode::Adventure, 2, "adventure"),
        (GameMode::Spectator, 3, "spectator"),
    ] {
        assert_eq!(mode.id(), id);
        assert_eq!(mode.name(), name);
        assert_eq!(GameMode::from_name(name), mode);
    }
    assert_eq!(GameMode::from_name("Creative"), GameMode::Survival);
    assert_eq!(GameMode::from_name(""), GameMode::Survival);
    assert!(GameMode::Creative.may_fly() && GameMode::Spectator.may_fly());
    assert!(!GameMode::Survival.may_fly() && !GameMode::Adventure.may_fly());
}

#[test]
fn player_commands_toggle_sneak_and_sprint() {
    assert_eq!(player_action_flags(0, false, false), (true, false));
    assert_eq!(player_action_flags(1, true, true), (false, true));
    assert_eq!(player_action_flags(3, true, false), (true, true));
    assert_eq!(player_action_flags(4, false, true), (false, false));
    assert_eq!(player_action_flags(2, true, false), (true, false));
    assert_eq!(player_action_flags(8, false, true), (false, true));
}

#[test]
fn detects_duplicates_by_uuid_or_name() {
    // Logged in: Steve on connection 1 with uuid 100, Alex on 2 without.
    let players: [(u64, &str, Option<u128>); 2] = [(1, "Steve", Some(100)), (2, "Alex", None)];
    let find = |except: u64, name: &str, uuid: Option<u128>| {
        players
            .iter()
            .find(|(conn, other, other_uuid)| is_duplicate_login(*conn, other, *other_uuid, except, name, uuid))
            .map(|(conn, _, _)| *conn)
    };
    assert_eq!(find(9, "Someone", Some(100)), Some(1));
    assert_eq!(find(9, "steve", None), Some(1));
    assert_eq!(find(9, "Herobrine", None), None);
    assert_eq!(find(1, "Steve", Some(100)), None);
    assert!(!is_duplicate_login(2, "Alex", None, 9, "Bob", None));
    assert!(!is_duplicate_login(2, "Alex", None, 9, "Bob", Some(5)));
}

#[test]
fn session_ids_read_bytes_big_endian() {
    let bytes: [u8; 16] = [0, 1, 2, 3, 4, 5, 6, 7, 8, 9, 10, 11, 12, 13, 14, 15];
    assert_eq!(session_id_from_bytes(&bytes), 0x0001_0203_0405_0607_0809_0A0B_0C0D_0E0F);
    assert_eq!(session_id_from_bytes(&[0xFF; 16]), u128::MAX);
}

#[test]
fn session_ids_come_from_the_os() {
    let first = new_session_id().unwrap();
    let second = new_session_id().unwrap();
    assert_ne!(first, second);
}

#[test]
fn action_packets_parse_or_are_ignored() {
    let mut body = Writer::new();
    body.write_varint(2);
    body.write_varint(0);
    body.write_varint(0);
    assert_eq!(parse_player_action(&body.into_bytes()), Some(0));
    assert_eq!(parse_player_action(&[0x02]), None);
    let mut body = Writer::new();
    body.write_varint(2);
    body.write_varint(99);
    body.write_varint(0);
    assert_eq!(parse_player_action(&body.into_bytes()), None);
    let mut body = Writer::new();
    body.write_varint(2);
    body.write_varint(1);
    body.write_varint(0);
    body.write_u8(7);
    assert_eq!(parse_player_action(&body.into_bytes()), None);
}

#[test]
fn held_slot_packets_parse_only_hotbar_slots() {
    assert_eq!(parse_held_slot(&[0, 2]), Some(2));
    assert_eq!(parse_held_slot(&[0, 8]), Some(8));
    assert_eq!(parse_held_slot(&[0, 9]), None);
    assert_eq!(parse_held_slot(&[0xFF, 0xFF]), None);
    assert_eq!(parse_held_slot(&[0]), None);
    assert_eq!(parse_held_slot(&[0, 2, 0]), None);
}

#[test]
fn dig_and_place_packets_parse_or_are_ignored() {
    assert_eq!(
        parse_dig(&dig_bytes(2, 5, 64, -3, 1, 77)),
        Some(PendingEdit::Break { x: 5, y: 64, z: -3, sequence: 77 })
    );
    assert_eq!(parse_dig(&dig_bytes(0, 5, 64, -3, 1, 77)), None);
    assert_eq!(parse_dig(&dig_bytes(2, 5, 64, -3, 6, 77)), None);
    assert_eq!(parse_dig(&[0x02, 0x00]), None);
    assert_eq!(
        parse_place(&place_bytes(0, 64, 0, 1, 31)),
        Some(PendingEdit::Place { x: 0, y: 64, z: 0, face: 1, sequence: 31 })
    );
    assert_eq!(parse_place(&place_bytes(0, 64, 0, 9, 5)), None);
    assert_eq!(parse_place(&[0x00]), None);
}

#[test]
fn malformed_play_packets_change_nothing() {
    let status = status();
    let mut session = play_session();
    let before_teleport = session.teleport_id;
    for (id, payload) in [
        (0x2A, vec![0x02]),
        (0x12, vec![0x00]),
        (0x29, vec![0x02, 0x00]),
        (0x42, place_bytes(0, 64, 0, 9, 5)),
    ] {
        assert!(matches!(handle_packet(&status, &mut session, id, &payload), Ok(PacketAction::Nothing)));
    }
    assert_eq!(session.state, ProtocolState::Play);
    assert_eq!(session.teleport_id, before_teleport);
    assert!(!session.inv_dirty && !session.held_dirty);
    match handle_packet(&status, &mut session, 0x42, &place_bytes(0, 64, 0, 1, 31)) {
        Ok(PacketAction::Edit(edit)) => {
            assert_eq!(edit, PendingEdit::Place { x: 0, y: 64, z: 0, face: 1, sequence: 31 })
        }
        _ => panic!("expected a placement"),
    }
}

#[test]
fn faces_point_at_neighbours() {
    assert_eq!(face_offset(0), (0, -1, 0));
    assert_eq!(face_offset(1), (0, 1, 0));
    assert_eq!(face_offset(2), (0, 0, -1));
    assert_eq!(face_offset(3), (0, 0, 1));
    assert_eq!(face_offset(4), (-1, 0, 0));
    assert_eq!(face_offset(5), (1, 0, 0));
}

#[test]
fn edits_target_the_block_or_its_neighbour() {
    let dirt = ItemStack::new(Item::Dirt, 3).unwrap();
    let brk = PendingEdit::Break { x: 1, y: 2, z: 3, sequence: 4 };
    assert_eq!(edit_target(brk, ItemStack::empty()), Some(((1, 2, 3), Block::Air, 4)));
    let place = PendingEdit::Place { x: 0, y: 64, z: 0, face: 1, sequence: 31 };
    assert_eq!(edit_target(place, dirt), Some(((0, 65, 0), Block::Dirt, 31)));
    // An empty hand, or an item that is no block, places nothing.
    assert_eq!(edit_target(place, ItemStack::empty()), None);
    let place_west = PendingEdit::Place { x: 0, y: 64, z: 0, face: 4, sequence: 2 };
    assert_eq!(edit_target(place_west, dirt), Some(((-1, 64, 0), Block::Dirt, 2)));
}

#[test]
fn edits_need_solid_blocks_or_free_air() {
    let brk = PendingEdit::Break { x: 0, y: 64, z: 0, sequence: 1 };
    let place = PendingEdit::Place { x: 0, y: 63, z: 0, face: 1, sequence: 1 };
    let feet = (5, 65, 5);
    assert!(edit_allowed(brk, Some(Block::Stone), (0, 64, 0), feet));
    assert!(!edit_allowed(brk, Some(Block::Air), (0, 64, 0), feet));
    assert!(!edit_allowed(brk, None, (0, 64, 0), feet));
    assert!(edit_allowed(place, Some(Block::Air), (0, 64, 0), feet));
    assert!(!edit_allowed(place, Some(Block::Stone), (0, 64, 0), feet));
    assert!(!edit_allowed(place, Some(Block::Air), (5, 65, 5), feet));
    assert!(!edit_allowed(place, Some(Block::Air), (5, 66, 5), feet));
    assert!(edit_allowed(place, Some(Block::Air), (5, 67, 5), feet));
    assert!(!edit_allowed(place, None, (0, 64, 0), feet));
}

#[test]
fn held_slot_resends_once() {
    let mut session = play_session();
    assert!(!session.take_held_sync());
    session.held_dirty = true;
    assert!(session.take_held_sync());
    assert!(!session.take_held_sync());
}
