use spironmc::config::Config;
use spironmc::inventory::{Inventory, Item, ItemStack};
use spironmc::java::packets::{encode_packet, encode_pong, status_json};
use spironmc::java::proto::{Reader, Writer};
use spironmc::java::session::{
    apply_click, click_is_allowed, click_pickup, click_shift, click_swap, handle_packet, parse_click, take_frame, ConfigStage, PacketAction,
    PendingClick, PendingEdit, ServerStatus, SessionState,
};
use spironmc::java::state::ProtocolState;
use spironmc::java::ProtoError;

fn status() -> ServerStatus {
    ServerStatus::from_config(&Config::default())
}

#[test]
fn frames_handle_partial_and_invalid_lengths() {
    let mut staging = vec![0x05];
    assert!(take_frame(&mut staging).unwrap().is_none());

    let mut staging = vec![0xFF, 0xFF, 0xFF, 0xFF, 0x0F];
    assert_eq!(take_frame(&mut staging), Err(ProtoError::PacketTooLong(-1)));

    let mut staging = vec![0x80, 0x80, 0x80, 0x80, 0x80, 0x80];
    assert_eq!(take_frame(&mut staging), Err(ProtoError::VarIntTooLong));
}

#[test]
fn take_frame_splits_back_to_back_packets() {
    let mut staging = encode_packet(0x01, &[1, 2, 3]);
    staging.extend(encode_packet(0x02, &[]));
    staging.push(0x07);
    assert_eq!(take_frame(&mut staging), Ok(Some((0x01, vec![1, 2, 3]))));
    assert_eq!(take_frame(&mut staging), Ok(Some((0x02, vec![]))));
    assert_eq!(take_frame(&mut staging), Ok(None));
    assert_eq!(staging, vec![0x07]);
}

fn handshake(next: i32) -> Vec<u8> {
    let mut body = Writer::new();
    body.write_varint(776);
    body.write_string("localhost");
    body.write_u16(25565);
    body.write_varint(next);
    body.into_bytes()
}

#[test]
fn status_flow_answers_and_pongs() {
    let status = status();
    let mut session = SessionState::new();
    assert!(matches!(handle_packet(&status, &mut session, 0x00, &handshake(1)), Ok(PacketAction::Nothing)));
    assert_eq!(session.state, ProtocolState::Status);
    assert_eq!(session.protocol_version, 776);
    match handle_packet(&status, &mut session, 0x00, &[]) {
        Ok(PacketAction::Respond(bytes)) => {
            let mut body = Writer::new();
            body.write_string(&status_json("26.2", 776, "A FeatherMC Server", 20));
            assert_eq!(bytes, encode_packet(0x00, &body.into_bytes()));
        }
        _ => panic!("expected a status response"),
    }
    let mut ping = Writer::new();
    ping.write_i64(42);
    match handle_packet(&status, &mut session, 0x01, &ping.into_bytes()) {
        Ok(PacketAction::Respond(bytes)) => assert_eq!(bytes, encode_pong(42)),
        _ => panic!("expected a pong"),
    }
    assert_eq!(handle_packet(&status, &mut session, 0x01, &[0; 7]).err(), Some(ProtoError::Truncated));
    assert_eq!(handle_packet(&status, &mut session, 0x05, &[]).err(), Some(ProtoError::UnknownPacket(5)));
}

#[test]
fn handshake_rejects_unknown_next_state() {
    let status = status();
    let mut session = SessionState::new();
    assert_eq!(handle_packet(&status, &mut session, 0x00, &handshake(7)).err(), Some(ProtoError::InvalidNextState(7)));
    assert_eq!(session.state, ProtocolState::Handshaking);
    assert_eq!(handle_packet(&status, &mut session, 0x01, &[]).err(), Some(ProtoError::UnknownPacket(1)));
}

#[test]
fn login_and_configuration_flow() {
    let status = status();
    let mut session = SessionState::new();
    handle_packet(&status, &mut session, 0x00, &handshake(2)).unwrap();
    assert_eq!(session.state, ProtocolState::Login);
    let mut login = Writer::new();
    login.write_string("Steve");
    match handle_packet(&status, &mut session, 0x00, &login.into_bytes()) {
        Ok(PacketAction::CompleteLogin { name, uuid }) => {
            assert_eq!(name, "Steve");
            assert_eq!(uuid, None);
        }
        _ => panic!("expected login completion"),
    }
    assert_eq!(session.login_name.as_deref(), Some("Steve"));
    handle_packet(&status, &mut session, 0x03, &[]).unwrap();
    assert_eq!(session.state, ProtocolState::Configuration);

    assert!(matches!(handle_packet(&status, &mut session, 0x07, &[]), Ok(PacketAction::Nothing)));
    assert!(session.poll_known_packs().is_some());
    assert_eq!(session.config_stage, ConfigStage::KnownPacksSent);
    assert!(session.poll_known_packs().is_none());
    assert!(matches!(handle_packet(&status, &mut session, 0x03, &[]), Ok(PacketAction::Nothing)));
    assert!(matches!(handle_packet(&status, &mut session, 0x07, &[]), Ok(PacketAction::SendRegistries)));
    session.registries_sent();
    assert!(matches!(handle_packet(&status, &mut session, 0x03, &[]), Ok(PacketAction::EnterPlay)));
    assert_eq!(session.config_stage, ConfigStage::Complete);
    session.entered_play();
    assert_eq!(session.state, ProtocolState::Play);
    assert_eq!(session.teleport_id, 2);
    assert!(session.keep_alive(200).is_some());
    assert!(session.keep_alive(201).is_none());
}

fn play_session() -> SessionState {
    let mut session = SessionState::new();
    session.state = ProtocolState::Play;
    session
}

#[test]
fn play_packets_decide_actions() {
    let status = status();
    let mut session = play_session();
    let mut body = Writer::new();
    body.write_varint(9);
    handle_packet(&status, &mut session, 0x00, &body.into_bytes()).unwrap();
    assert_eq!(session.confirmed_teleport, 9);

    let mut body = Writer::new();
    body.write_u64(1.5f64.to_bits());
    body.write_u64(65.0f64.to_bits());
    body.write_u64((-2.0f64).to_bits());
    body.write_u8(1);
    match handle_packet(&status, &mut session, 0x1E, &body.into_bytes()) {
        Ok(PacketAction::MovePlayer { x, y, z, has_position, has_rotation, .. }) => {
            assert_eq!(f64::from_bits(x), 1.5);
            assert_eq!(f64::from_bits(y), 65.0);
            assert_eq!(f64::from_bits(z), -2.0);
            assert!(has_position && !has_rotation);
        }
        _ => panic!("expected a move"),
    }
    assert_eq!(handle_packet(&status, &mut session, 0x1E, &[0; 24]).err(), Some(ProtoError::Truncated));

    let mut body = Writer::new();
    body.write_varint(1);
    body.write_varint(3);
    body.write_varint(0);
    assert!(matches!(handle_packet(&status, &mut session, 0x2A, &body.into_bytes()), Ok(PacketAction::PlayerAction(3))));

    assert!(matches!(handle_packet(&status, &mut session, 0x35, &[0, 4]), Ok(PacketAction::SelectSlot(4))));
    assert!(matches!(handle_packet(&status, &mut session, 0x35, &[0, 9]), Ok(PacketAction::HeldEcho)));

    let mut body = Writer::new();
    body.write_varint(2);
    body.write_position(5, 64, -3);
    body.write_varint(1);
    body.write_varint(77);
    match handle_packet(&status, &mut session, 0x29, &body.into_bytes()) {
        Ok(PacketAction::Edit(edit)) => assert_eq!(edit, PendingEdit::Break { x: 5, y: 64, z: -3, sequence: 77 }),
        _ => panic!("expected a break"),
    }
    assert!(matches!(handle_packet(&status, &mut session, 0x29, &[0]), Ok(PacketAction::Nothing)));
    assert!(matches!(handle_packet(&status, &mut session, 0x77, &[1, 2, 3]), Ok(PacketAction::Nothing)));
}

fn click_bytes(window: i32, state: i32, slot: i16, button: u8, mode: i32) -> Vec<u8> {
    let mut body = Writer::new();
    body.write_varint(window);
    body.write_varint(state);
    body.write_i16(slot);
    body.write_u8(button);
    body.write_varint(mode);
    body.write_varint(1);
    body.write_i16(slot);
    body.write_bool(true);
    body.write_varint(1);
    body.write_varint(5);
    body.write_varint(1);
    body.write_varint(7);
    body.write_i32(-1);
    body.write_varint(0);
    body.write_bool(false);
    body.into_bytes()
}

#[test]
fn clicks_parse_and_reject_malformed_input() {
    let click = parse_click(&click_bytes(0, 2, 36, 0, 0)).unwrap();
    assert_eq!(click, PendingClick { window: 0, state: 2, slot: 36, button: 0, mode: 0 });
    let mut bytes = click_bytes(0, 2, 36, 0, 0);
    bytes.push(0);
    assert_eq!(parse_click(&bytes), None);
    assert_eq!(parse_click(&click_bytes(0, 2, 36, 0, 7)), None);
    let bytes = click_bytes(0, 2, 36, 0, 0);
    assert_eq!(parse_click(&bytes[..bytes.len() - 2]), None);
    let reader = Reader::new(&bytes);
    assert_eq!(reader.remaining(), bytes.len());
}

#[test]
fn pickup_clicks_move_and_merge_stacks() {
    let mut inventory = Inventory::new();
    inventory.set(36, ItemStack::new(Item::Stone, 10).unwrap());
    let mut cursor = ItemStack::empty();
    assert!(click_pickup(&mut inventory, &mut cursor, 36, 0));
    assert_eq!(cursor, ItemStack::new(Item::Stone, 10).unwrap());
    assert!(inventory.get(36).unwrap().is_empty());

    inventory.set(37, ItemStack::new(Item::Stone, 60).unwrap());
    assert!(click_pickup(&mut inventory, &mut cursor, 37, 0));
    assert_eq!(inventory.get(37).unwrap().count, 64);
    assert_eq!(cursor.count, 6);

    assert!(click_pickup(&mut inventory, &mut cursor, 38, 1));
    assert_eq!(inventory.get(38).unwrap(), ItemStack::new(Item::Stone, 1).unwrap());
    assert_eq!(cursor.count, 5);

    let mut empty = ItemStack::empty();
    assert!(click_pickup(&mut inventory, &mut empty, 37, 1));
    assert_eq!(empty.count, 32);
    assert_eq!(inventory.get(37).unwrap().count, 32);

    assert!(!click_pickup(&mut inventory, &mut cursor, -999, 0));
    assert!(!click_pickup(&mut inventory, &mut cursor, 46, 0));
    assert!(!click_pickup(&mut inventory, &mut cursor, 10, 2));
}

#[test]
fn shift_and_swap_clicks_move_between_sections() {
    let mut inventory = Inventory::new();
    inventory.set(9, ItemStack::new(Item::Dirt, 64).unwrap());
    inventory.set(36, ItemStack::new(Item::Dirt, 60).unwrap());
    assert!(click_shift(&mut inventory, 9));
    assert_eq!(inventory.get(36).unwrap().count, 64);
    assert_eq!(inventory.get(37).unwrap(), ItemStack::new(Item::Dirt, 60).unwrap());
    assert!(inventory.get(9).unwrap().is_empty());
    assert!(!click_shift(&mut inventory, 9));
    assert!(!click_shift(&mut inventory, 0));

    assert!(click_swap(&mut inventory, 10, 1));
    assert_eq!(inventory.get(10).unwrap(), ItemStack::new(Item::Dirt, 60).unwrap());
    assert!(inventory.get(37).unwrap().is_empty());
    assert!(click_swap(&mut inventory, 10, 40));
    assert!(inventory.get(10).unwrap().is_empty());
    assert_eq!(inventory.get(45).unwrap().count, 60);
    assert!(!click_swap(&mut inventory, 10, 9));
}

#[test]
fn stale_or_foreign_clicks_do_not_apply() {
    let mut session = play_session();
    let mut inventory = Inventory::starting();
    let mut cursor = ItemStack::empty();
    apply_click(&mut session, &mut inventory, &mut cursor, PendingClick { window: 1, state: 0, slot: 36, button: 0, mode: 0 });
    assert!(!session.inv_dirty);
    apply_click(&mut session, &mut inventory, &mut cursor, PendingClick { window: 0, state: 5, slot: 36, button: 0, mode: 0 });
    assert!(session.inv_dirty);
    assert!(cursor.is_empty());
    assert_eq!(session.take_inventory_sync(), Some(1));
    apply_click(&mut session, &mut inventory, &mut cursor, PendingClick { window: 0, state: 1, slot: 36, button: 0, mode: 0 });
    assert_eq!(cursor.item, Item::Stone);
    assert!(session.inv_dirty);
}

#[test]
fn merging_into_an_overfull_slot_is_not_allowed() {
    let session = play_session();
    let mut inventory = Inventory::new();
    inventory.set(36, ItemStack { item: Item::Dirt, count: 70 });
    let cursor = ItemStack::new(Item::Dirt, 1).unwrap();
    let click = PendingClick { window: 0, state: session.inv_state, slot: 36, button: 0, mode: 0 };
    assert!(!click_is_allowed(&session, &inventory, cursor, click));
    assert!(click_is_allowed(&session, &inventory, ItemStack::empty(), click));
    let other = ItemStack::new(Item::Stone, 1).unwrap();
    assert!(click_is_allowed(&session, &inventory, other, click));
    assert!(click_is_allowed(&session, &inventory, cursor, PendingClick { window: 1, ..click }));
}
