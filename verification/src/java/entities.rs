//! Packets that tell a client about other players' entities.
use vstd::prelude::*;

use super::metadata::{encode_metadata, metadata_bytes, MetadataEntry};
use super::packets::{encode_packet, frame_fits, packet_frame};
use super::proto::{string_encoding, u128_be, u16_be, u32_be, u64_be, varint_encoding, Writer};

verus! {

broadcast use
    vstd::seq::group_seq_axioms,
    vstd::seq_lib::group_seq_properties,
    super::proto::lemma_varint_encoding_len,
;

/// Entity type id of a player.
pub const PLAYER_ENTITY_TYPE: i32 = 156;

pub const INFO_ADD_PLAYER: u8 = 0x01;
pub const INFO_UPDATE_GAMEMODE: u8 = 0x04;
pub const INFO_UPDATE_LISTED: u8 = 0x08;
pub const INFO_UPDATE_LATENCY: u8 = 0x10;

/// Player Info Update for one new player: add, game mode, listed, latency.
pub open spec fn player_info_add_body(uuid: u128, name: Seq<char>, gamemode: i32) -> Seq<u8> {
    seq![0x1Du8] + varint_encoding(1) + u128_be(uuid) + string_encoding(name) + varint_encoding(0)
        + varint_encoding(gamemode) + seq![1u8] + varint_encoding(0)
}

#[must_use]
pub fn encode_player_info_add(uuid: u128, name: &str, gamemode: i32) -> (r: Vec<u8>)
    requires
        frame_fits(0x46, player_info_add_body(uuid, name@, gamemode)),
    ensures
        r@ == packet_frame(0x46, player_info_add_body(uuid, name@, gamemode)),
{
    let mut body = Writer::new();
    assert(INFO_ADD_PLAYER | INFO_UPDATE_GAMEMODE | INFO_UPDATE_LISTED | INFO_UPDATE_LATENCY == 0x1Du8) by (bit_vector);
    body.write_u8(INFO_ADD_PLAYER | INFO_UPDATE_GAMEMODE | INFO_UPDATE_LISTED | INFO_UPDATE_LATENCY);
    body.write_varint(1);
    body.write_uuid(uuid);
    body.write_string(name);
    body.write_varint(0);
    body.write_varint(gamemode);
    body.write_bool(true);
    body.write_varint(0);
    let bytes = body.into_bytes();
    assert(bytes@ =~= player_info_add_body(uuid, name@, gamemode));
    encode_packet(0x46, bytes.as_slice())
}

/// Each uuid's 16 big-endian bytes in turn.
pub open spec fn uuids_bytes(uuids: Seq<u128>) -> Seq<u8>
    decreases uuids.len(),
{
    if uuids.len() == 0 {
        Seq::empty()
    } else {
        uuids_bytes(uuids.drop_last()) + u128_be(uuids.last())
    }
}

/// Player Info Remove: the count, then the uuids.
pub open spec fn player_info_remove_body(uuids: Seq<u128>) -> Seq<u8> {
    varint_encoding(uuids.len() as i32) + uuids_bytes(uuids)
}

#[must_use]
pub fn encode_player_info_remove(uuids: &[u128]) -> (r: Vec<u8>)
    requires
        frame_fits(0x45, player_info_remove_body(uuids@)),
    ensures
        r@ == packet_frame(0x45, player_info_remove_body(uuids@)),
{
    let mut body = Writer::new();
    body.write_varint(uuids.len() as i32);
    let mut i: usize = 0;
    while i < uuids.len()
        invariant
            i <= uuids@.len(),
            body@ == varint_encoding(uuids@.len() as i32) + uuids_bytes(uuids@.take(i as int)),
        decreases uuids.len() - i,
    {
        assert(uuids@.take(i + 1).drop_last() =~= uuids@.take(i as int));
        body.write_uuid(uuids[i]);
        i = i + 1;
    }
    assert(uuids@.take(i as int) =~= uuids@);
    encode_packet(0x45, body.into_bytes().as_slice())
}

/// Spawn Entity for a player: id, uuid, type, position (as f64 bits), no
/// velocity, angles as bytes, no data.
pub open spec fn spawn_player_body(entity_id: i32, uuid: u128, x: u64, y: u64, z: u64, yaw: u8, pitch: u8) -> Seq<u8> {
    varint_encoding(entity_id) + u128_be(uuid) + varint_encoding(PLAYER_ENTITY_TYPE) + u64_be(x) + u64_be(y) + u64_be(z)
        + varint_encoding(0) + varint_encoding(0) + varint_encoding(0) + seq![pitch, yaw, yaw] + varint_encoding(0)
}

/// Position arguments are the bits of the f64 coordinates; angles are
/// already in 1/256 turns.
#[must_use]
pub fn encode_spawn_player(entity_id: i32, uuid: u128, x: u64, y: u64, z: u64, yaw: u8, pitch: u8) -> (r: Vec<u8>)
    ensures
        r@ == packet_frame(0x01, spawn_player_body(entity_id, uuid, x, y, z, yaw, pitch)),
{
    let mut body = Writer::new();
    body.write_varint(entity_id);
    body.write_uuid(uuid);
    body.write_varint(PLAYER_ENTITY_TYPE);
    body.write_u64(x);
    body.write_u64(y);
    body.write_u64(z);
    body.write_varint(0);
    body.write_varint(0);
    body.write_varint(0);
    body.write_u8(pitch);
    body.write_u8(yaw);
    body.write_u8(yaw);
    body.write_varint(0);
    let bytes = body.into_bytes();
    assert(bytes@ =~= spawn_player_body(entity_id, uuid, x, y, z, yaw, pitch));
    encode_packet(0x01, bytes.as_slice())
}

#[must_use]
pub fn encode_entity_metadata(entity_id: i32, entries: &[MetadataEntry]) -> (r: Vec<u8>)
    requires
        frame_fits(0x63, varint_encoding(entity_id) + metadata_bytes(entries@)),
    ensures
        r@ == packet_frame(0x63, varint_encoding(entity_id) + metadata_bytes(entries@)),
{
    let mut body = Writer::new();
    body.write_varint(entity_id);
    encode_metadata(entries, &mut body);
    encode_packet(0x63, body.into_bytes().as_slice())
}

/// Update Entity Position: the deltas in 1/4096 blocks, then on-ground.
pub open spec fn entity_position_body(entity_id: i32, dx: i16, dy: i16, dz: i16, on_ground: bool) -> Seq<u8> {
    varint_encoding(entity_id) + u16_be(dx as u16) + u16_be(dy as u16) + u16_be(dz as u16)
        + seq![if on_ground { 1u8 } else { 0u8 }]
}

#[must_use]
pub fn encode_entity_position(entity_id: i32, dx: i16, dy: i16, dz: i16, on_ground: bool) -> (r: Vec<u8>)
    ensures
        r@ == packet_frame(0x35, entity_position_body(entity_id, dx, dy, dz, on_ground)),
{
    let mut body = Writer::new();
    body.write_varint(entity_id);
    body.write_i16(dx);
    body.write_i16(dy);
    body.write_i16(dz);
    body.write_bool(on_ground);
    let bytes = body.into_bytes();
    assert(bytes@ =~= entity_position_body(entity_id, dx, dy, dz, on_ground));
    encode_packet(0x35, bytes.as_slice())
}

/// Update Entity Position and Rotation: deltas, angle bytes, on-ground.
pub open spec fn entity_position_rotation_body(entity_id: i32, dx: i16, dy: i16, dz: i16, yaw: u8, pitch: u8, on_ground: bool) -> Seq<u8> {
    varint_encoding(entity_id) + u16_be(dx as u16) + u16_be(dy as u16) + u16_be(dz as u16)
        + seq![yaw, pitch, if on_ground { 1u8 } else { 0u8 }]
}

#[must_use]
pub fn encode_entity_position_rotation(entity_id: i32, dx: i16, dy: i16, dz: i16, yaw: u8, pitch: u8, on_ground: bool) -> (r: Vec<u8>)
    ensures
        r@ == packet_frame(0x36, entity_position_rotation_body(entity_id, dx, dy, dz, yaw, pitch, on_ground)),
{
    let mut body = Writer::new();
    body.write_varint(entity_id);
    body.write_i16(dx);
    body.write_i16(dy);
    body.write_i16(dz);
    body.write_u8(yaw);
    body.write_u8(pitch);
    body.write_bool(on_ground);
    let bytes = body.into_bytes();
    assert(bytes@ =~= entity_position_rotation_body(entity_id, dx, dy, dz, yaw, pitch, on_ground));
    encode_packet(0x36, bytes.as_slice())
}

/// Update Entity Rotation: angle bytes, on-ground.
#[must_use]
pub fn encode_entity_rotation(entity_id: i32, yaw: u8, pitch: u8, on_ground: bool) -> (r: Vec<u8>)
    ensures
        r@ == packet_frame(0x38, varint_encoding(entity_id) + seq![yaw, pitch, if on_ground { 1u8 } else { 0u8 }]),
{
    let mut body = Writer::new();
    body.write_varint(entity_id);
    body.write_u8(yaw);
    body.write_u8(pitch);
    body.write_bool(on_ground);
    let bytes = body.into_bytes();
    assert(bytes@ =~= varint_encoding(entity_id) + seq![yaw, pitch, if on_ground { 1u8 } else { 0u8 }]);
    encode_packet(0x38, bytes.as_slice())
}

/// Set Head Rotation: the head yaw byte.
#[must_use]
pub fn encode_head_rotation(entity_id: i32, head_yaw: u8) -> (r: Vec<u8>)
    ensures
        r@ == packet_frame(0x53, varint_encoding(entity_id) + seq![head_yaw]),
{
    let mut body = Writer::new();
    body.write_varint(entity_id);
    body.write_u8(head_yaw);
    let bytes = body.into_bytes();
    assert(bytes@ =~= varint_encoding(entity_id) + seq![head_yaw]);
    encode_packet(0x53, bytes.as_slice())
}

/// Teleport Entity: position (f64 bits), zero velocity, yaw and pitch (f32
/// bits), no relative flags, on-ground.
pub open spec fn teleport_entity_body(entity_id: i32, x: u64, y: u64, z: u64, yaw: u32, pitch: u32, on_ground: bool) -> Seq<u8> {
    varint_encoding(entity_id) + u64_be(x) + u64_be(y) + u64_be(z) + u64_be(0) + u64_be(0) + u64_be(0) + u32_be(yaw)
        + u32_be(pitch) + u32_be(0) + seq![if on_ground { 1u8 } else { 0u8 }]
}

#[must_use]
pub fn encode_teleport_entity(entity_id: i32, x: u64, y: u64, z: u64, yaw: u32, pitch: u32, on_ground: bool) -> (r: Vec<u8>)
    ensures
        r@ == packet_frame(0x7D, teleport_entity_body(entity_id, x, y, z, yaw, pitch, on_ground)),
{
    let mut body = Writer::new();
    body.write_varint(entity_id);
    body.write_u64(x);
    body.write_u64(y);
    body.write_u64(z);
    body.write_u64(0);
    body.write_u64(0);
    body.write_u64(0);
    body.write_u32(yaw);
    body.write_u32(pitch);
    body.write_i32(0);
    body.write_bool(on_ground);
    let bytes = body.into_bytes();
    assert(bytes@ =~= teleport_entity_body(entity_id, x, y, z, yaw, pitch, on_ground));
    encode_packet(0x7D, bytes.as_slice())
}

/// Each id's VarInt in turn.
pub open spec fn ids_bytes(ids: Seq<i32>) -> Seq<u8>
    decreases ids.len(),
{
    if ids.len() == 0 {
        Seq::empty()
    } else {
        ids_bytes(ids.drop_last()) + varint_encoding(ids.last())
    }
}

/// Remove Entities: the count, then each id.
pub open spec fn destroy_entities_body(ids: Seq<i32>) -> Seq<u8> {
    varint_encoding(ids.len() as i32) + ids_bytes(ids)
}

#[must_use]
pub fn encode_destroy_entities(entity_ids: &[i32]) -> (r: Vec<u8>)
    requires
        frame_fits(0x4D, destroy_entities_body(entity_ids@)),
    ensures
        r@ == packet_frame(0x4D, destroy_entities_body(entity_ids@)),
{
    let mut body = Writer::new();
    body.write_varint(entity_ids.len() as i32);
    let mut i: usize = 0;
    while i < entity_ids.len()
        invariant
            i <= entity_ids@.len(),
            body@ == varint_encoding(entity_ids@.len() as i32) + ids_bytes(entity_ids@.take(i as int)),
        decreases entity_ids.len() - i,
    {
        assert(entity_ids@.take(i + 1).drop_last() =~= entity_ids@.take(i as int));
        body.write_varint(entity_ids[i]);
        i = i + 1;
    }
    assert(entity_ids@.take(i as int) =~= entity_ids@);
    encode_packet(0x4D, body.into_bytes().as_slice())
}

} // verus!
