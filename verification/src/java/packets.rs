//! Decoding of the handshake and login packets, and encoding of the
//! clientbound packets whose payloads hold no floating-point fields.
use vstd::prelude::*;
use vstd::string::*;
use vstd::utf8::*;

use super::error::ProtoError;
use super::proto::{
    lemma_encode_utf8_len, lemma_varint_prefix_len, pack_position, spec_decode_varint, spec_read_string, string_encoding, u128_be, u128_from_be,
    u16_be, u16_from_be, u16_string_encoding, u32_be, u64_be, varint_encoding, Reader, Writer,
};
use super::player::{gamemode_id, GameMode};
use crate::inventory::{empty_stack, item_id, stack_is_empty, ItemStack, INVENTORY_SIZE};
use crate::text::{decimal, json_escape, push_decimal, push_json_escaped};

use super::nbt::NbtTag;

verus! {

broadcast use
    vstd::seq::group_seq_axioms,
    vstd::seq_lib::group_seq_properties,
    vstd::string::group_string_axioms,
    super::proto::lemma_varint_encoding_len,
    super::proto::lemma_varlong_encoding_len,
;

/// Reason shown to a session that another login of the same player replaces.
pub const DUPLICATE_LOGIN_REASON: &'static str = "You logged in from another location.";

/// Version name announced in the server list and the known-packs exchange.
pub const VERSION_NAME: &'static str = "26.2";
/// Protocol number of that version.
pub const PROTOCOL_VERSION: i32 = 776;

/// Serverbound handshake: which protocol the client speaks and which state
/// it asks for next.
#[derive(Debug, Clone, PartialEq, Eq)]
pub struct Handshake {
    pub protocol_version: i32,
    pub server_address: String,
    pub server_port: u16,
    pub next_state: i32,
}

/// Serverbound login start: the player's name and, from newer clients, uuid.
#[derive(Debug, Clone, PartialEq, Eq)]
pub struct LoginStart {
    pub name: String,
    pub uuid: Option<u128>,
}

/// A VarInt read as a read step: the value and the bytes it used, or the
/// error `read_varint` reports.
pub open spec fn varint_step(b: Seq<u8>) -> Result<(i32, nat), ProtoError> {
    match spec_decode_varint(b) {
        Ok(Some((v, n))) => Ok((v, n as nat)),
        Ok(None) => Err(ProtoError::Truncated),
        Err(e) => Err(e),
    }
}

/// The handshake fields in `payload`: protocol VarInt, address string,
/// big-endian port, next-state VarInt. Trailing bytes are ignored.
pub open spec fn spec_decode_handshake(b: Seq<u8>) -> Result<(i32, Seq<char>, u16, i32), ProtoError> {
    match varint_step(b) {
        Err(e) => Err(e),
        Ok((protocol, n1)) => {
            let b1 = b.skip(n1 as int);
            match spec_read_string(b1).0 {
                Err(e) => Err(e),
                Ok(address) => {
                    let b2 = b1.skip(spec_read_string(b1).1 as int);
                    if b2.len() < 2 {
                        Err(ProtoError::Truncated)
                    } else {
                        match varint_step(b2.skip(2)) {
                            Err(e) => Err(e),
                            Ok((next, _)) => Ok((protocol, address, u16_from_be(b2.take(2)), next)),
                        }
                    }
                },
            }
        },
    }
}

/// The login-start fields in `payload`: the name, then a uuid when at
/// least 16 more bytes follow.
pub open spec fn spec_decode_login_start(b: Seq<u8>) -> Result<(Seq<char>, Option<u128>), ProtoError> {
    match spec_read_string(b).0 {
        Err(e) => Err(e),
        Ok(name) => {
            let rest = b.skip(spec_read_string(b).1 as int);
            if rest.len() >= 16 {
                Ok((name, Some(u128_from_be(rest.take(16)))))
            } else {
                Ok((name, None))
            }
        },
    }
}

proof fn lemma_skip_skip(s: Seq<u8>, a: int, b: int)
    requires
        0 <= a <= s.len(),
        0 <= b <= s.len() - a,
    ensures
        s.skip(a).skip(b) == s.skip(a + b),
{
    assert(s.skip(a).skip(b) =~= s.skip(a + b));
}

#[verifier::spinoff_prover]
#[verifier::rlimit(40)]
pub fn decode_handshake(payload: &[u8]) -> (r: Result<Handshake, ProtoError>)
    ensures
        match spec_decode_handshake(payload@) {
            Ok((protocol, address, port, next)) => r matches Ok(h) && h.protocol_version == protocol
                && h.server_address@ == address && h.server_port == port && h.next_state == next,
            Err(e) => r == Err::<Handshake, ProtoError>(e),
        },
{
    let mut reader = Reader::new(payload);
    let ghost b = payload@;
    assert(reader.rest() =~= b);
    let protocol_version = reader.read_varint()?;
    let ghost n1 = varint_step(b).unwrap().1;
    proof {
        lemma_varint_prefix_len(b);
        assert(reader.rest() =~= b.skip(n1 as int));
    }
    let ghost b1 = reader.rest();
    let server_address = reader.read_string()?;
    proof {
        Reader::lemma_pos_bound(&reader);
        assert(reader.rest() =~= b1.skip(spec_read_string(b1).1 as int));
    }
    let ghost b2 = reader.rest();
    let server_port = reader.read_u16()?;
    proof {
        assert(reader.rest() =~= b2.skip(2));
    }
    let next_state = reader.read_varint()?;
    Ok(Handshake { protocol_version, server_address, server_port, next_state })
}

pub fn decode_login_start(payload: &[u8]) -> (r: Result<LoginStart, ProtoError>)
    ensures
        match spec_decode_login_start(payload@) {
            Ok((name, uuid)) => r matches Ok(l) && l.name@ == name && l.uuid == uuid,
            Err(e) => r == Err::<LoginStart, ProtoError>(e),
        },
{
    let mut reader = Reader::new(payload);
    let ghost b = payload@;
    assert(reader.rest() =~= b);
    let name = reader.read_string()?;
    proof {
        Reader::lemma_pos_bound(&reader);
        assert(reader.rest() =~= b.skip(spec_read_string(b).1 as int));
    }
    let uuid = if reader.remaining() >= 16 {
        Some(reader.read_uuid()?)
    } else {
        None
    };
    Ok(LoginStart { name, uuid })
}

/// A packet as sent: VarInt length of the rest, VarInt packet id, body.
pub open spec fn packet_frame(id: i32, body: Seq<u8>) -> Seq<u8> {
    varint_encoding((varint_encoding(id).len() + body.len()) as i32) + varint_encoding(id) + body
}

/// Whether the length prefix of a packet with this id and body fits in
/// an i32.
pub open spec fn frame_fits(id: i32, body: Seq<u8>) -> bool {
    varint_encoding(id).len() + body.len() <= i32::MAX
}

/// Frames a packet body: length prefix, id, body.
pub fn encode_packet(id: i32, body: &[u8]) -> (r: Vec<u8>)
    requires
        frame_fits(id, body@),
    ensures
        r@ == packet_frame(id, body@),
{
    let mut id_writer = Writer::new();
    id_writer.write_varint(id);
    let id_bytes = id_writer.into_bytes();
    let mut out = Writer::new();
    out.write_varint(id_bytes.len() as i32 + body.len() as i32);
    out.write_bytes(id_bytes.as_slice());
    out.write_bytes(body);
    let r = out.into_bytes();
    assert(r@ =~= packet_frame(id, body@));
    r
}

/// The chat component `{"text":"…"}` holding `text`.
pub open spec fn chat_text(text: Seq<char>) -> Seq<char> {
    "{\"text\":\""@ + json_escape(text) + "\"}"@
}

/// The server-list status document.
pub open spec fn status_text(version_name: Seq<char>, protocol: i32, motd: Seq<char>, max_players: u32) -> Seq<char> {
    "{\"version\":{\"name\":\""@ + json_escape(version_name) + "\",\"protocol\":"@ + decimal(protocol as int)
        + "},\"players\":{\"max\":"@ + decimal(max_players as int) + ",\"online\":0},\"description\":{\"text\":\""@
        + json_escape(motd) + "\"}}"@
}

/// `{"text":"…"}` with the text JSON-escaped.
#[must_use]
pub fn chat_json(text: &str) -> (r: String)
    ensures
        r@ == chat_text(text@),
{
    let mut out = String::from_str("{\"text\":\"");
    push_json_escaped(&mut out, text);
    out.append("\"}");
    out
}

/// The server-list status document.
#[must_use]
pub fn status_json(version_name: &str, protocol: i32, motd: &str, max_players: u32) -> (r: String)
    ensures
        r@ == status_text(version_name@, protocol, motd@, max_players),
{
    let mut out = String::from_str("{\"version\":{\"name\":\"");
    push_json_escaped(&mut out, version_name);
    out.append("\",\"protocol\":");
    push_decimal(&mut out, protocol as i64);
    out.append("},\"players\":{\"max\":");
    push_decimal(&mut out, max_players as i64);
    out.append(",\"online\":0},\"description\":{\"text\":\"");
    push_json_escaped(&mut out, motd);
    out.append("\"}}");
    out
}


pub fn encode_status_response(version_name: &str, protocol: i32, motd: &str, max_players: u32) -> (r: Vec<u8>)
    requires
        frame_fits(0x00, string_encoding(status_text(version_name@, protocol, motd@, max_players))),
    ensures
        r@ == packet_frame(0x00, string_encoding(status_text(version_name@, protocol, motd@, max_players))),
{
    let mut body = Writer::new();
    let json = status_json(version_name, protocol, motd, max_players);
    body.write_string(json.as_str());
    encode_packet(0x00, body.into_bytes().as_slice())
}

pub fn encode_pong(payload: i64) -> (r: Vec<u8>)
    ensures
        r@ == packet_frame(0x01, u64_be(payload as u64)),
{
    let mut body = Writer::new();
    body.write_i64(payload);
    encode_packet(0x01, body.into_bytes().as_slice())
}

pub open spec fn login_success_body(uuid: u128, name: Seq<char>, session_id: u128) -> Seq<u8> {
    u128_be(uuid) + string_encoding(name) + varint_encoding(0) + u128_be(session_id)
}

/// The player's profile: uuid, name, no properties, then the session id.
pub fn encode_login_success(uuid: u128, name: &str, session_id: u128) -> (r: Vec<u8>)
    requires
        frame_fits(0x02, login_success_body(uuid, name@, session_id)),
    ensures
        r@ == packet_frame(0x02, login_success_body(uuid, name@, session_id)),
{
    let mut body = Writer::new();
    body.write_uuid(uuid);
    body.write_string(name);
    body.write_varint(0);
    body.write_uuid(session_id);
    let bytes = body.into_bytes();
    assert(bytes@ =~= login_success_body(uuid, name@, session_id));
    encode_packet(0x02, bytes.as_slice())
}

/// Ability flag bits shared by the clientbound and serverbound Player
/// Abilities packets.
pub const ABILITY_INVULNERABLE: u8 = 0x01;
pub const ABILITY_FLYING: u8 = 0x02;
pub const ABILITY_ALLOW_FLYING: u8 = 0x04;
pub const ABILITY_INSTANT_BUILD: u8 = 0x08;

/// Bits of the f32 0.05 (default flying speed).
pub const FLYING_SPEED_BITS: u32 = 0x3D4C_CCCD;
/// Bits of the f32 0.1 (default field-of-view modifier).
pub const FOV_MODIFIER_BITS: u32 = 0x3DCC_CCCD;

/// Tells the client which abilities are live: the flags, then the default
/// flying speed and field-of-view modifier as big-endian f32.
pub fn encode_player_abilities(flags: u8) -> (r: Vec<u8>)
    ensures
        r@ == packet_frame(0x40, seq![flags] + u32_be(FLYING_SPEED_BITS) + u32_be(FOV_MODIFIER_BITS)),
{
    let mut body = Writer::new();
    body.write_u8(flags);
    body.write_u32(FLYING_SPEED_BITS);
    body.write_u32(FOV_MODIFIER_BITS);
    let bytes = body.into_bytes();
    assert(bytes@ =~= seq![flags] + u32_be(FLYING_SPEED_BITS) + u32_be(FOV_MODIFIER_BITS));
    encode_packet(0x40, bytes.as_slice())
}

/// Overlay-free system chat: the text as an unnamed NBT string tag (id 8,
/// u16 length, UTF-8), then `false` for "not an action-bar overlay". Text
/// over 65535 UTF-8 bytes cannot be sent and gives no bytes at all.
pub fn encode_system_chat(text: &str) -> (r: Vec<u8>)
    ensures
        encode_utf8(text@).len() <= u16::MAX ==> r@ == packet_frame(0x79, seq![8u8] + u16_string_encoding(text@) + seq![0u8]),
        encode_utf8(text@).len() > u16::MAX ==> r@ == Seq::<u8>::empty(),
{
    let mut body = Writer::new();
    let tag = NbtTag::String(text.to_string());
    if tag.encode_unnamed(&mut body).is_err() {
        return Vec::new();
    }
    body.write_bool(false);
    let bytes = body.into_bytes();
    assert(bytes@ =~= seq![8u8] + u16_string_encoding(text@) + seq![0u8]);
    encode_packet(0x79, bytes.as_slice())
}

pub fn encode_block_update(x: i32, y: i32, z: i32, state: i32) -> (r: Vec<u8>)
    ensures
        r@ == packet_frame(0x08, u64_be(pack_position(x, y, z)) + varint_encoding(state)),
{
    let mut body = Writer::new();
    body.write_position(x, y, z);
    body.write_varint(state);
    encode_packet(0x08, body.into_bytes().as_slice())
}

/// Wire form of an inventory slot: a zero count for an empty stack, else
/// count, item id and two empty component lists.
pub open spec fn slot_bytes(stack: ItemStack) -> Seq<u8> {
    if stack_is_empty(stack) {
        varint_encoding(0)
    } else {
        varint_encoding(stack.count as i32) + varint_encoding(item_id(stack.item)) + varint_encoding(0) + varint_encoding(0)
    }
}

pub open spec fn slots_bytes(slots: Seq<ItemStack>) -> Seq<u8>
    decreases slots.len(),
{
    if slots.len() == 0 {
        Seq::empty()
    } else {
        slots_bytes(slots.drop_last()) + slot_bytes(slots.last())
    }
}

pub fn write_slot(writer: &mut Writer, stack: ItemStack)
    ensures
        final(writer)@ == old(writer)@ + slot_bytes(stack),
{
    if stack.is_empty() {
        writer.write_varint(0);
        return;
    }
    writer.write_varint(stack.count as i32);
    writer.write_varint(stack.item.id());
    writer.write_varint(0);
    writer.write_varint(0);
    assert(writer@ =~= old(writer)@ + slot_bytes(stack));
}

pub open spec fn container_content_body(slots: Seq<ItemStack>, cursor: ItemStack, state: i32) -> Seq<u8> {
    varint_encoding(0) + varint_encoding(state) + varint_encoding(INVENTORY_SIZE as i32) + slots_bytes(slots) + slot_bytes(cursor)
}

/// The whole player inventory (window 0), then the cursor stack.
pub fn encode_container_content(slots: &[ItemStack; INVENTORY_SIZE], cursor: ItemStack, state: i32) -> (r: Vec<u8>)
    ensures
        r@ == packet_frame(0x12, container_content_body(slots@, cursor, state)),
{
    let mut body = Writer::new();
    body.write_varint(0);
    body.write_varint(state);
    body.write_varint(INVENTORY_SIZE as i32);
    let ghost head = body@;
    let mut i: usize = 0;
    while i < INVENTORY_SIZE
        invariant
            i <= INVENTORY_SIZE,
            slots@.len() == INVENTORY_SIZE,
            body@ == head + slots_bytes(slots@.take(i as int)),
            body@.len() <= head.len() + 20 * i,
        decreases INVENTORY_SIZE - i,
    {
        assert(slots@.take(i + 1).drop_last() =~= slots@.take(i as int));
        write_slot(&mut body, slots[i]);
        i = i + 1;
    }
    assert(slots@.take(INVENTORY_SIZE as int) =~= slots@);
    write_slot(&mut body, cursor);
    let bytes = body.into_bytes();
    assert(bytes@ =~= container_content_body(slots@, cursor, state));
    encode_packet(0x12, bytes.as_slice())
}

pub open spec fn container_slot_body(window: i32, state: i32, index: i32, stack: ItemStack) -> Seq<u8> {
    varint_encoding(window) + varint_encoding(state) + u16_be(index as i16 as u16) + slot_bytes(stack)
}

/// One slot of a window; the index is sent as an i16.
pub fn encode_container_slot(window: i32, state: i32, index: i32, stack: ItemStack) -> (r: Vec<u8>)
    ensures
        r@ == packet_frame(0x14, container_slot_body(window, state, index, stack)),
{
    let mut body = Writer::new();
    body.write_varint(window);
    body.write_varint(state);
    body.write_i16(index as i16);
    write_slot(&mut body, stack);
    let bytes = body.into_bytes();
    assert(bytes@ =~= container_slot_body(window, state, index, stack));
    encode_packet(0x14, bytes.as_slice())
}

pub fn encode_held_slot(index: u8) -> (r: Vec<u8>)
    ensures
        r@ == packet_frame(0x69, varint_encoding(index as i32)),
{
    let mut body = Writer::new();
    body.write_varint(index as i32);
    encode_packet(0x69, body.into_bytes().as_slice())
}

pub fn encode_block_changed_ack(sequence: i32) -> (r: Vec<u8>)
    ensures
        r@ == packet_frame(0x04, varint_encoding(sequence)),
{
    let mut body = Writer::new();
    body.write_varint(sequence);
    encode_packet(0x04, body.into_bytes().as_slice())
}

pub fn encode_keep_alive(id: i64) -> (r: Vec<u8>)
    ensures
        r@ == packet_frame(0x2C, u64_be(id as u64)),
{
    let mut body = Writer::new();
    body.write_i64(id);
    encode_packet(0x2C, body.into_bytes().as_slice())
}

pub open spec fn known_packs_body() -> Seq<u8> {
    varint_encoding(1) + string_encoding("minecraft"@) + string_encoding("core"@) + string_encoding(VERSION_NAME@)
}

/// The one data pack the server uses: `minecraft:core` at this version.
pub fn encode_known_packs() -> (r: Vec<u8>)
    ensures
        r@ == packet_frame(0x0E, known_packs_body()),
{
    let mut body = Writer::new();
    body.write_varint(1);
    body.write_string("minecraft");
    body.write_string("core");
    body.write_string(VERSION_NAME);
    let bytes = body.into_bytes();
    proof {
        reveal_strlit("minecraft");
        reveal_strlit("core");
        reveal_strlit("26.2");
        vstd::utf8::is_ascii_chars_encode_utf8("minecraft"@);
        vstd::utf8::is_ascii_chars_encode_utf8("core"@);
        vstd::utf8::is_ascii_chars_encode_utf8("26.2"@);
    }
    assert(bytes@ =~= known_packs_body());
    encode_packet(0x0E, bytes.as_slice())
}

pub fn encode_finish_configuration() -> (r: Vec<u8>)
    ensures
        r@ == packet_frame(0x03, Seq::<u8>::empty()),
{
    let empty: [u8; 0] = [];
    encode_packet(0x03, empty.as_slice())
}

/// A login-state disconnect whose reason is a chat component.
pub fn encode_login_disconnect(reason: &str) -> (r: Vec<u8>)
    requires
        frame_fits(0x00, string_encoding(chat_text(reason@))),
    ensures
        r@ == packet_frame(0x00, string_encoding(chat_text(reason@))),
{
    let mut body = Writer::new();
    let json = chat_json(reason);
    body.write_string(json.as_str());
    encode_packet(0x00, body.into_bytes().as_slice())
}

/// Item tags the client needs to resolve the sulfur-cube archetypes; each is
/// sent empty, as the tag only has to exist.
pub const SULFUR_ITEM_TAGS: [&'static str; 14] = [
    "minecraft:sulfur_cube_archetype/regular",
    "minecraft:sulfur_cube_archetype/bouncy",
    "minecraft:sulfur_cube_archetype/slow_bouncy",
    "minecraft:sulfur_cube_archetype/slow_flat",
    "minecraft:sulfur_cube_archetype/fast_flat",
    "minecraft:sulfur_cube_archetype/light",
    "minecraft:sulfur_cube_archetype/fast_sliding",
    "minecraft:sulfur_cube_archetype/slow_sliding",
    "minecraft:sulfur_cube_archetype/high_resistance",
    "minecraft:sulfur_cube_archetype/sticky",
    "minecraft:sulfur_cube_archetype/explosive",
    "minecraft:sulfur_cube_archetype/hot",
    "minecraft:sulfur_cube_food",
    "minecraft:sulfur_cube_swallowable",
];

/// Damage-type tags referenced by default item components.
pub const DAMAGE_TYPE_TAGS: [&'static str; 3] = [
    "minecraft:bypasses_shield",
    "minecraft:is_explosion",
    "minecraft:is_fire",
];

/// Banner-pattern tags referenced by default item components.
pub const BANNER_PATTERN_TAGS: [&'static str; 10] = [
    "minecraft:pattern_item/bordure_indented",
    "minecraft:pattern_item/creeper",
    "minecraft:pattern_item/field_masoned",
    "minecraft:pattern_item/flow",
    "minecraft:pattern_item/flower",
    "minecraft:pattern_item/globe",
    "minecraft:pattern_item/guster",
    "minecraft:pattern_item/mojang",
    "minecraft:pattern_item/piglin",
    "minecraft:pattern_item/skull",
];

/// The views of a list of strings.
pub open spec fn str_views(tags: Seq<&str>) -> Seq<Seq<char>> {
    tags.map_values(|t: &str| t@)
}

/// Each tag with an empty entry list.
pub open spec fn empty_tag_entries(tags: Seq<Seq<char>>) -> Seq<u8>
    decreases tags.len(),
{
    if tags.len() == 0 {
        Seq::empty()
    } else {
        empty_tag_entries(tags.drop_last()) + string_encoding(tags.last()) + varint_encoding(0)
    }
}

/// One registry's tag list in Update Tags: registry name, count, entries.
pub open spec fn empty_tags_bytes(registry: Seq<char>, tags: Seq<Seq<char>>) -> Seq<u8> {
    string_encoding(registry) + varint_encoding(tags.len() as i32) + empty_tag_entries(tags)
}

proof fn lemma_empty_tag_entries_len(tags: Seq<Seq<char>>, longest: nat)
    requires
        forall|i: int| 0 <= i < tags.len() ==> (#[trigger] tags[i]).len() <= longest,
    ensures
        empty_tag_entries(tags).len() <= tags.len() * (10 + 4 * longest),
    decreases tags.len(),
{
    if tags.len() > 0 {
        lemma_empty_tag_entries_len(tags.drop_last(), longest);
        lemma_encode_utf8_len(tags.last());
        assert((tags.len() - 1) * (10 + 4 * longest) + (10 + 4 * longest) == tags.len() * (10 + 4 * longest))
            by (nonlinear_arith);
    }
}

fn write_empty_tags(body: &mut Writer, registry: &str, tags: &[&str])
    ensures
        final(body)@ == old(body)@ + empty_tags_bytes(registry@, str_views(tags@)),
{
    body.write_string(registry);
    body.write_varint(tags.len() as i32);
    let ghost head = body@;
    let mut i: usize = 0;
    while i < tags.len()
        invariant
            i <= tags@.len(),
            body@ == head + empty_tag_entries(str_views(tags@.take(i as int))),
        decreases tags.len() - i,
    {
        assert(str_views(tags@.take(i + 1)).drop_last() =~= str_views(tags@.take(i as int)));
        body.write_string(tags[i]);
        body.write_varint(0);
        i = i + 1;
    }
    assert(tags@.take(i as int) =~= tags@);
    assert(body@ =~= old(body)@ + empty_tags_bytes(registry@, str_views(tags@)));
}

/// Update Tags: three registries whose tags are all empty.
pub open spec fn update_tags_body() -> Seq<u8> {
    varint_encoding(3) + empty_tags_bytes("minecraft:item"@, str_views(SULFUR_ITEM_TAGS@))
        + empty_tags_bytes("minecraft:damage_type"@, str_views(DAMAGE_TYPE_TAGS@))
        + empty_tags_bytes("minecraft:banner_pattern"@, str_views(BANNER_PATTERN_TAGS@))
}

/// The tags vanilla item and registry data refer to, each sent empty.
#[must_use]
pub fn encode_update_tags() -> (r: Vec<u8>)
    ensures
        r@ == packet_frame(0x0D, update_tags_body()),
{
    let mut body = Writer::new();
    body.write_varint(3);
    write_empty_tags(&mut body, "minecraft:item", &SULFUR_ITEM_TAGS);
    write_empty_tags(&mut body, "minecraft:damage_type", &DAMAGE_TYPE_TAGS);
    write_empty_tags(&mut body, "minecraft:banner_pattern", &BANNER_PATTERN_TAGS);
    let bytes = body.into_bytes();
    proof {
        reveal_strlit("minecraft:sulfur_cube_archetype/regular");
        reveal_strlit("minecraft:sulfur_cube_archetype/bouncy");
        reveal_strlit("minecraft:sulfur_cube_archetype/slow_bouncy");
        reveal_strlit("minecraft:sulfur_cube_archetype/slow_flat");
        reveal_strlit("minecraft:sulfur_cube_archetype/fast_flat");
        reveal_strlit("minecraft:sulfur_cube_archetype/light");
        reveal_strlit("minecraft:sulfur_cube_archetype/fast_sliding");
        reveal_strlit("minecraft:sulfur_cube_archetype/slow_sliding");
        reveal_strlit("minecraft:sulfur_cube_archetype/high_resistance");
        reveal_strlit("minecraft:sulfur_cube_archetype/sticky");
        reveal_strlit("minecraft:sulfur_cube_archetype/explosive");
        reveal_strlit("minecraft:sulfur_cube_archetype/hot");
        reveal_strlit("minecraft:sulfur_cube_food");
        reveal_strlit("minecraft:sulfur_cube_swallowable");
        reveal_strlit("minecraft:bypasses_shield");
        reveal_strlit("minecraft:is_explosion");
        reveal_strlit("minecraft:is_fire");
        reveal_strlit("minecraft:pattern_item/bordure_indented");
        reveal_strlit("minecraft:pattern_item/creeper");
        reveal_strlit("minecraft:pattern_item/field_masoned");
        reveal_strlit("minecraft:pattern_item/flow");
        reveal_strlit("minecraft:pattern_item/flower");
        reveal_strlit("minecraft:pattern_item/globe");
        reveal_strlit("minecraft:pattern_item/guster");
        reveal_strlit("minecraft:pattern_item/mojang");
        reveal_strlit("minecraft:pattern_item/piglin");
        reveal_strlit("minecraft:pattern_item/skull");
        reveal_strlit("minecraft:item");
        reveal_strlit("minecraft:damage_type");
        reveal_strlit("minecraft:banner_pattern");
        assert forall|i: int| 0 <= i < 14 implies (#[trigger] str_views(SULFUR_ITEM_TAGS@)[i]).len() <= 64 by {}
        assert forall|i: int| 0 <= i < 3 implies (#[trigger] str_views(DAMAGE_TYPE_TAGS@)[i]).len() <= 64 by {}
        assert forall|i: int| 0 <= i < 10 implies (#[trigger] str_views(BANNER_PATTERN_TAGS@)[i]).len() <= 64 by {}
        lemma_empty_tag_entries_len(str_views(SULFUR_ITEM_TAGS@), 64);
        lemma_empty_tag_entries_len(str_views(DAMAGE_TYPE_TAGS@), 64);
        lemma_empty_tag_entries_len(str_views(BANNER_PATTERN_TAGS@), 64);
        lemma_encode_utf8_len("minecraft:item"@);
        lemma_encode_utf8_len("minecraft:damage_type"@);
        lemma_encode_utf8_len("minecraft:banner_pattern"@);
    }
    assert(bytes@ =~= update_tags_body());
    encode_packet(0x0D, bytes.as_slice())
}

/// View distance announced at login, in chunks.
pub const VIEW_DISTANCE: i32 = 10;
/// Simulation distance announced at login, in chunks.
pub const SIMULATION_DISTANCE: i32 = 10;
/// Sea level of the flat world.
pub const SEA_LEVEL: i32 = 63;

/// Login (play): entity id, one dimension, counts and distances, then the
/// spawn dimension, seed, game mode and flags; no death location, no
/// portal cooldown, sea level, not online mode, no secure chat.
pub open spec fn play_login_body(entity_id: i32, dimension: Seq<char>, gamemode: GameMode, max_players: u32, dimension_type_id: i32) -> Seq<u8> {
    u32_be(entity_id as u32) + seq![0u8] + varint_encoding(1) + string_encoding(dimension)
        + varint_encoding(max_players as i32) + varint_encoding(VIEW_DISTANCE) + varint_encoding(SIMULATION_DISTANCE)
        + seq![0u8, 1u8, 0u8] + varint_encoding(dimension_type_id) + string_encoding(dimension) + u64_be(0)
        + seq![gamemode_id(gamemode), 0xFFu8, 0u8, 0u8, 0u8] + varint_encoding(0) + varint_encoding(SEA_LEVEL)
        + seq![0u8, 0u8]
}

/// The packet that moves a configured connection into play.
#[must_use]
pub fn encode_play_login(entity_id: i32, dimension: &str, gamemode: GameMode, max_players: u32, dimension_type_id: i32) -> (r: Vec<u8>)
    requires
        frame_fits(0x31, play_login_body(entity_id, dimension@, gamemode, max_players, dimension_type_id)),
    ensures
        r@ == packet_frame(0x31, play_login_body(entity_id, dimension@, gamemode, max_players, dimension_type_id)),
{
    let mut body = Writer::new();
    body.write_i32(entity_id);
    body.write_bool(false);
    body.write_varint(1);
    body.write_string(dimension);
    body.write_varint(#[verifier::truncate] (max_players as i32));
    body.write_varint(VIEW_DISTANCE);
    body.write_varint(SIMULATION_DISTANCE);
    body.write_bool(false);
    body.write_bool(true);
    body.write_bool(false);
    body.write_varint(dimension_type_id);
    body.write_string(dimension);
    body.write_i64(0);
    body.write_u8(gamemode.id());
    assert((-1i8) as u8 == 0xFFu8) by (bit_vector);
    body.write_i8(-1);
    body.write_bool(false);
    body.write_bool(false);
    body.write_bool(false);
    body.write_varint(0);
    body.write_varint(SEA_LEVEL);
    body.write_bool(false);
    body.write_bool(false);
    let bytes = body.into_bytes();
    assert(bytes@ =~= play_login_body(entity_id, dimension@, gamemode, max_players, dimension_type_id));
    encode_packet(0x31, bytes.as_slice())
}

/// Set Default Spawn Position: dimension, block position, then yaw and
/// pitch given as the bits of their f32 values.
pub open spec fn default_spawn_body(dimension: Seq<char>, x: i32, y: i32, z: i32, yaw: u32, pitch: u32) -> Seq<u8> {
    string_encoding(dimension) + u64_be(pack_position(x, y, z)) + u32_be(yaw) + u32_be(pitch)
}

#[must_use]
pub fn encode_default_spawn(dimension: &str, x: i32, y: i32, z: i32, yaw: u32, pitch: u32) -> (r: Vec<u8>)
    requires
        frame_fits(0x61, default_spawn_body(dimension@, x, y, z, yaw, pitch)),
    ensures
        r@ == packet_frame(0x61, default_spawn_body(dimension@, x, y, z, yaw, pitch)),
{
    let mut body = Writer::new();
    body.write_string(dimension);
    body.write_position(x, y, z);
    body.write_u32(yaw);
    body.write_u32(pitch);
    let bytes = body.into_bytes();
    assert(bytes@ =~= default_spawn_body(dimension@, x, y, z, yaw, pitch));
    encode_packet(0x61, bytes.as_slice())
}

/// Synchronize Player Position: teleport id, position (f64 bits), zero
/// velocity, yaw and pitch (f32 bits), no relative flags.
pub open spec fn sync_position_body(x: u64, y: u64, z: u64, yaw: u32, pitch: u32, teleport_id: i32) -> Seq<u8> {
    varint_encoding(teleport_id) + u64_be(x) + u64_be(y) + u64_be(z) + u64_be(0) + u64_be(0) + u64_be(0) + u32_be(yaw)
        + u32_be(pitch) + u32_be(0)
}

#[must_use]
pub fn encode_sync_position(x: u64, y: u64, z: u64, yaw: u32, pitch: u32, teleport_id: i32) -> (r: Vec<u8>)
    ensures
        r@ == packet_frame(0x48, sync_position_body(x, y, z, yaw, pitch, teleport_id)),
{
    let mut body = Writer::new();
    body.write_varint(teleport_id);
    body.write_u64(x);
    body.write_u64(y);
    body.write_u64(z);
    body.write_u64(0);
    body.write_u64(0);
    body.write_u64(0);
    body.write_u32(yaw);
    body.write_u32(pitch);
    body.write_i32(0);
    let bytes = body.into_bytes();
    assert(bytes@ =~= sync_position_body(x, y, z, yaw, pitch, teleport_id));
    encode_packet(0x48, bytes.as_slice())
}

/// Game Event: the event id and its value (the bits of an f32).
#[must_use]
pub fn encode_game_event(event: u8, value: u32) -> (r: Vec<u8>)
    ensures
        r@ == packet_frame(0x26, seq![event] + u32_be(value)),
{
    let mut body = Writer::new();
    body.write_u8(event);
    body.write_u32(value);
    let bytes = body.into_bytes();
    assert(bytes@ =~= seq![event] + u32_be(value));
    encode_packet(0x26, bytes.as_slice())
}

/// Bits of the f32 5.0 (saturation sent with health).
pub const SATURATION_BITS: u32 = 0x40A0_0000;

/// Set Health: health (f32 bits), full food, saturation 5.
#[must_use]
pub fn encode_health(health: u32) -> (r: Vec<u8>)
    ensures
        r@ == packet_frame(0x68, u32_be(health) + varint_encoding(20) + u32_be(SATURATION_BITS)),
{
    let mut body = Writer::new();
    body.write_u32(health);
    body.write_varint(20);
    body.write_u32(SATURATION_BITS);
    let bytes = body.into_bytes();
    assert(bytes@ =~= u32_be(health) + varint_encoding(20) + u32_be(SATURATION_BITS));
    encode_packet(0x68, bytes.as_slice())
}

/// Respawn: the dimension fields of play login, then "keep no data".
pub open spec fn respawn_body(dimension: Seq<char>, gamemode: GameMode, dimension_type_id: i32) -> Seq<u8> {
    varint_encoding(dimension_type_id) + string_encoding(dimension) + u64_be(0)
        + seq![gamemode_id(gamemode), 0xFFu8, 0u8, 1u8, 0u8] + varint_encoding(0) + varint_encoding(SEA_LEVEL) + seq![0u8]
}

#[must_use]
pub fn encode_respawn(dimension: &str, gamemode: GameMode, dimension_type_id: i32) -> (r: Vec<u8>)
    requires
        frame_fits(0x52, respawn_body(dimension@, gamemode, dimension_type_id)),
    ensures
        r@ == packet_frame(0x52, respawn_body(dimension@, gamemode, dimension_type_id)),
{
    let mut body = Writer::new();
    body.write_varint(dimension_type_id);
    body.write_string(dimension);
    body.write_i64(0);
    body.write_u8(gamemode.id());
    assert((-1i8) as u8 == 0xFFu8) by (bit_vector);
    body.write_i8(-1);
    body.write_bool(false);
    body.write_bool(true);
    body.write_bool(false);
    body.write_varint(0);
    body.write_varint(SEA_LEVEL);
    body.write_u8(0);
    let bytes = body.into_bytes();
    assert(bytes@ =~= respawn_body(dimension@, gamemode, dimension_type_id));
    encode_packet(0x52, bytes.as_slice())
}

} // verus!
