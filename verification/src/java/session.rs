//! The per-connection protocol state machine: framing incoming bytes,
//! deciding what each packet does, and the inventory clicks it applies.
use vstd::prelude::*;

use super::error::ProtoError;
use super::packets::{
    decode_handshake, decode_login_start, encode_keep_alive, encode_known_packs, encode_pong, known_packs_body, encode_status_response, frame_fits, packet_frame,
    spec_decode_handshake, spec_decode_login_start, status_text, varint_step, PROTOCOL_VERSION, VERSION_NAME,
};
use super::state::ProtocolState;
use super::proto::{
    decode_varint_prefix, spec_decode_varint, string_encoding, u128_from_be, u16_from_be, u32_be, u32_from_be, u64_be, u64_from_be, unpack_position,
    varint_encoding, Reader,
};
use crate::config::Config;
use crate::text::{ascii_lower_all, eq_ignore_ascii_case};
use crate::world::Block;
use crate::inventory::{item_block, count_of, lemma_count_of_update, empty_stack, stack_is_empty, Inventory, Item, ItemStack, HOTBAR_START, INVENTORY_SIZE, MAX_STACK};

verus! {

broadcast use
    vstd::seq::group_seq_axioms,
    vstd::seq_lib::group_seq_properties,
    super::proto::lemma_varint_encoding_len,
;

/// Longest packet (length prefix value) a client may send.
pub const MAX_PACKET_LEN: i32 = 2097151;

/// What the server list shows.
pub struct ServerStatus {
    pub motd: String,
    pub max_players: u32,
}

impl ServerStatus {
    /// The motd and player limit of the configuration.
    #[must_use]
    pub fn from_config(config: &Config) -> (r: Self)
        ensures
            r.motd@ == config.server.motd@,
            r.max_players == config.server.max_players,
    {
        ServerStatus { motd: config.server.motd.clone(), max_players: config.server.max_players }
    }
}

/// The first whole packet at the front of `staging`: its id, its payload
/// and how many bytes it takes; `Ok(None)` while more bytes are needed.
pub open spec fn spec_take_frame(b: Seq<u8>) -> Result<Option<(i32, Seq<u8>, nat)>, ProtoError> {
    match spec_decode_varint(b) {
        Err(e) => Err(e),
        Ok(None) => Ok(None),
        Ok(Some((len, header))) => {
            if !(0 <= len <= MAX_PACKET_LEN) {
                Err(ProtoError::PacketTooLong(len))
            } else if b.len() < header + len {
                Ok(None)
            } else {
                let frame = b.subrange(header as int, header + len);
                match spec_decode_varint(frame) {
                    Err(e) => Err(e),
                    Ok(None) => Err(ProtoError::Truncated),
                    Ok(Some((id, n))) => Ok(Some((id, frame.skip(n as int), (header + len) as nat))),
                }
            }
        },
    }
}

/// Takes the first whole packet off the front of `staging`. Bytes stay
/// put until a whole packet is there, and on any error.
pub fn take_frame(staging: &mut Vec<u8>) -> (r: Result<Option<(i32, Vec<u8>)>, ProtoError>)
    ensures
        match spec_take_frame(old(staging)@) {
            Ok(Some((id, payload, used))) => r matches Ok(Some((rid, p))) && rid == id && p@ == payload
                && final(staging)@ == old(staging)@.skip(used as int),
            Ok(None) => r matches Ok(None) && final(staging)@ == old(staging)@,
            Err(e) => r == Err::<Option<(i32, Vec<u8>)>, ProtoError>(e) && final(staging)@ == old(staging)@,
        },
{
    proof {
        super::proto::lemma_varint_prefix_len(staging@);
    }
    let (len, header) = match decode_varint_prefix(staging.as_slice())? {
        Some(frame) => frame,
        None => return Ok(None),
    };
    if !(0 <= len && len <= MAX_PACKET_LEN) {
        return Err(ProtoError::PacketTooLong(len));
    }
    let len = len as usize;
    if staging.len() - header < len {
        return Ok(None);
    }
    let end = header + len;
    let frame = vstd::slice::slice_subrange(staging.as_slice(), header, end);
    proof {
        super::proto::lemma_varint_prefix_len(frame@);
    }
    let (id, id_len) = match decode_varint_prefix(frame)? {
        Some(packet) => packet,
        None => return Err(ProtoError::Truncated),
    };
    let mut payload: Vec<u8> = Vec::new();
    let mut i: usize = id_len;
    while i < len
        invariant
            id_len <= i <= len == frame@.len(),
            payload@ == frame@.subrange(id_len as int, i as int),
        decreases len - i,
    {
        payload.push(frame[i]);
        i = i + 1;
        assert(payload@ =~= frame@.subrange(id_len as int, i as int));
    }
    assert(payload@ =~= frame@.skip(id_len as int));
    let mut rest: Vec<u8> = Vec::new();
    let mut k: usize = end;
    while k < staging.len()
        invariant
            end <= k <= staging@.len(),
            staging@ == old(staging)@,
            rest@ == old(staging)@.subrange(end as int, k as int),
        decreases staging.len() - k,
    {
        rest.push(staging[k]);
        k = k + 1;
        assert(rest@ =~= old(staging)@.subrange(end as int, k as int));
    }
    assert(rest@ =~= old(staging)@.skip(end as int));
    *staging = rest;
    Ok(Some((id, payload)))
}

/// Framing then taking back gives the packet id and body, and consumes
/// exactly the framed bytes, whatever follows them.
pub proof fn law_take_frame_roundtrip(id: i32, body: Seq<u8>, rest: Seq<u8>)
    requires
        frame_fits(id, body),
        varint_encoding(id).len() + body.len() <= MAX_PACKET_LEN,
    ensures
        spec_take_frame(packet_frame(id, body) + rest) == Ok::<Option<(i32, Seq<u8>, nat)>, ProtoError>(
            Some((id, body, packet_frame(id, body).len())),
        ),
{
    let vid = varint_encoding(id);
    let len = (vid.len() + body.len()) as i32;
    let vlen = varint_encoding(len);
    let b = packet_frame(id, body) + rest;
    assert(b =~= vlen + (vid + body + rest));
    super::proto::law_varint_roundtrip(len, vid + body + rest);
    let frame = b.subrange(vlen.len() as int, vlen.len() + len);
    assert(frame =~= vid + body);
    super::proto::law_varint_roundtrip(id, body);
    assert(frame.skip(vid.len() as int) =~= body);
}

/// A packet that has only partly arrived is waited for: every proper
/// prefix of a framed packet takes nothing and asks for more bytes.
pub proof fn law_take_frame_waits(id: i32, body: Seq<u8>, cut: int)
    requires
        frame_fits(id, body),
        varint_encoding(id).len() + body.len() <= MAX_PACKET_LEN,
        0 <= cut < packet_frame(id, body).len(),
    ensures
        spec_take_frame(packet_frame(id, body).take(cut)) == Ok::<Option<(i32, Seq<u8>, nat)>, ProtoError>(None),
{
    let vid = varint_encoding(id);
    let len = (vid.len() + body.len()) as i32;
    let vlen = varint_encoding(len);
    let b = packet_frame(id, body).take(cut);
    super::proto::law_varint_roundtrip(len, Seq::empty());
    if cut < vlen.len() {
        assert(b.subrange(0, b.len() as int) =~= vlen.take(cut));
        super::proto::lemma_varint_decode_prefix(b, 0, 0, len as u32);
    } else {
        let rest = b.skip(vlen.len() as int);
        assert(b =~= vlen + rest);
        super::proto::law_varint_roundtrip(len, rest);
    }
}

/// How many of `item` a stack holds.
pub open spec fn stack_count(s: ItemStack, item: Item) -> nat {
    if s.item == item { s.count as nat } else { 0 }
}

/// A stack with one item fewer; empty when it runs out.
pub open spec fn one_fewer(s: ItemStack) -> ItemStack {
    if s.count <= 1 { empty_stack() } else { ItemStack { item: s.item, count: (s.count - 1) as u32 } }
}

/// Whether a slot number names an inventory slot.
pub open spec fn slot_in_range(slot: i32) -> bool {
    0 <= slot < INVENTORY_SIZE
}

/// A normal click (mode 0) on `slot` with the cursor holding `cursor`:
/// whether anything changed, the slots after, the cursor after.
/// Left button: pick a stack up, put the cursor down, merge same items up
/// to a full stack, or swap. Right button: pick up half, or put one down.
pub open spec fn pickup_result(slots: Seq<ItemStack>, cursor: ItemStack, slot: i32, button: u8) -> (bool, Seq<ItemStack>, ItemStack) {
    if !slot_in_range(slot) {
        (false, slots, cursor)
    } else {
        let i = slot as int;
        let cur = slots[i];
        if button == 0 {
            if stack_is_empty(cursor) {
                if stack_is_empty(cur) {
                    (false, slots, cursor)
                } else {
                    (true, slots.update(i, empty_stack()), cur)
                }
            } else if stack_is_empty(cur) {
                (true, slots.update(i, cursor), empty_stack())
            } else if cur.item == cursor.item {
                let room = (MAX_STACK - cur.count) as u32;
                let take = if room < cursor.count { room } else { cursor.count };
                if take == 0 {
                    (false, slots, cursor)
                } else {
                    (
                        true,
                        slots.update(i, ItemStack { item: cur.item, count: (cur.count + take) as u32 }),
                        if cursor.count == take { empty_stack() } else { ItemStack { item: cursor.item, count: (cursor.count - take) as u32 } },
                    )
                }
            } else {
                (true, slots.update(i, cursor), cur)
            }
        } else if button == 1 {
            if stack_is_empty(cursor) {
                if stack_is_empty(cur) {
                    (false, slots, cursor)
                } else {
                    let half = (cur.count / 2 + cur.count % 2) as u32;
                    (
                        true,
                        slots.update(i, if half == cur.count { empty_stack() } else { ItemStack { item: cur.item, count: (cur.count - half) as u32 } }),
                        ItemStack { item: cur.item, count: half },
                    )
                }
            } else if stack_is_empty(cur) {
                (true, slots.update(i, ItemStack { item: cursor.item, count: 1 }), one_fewer(cursor))
            } else if cur.item == cursor.item && cur.count < MAX_STACK {
                (true, slots.update(i, ItemStack { item: cur.item, count: (cur.count + 1) as u32 }), one_fewer(cursor))
            } else {
                (false, slots, cursor)
            }
        } else {
            (false, slots, cursor)
        }
    }
}

/// What `click_pickup` asks: merging into a slot needs the slot to hold at
/// most a full stack.
pub open spec fn pickup_allowed(slots: Seq<ItemStack>, cursor: ItemStack, slot: i32, button: u8) -> bool {
    slot_in_range(slot) && button == 0 && !stack_is_empty(cursor) && !stack_is_empty(slots[slot as int])
        && slots[slot as int].item == cursor.item ==> slots[slot as int].count <= MAX_STACK
}

/// A normal click on `slot`; whether it changed anything.
pub fn click_pickup(inventory: &mut Inventory, cursor: &mut ItemStack, slot: i32, button: u8) -> (r: bool)
    requires
        pickup_allowed(old(inventory).spec_slots(), *old(cursor), slot, button),
    ensures
        (r, final(inventory).spec_slots(), *final(cursor)) == pickup_result(old(inventory).spec_slots(), *old(cursor), slot, button),
        final(inventory).spec_selected() == old(inventory).spec_selected(),
{
    proof {
        Inventory::lemma_shape(inventory);
    }
    if slot == -999 || !(0 <= slot && slot < INVENTORY_SIZE as i32) {
        return false;
    }
    let index = slot as usize;
    let ghost slots = inventory.spec_slots();
    if button == 0 {
        if cursor.is_empty() {
            match inventory.take(index, u32::MAX) {
                Some(taken) => {
                    *cursor = taken;
                    true
                },
                None => false,
            }
        } else {
            let current = inventory.slots_at(index);
            if current.is_empty() {
                inventory.set(index, *cursor);
                *cursor = ItemStack::empty();
                true
            } else if current.item == cursor.item {
                let room = current.item.max_stack() - current.count;
                let take = if room < cursor.count { room } else { cursor.count };
                if take == 0 {
                    return false;
                }
                inventory.set(index, ItemStack { item: current.item, count: current.count + take });
                cursor.count = cursor.count - take;
                if cursor.count == 0 {
                    *cursor = ItemStack::empty();
                }
                true
            } else {
                inventory.set(index, *cursor);
                *cursor = current;
                true
            }
        }
    } else if button == 1 {
        if cursor.is_empty() {
            let current = inventory.slots_at(index);
            if !current.is_empty() {
                let half = current.count / 2 + current.count % 2;
                match inventory.take(index, half) {
                    Some(taken) => {
                        *cursor = taken;
                        true
                    },
                    None => false,
                }
            } else {
                false
            }
        } else {
            let current = inventory.slots_at(index);
            if current.is_empty() {
                inventory.set(index, ItemStack { item: cursor.item, count: 1 });
                cursor.count = cursor.count - 1;
                if cursor.count == 0 {
                    *cursor = ItemStack::empty();
                }
                true
            } else if current.item == cursor.item && current.count < current.item.max_stack() {
                inventory.set(index, ItemStack { item: current.item, count: current.count + 1 });
                cursor.count = cursor.count - 1;
                if cursor.count == 0 {
                    *cursor = ItemStack::empty();
                }
                true
            } else {
                false
            }
        }
    } else {
        false
    }
}

/// First pass of a shift click: top up stacks of the moving item in
/// slots `t..end`, while any are left.
pub open spec fn shift_merge(slots: Seq<ItemStack>, t: nat, end: nat, rest: ItemStack) -> (Seq<ItemStack>, ItemStack)
    decreases end - t,
{
    if t >= end || t >= slots.len() || rest.count == 0 {
        (slots, rest)
    } else {
        let cur = slots[t as int];
        if cur.item == rest.item && cur.count < MAX_STACK {
            let room = (MAX_STACK - cur.count) as u32;
            let take = if room < rest.count { room } else { rest.count };
            shift_merge(
                slots.update(t as int, ItemStack { item: rest.item, count: (cur.count + take) as u32 }),
                t + 1,
                end,
                ItemStack { item: rest.item, count: (rest.count - take) as u32 },
            )
        } else {
            shift_merge(slots, t + 1, end, rest)
        }
    }
}

/// Second pass of a shift click: fill empty slots in `t..end` with up to a
/// full stack each, while any are left.
pub open spec fn shift_fill(slots: Seq<ItemStack>, t: nat, end: nat, rest: ItemStack) -> (Seq<ItemStack>, ItemStack)
    decreases end - t,
{
    if t >= end || t >= slots.len() || rest.count == 0 {
        (slots, rest)
    } else {
        let cur = slots[t as int];
        if stack_is_empty(cur) {
            let take = if MAX_STACK < rest.count { MAX_STACK } else { rest.count };
            shift_fill(
                slots.update(t as int, ItemStack { item: rest.item, count: take }),
                t + 1,
                end,
                ItemStack { item: rest.item, count: (rest.count - take) as u32 },
            )
        } else {
            shift_fill(slots, t + 1, end, rest)
        }
    }
}

/// The slots a shift click moves a stack to: main inventory to hotbar and
/// back; `None` for any other slot.
pub open spec fn shift_targets(index: int) -> Option<(nat, nat)> {
    if 9 <= index < 36 {
        Some((HOTBAR_START as nat, 45))
    } else if 36 <= index < 45 {
        Some((9, 36))
    } else {
        None
    }
}

/// A shift click (mode 1) on `slot`: the stack moves to the other part of
/// the inventory, merging first, then into empty slots; what does not fit
/// stays.
pub open spec fn shift_result(slots: Seq<ItemStack>, slot: i32) -> (bool, Seq<ItemStack>) {
    if !slot_in_range(slot) {
        (false, slots)
    } else {
        let index = slot as int;
        match shift_targets(index) {
            None => (false, slots),
            Some((start, end)) => {
                let moving = slots[index];
                if stack_is_empty(moving) {
                    (false, slots)
                } else {
                    let merged = shift_merge(slots.update(index, empty_stack()), start, end, moving);
                    let filled = shift_fill(merged.0, start, end, merged.1);
                    (true, if filled.1.count > 0 { filled.0.update(index, filled.1) } else { filled.0 })
                }
            },
        }
    }
}

/// A shift click on `slot`; whether it moved anything.
pub fn click_shift(inventory: &mut Inventory, slot: i32) -> (r: bool)
    ensures
        (r, final(inventory).spec_slots()) == shift_result(old(inventory).spec_slots(), slot),
        final(inventory).spec_selected() == old(inventory).spec_selected(),
{
    proof {
        Inventory::lemma_shape(inventory);
    }
    if !(0 <= slot && slot < INVENTORY_SIZE as i32) {
        return false;
    }
    let index = slot as usize;
    let (start, end): (usize, usize) = if 9 <= index && index < 36 {
        (HOTBAR_START, 45)
    } else if 36 <= index && index < 45 {
        (9, 36)
    } else {
        return false;
    };
    let moving = inventory.slots_at(index);
    if moving.is_empty() {
        return false;
    }
    inventory.clear(index);
    let ghost cleared = inventory.spec_slots();
    let mut rest = moving;
    let mut target: usize = start;
    while target < end && rest.count > 0
        invariant
            start <= target <= end <= 45,
            inventory.spec_slots().len() == INVENTORY_SIZE,
            inventory.spec_selected() == old(inventory).spec_selected(),
            rest.item == moving.item,
            shift_merge(inventory.spec_slots(), target as nat, end as nat, rest) == shift_merge(cleared, start as nat, end as nat, moving),
        decreases end - target,
    {
        let current = inventory.slots_at(target);
        if current.item == rest.item && current.count < current.item.max_stack() {
            let room = current.item.max_stack() - current.count;
            let take = if room < rest.count { room } else { rest.count };
            inventory.set(target, ItemStack { item: rest.item, count: current.count + take });
            rest.count = rest.count - take;
        }
        target = target + 1;
    }
    let ghost merged = shift_merge(cleared, start as nat, end as nat, moving);
    assert(inventory.spec_slots() == merged.0 && rest == merged.1);
    let mut target: usize = start;
    while target < end && rest.count > 0
        invariant
            start <= target <= end <= 45,
            inventory.spec_slots().len() == INVENTORY_SIZE,
            inventory.spec_selected() == old(inventory).spec_selected(),
            shift_fill(inventory.spec_slots(), target as nat, end as nat, rest) == shift_fill(merged.0, start as nat, end as nat, merged.1),
        decreases end - target,
    {
        let current = inventory.slots_at(target);
        if current.is_empty() {
            let take = if rest.item.max_stack() < rest.count { rest.item.max_stack() } else { rest.count };
            inventory.set(target, ItemStack { item: rest.item, count: take });
            rest.count = rest.count - take;
        }
        target = target + 1;
    }
    if rest.count > 0 {
        inventory.set(index, rest);
    }
    true
}

/// A number-key swap (mode 2): `slot` trades places with hotbar slot
/// `button` (0 to 8) or, for 40, the off hand.
pub open spec fn swap_result(slots: Seq<ItemStack>, slot: i32, button: u8) -> (bool, Seq<ItemStack>) {
    if !slot_in_range(slot) {
        (false, slots)
    } else {
        let other: int = if button <= 8 { HOTBAR_START + button } else if button == 40 { 45 } else { -1 };
        if other < 0 {
            (false, slots)
        } else {
            let index = slot as int;
            (true, slots.update(index, slots[other]).update(other, slots[index]))
        }
    }
}

pub fn click_swap(inventory: &mut Inventory, slot: i32, button: u8) -> (r: bool)
    ensures
        (r, final(inventory).spec_slots()) == swap_result(old(inventory).spec_slots(), slot, button),
        final(inventory).spec_selected() == old(inventory).spec_selected(),
{
    proof {
        Inventory::lemma_shape(inventory);
    }
    if !(0 <= slot && slot < INVENTORY_SIZE as i32) {
        return false;
    }
    let other = if button <= 8 {
        HOTBAR_START + button as usize
    } else if button == 40 {
        45
    } else {
        return false;
    };
    let index = slot as usize;
    let first = inventory.slots_at(index);
    let second = inventory.slots_at(other);
    inventory.set(index, second);
    inventory.set(other, first);
    true
}

/// How many items a stack holds: none when it is empty.
pub open spec fn held_count(s: ItemStack) -> int {
    if stack_is_empty(s) { 0 } else { s.count as int }
}

/// A left click on a slot touches that slot and the cursor only, and:
/// with an empty hand it picks the slot's stack up; with a stack in hand
/// it puts it into an empty slot, swaps it with a stack of another item,
/// or tops up a stack of the same item to at most a full stack, keeping
/// the rest in hand. It reports a change exactly when one happened.
pub proof fn law_left_click(slots: Seq<ItemStack>, cursor: ItemStack, slot: i32)
    requires
        slot_in_range(slot),
        slots.len() == INVENTORY_SIZE,
    ensures
        ({
            let (changed, after, hand) = pickup_result(slots, cursor, slot, 0);
            let i = slot as int;
            let cur = slots[i];
            &&& after.len() == slots.len()
            &&& forall|j: int| 0 <= j < slots.len() && j != i ==> after[j] == slots[j]
            &&& changed <==> (after[i] != cur || hand != cursor)
            &&& stack_is_empty(cursor) && stack_is_empty(cur) ==> !changed && after == slots && hand == cursor
            &&& stack_is_empty(cursor) && !stack_is_empty(cur) ==> stack_is_empty(after[i]) && hand == cur
            &&& !stack_is_empty(cursor) && stack_is_empty(cur) ==> after[i] == cursor && stack_is_empty(hand)
            &&& !stack_is_empty(cursor) && !stack_is_empty(cur) && cur.item != cursor.item ==> after[i] == cursor && hand == cur
            &&& !stack_is_empty(cursor) && !stack_is_empty(cur) && cur.item == cursor.item && cur.count <= MAX_STACK ==> {
                &&& after[i].item == cur.item
                &&& after[i].count == if cur.count + cursor.count <= MAX_STACK { cur.count + cursor.count } else { MAX_STACK as int }
                &&& after[i].count + held_count(hand) == cur.count + cursor.count
                &&& stack_is_empty(hand) || hand.item == cursor.item
            }
        }),
{
    let i = slot as int;
    let cur = slots[i];
    let (changed, after, hand) = pickup_result(slots, cursor, slot, 0);
    if !stack_is_empty(cursor) && !stack_is_empty(cur) && cur.item == cursor.item && cur.count <= MAX_STACK {
        let room = (MAX_STACK - cur.count) as u32;
        let take = if room < cursor.count { room } else { cursor.count };
        if take != 0 {
            assert(after[i].count != cur.count);
        }
    }
    if changed {
        assert(after[i] != cur || hand != cursor);
    } else {
        assert(after =~= slots);
    }
}

/// A right click on a slot: with an empty hand it picks up the larger half
/// of the slot's stack, leaving the rest; with a stack in hand it puts one
/// item into an empty slot.
pub proof fn law_right_click(slots: Seq<ItemStack>, cursor: ItemStack, slot: i32)
    requires
        slot_in_range(slot),
        slots.len() == INVENTORY_SIZE,
    ensures
        ({
            let (changed, after, hand) = pickup_result(slots, cursor, slot, 1);
            let i = slot as int;
            let cur = slots[i];
            &&& after.len() == slots.len()
            &&& forall|j: int| 0 <= j < slots.len() && j != i ==> after[j] == slots[j]
            &&& stack_is_empty(cursor) && !stack_is_empty(cur) ==> changed && hand.item == cur.item && hand.count == (cur.count
                + 1) / 2 && held_count(after[i]) + hand.count == cur.count && (stack_is_empty(after[i]) || after[i].item
                == cur.item)
            &&& !stack_is_empty(cursor) && stack_is_empty(cur) ==> changed && after[i] == (ItemStack { item: cursor.item, count: 1 })
                && held_count(hand) == cursor.count - 1
        }),
{
}

/// A normal click never creates or destroys items: for every real item,
/// what the slots and the cursor hold together is unchanged.
pub proof fn law_pickup_conserves_items(slots: Seq<ItemStack>, cursor: ItemStack, slot: i32, button: u8, item: Item)
    requires
        slots.len() == INVENTORY_SIZE,
        item != Item::Air,
        pickup_allowed(slots, cursor, slot, button),
    ensures
        ({
            let res = pickup_result(slots, cursor, slot, button);
            count_of(res.1, item) + stack_count(res.2, item) == count_of(slots, item) + stack_count(cursor, item)
        }),
{
    let res = pickup_result(slots, cursor, slot, button);
    if res.0 {
        let i = slot as int;
        lemma_count_of_update(slots, i, res.1[i], item);
        assert(res.1 =~= slots.update(i, res.1[i]));
    }
}

proof fn lemma_shift_merge(slots: Seq<ItemStack>, t: nat, end: nat, rest: ItemStack, item: Item)
    requires
        item != Item::Air,
    ensures
        count_of(shift_merge(slots, t, end, rest).0, item) + stack_count(shift_merge(slots, t, end, rest).1, item)
            == count_of(slots, item) + stack_count(rest, item),
        shift_merge(slots, t, end, rest).0.len() == slots.len(),
        shift_merge(slots, t, end, rest).1.item == rest.item,
        forall|j: int| 0 <= j < slots.len() && !(t <= j < end) ==> #[trigger] shift_merge(slots, t, end, rest).0[j] == slots[j],
    decreases end - t,
{
    if !(t >= end || t >= slots.len() || rest.count == 0) {
        let cur = slots[t as int];
        if cur.item == rest.item && cur.count < MAX_STACK {
            let room = (MAX_STACK - cur.count) as u32;
            let take = if room < rest.count { room } else { rest.count };
            let ns = ItemStack { item: rest.item, count: (cur.count + take) as u32 };
            lemma_count_of_update(slots, t as int, ns, item);
            lemma_shift_merge(slots.update(t as int, ns), t + 1, end, ItemStack { item: rest.item, count: (rest.count - take) as u32 }, item);
        } else {
            lemma_shift_merge(slots, t + 1, end, rest, item);
        }
    }
}

proof fn lemma_shift_fill(slots: Seq<ItemStack>, t: nat, end: nat, rest: ItemStack, item: Item)
    requires
        item != Item::Air,
    ensures
        count_of(shift_fill(slots, t, end, rest).0, item) + stack_count(shift_fill(slots, t, end, rest).1, item)
            == count_of(slots, item) + stack_count(rest, item),
        shift_fill(slots, t, end, rest).0.len() == slots.len(),
        shift_fill(slots, t, end, rest).1.item == rest.item,
        forall|j: int| 0 <= j < slots.len() && !(t <= j < end) ==> #[trigger] shift_fill(slots, t, end, rest).0[j] == slots[j],
    decreases end - t,
{
    if !(t >= end || t >= slots.len() || rest.count == 0) {
        let cur = slots[t as int];
        if stack_is_empty(cur) {
            let take = if MAX_STACK < rest.count { MAX_STACK } else { rest.count };
            let ns = ItemStack { item: rest.item, count: take };
            lemma_count_of_update(slots, t as int, ns, item);
            lemma_shift_fill(slots.update(t as int, ns), t + 1, end, ItemStack { item: rest.item, count: (rest.count - take) as u32 }, item);
        } else {
            lemma_shift_fill(slots, t + 1, end, rest, item);
        }
    }
}

/// A shift click never creates or destroys items.
pub proof fn law_shift_conserves_items(slots: Seq<ItemStack>, slot: i32, item: Item)
    requires
        slots.len() == INVENTORY_SIZE,
        item != Item::Air,
    ensures
        count_of(shift_result(slots, slot).1, item) == count_of(slots, item),
{
    if slot_in_range(slot) {
        let index = slot as int;
        if let Some((start, end)) = shift_targets(index) {
            let moving = slots[index];
            if !stack_is_empty(moving) {
                let cleared = slots.update(index, empty_stack());
                lemma_count_of_update(slots, index, empty_stack(), item);
                let merged = shift_merge(cleared, start, end, moving);
                lemma_shift_merge(cleared, start, end, moving, item);
                let filled = shift_fill(merged.0, start, end, merged.1);
                lemma_shift_fill(merged.0, start, end, merged.1, item);
                assert(filled.0[index] == empty_stack());
                if filled.1.count > 0 {
                    lemma_count_of_update(filled.0, index, filled.1, item);
                }
            }
        }
    }
}

/// A swap click never creates or destroys items.
pub proof fn law_swap_conserves_items(slots: Seq<ItemStack>, slot: i32, button: u8, item: Item)
    requires
        slots.len() == INVENTORY_SIZE,
    ensures
        count_of(swap_result(slots, slot, button).1, item) == count_of(slots, item),
{
    if swap_result(slots, slot, button).0 {
        let index = slot as int;
        let other: int = if button <= 8 { HOTBAR_START + button } else { 45 };
        let first = slots.update(index, slots[other]);
        lemma_count_of_update(slots, index, slots[other], item);
        lemma_count_of_update(first, other, slots[index], item);
    }
}

// ---------------------------------------------------------------------------
// Reading serverbound play payloads
// ---------------------------------------------------------------------------

/// A VarInt read from `b` at position `p`: the value and the position
/// after it.
pub open spec fn varint_from(b: Seq<u8>, p: nat) -> Result<(i32, nat), ProtoError> {
    match varint_step(b.skip(p as int)) {
        Ok((v, n)) => Ok((v, p + n)),
        Err(e) => Err(e),
    }
}

/// The position after `n` entries of a VarInt and a 4-byte integer.
pub open spec fn pairs_from(b: Seq<u8>, p: nat, n: nat) -> Result<nat, ProtoError>
    decreases n,
{
    if n == 0 {
        Ok(p)
    } else {
        match varint_from(b, p) {
            Err(e) => Err(e),
            Ok((_, q)) => {
                if q + 4 > b.len() {
                    Err(ProtoError::Truncated)
                } else {
                    pairs_from(b, q + 4, (n - 1) as nat)
                }
            },
        }
    }
}

/// The position after `n` VarInts.
pub open spec fn varints_from(b: Seq<u8>, p: nat, n: nat) -> Result<nat, ProtoError>
    decreases n,
{
    if n == 0 {
        Ok(p)
    } else {
        match varint_from(b, p) {
            Err(e) => Err(e),
            Ok((_, q)) => varints_from(b, q, (n - 1) as nat),
        }
    }
}

/// The position after the removed-component list of a hashed slot at `p`.
pub open spec fn removed_components_from(b: Seq<u8>, p: nat) -> Result<nat, ProtoError> {
    match varint_from(b, p) {
        Err(e) => Err(e),
        Ok((removed, q)) => {
            if removed < 0 {
                Err(ProtoError::NegativeLength(removed))
            } else {
                varints_from(b, q, removed as nat)
            }
        },
    }
}

/// The position after `added` added components and the removed list.
pub open spec fn components_from(b: Seq<u8>, p: nat, added: nat) -> Result<nat, ProtoError> {
    match pairs_from(b, p, added) {
        Err(e) => Err(e),
        Ok(q) => removed_components_from(b, q),
    }
}

/// The position after a hashed slot at `p`: a presence flag, then item
/// id, count, the added components (id and hash each) and the removed
/// component ids.
pub open spec fn hashed_slot_from(b: Seq<u8>, p: nat) -> Result<nat, ProtoError> {
    if p + 1 > b.len() {
        Err(ProtoError::Truncated)
    } else if b[p as int] == 0 {
        Ok(p + 1)
    } else {
        match varint_from(b, p + 1) {
            Err(e) => Err(e),
            Ok((_, q1)) => match varint_from(b, q1) {
                Err(e) => Err(e),
                Ok((_, q2)) => match varint_from(b, q2) {
                    Err(e) => Err(e),
                    Ok((added, q3)) => {
                        if added < 0 {
                            Err(ProtoError::NegativeLength(added))
                        } else {
                            components_from(b, q3, added as nat)
                        }
                    },
                },
            },
        }
    }
}

proof fn lemma_varint_from(b: Seq<u8>, p: nat)
    requires
        p <= b.len(),
    ensures
        varint_from(b, p) matches Ok((_, q)) ==> p < q <= b.len(),
{
    super::proto::lemma_varint_prefix_len(b.skip(p as int));
}

/// Steps the reader over a hashed slot.
fn read_hashed_slot(reader: &mut Reader) -> (r: Result<(), ProtoError>)
    ensures
        final(reader).data() == old(reader).data(),
        match hashed_slot_from(old(reader).data(), old(reader).pos()) {
            Ok(q) => r is Ok && final(reader).pos() == q,
            Err(e) => r == Err::<(), ProtoError>(e),
        },
{
    let ghost b = reader.data();
    proof { Reader::lemma_pos_bound(reader); }
    if !reader.read_bool()? {
        return Ok(());
    }
    proof { Reader::lemma_pos_bound(&reader); lemma_varint_from(b, reader.pos()); }
    reader.read_varint()?;
    proof { Reader::lemma_pos_bound(&reader); lemma_varint_from(b, reader.pos()); }
    reader.read_varint()?;
    proof { Reader::lemma_pos_bound(&reader); lemma_varint_from(b, reader.pos()); }
    let added = reader.read_varint()?;
    if added < 0 {
        return Err(ProtoError::NegativeLength(added));
    }
    let ghost q3 = reader.pos();
    let ghost p0 = old(reader).pos();
    assert(hashed_slot_from(b, p0) == components_from(b, q3, added as nat));
    let mut i: i32 = 0;
    while i < added
        invariant
            0 <= i <= added,
            b == old(reader).data(),
            p0 == old(reader).pos(),
            reader.data() == b,
            reader.pos() <= b.len(),
            hashed_slot_from(b, p0) == components_from(b, q3, added as nat),
            pairs_from(b, reader.pos(), (added - i) as nat) == pairs_from(b, q3, added as nat),
        decreases added - i,
    {
        proof { Reader::lemma_pos_bound(&reader); lemma_varint_from(b, reader.pos()); }
        reader.read_varint()?;
        reader.read_i32()?;
        i = i + 1;
    }
    assert(hashed_slot_from(b, p0) == removed_components_from(b, reader.pos()));
    proof { Reader::lemma_pos_bound(&reader); lemma_varint_from(b, reader.pos()); }
    let removed = reader.read_varint()?;
    if removed < 0 {
        return Err(ProtoError::NegativeLength(removed));
    }
    let ghost q5 = reader.pos();
    assert(hashed_slot_from(b, p0) == varints_from(b, q5, removed as nat));
    let mut j: i32 = 0;
    while j < removed
        invariant
            0 <= j <= removed,
            b == old(reader).data(),
            p0 == old(reader).pos(),
            reader.data() == b,
            reader.pos() <= b.len(),
            hashed_slot_from(b, p0) == varints_from(b, q5, removed as nat),
            varints_from(b, reader.pos(), (removed - j) as nat) == varints_from(b, q5, removed as nat),
        decreases removed - j,
    {
        proof { Reader::lemma_pos_bound(&reader); lemma_varint_from(b, reader.pos()); }
        reader.read_varint()?;
        j = j + 1;
    }
    Ok(())
}

/// A block edit a player asked for, applied on the next block pass.
#[derive(Debug, Clone, Copy, PartialEq, Eq, Structural)]
pub enum PendingEdit {
    Break { x: i32, y: i32, z: i32, sequence: i32 },
    Place { x: i32, y: i32, z: i32, face: i32, sequence: i32 },
}

/// An inventory click a player made, applied on the next inventory pass.
#[derive(Debug, Clone, Copy, PartialEq, Eq, Structural)]
pub struct PendingClick {
    pub window: i32,
    pub state: i32,
    pub slot: i32,
    pub button: u8,
    pub mode: i32,
}

/// The position after `n` bytes at `p`, if they are there.
pub open spec fn fixed_from(b: Seq<u8>, p: nat, n: nat) -> Option<nat> {
    if p + n <= b.len() { Some(p + n) } else { None }
}

/// The position after `n` click entries (a slot number and a hashed slot
/// each).
pub open spec fn click_entries_from(b: Seq<u8>, p: nat, n: nat) -> Option<nat>
    decreases n,
{
    if n == 0 {
        Some(p)
    } else if p + 2 > b.len() {
        None
    } else {
        match hashed_slot_from(b, p + 2) {
            Ok(q) => click_entries_from(b, q, (n - 1) as nat),
            Err(_) => None,
        }
    }
}

/// The click, once the changed slots end at `entries_end`: the carried
/// slot must end the payload and the mode must be 0 to 6.
pub open spec fn click_after_entries(b: Seq<u8>, entries_end: Option<nat>, click: PendingClick) -> Option<PendingClick> {
    match entries_end {
        None => None,
        Some(p6) => match hashed_slot_from(b, p6) {
            Err(_) => None,
            Ok(p7) => {
                if p7 == b.len() && 0 <= click.mode <= 6 {
                    Some(click)
                } else {
                    None
                }
            },
        },
    }
}

/// Click Container: window, state id, slot, button, mode, the changed
/// slots and the carried slot, with nothing after them and a mode of 0 to
/// 6; anything else is no click.
#[verifier::opaque]
pub open spec fn spec_parse_click(b: Seq<u8>) -> Option<PendingClick> {
    match click_header_from(b, 0) {
        None => None,
        Some((click, p4)) => match varint_from(b, p4) {
            Err(_) => None,
            Ok((count, p5)) => {
                if count < 0 || p5 >= b.len() {
                    None
                } else {
                    click_after_entries(b, click_entries_from(b, p5, count as nat), click)
                }
            },
        },
    }
}

/// The fixed head of a Click Container at `p`: window, state id, slot,
/// button and mode, and the position after them.
pub open spec fn click_header_from(b: Seq<u8>, p: nat) -> Option<(PendingClick, nat)> {
    match varint_from(b, p) {
        Err(_) => None,
        Ok((window, p1)) => match varint_from(b, p1) {
            Err(_) => None,
            Ok((state, p2)) => {
                if p2 + 3 > b.len() {
                    None
                } else {
                    let slot = u16_from_be(b.skip(p2 as int).take(2)) as i16;
                    let button = b[p2 + 2int];
                    match varint_from(b, p2 + 3) {
                        Err(_) => None,
                        Ok((mode, p4)) => Some((PendingClick { window, state, slot: slot as i32, button, mode }, p4)),
                    }
                }
            },
        },
    }
}

#[verifier::spinoff_prover]
fn read_click_header(reader: &mut Reader) -> (r: Option<PendingClick>)
    ensures
        final(reader).data() == old(reader).data(),
        match click_header_from(old(reader).data(), old(reader).pos()) {
            None => r is None,
            Some((click, q)) => r == Some(click) && final(reader).pos() == q,
        },
{
    let ghost b = reader.data();
    proof { Reader::lemma_pos_bound(reader); lemma_varint_from(b, reader.pos()); }
    let window = match reader.read_varint() {
        Ok(v) => v,
        Err(_) => return None,
    };
    proof { Reader::lemma_pos_bound(reader); lemma_varint_from(b, reader.pos()); }
    let state = match reader.read_varint() {
        Ok(v) => v,
        Err(_) => return None,
    };
    proof { Reader::lemma_pos_bound(reader); lemma_varint_from(b, reader.pos()); }
    let ghost p2 = reader.pos();
    let slot = match reader.read_i16() {
        Ok(v) => v,
        Err(_) => return None,
    };
    let button = match reader.read_u8() {
        Ok(v) => v,
        Err(_) => return None,
    };
    proof {
        Reader::lemma_pos_bound(reader);
        assert(b.skip(p2 + 2int)[0] == b[p2 + 2int]);
    }
    let mode = match reader.read_varint() {
        Ok(v) => v,
        Err(_) => return None,
    };
    Some(PendingClick { window, state, slot: slot as i32, button, mode })
}

/// Reads a Click Container payload.
#[verifier::spinoff_prover]
#[verifier::rlimit(80)]
pub fn parse_click(payload: &[u8]) -> (r: Option<PendingClick>)
    ensures
        r == spec_parse_click(payload@),
{
    proof {
        reveal(spec_parse_click);
    }
    let mut reader = Reader::new(payload);
    let ghost b = payload@;
    let click = match read_click_header(&mut reader) {
        Some(c) => c,
        None => return None,
    };
    proof { Reader::lemma_pos_bound(&reader); lemma_varint_from(b, reader.pos()); }
    let count = match reader.read_varint() {
        Ok(v) => v,
        Err(_) => -1,
    };
    if count < 0 || reader.remaining() == 0 {
        return None;
    }
    proof { Reader::lemma_pos_bound(&reader); lemma_varint_from(b, reader.pos()); }
    let ghost p5 = reader.pos();
    assert(spec_parse_click(b) == click_after_entries(b, click_entries_from(b, p5, count as nat), click));
    let mut k: i32 = 0;
    while k < count
        invariant
            0 <= k <= count,
            b == payload@,
            spec_parse_click(b) == click_after_entries(b, click_entries_from(b, p5, count as nat), click),
            reader.data() == b,
            reader.pos() <= b.len(),
            click_entries_from(b, reader.pos(), (count - k) as nat) == click_entries_from(b, p5, count as nat),
        decreases count - k,
    {
        if reader.read_i16().is_err() {
            return None;
        }
        if read_hashed_slot(&mut reader).is_err() {
            return None;
        }
        proof { Reader::lemma_pos_bound(&reader); }
        k = k + 1;
    }
    if read_hashed_slot(&mut reader).is_err() || reader.remaining() != 0 {
        return None;
    }
    if 0 <= click.mode && click.mode <= 6 {
        Some(click)
    } else {
        None
    }
}

/// Player Action: status 2 (finished digging) at a position, with a face
/// of 0 to 5, is a break; anything else is nothing.
#[verifier::opaque]
pub open spec fn spec_parse_dig(b: Seq<u8>) -> Option<PendingEdit> {
    match varint_from(b, 0) {
        Err(_) => None,
        Ok((status, p1)) => {
            if p1 + 8 > b.len() {
                None
            } else {
                let pos = unpack_position(u64_from_be(b.skip(p1 as int).take(8)));
                match varint_from(b, p1 + 8) {
                    Err(_) => None,
                    Ok((face, p3)) => match varint_from(b, p3) {
                        Err(_) => None,
                        Ok((sequence, _)) => {
                            if status == 2 && 0 <= face <= 5 {
                                Some(PendingEdit::Break { x: pos.0, y: pos.1, z: pos.2, sequence })
                            } else {
                                None
                            }
                        },
                    },
                }
            }
        },
    }
}

#[verifier::spinoff_prover]
#[verifier::rlimit(80)]
pub fn parse_dig(payload: &[u8]) -> (r: Option<PendingEdit>)
    ensures
        r == spec_parse_dig(payload@),
{
    proof {
        reveal(spec_parse_dig);
    }
    let mut reader = Reader::new(payload);
    let ghost b = payload@;
    let status = match reader.read_varint() {
        Ok(v) => v,
        Err(_) => return None,
    };
    proof { lemma_varint_from(b, 0); }
    let pos = match reader.read_position() {
        Ok(v) => v,
        Err(_) => return None,
    };
    let face = match reader.read_varint() {
        Ok(v) => v,
        Err(_) => return None,
    };
    proof { Reader::lemma_pos_bound(&reader); lemma_varint_from(b, reader.pos()); }
    let sequence = match reader.read_varint() {
        Ok(v) => v,
        Err(_) => return None,
    };
    if status == 2 && 0 <= face && face <= 5 {
        Some(PendingEdit::Break { x: pos.0, y: pos.1, z: pos.2, sequence })
    } else {
        None
    }
}

/// Use Item On: hand, position, face (0 to 5), three cursor floats, two
/// flags and a sequence number make a placement against that face.
#[verifier::opaque]
pub open spec fn spec_parse_place(b: Seq<u8>) -> Option<PendingEdit> {
    match varint_from(b, 0) {
        Err(_) => None,
        Ok((_, p1)) => {
            if p1 + 8 > b.len() {
                None
            } else {
                let pos = unpack_position(u64_from_be(b.skip(p1 as int).take(8)));
                match varint_from(b, p1 + 8) {
                    Err(_) => None,
                    Ok((face, p3)) => {
                        if p3 + 14 > b.len() {
                            None
                        } else {
                            match varint_from(b, p3 + 14) {
                                Err(_) => None,
                                Ok((sequence, _)) => {
                                    if 0 <= face <= 5 {
                                        Some(PendingEdit::Place { x: pos.0, y: pos.1, z: pos.2, face, sequence })
                                    } else {
                                        None
                                    }
                                },
                            }
                        }
                    },
                }
            }
        },
    }
}

#[verifier::spinoff_prover]
#[verifier::rlimit(80)]
pub fn parse_place(payload: &[u8]) -> (r: Option<PendingEdit>)
    ensures
        r == spec_parse_place(payload@),
{
    proof {
        reveal(spec_parse_place);
    }
    let mut reader = Reader::new(payload);
    let ghost b = payload@;
    if reader.read_varint().is_err() {
        return None;
    }
    proof { lemma_varint_from(b, 0); }
    let pos = match reader.read_position() {
        Ok(v) => v,
        Err(_) => return None,
    };
    let face = match reader.read_varint() {
        Ok(v) => v,
        Err(_) => return None,
    };
    proof { Reader::lemma_pos_bound(&reader); lemma_varint_from(b, reader.pos()); }
    if reader.read_u32().is_err() || reader.read_u32().is_err() || reader.read_u32().is_err() || reader.read_bool().is_err()
        || reader.read_bool().is_err() {
        return None;
    }
    let sequence = match reader.read_varint() {
        Ok(v) => v,
        Err(_) => return None,
    };
    if 0 <= face && face <= 5 {
        Some(PendingEdit::Place { x: pos.0, y: pos.1, z: pos.2, face, sequence })
    } else {
        None
    }
}

/// Player Command: entity id, action, jump boost and nothing more, with an
/// action of 0 to 8.
#[verifier::opaque]
pub open spec fn spec_parse_player_action(b: Seq<u8>) -> Option<i32> {
    match varint_from(b, 0) {
        Err(_) => None,
        Ok((_, p1)) => match varint_from(b, p1) {
            Err(_) => None,
            Ok((action, p2)) => match varint_from(b, p2) {
                Err(_) => None,
                Ok((_, p3)) => {
                    if p3 == b.len() && 0 <= action <= 8 {
                        Some(action)
                    } else {
                        None
                    }
                },
            },
        },
    }
}

#[verifier::spinoff_prover]
#[verifier::rlimit(80)]
pub fn parse_player_action(payload: &[u8]) -> (r: Option<i32>)
    ensures
        r == spec_parse_player_action(payload@),
{
    proof {
        reveal(spec_parse_player_action);
    }
    let mut reader = Reader::new(payload);
    let ghost b = payload@;
    if reader.read_varint().is_err() {
        return None;
    }
    proof { lemma_varint_from(b, 0); }
    let action = match reader.read_varint() {
        Ok(v) => v,
        Err(_) => return None,
    };
    proof { Reader::lemma_pos_bound(&reader); lemma_varint_from(b, reader.pos()); }
    if reader.read_varint().is_err() {
        return None;
    }
    proof { Reader::lemma_pos_bound(&reader); lemma_varint_from(b, reader.pos()); }
    if reader.remaining() == 0 && 0 <= action && action <= 8 {
        Some(action)
    } else {
        None
    }
}

/// Set Held Item: exactly a hotbar index 0 to 8 as an i16.
#[verifier::opaque]
pub open spec fn spec_parse_held_slot(b: Seq<u8>) -> Option<u8> {
    if b.len() == 2 {
        let slot = u16_from_be(b.take(2)) as i16;
        if 0 <= slot <= 8 { Some(slot as u8) } else { None }
    } else {
        None
    }
}

pub fn parse_held_slot(payload: &[u8]) -> (r: Option<u8>)
    ensures
        r == spec_parse_held_slot(payload@),
{
    proof {
        reveal(spec_parse_held_slot);
    }
    let mut reader = Reader::new(payload);
    assert(payload@.skip(0) =~= payload@);
    if let Ok(slot) = reader.read_i16() {
        if reader.remaining() == 0 && 0 <= slot && slot <= 8 {
            return Some(slot as u8);
        }
    }
    None
}

// ---------------------------------------------------------------------------
// The per-connection state machine
// ---------------------------------------------------------------------------

/// How far the configuration exchange has got.
#[derive(Debug, Clone, Copy, PartialEq, Eq, Structural)]
pub enum ConfigStage {
    Fresh,
    KnownPacksSent,
    FinishSent,
    Complete,
}

/// What the protocol remembers of one connection.
pub struct SessionState {
    pub state: ProtocolState,
    pub protocol_version: i32,
    pub login_name: Option<String>,
    pub config_stage: ConfigStage,
    pub teleport_id: i32,
    pub confirmed_teleport: i32,
    pub inv_state: i32,
    pub inv_dirty: bool,
    pub held_dirty: bool,
}

/// A session's fields as plain values.
pub struct SessionView {
    pub state: ProtocolState,
    pub protocol_version: i32,
    pub login_name: Option<Seq<char>>,
    pub config_stage: ConfigStage,
    pub teleport_id: i32,
    pub confirmed_teleport: i32,
    pub inv_state: i32,
    pub inv_dirty: bool,
    pub held_dirty: bool,
}

impl View for SessionState {
    type V = SessionView;

    open spec fn view(&self) -> SessionView {
        SessionView {
            state: self.state,
            protocol_version: self.protocol_version,
            login_name: match self.login_name {
                Some(n) => Some(n@),
                None => None,
            },
            config_stage: self.config_stage,
            teleport_id: self.teleport_id,
            confirmed_teleport: self.confirmed_teleport,
            inv_state: self.inv_state,
            inv_dirty: self.inv_dirty,
            held_dirty: self.held_dirty,
        }
    }
}

impl SessionState {
    /// A connection that has not shaken hands yet.
    #[must_use]
    pub fn new() -> (r: Self)
        ensures
            r@ == (SessionView {
                state: ProtocolState::Handshaking,
                protocol_version: -1i32,
                login_name: None,
                config_stage: ConfigStage::Fresh,
                teleport_id: 1,
                confirmed_teleport: 0,
                inv_state: 0,
                inv_dirty: false,
                held_dirty: false,
            }),
    {
        SessionState {
            state: ProtocolState::Handshaking,
            protocol_version: -1,
            login_name: None,
            config_stage: ConfigStage::Fresh,
            teleport_id: 1,
            confirmed_teleport: 0,
            inv_state: 0,
            inv_dirty: false,
            held_dirty: false,
        }
    }
}

/// What the connection loop does after a packet.
pub enum PacketAction {
    /// Nothing further to do.
    Nothing,
    /// Send these bytes back.
    Respond(Vec<u8>),
    /// Send the registry data, then finish configuration.
    SendRegistries,
    CompleteLogin { name: String, uuid: Option<u128> },
    EnterPlay,
    PlayerAction(i32),
    Edit(PendingEdit),
    SelectSlot(u8),
    HeldEcho,
    Click(PendingClick),
    /// A movement; coordinates are the bits of f64s, angles of f32s.
    MovePlayer { x: u64, y: u64, z: u64, yaw: u32, pitch: u32, has_position: bool, has_rotation: bool },
}

/// An action as plain values.
pub enum ActionView {
    Nothing,
    Respond(Seq<u8>),
    SendRegistries,
    CompleteLogin(Seq<char>, Option<u128>),
    EnterPlay,
    PlayerAction(i32),
    Edit(PendingEdit),
    SelectSlot(u8),
    HeldEcho,
    Click(PendingClick),
    MovePlayer(u64, u64, u64, u32, u32, bool, bool),
}

impl View for PacketAction {
    type V = ActionView;

    open spec fn view(&self) -> ActionView {
        match self {
            PacketAction::Nothing => ActionView::Nothing,
            PacketAction::Respond(b) => ActionView::Respond(b@),
            PacketAction::SendRegistries => ActionView::SendRegistries,
            PacketAction::CompleteLogin { name, uuid } => ActionView::CompleteLogin(name@, *uuid),
            PacketAction::EnterPlay => ActionView::EnterPlay,
            PacketAction::PlayerAction(a) => ActionView::PlayerAction(*a),
            PacketAction::Edit(e) => ActionView::Edit(*e),
            PacketAction::SelectSlot(i) => ActionView::SelectSlot(*i),
            PacketAction::HeldEcho => ActionView::HeldEcho,
            PacketAction::Click(c) => ActionView::Click(*c),
            PacketAction::MovePlayer { x, y, z, yaw, pitch, has_position, has_rotation } => ActionView::MovePlayer(
                *x,
                *y,
                *z,
                *yaw,
                *pitch,
                *has_position,
                *has_rotation,
            ),
        }
    }
}

/// The status response body for this server.
pub open spec fn status_body(motd: Seq<char>, max_players: u32) -> Seq<u8> {
    string_encoding(status_text(VERSION_NAME@, PROTOCOL_VERSION, motd, max_players))
}

/// What a packet does in each protocol state: the session after it and
/// the action (or the error that ends the connection).
pub open spec fn spec_handle_packet(motd: Seq<char>, max_players: u32, s: SessionView, id: i32, b: Seq<u8>) -> (SessionView, Result<ActionView, ProtoError>) {
    match s.state {
        ProtocolState::Handshaking => {
            if id == 0 {
                match spec_decode_handshake(b) {
                    Err(e) => (s, Err(e)),
                    Ok((protocol, _, _, next)) => {
                        let s1 = SessionView { protocol_version: protocol, ..s };
                        if next == 1 {
                            (SessionView { state: ProtocolState::Status, ..s1 }, Ok(ActionView::Nothing))
                        } else if next == 2 || next == 3 {
                            (SessionView { state: ProtocolState::Login, ..s1 }, Ok(ActionView::Nothing))
                        } else {
                            (s1, Err(ProtoError::InvalidNextState(next)))
                        }
                    },
                }
            } else {
                (s, Err(ProtoError::UnknownPacket(id)))
            }
        },
        ProtocolState::Status => {
            if id == 0 {
                (s, Ok(ActionView::Respond(packet_frame(0x00, status_body(motd, max_players)))))
            } else if id == 1 {
                if b.len() >= 8 {
                    (s, Ok(ActionView::Respond(packet_frame(0x01, u64_be((u64_from_be(b.take(8)) as i64) as u64)))))
                } else {
                    (s, Err(ProtoError::Truncated))
                }
            } else {
                (s, Err(ProtoError::UnknownPacket(id)))
            }
        },
        ProtocolState::Login => {
            if id == 0 {
                match spec_decode_login_start(b) {
                    Err(e) => (s, Err(e)),
                    Ok((name, uuid)) => (SessionView { login_name: Some(name), ..s }, Ok(ActionView::CompleteLogin(name, uuid))),
                }
            } else if id == 3 {
                (SessionView { state: ProtocolState::Configuration, ..s }, Ok(ActionView::Nothing))
            } else {
                (s, Err(ProtoError::UnknownPacket(id)))
            }
        },
        ProtocolState::Configuration => {
            if id == 0 || id == 2 {
                (s, Ok(ActionView::Nothing))
            } else if id == 7 {
                if s.config_stage == ConfigStage::KnownPacksSent {
                    (s, Ok(ActionView::SendRegistries))
                } else {
                    (s, Ok(ActionView::Nothing))
                }
            } else if id == 3 {
                if s.config_stage == ConfigStage::FinishSent {
                    (SessionView { config_stage: ConfigStage::Complete, ..s }, Ok(ActionView::EnterPlay))
                } else {
                    (s, Ok(ActionView::Nothing))
                }
            } else {
                (s, Err(ProtoError::UnknownPacket(id)))
            }
        },
        ProtocolState::Play => (spec_play_session(s, id, b), spec_play_action(id, b)),
    }
}

/// The session after a play packet: only a teleport confirmation changes it.
pub open spec fn spec_play_session(s: SessionView, id: i32, b: Seq<u8>) -> SessionView {
    if id == 0 {
        match varint_step(b) {
            Ok((v, _)) => SessionView { confirmed_teleport: v, ..s },
            Err(_) => s,
        }
    } else {
        s
    }
}

/// The movement packets carry their fields in wire order: a position
/// packet (0x1E) x, y, z as f64 bits; a rotation packet (0x20) yaw then
/// pitch as f32 bits; a full packet (0x1F) both; each then a flags byte.
pub proof fn law_move_fields(x: u64, y: u64, z: u64, yaw: u32, pitch: u32, flags: u8)
    ensures
        spec_play_action(0x1E, u64_be(x) + u64_be(y) + u64_be(z) + seq![flags]) == Ok::<ActionView, ProtoError>(
            ActionView::MovePlayer(x, y, z, 0, 0, true, false),
        ),
        spec_play_action(0x20, u32_be(yaw) + u32_be(pitch) + seq![flags]) == Ok::<ActionView, ProtoError>(
            ActionView::MovePlayer(0, 0, 0, yaw, pitch, false, true),
        ),
        spec_play_action(0x1F, u64_be(x) + u64_be(y) + u64_be(z) + u32_be(yaw) + u32_be(pitch) + seq![flags]) == Ok::<
            ActionView,
            ProtoError,
        >(ActionView::MovePlayer(x, y, z, yaw, pitch, true, true)),
{
    super::proto::law_fixed_width_roundtrip(0, 0, yaw, 0, x, 0, 0, 0);
    super::proto::law_fixed_width_roundtrip(0, 0, pitch, 0, y, 0, 0, 0);
    super::proto::law_fixed_width_roundtrip(0, 0, 0, 0, z, 0, 0, 0);
    let pos = u64_be(x) + u64_be(y) + u64_be(z) + seq![flags];
    assert(pos.take(8) =~= u64_be(x));
    assert(pos.skip(8).take(8) =~= u64_be(y));
    assert(pos.skip(16).take(8) =~= u64_be(z));
    let rot = u32_be(yaw) + u32_be(pitch) + seq![flags];
    assert(rot.take(4) =~= u32_be(yaw));
    assert(rot.skip(4).take(4) =~= u32_be(pitch));
    let full = u64_be(x) + u64_be(y) + u64_be(z) + u32_be(yaw) + u32_be(pitch) + seq![flags];
    assert(full.take(8) =~= u64_be(x));
    assert(full.skip(8).take(8) =~= u64_be(y));
    assert(full.skip(16).take(8) =~= u64_be(z));
    assert(full.skip(24).take(4) =~= u32_be(yaw));
    assert(full.skip(28).take(4) =~= u32_be(pitch));
}

/// What a play packet asks for. Movement packets must be complete;
/// malformed actions, digs, placements and clicks are ignored; unknown
/// packets are tolerated.
pub open spec fn spec_play_action(id: i32, b: Seq<u8>) -> Result<ActionView, ProtoError> {
    if id == 0 {
        match varint_step(b) {
            Ok(_) => Ok(ActionView::Nothing),
            Err(e) => Err(e),
        }
    } else if id == 0x1E {
        if b.len() >= 25 {
            Ok(ActionView::MovePlayer(
                u64_from_be(b.take(8)),
                u64_from_be(b.skip(8).take(8)),
                u64_from_be(b.skip(16).take(8)),
                0,
                0,
                true,
                false,
            ))
        } else {
            Err(ProtoError::Truncated)
        }
    } else if id == 0x1F {
        if b.len() >= 33 {
            Ok(ActionView::MovePlayer(
                u64_from_be(b.take(8)),
                u64_from_be(b.skip(8).take(8)),
                u64_from_be(b.skip(16).take(8)),
                u32_from_be(b.skip(24).take(4)),
                u32_from_be(b.skip(28).take(4)),
                true,
                true,
            ))
        } else {
            Err(ProtoError::Truncated)
        }
    } else if id == 0x20 {
        if b.len() >= 9 {
            Ok(ActionView::MovePlayer(0, 0, 0, u32_from_be(b.take(4)), u32_from_be(b.skip(4).take(4)), false, true))
        } else {
            Err(ProtoError::Truncated)
        }
    } else if id == 0x2A {
        Ok(
            match spec_parse_player_action(b) {
                Some(a) => ActionView::PlayerAction(a),
                None => ActionView::Nothing,
            },
        )
    } else if id == 0x35 {
        Ok(
            match spec_parse_held_slot(b) {
                Some(i) => ActionView::SelectSlot(i),
                None => ActionView::HeldEcho,
            },
        )
    } else if id == 0x29 {
        Ok(
            match spec_parse_dig(b) {
                Some(e) => ActionView::Edit(e),
                None => ActionView::Nothing,
            },
        )
    } else if id == 0x42 {
        Ok(
            match spec_parse_place(b) {
                Some(e) => ActionView::Edit(e),
                None => ActionView::Nothing,
            },
        )
    } else if id == 0x12 {
        Ok(
            match spec_parse_click(b) {
                Some(c) => ActionView::Click(c),
                None => ActionView::Nothing,
            },
        )
    } else {
        Ok(ActionView::Nothing)
    }
}

/// Reads a movement packet: position (f64 bits) and/or rotation (f32
/// bits), then the on-ground flags.
#[verifier::spinoff_prover]
fn parse_move(id: i32, payload: &[u8]) -> (r: Result<PacketAction, ProtoError>)
    requires
        id == 0x1E || id == 0x1F || id == 0x20,
    ensures
        match spec_play_action(id, payload@) {
            Ok(a) => r matches Ok(act) && act@ == a,
            Err(e) => r matches Err(re) && re == e,
        },
{
    let ghost b = payload@;
    let mut reader = Reader::new(payload);
    assert(b.skip(0) =~= b);
    if id == 0x20 {
        let yaw = reader.read_u32()?;
        let pitch = reader.read_u32()?;
        reader.read_u8()?;
        return Ok(PacketAction::MovePlayer { x: 0, y: 0, z: 0, yaw, pitch, has_position: false, has_rotation: true });
    }
    let x = reader.read_u64()?;
    let y = reader.read_u64()?;
    let z = reader.read_u64()?;
    if id == 0x1E {
        reader.read_u8()?;
        return Ok(PacketAction::MovePlayer { x, y, z, yaw: 0, pitch: 0, has_position: true, has_rotation: false });
    }
    let yaw = reader.read_u32()?;
    let pitch = reader.read_u32()?;
    reader.read_u8()?;
    Ok(PacketAction::MovePlayer { x, y, z, yaw, pitch, has_position: true, has_rotation: true })
}

/// Decides what one packet does and updates the session. Status and pong
/// replies come back as `Respond`; everything that needs the world, the
/// other players or the network comes back as an action.
pub fn handle_packet(status: &ServerStatus, session: &mut SessionState, id: i32, payload: &[u8]) -> (r: Result<PacketAction, ProtoError>)
    requires
        frame_fits(0x00, status_body(status.motd@, status.max_players)),
    ensures
        ({
            let (next, res) = spec_handle_packet(status.motd@, status.max_players, old(session)@, id, payload@);
            &&& final(session)@ == next
            &&& match res {
                Ok(a) => r matches Ok(act) && act@ == a,
                Err(e) => r matches Err(re) && re == e,
            }
        }),
{
    let ghost b = payload@;
    match session.state {
        ProtocolState::Handshaking => {
            if id != 0 {
                return Err(ProtoError::UnknownPacket(id));
            }
            let handshake = decode_handshake(payload)?;
            session.protocol_version = handshake.protocol_version;
            if handshake.next_state == 1 {
                session.state = ProtocolState::Status;
            } else if handshake.next_state == 2 || handshake.next_state == 3 {
                session.state = ProtocolState::Login;
            } else {
                return Err(ProtoError::InvalidNextState(handshake.next_state));
            }
            Ok(PacketAction::Nothing)
        },
        ProtocolState::Status => {
            if id == 0 {
                Ok(PacketAction::Respond(encode_status_response(VERSION_NAME, PROTOCOL_VERSION, status.motd.as_str(), status.max_players)))
            } else if id == 1 {
                let mut reader = Reader::new(payload);
                assert(b.skip(0) =~= b);
                let value = reader.read_i64()?;
                Ok(PacketAction::Respond(encode_pong(value)))
            } else {
                Err(ProtoError::UnknownPacket(id))
            }
        },
        ProtocolState::Login => {
            if id == 0 {
                let login = decode_login_start(payload)?;
                session.login_name = Some(login.name.clone());
                Ok(PacketAction::CompleteLogin { name: login.name, uuid: login.uuid })
            } else if id == 3 {
                session.state = ProtocolState::Configuration;
                Ok(PacketAction::Nothing)
            } else {
                Err(ProtoError::UnknownPacket(id))
            }
        },
        ProtocolState::Configuration => {
            if id == 0 || id == 2 {
                Ok(PacketAction::Nothing)
            } else if id == 7 {
                if session.config_stage != ConfigStage::KnownPacksSent {
                    return Ok(PacketAction::Nothing);
                }
                Ok(PacketAction::SendRegistries)
            } else if id == 3 {
                if session.config_stage != ConfigStage::FinishSent {
                    return Ok(PacketAction::Nothing);
                }
                session.config_stage = ConfigStage::Complete;
                Ok(PacketAction::EnterPlay)
            } else {
                Err(ProtoError::UnknownPacket(id))
            }
        },
        ProtocolState::Play => handle_play_packet(session, id, payload),
    }
}

#[verifier::spinoff_prover]
#[verifier::rlimit(60)]
fn handle_play_packet(session: &mut SessionState, id: i32, payload: &[u8]) -> (r: Result<PacketAction, ProtoError>)
    requires
        old(session).state == ProtocolState::Play,
    ensures
        final(session)@ == spec_play_session(old(session)@, id, payload@),
        match spec_play_action(id, payload@) {
            Ok(a) => r matches Ok(act) && act@ == a,
            Err(e) => r matches Err(re) && re == e,
        },
{
    let ghost b = payload@;
    let mut reader = Reader::new(payload);
    assert(b.skip(0) =~= b);
    if id == 0x00 {
        session.confirmed_teleport = reader.read_varint()?;
        Ok(PacketAction::Nothing)
    } else if id == 0x1E || id == 0x1F || id == 0x20 {
        parse_move(id, payload)
    } else if id == 0x21 {
        Ok(PacketAction::Nothing)
    } else if id == 0x2A {
        Ok(
            match parse_player_action(payload) {
                Some(action) => PacketAction::PlayerAction(action),
                None => PacketAction::Nothing,
            },
        )
    } else if id == 0x35 {
        Ok(
            match parse_held_slot(payload) {
                Some(slot) => PacketAction::SelectSlot(slot),
                None => PacketAction::HeldEcho,
            },
        )
    } else if id == 0x29 {
        Ok(
            match parse_dig(payload) {
                Some(edit) => PacketAction::Edit(edit),
                None => PacketAction::Nothing,
            },
        )
    } else if id == 0x42 {
        Ok(
            match parse_place(payload) {
                Some(edit) => PacketAction::Edit(edit),
                None => PacketAction::Nothing,
            },
        )
    } else if id == 0x12 {
        Ok(
            match parse_click(payload) {
                Some(click) => PacketAction::Click(click),
                None => PacketAction::Nothing,
            },
        )
    } else {
        Ok(PacketAction::Nothing)
    }
}

/// Ticks between keep-alive packets in play.
pub const KEEPALIVE_INTERVAL_TICKS: u64 = 200;

impl SessionState {
    /// Starts the configuration exchange: on the first pass after login,
    /// the known packs go out and the session waits for the client's list.
    pub fn poll_known_packs(&mut self) -> (r: Option<Vec<u8>>)
        ensures
            old(self).state == ProtocolState::Configuration && old(self).config_stage == ConfigStage::Fresh ==> (r matches Some(p)
                && p@ == packet_frame(0x0E, known_packs_body())
                && final(self)@ == (SessionView { config_stage: ConfigStage::KnownPacksSent, ..old(self)@ })),
            !(old(self).state == ProtocolState::Configuration && old(self).config_stage == ConfigStage::Fresh) ==> (r is None
                && final(self)@ == old(self)@),
    {
        if self.state == ProtocolState::Configuration && self.config_stage == ConfigStage::Fresh {
            self.config_stage = ConfigStage::KnownPacksSent;
            Some(encode_known_packs())
        } else {
            None
        }
    }

    /// The keep-alive due at `tick`: one every `KEEPALIVE_INTERVAL_TICKS`
    /// ticks in play, carrying the tick.
    pub fn keep_alive(&self, tick: u64) -> (r: Option<Vec<u8>>)
        ensures
            self.state == ProtocolState::Play && tick % KEEPALIVE_INTERVAL_TICKS == 0 ==> (r matches Some(p)
                && p@ == packet_frame(0x2C, u64_be((tick as i64) as u64))),
            !(self.state == ProtocolState::Play && tick % KEEPALIVE_INTERVAL_TICKS == 0) ==> r is None,
    {
        if self.state == ProtocolState::Play && tick % KEEPALIVE_INTERVAL_TICKS == 0 {
            Some(encode_keep_alive(tick as i64))
        } else {
            None
        }
    }

    /// The registry data, tags and finish went out: wait for the client to
    /// acknowledge the finish.
    pub fn registries_sent(&mut self)
        ensures
            final(self)@ == (SessionView { config_stage: ConfigStage::FinishSent, ..old(self)@ }),
    {
        self.config_stage = ConfigStage::FinishSent;
    }

    /// The play login, spawn and position went out: the session is in play
    /// with the next teleport id, and the inventory is due to be sent.
    pub fn entered_play(&mut self)
        requires
            old(self).teleport_id < i32::MAX,
        ensures
            final(self)@ == (SessionView {
                state: ProtocolState::Play,
                teleport_id: (old(self).teleport_id + 1) as i32,
                inv_dirty: true,
                ..old(self)@
            }),
    {
        self.teleport_id = self.teleport_id + 1;
        self.state = ProtocolState::Play;
        self.inv_dirty = true;
    }

    /// When the inventory must be resent: the new state id (one more than
    /// before), and the inventory is clean again.
    pub fn take_inventory_sync(&mut self) -> (r: Option<i32>)
        requires
            old(self).inv_dirty ==> old(self).inv_state < i32::MAX,
        ensures
            old(self).inv_dirty ==> r == Some((old(self).inv_state + 1) as i32)
                && final(self)@ == (SessionView { inv_state: (old(self).inv_state + 1) as i32, inv_dirty: false, ..old(self)@ }),
            !old(self).inv_dirty ==> r is None && final(self)@ == old(self)@,
    {
        if self.inv_dirty {
            self.inv_state = self.inv_state + 1;
            self.inv_dirty = false;
            Some(self.inv_state)
        } else {
            None
        }
    }

    /// Whether the held slot must be resent; it is clean afterwards.
    pub fn take_held_sync(&mut self) -> (r: bool)
        ensures
            r == old(self).held_dirty,
            final(self)@ == (SessionView { held_dirty: false, ..old(self)@ }),
    {
        let r = self.held_dirty;
        self.held_dirty = false;
        r
    }
}

/// What `apply_click` asks of a click: a normal click that merges into a
/// slot needs that slot to hold at most a full stack.
pub open spec fn click_allowed(s: SessionView, slots: Seq<ItemStack>, cursor: ItemStack, click: PendingClick) -> bool {
    click.window == 0 && click.state == s.inv_state && click.mode == 0 ==> pickup_allowed(slots, cursor, click.slot, click.button)
}

/// Whether `apply_click` may take this click now (see `click_allowed`).
pub fn click_is_allowed(session: &SessionState, inventory: &Inventory, cursor: ItemStack, click: PendingClick) -> (r: bool)
    ensures
        r == click_allowed(session@, inventory.spec_slots(), cursor, click),
{
    if click.window != 0 || click.state != session.inv_state || click.mode != 0 {
        return true;
    }
    if click.slot < 0 || click.button != 0 || cursor.is_empty() {
        return true;
    }
    match inventory.get(click.slot as usize) {
        None => true,
        Some(stack) => stack.is_empty() || stack.item != cursor.item || stack.count <= MAX_STACK,
    }
}

/// Applies a click to the player's inventory (window 0 only). A click
/// against an old state id changes nothing but asks for a resend; a click
/// that changed something asks for one too.
pub fn apply_click(session: &mut SessionState, inventory: &mut Inventory, cursor: &mut ItemStack, click: PendingClick)
    requires
        click_allowed(old(session)@, old(inventory).spec_slots(), *old(cursor), click),
    ensures
        final(inventory).spec_selected() == old(inventory).spec_selected(),
        click.window != 0 ==> final(session)@ == old(session)@ && final(inventory).spec_slots() == old(inventory).spec_slots()
            && *final(cursor) == *old(cursor),
        click.window == 0 && click.state != old(session).inv_state ==> final(session)@ == (SessionView {
            inv_dirty: true,
            ..old(session)@
        }) && final(inventory).spec_slots() == old(inventory).spec_slots() && *final(cursor) == *old(cursor),
        click.window == 0 && click.state == old(session).inv_state ==> {
            let (changed, slots, cur) = if click.mode == 0 {
                pickup_result(old(inventory).spec_slots(), *old(cursor), click.slot, click.button)
            } else if click.mode == 1 {
                let (c, s) = shift_result(old(inventory).spec_slots(), click.slot);
                (c, s, *old(cursor))
            } else if click.mode == 2 {
                let (c, s) = swap_result(old(inventory).spec_slots(), click.slot, click.button);
                (c, s, *old(cursor))
            } else {
                (false, old(inventory).spec_slots(), *old(cursor))
            };
            &&& final(inventory).spec_slots() == slots
            &&& *final(cursor) == cur
            &&& final(session)@ == (SessionView { inv_dirty: old(session).inv_dirty || changed, ..old(session)@ })
        },
{
    if click.window != 0 {
        return;
    }
    if click.state != session.inv_state {
        session.inv_dirty = true;
        return;
    }
    let applied = if click.mode == 0 {
        click_pickup(inventory, cursor, click.slot, click.button)
    } else if click.mode == 1 {
        click_shift(inventory, click.slot)
    } else if click.mode == 2 {
        click_swap(inventory, click.slot, click.button)
    } else {
        false
    };
    if applied {
        session.inv_dirty = true;
    }
}

/// Sneaking and sprinting after a player command: 0 and 1 start and stop
/// sneaking, 3 and 4 start and stop sprinting, others change nothing.
pub fn player_action_flags(action: i32, sneaking: bool, sprinting: bool) -> (r: (bool, bool))
    ensures
        r == (if action == 0 {
            (true, sprinting)
        } else if action == 1 {
            (false, sprinting)
        } else if action == 3 {
            (sneaking, true)
        } else if action == 4 {
            (sneaking, false)
        } else {
            (sneaking, sprinting)
        }),
{
    if action == 0 {
        (true, sprinting)
    } else if action == 1 {
        (false, sprinting)
    } else if action == 3 {
        (sneaking, true)
    } else if action == 4 {
        (sneaking, false)
    } else {
        (sneaking, sprinting)
    }
}

/// The neighbour offset of each block face: down, up, north, south, west,
/// east.
pub open spec fn spec_face_offset(face: i32) -> (i32, i32, i32) {
    if face == 0 {
        (0i32, -1i32, 0i32)
    } else if face == 1 {
        (0i32, 1i32, 0i32)
    } else if face == 2 {
        (0i32, 0i32, -1i32)
    } else if face == 3 {
        (0i32, 0i32, 1i32)
    } else if face == 4 {
        (-1i32, 0i32, 0i32)
    } else {
        (1i32, 0i32, 0i32)
    }
}

pub fn face_offset(face: i32) -> (r: (i32, i32, i32))
    requires
        0 <= face <= 5,
    ensures
        r == spec_face_offset(face),
{
    if face == 0 {
        (0, -1, 0)
    } else if face == 1 {
        (0, 1, 0)
    } else if face == 2 {
        (0, 0, -1)
    } else if face == 3 {
        (0, 0, 1)
    } else if face == 4 {
        (-1, 0, 0)
    } else {
        (1, 0, 0)
    }
}

/// Where an edit lands, the block it sets and its sequence number: a
/// break sets air at the position; a placement puts the held item's block
/// against the clicked face, and needs a held block item.
pub open spec fn spec_edit_target(edit: PendingEdit, held: ItemStack) -> Option<((i32, i32, i32), Block, i32)> {
    match edit {
        PendingEdit::Break { x, y, z, sequence } => Some(((x, y, z), Block::Air, sequence)),
        PendingEdit::Place { x, y, z, face, sequence } => {
            match item_block(held.item) {
                Some(block) if !stack_is_empty(held) => {
                    let o = spec_face_offset(face);
                    Some((((x + o.0) as i32, (y + o.1) as i32, (z + o.2) as i32), block, sequence))
                },
                _ => None,
            }
        },
    }
}

/// A break lands on the clicked block and sets air. A placement with a
/// held block lands on the neighbour across the clicked face (face 0 is
/// below, 1 above, 2 north at -z, 3 south at +z, 4 west at -x, 5 east at
/// +x) and sets the held item's block; without a held block nothing is
/// placed.
pub proof fn law_edit_lands_across_face(x: i32, y: i32, z: i32, face: i32, sequence: i32, held: ItemStack)
    requires
        edit_in_range(PendingEdit::Place { x, y, z, face, sequence }),
    ensures
        spec_edit_target(PendingEdit::Break { x, y, z, sequence }, held) == Some(((x, y, z), Block::Air, sequence)),
        ({
            let dx: int = if face == 5 { 1 } else if face == 4 { -1 } else { 0 };
            let dy: int = if face == 1 { 1 } else if face == 0 { -1 } else { 0 };
            let dz: int = if face == 3 { 1 } else if face == 2 { -1 } else { 0 };
            match spec_edit_target(PendingEdit::Place { x, y, z, face, sequence }, held) {
                Some((target, block, seq_no)) => {
                    &&& target.0 == x + dx
                    &&& target.1 == y + dy
                    &&& target.2 == z + dz
                    &&& item_block(held.item) == Some(block)
                    &&& !stack_is_empty(held)
                    &&& seq_no == sequence
                },
                None => item_block(held.item) is None || stack_is_empty(held),
            }
        }),
{
}

/// Placements come from `parse_place`: a face of 0 to 5 and a packed
/// position, so the neighbour is in range.
pub open spec fn edit_in_range(edit: PendingEdit) -> bool {
    match edit {
        PendingEdit::Break { .. } => true,
        PendingEdit::Place { x, y, z, face, .. } => 0 <= face <= 5 && i32::MIN < x < i32::MAX && i32::MIN < y < i32::MAX
            && i32::MIN < z < i32::MAX,
    }
}

pub fn edit_target(edit: PendingEdit, held: ItemStack) -> (r: Option<((i32, i32, i32), Block, i32)>)
    requires
        edit_in_range(edit),
    ensures
        r == spec_edit_target(edit, held),
{
    match edit {
        PendingEdit::Break { x, y, z, sequence } => Some(((x, y, z), Block::Air, sequence)),
        PendingEdit::Place { x, y, z, face, sequence } => match held.item.block() {
            Some(block) => {
                if held.is_empty() {
                    return None;
                }
                let (ox, oy, oz) = face_offset(face);
                Some(((x + ox, y + oy, z + oz), block, sequence))
            },
            None => None,
        },
    }
}

/// Whether an edit may happen given what is at the target: a break needs
/// a solid block, a placement needs air outside the player's own two
/// blocks (`feet` and the one above).
pub open spec fn spec_edit_allowed(is_break: bool, current: Option<Block>, target: (i32, i32, i32), feet: (i32, i32, i32)) -> bool {
    match current {
        Some(existing) => {
            if is_break {
                existing != Block::Air
            } else {
                existing == Block::Air && target != feet && target != (feet.0, (feet.1 + 1) as i32, feet.2)
            }
        },
        None => false,
    }
}

pub fn edit_allowed(edit: PendingEdit, current: Option<Block>, target: (i32, i32, i32), feet: (i32, i32, i32)) -> (r: bool)
    requires
        feet.1 < i32::MAX,
    ensures
        r == spec_edit_allowed(edit is Break, current, target, feet),
{
    match (edit, current) {
        (PendingEdit::Break { .. }, Some(existing)) => existing.is_solid(),
        (PendingEdit::Place { .. }, Some(Block::Air)) => {
            !(target.0 == feet.0 && target.1 == feet.1 && target.2 == feet.2) && !(target.0 == feet.0 && target.1 == feet.1 + 1
                && target.2 == feet.2)
        },
        _ => false,
    }
}

/// The error `getrandom` reports when the OS has no randomness to give.
#[verifier::external_type_specification]
#[verifier::external_body]
pub struct ExRandomError(getrandom::Error);

/// Calls `getrandom::fill`, which fills the buffer with random bytes from
/// the OS or reports why it could not. The bytes are chance, so nothing is
/// said of them.
#[verifier::external_body]
fn fill_random(bytes: &mut [u8; 16]) -> (r: Result<(), getrandom::Error>) {
    getrandom::fill(bytes)
}

/// The session id sixteen bytes make: read as a big-endian u128.
pub fn session_id_from_bytes(bytes: &[u8; 16]) -> (r: u128)
    ensures
        r == u128_from_be(bytes@),
{
    let mut reader = Reader::new(bytes);
    assert(bytes@.skip(0) =~= bytes@);
    assert(bytes@.take(16) =~= bytes@);
    match reader.read_uuid() {
        Ok(id) => id,
        Err(_) => 0,
    }
}

/// A random session id for a new login: sixteen random bytes from the OS
/// read by `session_id_from_bytes`, or the OS's error. Whether the OS
/// gives bytes, and which, is its own business.
pub fn new_session_id() -> (r: Result<u128, getrandom::Error>)
    ensures
        r matches Ok(id) ==> exists|b: Seq<u8>| b.len() == 16 && id == u128_from_be(b.take(16)),
{
    let mut bytes = [0u8; 16];
    fill_random(&mut bytes)?;
    let id = session_id_from_bytes(&bytes);
    assert(bytes@.take(16) =~= bytes@);
    Ok(id)
}

/// Whether a logged-in player (`other_*`) is the same player as a new
/// login on connection `except`: another connection, with the same uuid
/// or a name equal but for ASCII case.
pub open spec fn spec_is_duplicate(other_conn: u64, other_name: Seq<char>, other_uuid: Option<u128>, except: u64, name: Seq<char>, uuid: Option<u128>) -> bool {
    other_conn != except && ((uuid is Some && other_uuid == uuid) || ascii_lower_all(other_name) == ascii_lower_all(name))
}

#[must_use]
pub fn is_duplicate_login(other_conn: u64, other_name: &str, other_uuid: Option<u128>, except: u64, name: &str, uuid: Option<u128>) -> (r: bool)
    ensures
        r == spec_is_duplicate(other_conn, other_name@, other_uuid, except, name@, uuid),
{
    if other_conn == except {
        return false;
    }
    let same_uuid = match uuid {
        Some(id) => match other_uuid {
            Some(o) => o == id,
            None => false,
        },
        None => false,
    };
    same_uuid || eq_ignore_ascii_case(other_name, name)
}

} // verus!
