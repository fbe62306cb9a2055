//! Entity metadata: indexed, typed values ended by a 0xFF index.
use vstd::prelude::*;

use super::error::ProtoError;
use super::proto::{spec_decode_varint, varint_encoding, Reader, Writer};

verus! {

broadcast use
    vstd::seq::group_seq_axioms,
    vstd::seq_lib::group_seq_properties,
    super::proto::lemma_varint_encoding_len,
;

pub const FLAG_ON_FIRE: u8 = 0x01;
pub const FLAG_SNEAKING: u8 = 0x02;
pub const FLAG_SPRINTING: u8 = 0x08;
pub const FLAG_INVISIBLE: u8 = 0x20;
pub const FLAG_GLOWING: u8 = 0x40;

pub const POSE_STANDING: i32 = 0;
pub const POSE_CROUCHING: i32 = 5;

/// Index that ends a metadata list.
pub const METADATA_END: u8 = 0xFF;

/// A metadata value with its serializer.
#[derive(Debug, Clone, Copy, PartialEq, Eq, Structural)]
pub enum MetadataKind {
    Byte(u8),
    VarInt(i32),
    Bool(bool),
    Pose(i32),
}

/// Serializer id of each kind.
pub open spec fn kind_type_id(kind: MetadataKind) -> i32 {
    match kind {
        MetadataKind::Byte(_) => 0,
        MetadataKind::VarInt(_) => 1,
        MetadataKind::Bool(_) => 8,
        MetadataKind::Pose(_) => 20,
    }
}

/// The value's bytes after its serializer id.
pub open spec fn kind_bytes(kind: MetadataKind) -> Seq<u8> {
    match kind {
        MetadataKind::Byte(v) => seq![v],
        MetadataKind::VarInt(v) => varint_encoding(v),
        MetadataKind::Bool(v) => seq![if v { 1u8 } else { 0u8 }],
        MetadataKind::Pose(v) => varint_encoding(v),
    }
}

impl MetadataKind {
    #[must_use]
    pub fn type_id(self) -> (r: i32)
        ensures
            r == kind_type_id(self),
    {
        match self {
            MetadataKind::Byte(_) => 0,
            MetadataKind::VarInt(_) => 1,
            MetadataKind::Bool(_) => 8,
            MetadataKind::Pose(_) => 20,
        }
    }

    fn encode(self, writer: &mut Writer)
        ensures
            final(writer)@ == old(writer)@ + kind_bytes(self),
    {
        match self {
            MetadataKind::Byte(value) => writer.write_u8(value),
            MetadataKind::VarInt(value) => writer.write_varint(value),
            MetadataKind::Bool(value) => writer.write_bool(value),
            MetadataKind::Pose(value) => writer.write_varint(value),
        }
        assert(writer@ =~= old(writer)@ + kind_bytes(self));
    }

    fn decode(type_id: i32, reader: &mut Reader) -> (r: Result<Self, ProtoError>)
        ensures
            final(reader).data() == old(reader).data(),
            spec_decode_kind(type_id, old(reader).rest()).0 == r,
            r is Ok ==> final(reader).pos() == old(reader).pos() + spec_decode_kind(type_id, old(reader).rest()).1,
    {
        match type_id {
            0 => Ok(MetadataKind::Byte(reader.read_u8()?)),
            1 => Ok(MetadataKind::VarInt(reader.read_varint()?)),
            8 => Ok(MetadataKind::Bool(reader.read_bool()?)),
            20 => Ok(MetadataKind::Pose(reader.read_varint()?)),
            _ => Err(ProtoError::InvalidTag(type_id as u8)),
        }
    }
}

/// A value of a kind read from the front of `b`, and the bytes it took.
pub open spec fn spec_decode_kind(type_id: i32, b: Seq<u8>) -> (Result<MetadataKind, ProtoError>, nat) {
    if type_id == 0 || type_id == 8 {
        if b.len() < 1 {
            (Err(ProtoError::Truncated), 0)
        } else if type_id == 0 {
            (Ok(MetadataKind::Byte(b[0])), 1)
        } else {
            (Ok(MetadataKind::Bool(b[0] != 0)), 1)
        }
    } else if type_id == 1 || type_id == 20 {
        match spec_decode_varint(b) {
            Ok(Some((v, n))) => (Ok(if type_id == 1 { MetadataKind::VarInt(v) } else { MetadataKind::Pose(v) }), n as nat),
            Ok(None) => (Err(ProtoError::Truncated), 0),
            Err(e) => (Err(e), 0),
        }
    } else {
        (Err(ProtoError::InvalidTag(type_id as u8)), 0)
    }
}

/// One indexed metadata value.
#[derive(Debug, Clone, Copy, PartialEq, Eq, Structural)]
pub struct MetadataEntry {
    pub index: u8,
    pub kind: MetadataKind,
}

/// An entry on the wire: index, serializer id, value.
pub open spec fn entry_bytes(entry: MetadataEntry) -> Seq<u8> {
    seq![entry.index] + varint_encoding(kind_type_id(entry.kind)) + kind_bytes(entry.kind)
}

/// The entries in turn, without the end marker.
pub open spec fn entries_bytes(entries: Seq<MetadataEntry>) -> Seq<u8>
    decreases entries.len(),
{
    if entries.len() == 0 {
        Seq::empty()
    } else {
        entries_bytes(entries.drop_last()) + entry_bytes(entries.last())
    }
}

/// A metadata list on the wire: the entries, then the end marker.
pub open spec fn metadata_bytes(entries: Seq<MetadataEntry>) -> Seq<u8> {
    entries_bytes(entries) + seq![METADATA_END]
}

/// The entry at the front of `b` (which does not start with the end
/// marker), and the bytes it takes.
pub open spec fn spec_decode_entry(b: Seq<u8>) -> Result<(MetadataEntry, nat), ProtoError> {
    match spec_decode_varint(b.skip(1)) {
        Ok(Some((type_id, n))) => match spec_decode_kind(type_id, b.skip(1 + n as int)) {
            (Ok(kind), m) => Ok((MetadataEntry { index: b[0], kind }, (1 + n + m) as nat)),
            (Err(e), _) => Err(e),
        },
        Ok(None) => Err(ProtoError::Truncated),
        Err(e) => Err(e),
    }
}

/// The metadata list at the front of `b`, and the bytes it takes: entries
/// until an index of 0xFF.
#[verifier::opaque]
pub open spec fn spec_decode_metadata(b: Seq<u8>) -> (Result<Seq<MetadataEntry>, ProtoError>, nat)
    decreases b.len(),
{
    if b.len() == 0 {
        (Err(ProtoError::Truncated), 0)
    } else if b[0] == METADATA_END {
        (Ok(Seq::empty()), 1)
    } else {
        match spec_decode_entry(b) {
            Ok((entry, used)) => {
                if 1 <= used <= b.len() {
                    match spec_decode_metadata(b.skip(used as int)) {
                        (Ok(rest), k) => (Ok(seq![entry] + rest), (used + k) as nat),
                        (Err(e), k) => (Err(e), (used + k) as nat),
                    }
                } else {
                    (Err(ProtoError::Truncated), 0)
                }
            },
            Err(e) => (Err(e), 0),
        }
    }
}

/// Writes each entry, then the end marker.
pub fn encode_metadata(entries: &[MetadataEntry], writer: &mut Writer)
    ensures
        final(writer)@ == old(writer)@ + metadata_bytes(entries@),
{
    let mut i: usize = 0;
    while i < entries.len()
        invariant
            i <= entries@.len(),
            writer@ == old(writer)@ + entries_bytes(entries@.take(i as int)),
        decreases entries.len() - i,
    {
        assert(entries@.take(i + 1).drop_last() =~= entries@.take(i as int));
        let entry = entries[i];
        writer.write_u8(entry.index);
        writer.write_varint(entry.kind.type_id());
        entry.kind.encode(writer);
        i = i + 1;
        assert(writer@ =~= old(writer)@ + entries_bytes(entries@.take(i as int)));
    }
    assert(entries@.take(i as int) =~= entries@);
    writer.write_u8(METADATA_END);
    assert(writer@ =~= old(writer)@ + metadata_bytes(entries@));
}

/// Reads entries until the end marker.
#[verifier::spinoff_prover]
#[verifier::rlimit(30)]
pub fn decode_metadata(reader: &mut Reader) -> (r: Result<Vec<MetadataEntry>, ProtoError>)
    ensures
        final(reader).data() == old(reader).data(),
        match spec_decode_metadata(old(reader).rest()) {
            (Ok(entries), n) => r matches Ok(v) && v@ == entries && final(reader).pos() == old(reader).pos() + n,
            (Err(e), _) => r == Err::<Vec<MetadataEntry>, ProtoError>(e),
        },
{
    let ghost b0 = reader.rest();
    let ghost p0 = reader.pos();
    let mut entries: Vec<MetadataEntry> = Vec::new();
    loop
        invariant
            reader.data() == old(reader).data(),
            b0 == old(reader).rest(),
            p0 == old(reader).pos(),
            p0 <= reader.pos(),
            reader.rest() == b0.skip(reader.pos() - p0),
            match spec_decode_metadata(reader.rest()) {
                (Ok(rest), k) => spec_decode_metadata(b0) == (Ok::<Seq<MetadataEntry>, ProtoError>(entries@ + rest), ((reader.pos() - p0) + k) as nat),
                (Err(e), _) => spec_decode_metadata(b0).0 == Err::<Seq<MetadataEntry>, ProtoError>(e),
            },
        decreases reader.rest().len(),
    {
        proof {
            Reader::lemma_pos_bound(reader);
        }
        let ghost cur = reader.rest();
        let ghost pos_before = reader.pos();
        proof {
            lemma_decode_stops(cur);
        }
        let index = reader.read_u8()?;
        if index == METADATA_END {
            assert(entries@ + Seq::<MetadataEntry>::empty() =~= entries@);
            return Ok(entries);
        }
        proof {
            assert(reader.rest() =~= cur.skip(1));
        }
        let type_id = reader.read_varint()?;
        let ghost n = spec_decode_varint(cur.skip(1)).unwrap().unwrap().1;
        proof {
            super::proto::lemma_varint_prefix_len(cur.skip(1));
            assert(reader.rest() =~= cur.skip(1 + n));
        }
        let kind = MetadataKind::decode(type_id, reader)?;
        let ghost m = spec_decode_kind(type_id, cur.skip(1 + n)).1;
        proof {
            Reader::lemma_pos_bound(reader);
            assert(reader.rest() =~= cur.skip(1 + n + m));
            lemma_skip_skip(b0, reader.pos() - p0, pos_before - p0);
            assert(spec_decode_entry(cur) == Ok::<(MetadataEntry, nat), ProtoError>((MetadataEntry { index, kind }, (1 + n + m) as nat)));
            lemma_decode_step(cur, MetadataEntry { index, kind }, (1 + n + m) as nat);
            let entry = MetadataEntry { index, kind };
            match spec_decode_metadata(reader.rest()) {
                (Ok(rest), k) => {
                    assert(entries@.push(entry) + rest =~= entries@ + (seq![entry] + rest));
                },
                (Err(e), _) => {},
            }
        }
        entries.push(MetadataEntry { index, kind });
    }
}

proof fn lemma_skip_skip(b: Seq<u8>, total: int, first: int)
    requires
        0 <= first <= total <= b.len(),
    ensures
        b.skip(first).skip(total - first) == b.skip(total),
{
    assert(b.skip(first).skip(total - first) =~= b.skip(total));
}

proof fn lemma_decode_stops(cur: Seq<u8>)
    ensures
        cur.len() == 0 ==> spec_decode_metadata(cur).0 == Err::<Seq<MetadataEntry>, ProtoError>(ProtoError::Truncated),
        cur.len() > 0 && cur[0] == METADATA_END ==> spec_decode_metadata(cur) == (
            Ok::<Seq<MetadataEntry>, ProtoError>(Seq::empty()),
            1nat,
        ),
        cur.len() > 0 && cur[0] != METADATA_END ==> (spec_decode_entry(cur) matches Err(e)
            ==> spec_decode_metadata(cur).0 == Err::<Seq<MetadataEntry>, ProtoError>(e)),
{
    reveal(spec_decode_metadata);
}

proof fn lemma_decode_step(cur: Seq<u8>, entry: MetadataEntry, used: nat)
    requires
        cur.len() > 0,
        cur[0] != METADATA_END,
        spec_decode_entry(cur) == Ok::<(MetadataEntry, nat), ProtoError>((entry, used)),
        1 <= used <= cur.len(),
    ensures
        match spec_decode_metadata(cur.skip(used as int)) {
            (Ok(rest), k) => spec_decode_metadata(cur) == (
                Ok::<Seq<MetadataEntry>, ProtoError>(seq![entry] + rest),
                (used + k) as nat,
            ),
            (Err(e), _) => spec_decode_metadata(cur).0 == Err::<Seq<MetadataEntry>, ProtoError>(e),
        },
{
    reveal(spec_decode_metadata);
}

proof fn lemma_decode_entry_of_bytes(e: MetadataEntry, after: Seq<u8>)
    requires
        e.index != METADATA_END,
    ensures
        spec_decode_entry(entry_bytes(e) + after) == Ok::<(MetadataEntry, nat), ProtoError>((e, entry_bytes(e).len())),
{
    let b = entry_bytes(e) + after;
    let t = kind_type_id(e.kind);
    let vt = varint_encoding(t);
    let kb = kind_bytes(e.kind);
    assert(b =~= seq![e.index] + vt + kb + after);
    assert(b.skip(1) =~= vt + (kb + after));
    super::proto::law_varint_roundtrip(t, kb + after);
    assert(b.skip((1 + vt.len()) as int) =~= kb + after);
    match e.kind {
        MetadataKind::VarInt(v) => {
            super::proto::law_varint_roundtrip(v, after);
        },
        MetadataKind::Pose(v) => {
            super::proto::law_varint_roundtrip(v, after);
        },
        _ => {},
    }
    assert(spec_decode_kind(t, kb + after) == (Ok::<MetadataKind, ProtoError>(e.kind), kb.len()));
}

/// A player's metadata: entity flags at index 0, pose at index 6.
#[must_use]
pub fn player_metadata(flags: u8, pose: i32) -> (r: Vec<MetadataEntry>)
    ensures
        r@ == seq![
            MetadataEntry { index: 0, kind: MetadataKind::Byte(flags) },
            MetadataEntry { index: 6, kind: MetadataKind::Pose(pose) },
        ],
{
    vec![
        MetadataEntry { index: 0, kind: MetadataKind::Byte(flags) },
        MetadataEntry { index: 6, kind: MetadataKind::Pose(pose) },
    ]
}

/// Reading back what `encode_metadata` wrote gives the same entries, as
/// long as no entry uses the end-marker index, and consumes exactly the
/// written bytes.
pub proof fn law_metadata_roundtrip(entries: Seq<MetadataEntry>, rest: Seq<u8>)
    requires
        forall|i: int| 0 <= i < entries.len() ==> (#[trigger] entries[i]).index != METADATA_END,
    ensures
        spec_decode_metadata(metadata_bytes(entries) + rest) == (
            Ok::<Seq<MetadataEntry>, ProtoError>(entries),
            metadata_bytes(entries).len(),
        ),
    decreases entries.len(),
{
    let b = metadata_bytes(entries) + rest;
    if entries.len() == 0 {
        assert(b[0] == METADATA_END);
        lemma_decode_stops(b);
    } else {
        let e = entries[0];
        let tail = entries.drop_first();
        lemma_entries_bytes_cons(e, tail);
        assert(entries =~= seq![e] + tail);
        assert forall|i: int| 0 <= i < tail.len() implies (#[trigger] tail[i]).index != METADATA_END by {
            assert(tail[i] == entries[i + 1]);
        }
        law_metadata_roundtrip(tail, rest);
        let after = metadata_bytes(tail) + rest;
        assert(b =~= entry_bytes(e) + after);
        lemma_decode_entry_of_bytes(e, after);
        assert(b.skip(entry_bytes(e).len() as int) =~= after);
        lemma_decode_step(b, e, entry_bytes(e).len());
    }
}

proof fn lemma_entries_bytes_cons(e: MetadataEntry, es: Seq<MetadataEntry>)
    ensures
        entries_bytes(seq![e] + es) == entry_bytes(e) + entries_bytes(es),
    decreases es.len(),
{
    if es.len() == 0 {
        assert(entries_bytes(seq![e] + es) == entries_bytes(seq![e]));
        assert((seq![e] + es).drop_last() =~= Seq::<MetadataEntry>::empty());
        assert(seq![e].drop_last() =~= Seq::<MetadataEntry>::empty());
        assert(entries_bytes(Seq::<MetadataEntry>::empty()) =~= Seq::<u8>::empty());
        assert(entries_bytes(seq![e]) =~= entry_bytes(e));
    } else {
        lemma_entries_bytes_cons(e, es.drop_last());
        assert((seq![e] + es).drop_last() =~= seq![e] + es.drop_last());
        assert(entries_bytes(seq![e] + es) =~= entry_bytes(e) + entries_bytes(es));
    }
}

} // verus!
