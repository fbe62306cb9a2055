//! NBT, the tag format of registry data: writing and reading tags. Float
//! and double tags carry the bits of their IEEE-754 value.
use vstd::prelude::*;
use vstd::utf8::*;

use super::error::ProtoError;
use super::proto::{
    spec_read_u16_string, u16_be, u16_from_be, u16_string_encoding, u32_be, u32_from_be, u64_be,
    u64_from_be, Reader, Writer,
};
use crate::text::{chars_eq, chars_of};

verus! {

broadcast use vstd::seq::group_seq_axioms, vstd::seq_lib::group_seq_properties;

/// Deepest nesting a tag may have; deeper tags are refused.
pub const MAX_DEPTH: u32 = 512;

/// One NBT tag. `Compound` keeps its entries sorted by name, each name once.
#[derive(Debug, PartialEq)]
pub enum NbtTag {
    Byte(i8),
    Short(i16),
    Int(i32),
    Long(i64),
    Float(u32),
    Double(u64),
    ByteArray(Vec<i8>),
    String(String),
    List(Vec<NbtTag>),
    Compound(Vec<(String, NbtTag)>),
    IntArray(Vec<i32>),
    LongArray(Vec<i64>),
}

/// A tag as plain values.
pub ghost enum NbtTagView {
    Byte(i8),
    Short(i16),
    Int(i32),
    Long(i64),
    Float(u32),
    Double(u64),
    ByteArray(Seq<i8>),
    String(Seq<char>),
    List(Seq<NbtTagView>),
    Compound(Seq<(Seq<char>, NbtTagView)>),
    IntArray(Seq<i32>),
    LongArray(Seq<i64>),
}

impl NbtTag {
    pub open spec fn view_tag(&self) -> NbtTagView
        decreases self,
    {
        match self {
            NbtTag::Byte(v) => NbtTagView::Byte(*v),
            NbtTag::Short(v) => NbtTagView::Short(*v),
            NbtTag::Int(v) => NbtTagView::Int(*v),
            NbtTag::Long(v) => NbtTagView::Long(*v),
            NbtTag::Float(v) => NbtTagView::Float(*v),
            NbtTag::Double(v) => NbtTagView::Double(*v),
            NbtTag::ByteArray(v) => NbtTagView::ByteArray(v@),
            NbtTag::String(s) => NbtTagView::String(s@),
            NbtTag::List(items) => NbtTagView::List(tag_views(items@)),
            NbtTag::Compound(entries) => NbtTagView::Compound(entry_views(entries@)),
            NbtTag::IntArray(v) => NbtTagView::IntArray(v@),
            NbtTag::LongArray(v) => NbtTagView::LongArray(v@),
        }
    }
}

/// The views of a sequence of tags.
pub open spec fn tag_views(items: Seq<NbtTag>) -> Seq<NbtTagView>
    decreases items,
{
    if items.len() == 0 {
        Seq::empty()
    } else {
        tag_views(items.drop_last()).push(items.last().view_tag())
    }
}

/// The views of a sequence of named tags.
pub open spec fn entry_views(entries: Seq<(String, NbtTag)>) -> Seq<(Seq<char>, NbtTagView)>
    decreases entries,
{
    if entries.len() == 0 {
        Seq::empty()
    } else {
        entry_views(entries.drop_last()).push((entries.last().0@, entries.last().1.view_tag()))
    }
}

/// The id byte of a tag's kind.
pub open spec fn tag_id(t: NbtTagView) -> u8 {
    match t {
        NbtTagView::Byte(_) => 1,
        NbtTagView::Short(_) => 2,
        NbtTagView::Int(_) => 3,
        NbtTagView::Long(_) => 4,
        NbtTagView::Float(_) => 5,
        NbtTagView::Double(_) => 6,
        NbtTagView::ByteArray(_) => 7,
        NbtTagView::String(_) => 8,
        NbtTagView::List(_) => 9,
        NbtTagView::Compound(_) => 10,
        NbtTagView::IntArray(_) => 11,
        NbtTagView::LongArray(_) => 12,
    }
}

/// A length as the big-endian i32 written before arrays and lists.
pub open spec fn len_bytes(n: nat) -> Seq<u8> {
    u32_be(n as u32)
}

/// A name or string tag: u16 length and UTF-8 bytes; longer strings are
/// refused.
pub open spec fn name_bytes(s: Seq<char>) -> Result<Seq<u8>, ProtoError> {
    if encode_utf8(s).len() > u16::MAX {
        Err(ProtoError::StringTooLong(i32::MAX))
    } else {
        Ok(u16_string_encoding(s))
    }
}

pub open spec fn bytes_of_i8s(v: Seq<i8>) -> Seq<u8> {
    v.map_values(|x: i8| x as u8)
}

pub open spec fn bytes_of_i32s(v: Seq<i32>) -> Seq<u8>
    decreases v.len(),
{
    if v.len() == 0 {
        Seq::empty()
    } else {
        bytes_of_i32s(v.drop_last()) + u32_be(v.last() as u32)
    }
}

pub open spec fn bytes_of_i64s(v: Seq<i64>) -> Seq<u8>
    decreases v.len(),
{
    if v.len() == 0 {
        Seq::empty()
    } else {
        bytes_of_i64s(v.drop_last()) + u64_be(v.last() as u64)
    }
}

/// The id all elements of a list share: the first element's, or 0 for an
/// empty list.
pub open spec fn list_elem_id(items: Seq<NbtTagView>) -> u8 {
    if items.len() == 0 {
        0
    } else {
        tag_id(items[0])
    }
}

/// The bytes of a tag's payload at nesting `depth`, or why it cannot be
/// written: too deep, a list of mixed kinds, a string over 65535 bytes.
pub open spec fn nbt_payload(t: NbtTagView, depth: nat) -> Result<Seq<u8>, ProtoError>
    decreases t,
{
    if depth > MAX_DEPTH {
        Err(ProtoError::DepthExceeded)
    } else {
        match t {
            NbtTagView::Byte(v) => Ok(seq![v as u8]),
            NbtTagView::Short(v) => Ok(u16_be(v as u16)),
            NbtTagView::Int(v) => Ok(u32_be(v as u32)),
            NbtTagView::Long(v) => Ok(u64_be(v as u64)),
            NbtTagView::Float(bits) => Ok(u32_be(bits)),
            NbtTagView::Double(bits) => Ok(u64_be(bits)),
            NbtTagView::ByteArray(v) => Ok(len_bytes(v.len()) + bytes_of_i8s(v)),
            NbtTagView::String(s) => name_bytes(s),
            NbtTagView::List(items) => {
                if exists|i: int| 0 <= i < items.len() && tag_id(#[trigger] items[i]) != list_elem_id(items) {
                    Err(ProtoError::MixedList)
                } else {
                    match items_payload(items, depth + 1) {
                        Ok(p) => Ok(seq![list_elem_id(items)] + len_bytes(items.len()) + p),
                        Err(e) => Err(e),
                    }
                }
            },
            NbtTagView::Compound(entries) => match entries_payload(entries, depth + 1) {
                Ok(p) => Ok(p.push(0u8)),
                Err(e) => Err(e),
            },
            NbtTagView::IntArray(v) => Ok(len_bytes(v.len()) + bytes_of_i32s(v)),
            NbtTagView::LongArray(v) => Ok(len_bytes(v.len()) + bytes_of_i64s(v)),
        }
    }
}

/// The payloads of list elements in order; the first failure wins.
pub open spec fn items_payload(items: Seq<NbtTagView>, depth: nat) -> Result<Seq<u8>, ProtoError>
    decreases items,
{
    if items.len() == 0 {
        Ok(Seq::empty())
    } else {
        match items_payload(items.drop_last(), depth) {
            Err(e) => Err(e),
            Ok(p) => match nbt_payload(items.last(), depth) {
                Err(e) => Err(e),
                Ok(q) => Ok(p + q),
            },
        }
    }
}

/// The entries of a compound in order, without the end byte.
pub open spec fn entries_payload(entries: Seq<(Seq<char>, NbtTagView)>, depth: nat) -> Result<Seq<u8>, ProtoError>
    decreases entries,
{
    if entries.len() == 0 {
        Ok(Seq::empty())
    } else {
        match entries_payload(entries.drop_last(), depth) {
            Err(e) => Err(e),
            Ok(p) => match name_bytes(entries.last().0) {
                Err(e) => Err(e),
                Ok(n) => match nbt_payload(entries.last().1, depth) {
                    Err(e) => Err(e),
                    Ok(q) => Ok(p + seq![tag_id(entries.last().1)] + n + q),
                },
            },
        }
    }
}

/// A whole named tag: id, name, payload.
pub open spec fn spec_nbt_named(name: Seq<char>, t: NbtTagView) -> Result<Seq<u8>, ProtoError> {
    match name_bytes(name) {
        Err(e) => Err(e),
        Ok(n) => match nbt_payload(t, 0) {
            Err(e) => Err(e),
            Ok(p) => Ok(seq![tag_id(t)] + n + p),
        },
    }
}

/// A tag without a name, as the network sends it: id, payload.
pub open spec fn spec_nbt_unnamed(t: NbtTagView) -> Result<Seq<u8>, ProtoError> {
    match nbt_payload(t, 0) {
        Err(e) => Err(e),
        Ok(p) => Ok(seq![tag_id(t)] + p),
    }
}

impl View for NbtTag {
    type V = NbtTagView;

    open spec fn view(&self) -> NbtTagView {
        self.view_tag()
    }
}


/// A sequence's views, element by element.
pub proof fn lemma_tag_views(items: Seq<NbtTag>)
    ensures
        tag_views(items).len() == items.len(),
        forall|i: int| 0 <= i < items.len() ==> #[trigger] tag_views(items)[i] == items[i]@,
    decreases items.len(),
{
    if items.len() > 0 {
        lemma_tag_views(items.drop_last());
    }
}

/// Named tags' views, entry by entry.
pub proof fn lemma_entry_views(entries: Seq<(String, NbtTag)>)
    ensures
        entry_views(entries).len() == entries.len(),
        forall|i: int| 0 <= i < entries.len() ==> #[trigger] entry_views(entries)[i] == (entries[i].0@, entries[i].1@),
    decreases entries.len(),
{
    if entries.len() > 0 {
        lemma_entry_views(entries.drop_last());
    }
}

proof fn lemma_items_prefix_err(items: Seq<NbtTagView>, k: int, depth: nat)
    requires
        0 <= k <= items.len(),
        items_payload(items.take(k), depth) is Err,
    ensures
        items_payload(items, depth) == items_payload(items.take(k), depth),
    decreases items.len() - k,
{
    if k < items.len() {
        assert(items.take(k + 1).drop_last() =~= items.take(k));
        lemma_items_prefix_err(items, k + 1, depth);
    } else {
        assert(items.take(k) =~= items);
    }
}

proof fn lemma_entries_prefix_err(entries: Seq<(Seq<char>, NbtTagView)>, k: int, depth: nat)
    requires
        0 <= k <= entries.len(),
        entries_payload(entries.take(k), depth) is Err,
    ensures
        entries_payload(entries, depth) == entries_payload(entries.take(k), depth),
    decreases entries.len() - k,
{
    if k < entries.len() {
        assert(entries.take(k + 1).drop_last() =~= entries.take(k));
        lemma_entries_prefix_err(entries, k + 1, depth);
    } else {
        assert(entries.take(k) =~= entries);
    }
}

/// Writes a name: u16 length and UTF-8 bytes, refusing one over 65535
/// bytes and then writing nothing.
fn write_name(w: &mut Writer, name: &str) -> (r: Result<(), ProtoError>)
    ensures
        match name_bytes(name@) {
            Ok(b) => r is Ok && final(w)@ == old(w)@ + b,
            Err(e) => r == Err::<(), ProtoError>(e) && final(w)@ == old(w)@,
        },
{
    if name.as_bytes().len() > 65535 {
        return Err(ProtoError::StringTooLong(i32::MAX));
    }
    w.write_u16_string(name);
    Ok(())
}

fn write_i8s(w: &mut Writer, bytes: &Vec<i8>)
    ensures
        final(w)@ == old(w)@ + (len_bytes(bytes@.len()) + bytes_of_i8s(bytes@)),
{
    let ghost start = w@;
    w.write_u32(bytes.len() as u32);
    let ghost base = w@;
    let mut i: usize = 0;
    while i < bytes.len()
        invariant
            i <= bytes@.len(),
            w@ == base + bytes_of_i8s(bytes@.take(i as int)),
        decreases bytes.len() - i,
    {
        w.write_i8(bytes[i]);
        i = i + 1;
        assert(w@ =~= base + bytes_of_i8s(bytes@.take(i as int)));
    }
    assert(bytes@.take(i as int) =~= bytes@);
    assert(w@ =~= start + (len_bytes(bytes@.len()) + bytes_of_i8s(bytes@)));
}

fn write_i32s(w: &mut Writer, values: &Vec<i32>)
    ensures
        final(w)@ == old(w)@ + (len_bytes(values@.len()) + bytes_of_i32s(values@)),
{
    let ghost start = w@;
    w.write_u32(values.len() as u32);
    let ghost base = w@;
    let mut i: usize = 0;
    while i < values.len()
        invariant
            i <= values@.len(),
            w@ == base + bytes_of_i32s(values@.take(i as int)),
        decreases values.len() - i,
    {
        assert(values@.take(i + 1).drop_last() =~= values@.take(i as int));
        w.write_i32(values[i]);
        i = i + 1;
        assert(w@ =~= base + bytes_of_i32s(values@.take(i as int)));
    }
    assert(values@.take(i as int) =~= values@);
    assert(w@ =~= start + (len_bytes(values@.len()) + bytes_of_i32s(values@)));
}

fn write_i64s(w: &mut Writer, values: &Vec<i64>)
    ensures
        final(w)@ == old(w)@ + (len_bytes(values@.len()) + bytes_of_i64s(values@)),
{
    let ghost start = w@;
    w.write_u32(values.len() as u32);
    let ghost base = w@;
    let mut i: usize = 0;
    while i < values.len()
        invariant
            i <= values@.len(),
            w@ == base + bytes_of_i64s(values@.take(i as int)),
        decreases values.len() - i,
    {
        assert(values@.take(i + 1).drop_last() =~= values@.take(i as int));
        w.write_i64(values[i]);
        i = i + 1;
        assert(w@ =~= base + bytes_of_i64s(values@.take(i as int)));
    }
    assert(values@.take(i as int) =~= values@);
    assert(w@ =~= start + (len_bytes(values@.len()) + bytes_of_i64s(values@)));
}

/// The id every element of a list shares, or `None` when kinds are mixed.
fn list_elem(items: &Vec<NbtTag>) -> (r: Option<u8>)
    ensures
        ({
            let views = tag_views(items@);
            if exists|i: int| 0 <= i < views.len() && tag_id(#[trigger] views[i]) != list_elem_id(views) {
                r is None
            } else {
                r == Some(list_elem_id(views))
            }
        }),
{
    let ghost views = tag_views(items@);
    proof { lemma_tag_views(items@); }
    let elem: u8 = if items.len() == 0 { 0 } else { items[0].id() };
    let mut k: usize = 0;
    while k < items.len()
        invariant
            k <= items@.len(),
            views == tag_views(items@),
            views.len() == items@.len(),
            elem == list_elem_id(views),
            forall|j: int| 0 <= j < items@.len() ==> #[trigger] views[j] == items@[j]@,
            forall|j: int| 0 <= j < k ==> tag_id(#[trigger] views[j]) == elem,
        decreases items.len() - k,
    {
        if items[k].id() != elem {
            assert(tag_id(views[k as int]) != list_elem_id(views));
            return None;
        }
        k = k + 1;
    }
    Some(elem)
}

impl NbtTag {
    /// The id byte of this tag's kind.
    #[must_use]
    pub fn id(&self) -> (r: u8)
        ensures
            r == tag_id(self@),
    {
        match self {
            NbtTag::Byte(_) => 1,
            NbtTag::Short(_) => 2,
            NbtTag::Int(_) => 3,
            NbtTag::Long(_) => 4,
            NbtTag::Float(_) => 5,
            NbtTag::Double(_) => 6,
            NbtTag::ByteArray(_) => 7,
            NbtTag::String(_) => 8,
            NbtTag::List(_) => 9,
            NbtTag::Compound(_) => 10,
            NbtTag::IntArray(_) => 11,
            NbtTag::LongArray(_) => 12,
        }
    }

    #[verifier::spinoff_prover]
    #[verifier::rlimit(100)]
    fn write_payload(&self, w: &mut Writer, depth: u32) -> (r: Result<(), ProtoError>)
        requires
            depth <= MAX_DEPTH + 1,
        ensures
            match nbt_payload(self@, depth as nat) {
                Ok(b) => r is Ok && final(w)@ == old(w)@ + b,
                Err(e) => r == Err::<(), ProtoError>(e),
            },
        decreases self,
    {
        if depth > MAX_DEPTH {
            return Err(ProtoError::DepthExceeded);
        }
        let ghost start = w@;
        match self {
            NbtTag::Byte(v) => {
                w.write_i8(*v);
                assert(w@ =~= start + seq![*v as u8]);
            },
            NbtTag::Short(v) => w.write_i16(*v),
            NbtTag::Int(v) => w.write_i32(*v),
            NbtTag::Long(v) => w.write_i64(*v),
            NbtTag::Float(v) => w.write_u32(*v),
            NbtTag::Double(v) => w.write_u64(*v),
            NbtTag::ByteArray(bytes) => write_i8s(w, bytes),
            NbtTag::String(text) => {
                write_name(w, text.as_str())?;
            },
            NbtTag::List(items) => {
                let ghost views = tag_views(items@);
                proof { lemma_tag_views(items@); }
                assert(self@ == NbtTagView::List(views));
                let elem = match list_elem(items) {
                    Some(elem) => elem,
                    None => return Err(ProtoError::MixedList),
                };
                w.write_u8(elem);
                w.write_u32(items.len() as u32);
                let ghost base = w@;
                let mut i: usize = 0;
                while i < items.len()
                    invariant
                        i <= items@.len(),
                        depth + 1 <= MAX_DEPTH + 1,
                        views == tag_views(items@),
                        views.len() == items@.len(),
                        forall|j: int| 0 <= j < items@.len() ==> #[trigger] views[j] == items@[j]@,
                        forall|j: int| 0 <= j < views.len() ==> tag_id(#[trigger] views[j]) == list_elem_id(views),
                        self@ == NbtTagView::List(views),
                        *self == NbtTag::List(*items),
                        items_payload(views.take(i as int), depth as nat + 1) matches Ok(p) && w@ == base + p,
                    decreases items.len() - i,
                {
                    proof {
                        assert(views.take(i + 1).drop_last() =~= views.take(i as int));
                        assert(views.take(i + 1).last() == views[i as int]);
                    }
                    proof {
                        assert(decreases_to!(*self => *items));
                        assert(decreases_to!(*items => items@));
                        assert(decreases_to!(items@ => items@[i as int]));
                    }
                    let res = items[i].write_payload(w, depth + 1);
                    match res {
                        Ok(()) => {},
                        Err(e) => {
                            proof { lemma_items_prefix_err(views, i + 1, depth as nat + 1); }
                            return Err(e);
                        },
                    }
                    i = i + 1;
                }
                proof {
                    assert(views.take(i as int) =~= views);
                    let p = items_payload(views, depth as nat + 1)->Ok_0;
                    assert(w@ =~= start + (seq![list_elem_id(views)] + len_bytes(views.len()) + p));
                }
            },
            NbtTag::Compound(entries) => {
                let ghost views = entry_views(entries@);
                proof { lemma_entry_views(entries@); }
                assert(self@ == NbtTagView::Compound(views));
                let ghost base = w@;
                let mut i: usize = 0;
                while i < entries.len()
                    invariant
                        i <= entries@.len(),
                        depth + 1 <= MAX_DEPTH + 1,
                        views == entry_views(entries@),
                        views.len() == entries@.len(),
                        forall|j: int| 0 <= j < entries@.len() ==> #[trigger] views[j] == (entries@[j].0@, entries@[j].1@),
                        self@ == NbtTagView::Compound(views),
                        *self == NbtTag::Compound(*entries),
                        entries_payload(views.take(i as int), depth as nat + 1) matches Ok(p) && w@ == base + p,
                    decreases entries.len() - i,
                {
                    proof {
                        assert(views.take(i + 1).drop_last() =~= views.take(i as int));
                        assert(views.take(i + 1).last() == views[i as int]);
                    }
                    let ghost before = w@;
                    w.write_u8(entries[i].1.id());
                    match write_name(w, entries[i].0.as_str()) {
                        Ok(()) => {},
                        Err(e) => {
                            proof { lemma_entries_prefix_err(views, i + 1, depth as nat + 1); }
                            return Err(e);
                        },
                    }
                    proof {
                        assert(decreases_to!(*self => *entries));
                        assert(decreases_to!(*entries => entries@));
                        assert(decreases_to!(entries@ => entries@[i as int]));
                        assert(decreases_to!(entries@[i as int] => entries@[i as int].1));
                    }
                    match entries[i].1.write_payload(w, depth + 1) {
                        Ok(()) => {},
                        Err(e) => {
                            proof { lemma_entries_prefix_err(views, i + 1, depth as nat + 1); }
                            return Err(e);
                        },
                    }
                    i = i + 1;
                    proof {
                        let p = entries_payload(views.take(i - 1), depth as nat + 1)->Ok_0;
                        let e = views[i - 1];
                        let n = name_bytes(e.0)->Ok_0;
                        let q = nbt_payload(e.1, depth as nat + 1)->Ok_0;
                        assert(w@ =~= base + (p + seq![tag_id(e.1)] + n + q));
                    }
                }
                w.write_u8(0);
                proof {
                    assert(views.take(i as int) =~= views);
                    let p = entries_payload(views, depth as nat + 1)->Ok_0;
                    assert(w@ =~= start + p.push(0u8));
                }
            },
            NbtTag::IntArray(values) => write_i32s(w, values),
            NbtTag::LongArray(values) => write_i64s(w, values),
        }
        Ok(())
    }

    /// Writes the tag with a name: id, name, payload. When the tag cannot
    /// be written, the writer is left as it was.
    pub fn encode_named(&self, w: &mut Writer, name: &str) -> (r: Result<(), ProtoError>)
        ensures
            match spec_nbt_named(name@, self@) {
                Ok(b) => r is Ok && final(w)@ == old(w)@ + b,
                Err(e) => r == Err::<(), ProtoError>(e) && final(w)@ == old(w)@,
            },
    {
        let mut scratch = Writer::new();
        scratch.write_u8(self.id());
        write_name(&mut scratch, name)?;
        self.write_payload(&mut scratch, 0)?;
        let bytes = scratch.into_bytes();
        w.write_bytes(bytes.as_slice());
        Ok(())
    }

    /// Writes the tag without a name, as the network sends it: id, payload.
    /// When the tag cannot be written, the writer is left as it was.
    pub fn encode_unnamed(&self, w: &mut Writer) -> (r: Result<(), ProtoError>)
        ensures
            match spec_nbt_unnamed(self@) {
                Ok(b) => r is Ok && final(w)@ == old(w)@ + b,
                Err(e) => r == Err::<(), ProtoError>(e) && final(w)@ == old(w)@,
            },
    {
        let mut scratch = Writer::new();
        scratch.write_u8(self.id());
        self.write_payload(&mut scratch, 0)?;
        let bytes = scratch.into_bytes();
        w.write_bytes(bytes.as_slice());
        Ok(())
    }
}


// ---------------------------------------------------------------------------
// Reading
// ---------------------------------------------------------------------------

/// Levels of nesting still allowed below `depth`.
pub open spec fn room(depth: nat) -> nat {
    if depth <= MAX_DEPTH + 1 {
        (MAX_DEPTH + 1 - depth) as nat
    } else {
        0
    }
}

/// Name order: by characters, a proper prefix first.
pub open spec fn key_lt(a: Seq<char>, b: Seq<char>) -> bool
    decreases a.len(),
{
    if a.len() == 0 {
        b.len() > 0
    } else if b.len() == 0 {
        false
    } else if a[0] != b[0] {
        (a[0] as u32) < (b[0] as u32)
    } else {
        key_lt(a.drop_first(), b.drop_first())
    }
}

/// Adds an entry to a compound: it replaces the entry of the same name, or
/// goes before the first entry with a later name.
pub open spec fn sort_insert(es: Seq<(Seq<char>, NbtTagView)>, k: Seq<char>, v: NbtTagView) -> Seq<(Seq<char>, NbtTagView)>
    decreases es.len(),
{
    if es.len() == 0 {
        seq![(k, v)]
    } else if es[0].0 == k {
        seq![(k, v)] + es.drop_first()
    } else if key_lt(k, es[0].0) {
        seq![(k, v)] + es
    } else {
        seq![es[0]] + sort_insert(es.drop_first(), k, v)
    }
}

/// The compound that entries read in order make: each added in turn.
pub open spec fn sorted_entries(raw: Seq<(Seq<char>, NbtTagView)>) -> Seq<(Seq<char>, NbtTagView)>
    decreases raw.len(),
{
    if raw.len() == 0 {
        Seq::empty()
    } else {
        sort_insert(sorted_entries(raw.drop_last()), raw.last().0, raw.last().1)
    }
}

/// The big-endian i32 at the front of `rest`, as read before arrays.
pub open spec fn i32_at(rest: Seq<u8>) -> i32 {
    u32_from_be(rest.take(4)) as i32
}

/// The payload of a tag of kind `id` at position `pos` of `b`, nested
/// `depth` deep: the tag and the position after it, or why it cannot be
/// read.
pub open spec fn dec_payload(b: Seq<u8>, pos: nat, id: u8, depth: nat) -> Result<(NbtTagView, nat), ProtoError>
    decreases room(depth), 0nat, 0nat,
{
    let rest = b.skip(pos as int);
    if depth > MAX_DEPTH {
        Err(ProtoError::DepthExceeded)
    } else if id == 1 {
        if 1 <= rest.len() { Ok((NbtTagView::Byte(rest[0] as i8), pos + 1)) } else { Err(ProtoError::Truncated) }
    } else if id == 2 {
        if 2 <= rest.len() { Ok((NbtTagView::Short(u16_from_be(rest.take(2)) as i16), pos + 2)) } else { Err(ProtoError::Truncated) }
    } else if id == 3 {
        if 4 <= rest.len() { Ok((NbtTagView::Int(u32_from_be(rest.take(4)) as i32), pos + 4)) } else { Err(ProtoError::Truncated) }
    } else if id == 4 {
        if 8 <= rest.len() { Ok((NbtTagView::Long(u64_from_be(rest.take(8)) as i64), pos + 8)) } else { Err(ProtoError::Truncated) }
    } else if id == 5 {
        if 4 <= rest.len() { Ok((NbtTagView::Float(u32_from_be(rest.take(4))), pos + 4)) } else { Err(ProtoError::Truncated) }
    } else if id == 6 {
        if 8 <= rest.len() { Ok((NbtTagView::Double(u64_from_be(rest.take(8))), pos + 8)) } else { Err(ProtoError::Truncated) }
    } else if id == 7 || id == 11 || id == 12 {
        if rest.len() < 4 {
            Err(ProtoError::Truncated)
        } else if i32_at(rest) < 0 {
            Err(ProtoError::NegativeLength(i32_at(rest)))
        } else {
            let n = i32_at(rest) as nat;
            let width: nat = if id == 7 { 1 } else if id == 11 { 4 } else { 8 };
            let body = rest.skip(4);
            if width * n > body.len() {
                Err(ProtoError::Truncated)
            } else if id == 7 {
                Ok((NbtTagView::ByteArray(body.take(n as int).map_values(|x: u8| x as i8)), pos + 4 + n))
            } else if id == 11 {
                Ok((NbtTagView::IntArray(Seq::new(n, |i: int| u32_from_be(body.skip(4 * i).take(4)) as i32)), pos + 4 + 4 * n))
            } else {
                Ok((NbtTagView::LongArray(Seq::new(n, |i: int| u64_from_be(body.skip(8 * i).take(8)) as i64)), pos + 4 + 8 * n))
            }
        }
    } else if id == 8 {
        match spec_read_u16_string(rest) {
            (Ok(chars), n) => Ok((NbtTagView::String(chars), pos + n)),
            (Err(e), _) => Err(e),
        }
    } else if id == 9 {
        if rest.len() < 1 {
            Err(ProtoError::Truncated)
        } else if rest.skip(1).len() < 4 {
            Err(ProtoError::Truncated)
        } else {
            let elem = rest[0];
            let n = i32_at(rest.skip(1));
            if n < 0 {
                Err(ProtoError::NegativeLength(n))
            } else if elem == 0 && n > 0 {
                Err(ProtoError::InvalidTag(0))
            } else {
                match dec_items(b, pos + 5, elem, n as nat, depth + 1) {
                    Ok((items, q)) => Ok((NbtTagView::List(items), q)),
                    Err(e) => Err(e),
                }
            }
        }
    } else if id == 10 {
        match dec_entries(b, pos, depth + 1, (b.len() - pos) as nat) {
            Ok((raw, q)) => Ok((NbtTagView::Compound(sorted_entries(raw)), q)),
            Err(e) => Err(e),
        }
    } else {
        Err(ProtoError::InvalidTag(id))
    }
}

/// `n` payloads of kind `elem` in a row.
pub open spec fn dec_items(b: Seq<u8>, pos: nat, elem: u8, n: nat, depth: nat) -> Result<(Seq<NbtTagView>, nat), ProtoError>
    decreases room(depth), 1nat, n,
{
    if n == 0 {
        Ok((Seq::empty(), pos))
    } else {
        match dec_payload(b, pos, elem, depth) {
            Err(e) => Err(e),
            Ok((t, p)) => match dec_items(b, p, elem, (n - 1) as nat, depth) {
                Err(e) => Err(e),
                Ok((ts, q)) => Ok((seq![t] + ts, q)),
            },
        }
    }
}

/// Compound entries (id, name, payload) up to the end byte, in the order
/// read. Every entry takes a byte at least, so `fuel`, the bytes left,
/// bounds how many there can be.
pub open spec fn dec_entries(b: Seq<u8>, pos: nat, depth: nat, fuel: nat) -> Result<(Seq<(Seq<char>, NbtTagView)>, nat), ProtoError>
    decreases room(depth), 1nat, fuel,
{
    let rest = b.skip(pos as int);
    if fuel == 0 || rest.len() < 1 {
        Err(ProtoError::Truncated)
    } else {
        let id = rest[0];
        if id == 0 {
            Ok((Seq::empty(), pos + 1))
        } else if id > 12 {
            Err(ProtoError::InvalidTag(id))
        } else {
            match spec_read_u16_string(rest.skip(1)) {
                (Err(e), _) => Err(e),
                (Ok(name), n) => match dec_payload(b, pos + 1 + n, id, depth) {
                    Err(e) => Err(e),
                    Ok((t, p)) => match dec_entries(b, p, depth, (fuel - 1) as nat) {
                        Err(e) => Err(e),
                        Ok((es, q)) => Ok((seq![(name, t)] + es, q)),
                    },
                },
            }
        }
    }
}

/// A named tag at position `pos` of `b`: its name, the tag and the
/// position after it. An end byte (0) is no tag.
pub open spec fn spec_decode_nbt_named(b: Seq<u8>, pos: nat) -> Result<(Seq<char>, NbtTagView, nat), ProtoError> {
    let rest = b.skip(pos as int);
    if rest.len() < 1 {
        Err(ProtoError::Truncated)
    } else if rest[0] == 0 {
        Err(ProtoError::InvalidTag(0))
    } else {
        match spec_read_u16_string(rest.skip(1)) {
            (Err(e), _) => Err(e),
            (Ok(name), n) => match dec_payload(b, pos + 1 + n, rest[0], 0) {
                Err(e) => Err(e),
                Ok((t, p)) => Ok((name, t, p)),
            },
        }
    }
}

/// A tag without a name at position `pos` of `b`: the tag and the
/// position after it.
pub open spec fn spec_decode_nbt_unnamed(b: Seq<u8>, pos: nat) -> Result<(NbtTagView, nat), ProtoError> {
    let rest = b.skip(pos as int);
    if rest.len() < 1 {
        Err(ProtoError::Truncated)
    } else {
        dec_payload(b, pos + 1, rest[0], 0)
    }
}


fn key_less(a: &[char], b: &[char]) -> (r: bool)
    ensures
        r == key_lt(a@, b@),
{
    let mut i: usize = 0;
    while i < a.len() && i < b.len() && a[i] == b[i]
        invariant
            i <= a@.len(),
            i <= b@.len(),
            key_lt(a@, b@) == key_lt(a@.skip(i as int), b@.skip(i as int)),
        decreases a.len() - i,
    {
        proof {
            assert(a@.skip(i as int).drop_first() =~= a@.skip(i + 1));
            assert(b@.skip(i as int).drop_first() =~= b@.skip(i + 1));
        }
        i = i + 1;
    }
    if i == a.len() {
        i < b.len()
    } else if i == b.len() {
        false
    } else {
        (a[i] as u32) < (b[i] as u32)
    }
}

/// Adds an entry to a sorted compound (see `sort_insert`).
fn insert_entry(es: &mut Vec<(String, NbtTag)>, name: String, tag: NbtTag)
    ensures
        entry_views(final(es)@) == sort_insert(entry_views(old(es)@), name@, tag@),
{
    let ghost v0 = entry_views(es@);
    let ghost k = name@;
    let ghost tv = tag@;
    proof { lemma_entry_views(es@); }
    let key = chars_of(name.as_str());
    let mut i: usize = 0;
    while i < es.len()
        invariant
            es@ == old(es)@,
            v0 == entry_views(old(es)@),
            v0.len() == es@.len(),
            forall|j: int| 0 <= j < es@.len() ==> #[trigger] v0[j] == (es@[j].0@, es@[j].1@),
            key@ == k,
            k == name@,
            tv == tag@,
            i <= es@.len(),
            sort_insert(v0, k, tv) == v0.take(i as int) + sort_insert(v0.skip(i as int), k, tv),
        decreases es.len() - i,
    {
        let other = chars_of(es[i].0.as_str());
        proof {
            assert(v0.skip(i as int)[0] == v0[i as int]);
            assert(v0.skip(i as int).drop_first() =~= v0.skip(i + 1));
        }
        if chars_eq(other.as_slice(), key.as_slice()) {
            es.set(i, (name, tag));
            proof {
                lemma_entry_views(es@);
                assert(entry_views(es@) =~= v0.take(i as int) + (seq![(k, tv)] + v0.skip(i as int).drop_first()));
            }
            return;
        }
        if key_less(key.as_slice(), other.as_slice()) {
            es.insert(i, (name, tag));
            proof {
                lemma_entry_views(es@);
                assert(entry_views(es@) =~= v0.take(i as int) + (seq![(k, tv)] + v0.skip(i as int)));
            }
            return;
        }
        proof {
            assert(v0.take(i + 1) =~= v0.take(i as int) + seq![v0[i as int]]);
        }
        i = i + 1;
    }
    es.push((name, tag));
    proof {
        lemma_entry_views(es@);
        assert(v0.skip(i as int) =~= Seq::<(Seq<char>, NbtTagView)>::empty());
        assert(v0.take(i as int) =~= v0);
        assert(entry_views(es@) =~= v0 + seq![(k, tv)]);
    }
}

/// Adds the entries in turn to an empty compound (see `sorted_entries`).
fn sort_entries(raw: Vec<(String, NbtTag)>) -> (r: Vec<(String, NbtTag)>)
    ensures
        entry_views(r@) == sorted_entries(entry_views(raw@)),
{
    let ghost v = entry_views(raw@);
    proof { lemma_entry_views(raw@); }
    let ghost orig = raw@;
    let mut raw = raw;
    let mut out: Vec<(String, NbtTag)> = Vec::new();
    let ghost mut k: int = 0;
    while raw.len() > 0
        invariant
            0 <= k <= orig.len(),
            v == entry_views(orig),
            v.len() == orig.len(),
            forall|j: int| 0 <= j < orig.len() ==> #[trigger] v[j] == (orig[j].0@, orig[j].1@),
            raw@ == orig.skip(k),
            entry_views(out@) == sorted_entries(v.take(k)),
        decreases raw@.len(),
    {
        let (name, tag) = raw.remove(0);
        proof {
            assert(orig.skip(k)[0] == orig[k]);
            assert(raw@ =~= orig.skip(k + 1));
            assert(v.take(k + 1).drop_last() =~= v.take(k));
            assert(v.take(k + 1).last() == v[k]);
        }
        insert_entry(&mut out, name, tag);
        proof { k = k + 1; }
    }
    proof {
        assert(k == orig.len());
        assert(v.take(k) =~= v);
    }
    out
}

impl NbtTag {
    /// A compound of these entries: each added in turn, so a later entry
    /// replaces an earlier one of the same name, and sorted by name.
    #[must_use]
    pub fn compound(entries: Vec<(String, NbtTag)>) -> (r: NbtTag)
        ensures
            r@ == NbtTagView::Compound(sorted_entries(entry_views(entries@))),
    {
        NbtTag::Compound(sort_entries(entries))
    }
}

/// Reads the payload of an array tag (id 7, 11 or 12).
fn read_array(reader: &mut Reader, id: u8, depth: u32) -> (r: Result<NbtTag, ProtoError>)
    requires
        id == 7 || id == 11 || id == 12,
        depth <= MAX_DEPTH,
    ensures
        final(reader).data() == old(reader).data(),
        match dec_payload(old(reader).data(), old(reader).pos(), id, depth as nat) {
            Ok((v, p)) => r matches Ok(t) && t@ == v && final(reader).pos() == p,
            Err(e) => r == Err::<NbtTag, ProtoError>(e),
        },
{
    let ghost b = old(reader).data();
    let ghost pos = old(reader).pos();
    let ghost rest = b.skip(pos as int);
    proof { Reader::lemma_pos_bound(reader); }
    let len = reader.read_i32()?;
    if len < 0 {
        return Err(ProtoError::NegativeLength(len));
    }
    let n = len as usize;
    let ghost body = rest.skip(4);
    proof {
        Reader::lemma_pos_bound(reader);
        assert(reader.rest() =~= body);
    }
    let width: u64 = if id == 7 { 1 } else if id == 11 { 4 } else { 8 };
    if (n as u64) * width > reader.remaining() as u64 {
        return Err(ProtoError::Truncated);
    }
    if id == 7 {
        let bytes = reader.read_bytes(n)?;
        let mut out: Vec<i8> = Vec::new();
        let mut i: usize = 0;
        while i < bytes.len()
            invariant
                i <= bytes@.len(),
                out@ == bytes@.take(i as int).map_values(|x: u8| x as i8),
            decreases bytes.len() - i,
        {
            out.push(bytes[i] as i8);
            i = i + 1;
            assert(out@ =~= bytes@.take(i as int).map_values(|x: u8| x as i8));
        }
        assert(bytes@.take(i as int) =~= bytes@);
        Ok(NbtTag::ByteArray(out))
    } else if id == 11 {
        let ghost start = reader.pos();
        let mut out: Vec<i32> = Vec::new();
        let mut i: usize = 0;
        while i < n
            invariant
                i <= n,
                reader.data() == b,
                4 * n <= body.len(),
                start == pos + 4,
                reader.pos() == start + 4 * i,
                reader.rest() == body.skip(4 * i),
                out@ == Seq::new(i as nat, |k: int| u32_from_be(body.skip(4 * k).take(4)) as i32),
            decreases n - i,
        {
            let v = reader.read_i32()?;
            out.push(v);
            i = i + 1;
            proof {
                Reader::lemma_pos_bound(reader);
                assert(reader.rest() =~= body.skip(4 * i));
                assert(out@ =~= Seq::new(i as nat, |k: int| u32_from_be(body.skip(4 * k).take(4)) as i32));
            }
        }
        Ok(NbtTag::IntArray(out))
    } else {
        let ghost start = reader.pos();
        let mut out: Vec<i64> = Vec::new();
        let mut i: usize = 0;
        while i < n
            invariant
                i <= n,
                reader.data() == b,
                8 * n <= body.len(),
                start == pos + 4,
                reader.pos() == start + 8 * i,
                reader.rest() == body.skip(8 * i),
                out@ == Seq::new(i as nat, |k: int| u64_from_be(body.skip(8 * k).take(8)) as i64),
            decreases n - i,
        {
            let v = reader.read_i64()?;
            out.push(v);
            i = i + 1;
            proof {
                Reader::lemma_pos_bound(reader);
                assert(reader.rest() =~= body.skip(8 * i));
                assert(out@ =~= Seq::new(i as nat, |k: int| u64_from_be(body.skip(8 * k).take(8)) as i64));
            }
        }
        Ok(NbtTag::LongArray(out))
    }
}


proof fn lemma_tag_views_push(items: Seq<NbtTag>, t: NbtTag)
    ensures
        tag_views(items.push(t)) == tag_views(items).push(t@),
{
    assert(items.push(t).drop_last() =~= items);
}

proof fn lemma_entry_views_push(entries: Seq<(String, NbtTag)>, e: (String, NbtTag))
    ensures
        entry_views(entries.push(e)) == entry_views(entries).push((e.0@, e.1@)),
{
    assert(entries.push(e).drop_last() =~= entries);
}

proof fn lemma_items_step(b: Seq<u8>, here: nat, elem: u8, m: nat, d1: nat, acc: Seq<NbtTagView>, t: NbtTagView, p: nat)
    requires
        m > 0,
        dec_payload(b, here, elem, d1) == Ok::<(NbtTagView, nat), ProtoError>((t, p)),
    ensures
        (match dec_items(b, here, elem, m, d1) {
            Ok((ts, q)) => Ok((acc + ts, q)),
            Err(e) => Err::<(Seq<NbtTagView>, nat), ProtoError>(e),
        }) == (match dec_items(b, p, elem, (m - 1) as nat, d1) {
            Ok((ts, q)) => Ok((acc.push(t) + ts, q)),
            Err(e) => Err::<(Seq<NbtTagView>, nat), ProtoError>(e),
        }),
{
    match dec_items(b, p, elem, (m - 1) as nat, d1) {
        Ok((ts, q)) => {
            assert(acc + (seq![t] + ts) =~= acc.push(t) + ts);
        },
        Err(_) => {},
    }
}

proof fn lemma_entries_step(
    b: Seq<u8>,
    here: nat,
    d1: nat,
    fuel: nat,
    acc: Seq<(Seq<char>, NbtTagView)>,
    name: Seq<char>,
    n: nat,
    id: u8,
    t: NbtTagView,
    p: nat,
)
    requires
        fuel > 0,
        b.skip(here as int).len() >= 1,
        b.skip(here as int)[0] == id,
        1 <= id <= 12,
        spec_read_u16_string(b.skip(here as int).skip(1)) == (Ok::<Seq<char>, ProtoError>(name), n),
        dec_payload(b, here + 1 + n, id, d1) == Ok::<(NbtTagView, nat), ProtoError>((t, p)),
    ensures
        (match dec_entries(b, here, d1, fuel) {
            Ok((es, q)) => Ok((acc + es, q)),
            Err(e) => Err::<(Seq<(Seq<char>, NbtTagView)>, nat), ProtoError>(e),
        }) == (match dec_entries(b, p, d1, (fuel - 1) as nat) {
            Ok((es, q)) => Ok((acc.push((name, t)) + es, q)),
            Err(e) => Err::<(Seq<(Seq<char>, NbtTagView)>, nat), ProtoError>(e),
        }),
{
    match dec_entries(b, p, d1, (fuel - 1) as nat) {
        Ok((es, q)) => {
            assert(acc + (seq![(name, t)] + es) =~= acc.push((name, t)) + es);
        },
        Err(_) => {},
    }
}

/// Reads the payload of a tag of kind `id`, nested `depth` deep.
#[verifier::spinoff_prover]
#[verifier::rlimit(100)]
fn decode_payload(reader: &mut Reader, id: u8, depth: u32) -> (r: Result<NbtTag, ProtoError>)
    requires
        depth <= MAX_DEPTH + 1,
    ensures
        final(reader).data() == old(reader).data(),
        match dec_payload(old(reader).data(), old(reader).pos(), id, depth as nat) {
            Ok((v, p)) => r matches Ok(t) && t@ == v && final(reader).pos() == p,
            Err(e) => r == Err::<NbtTag, ProtoError>(e),
        },
    decreases room(depth as nat),
{
    let ghost b = old(reader).data();
    let ghost pos = old(reader).pos();
    proof { Reader::lemma_pos_bound(reader); }
    if depth > MAX_DEPTH {
        return Err(ProtoError::DepthExceeded);
    }
    if id == 1 {
        Ok(NbtTag::Byte(reader.read_i8()?))
    } else if id == 2 {
        Ok(NbtTag::Short(reader.read_i16()?))
    } else if id == 3 {
        Ok(NbtTag::Int(reader.read_i32()?))
    } else if id == 4 {
        Ok(NbtTag::Long(reader.read_i64()?))
    } else if id == 5 {
        Ok(NbtTag::Float(reader.read_u32()?))
    } else if id == 6 {
        Ok(NbtTag::Double(reader.read_u64()?))
    } else if id == 7 || id == 11 || id == 12 {
        read_array(reader, id, depth)
    } else if id == 8 {
        Ok(NbtTag::String(reader.read_u16_string()?))
    } else if id == 9 {
        let elem = reader.read_u8()?;
        proof {
            Reader::lemma_pos_bound(reader);
            assert(reader.rest() =~= b.skip(pos as int).skip(1));
        }
        let len = reader.read_i32()?;
        if len < 0 {
            return Err(ProtoError::NegativeLength(len));
        }
        if elem == 0 && len > 0 {
            return Err(ProtoError::InvalidTag(0));
        }
        let n = len as usize;
        let ghost d1 = depth as nat + 1;
        let ghost whole = dec_items(b, pos + 5, elem, n as nat, d1);
        let ghost target = dec_payload(b, pos, id, depth as nat);
        assert(target == match whole {
            Ok((ts, q)) => Ok((NbtTagView::List(ts), q)),
            Err(e) => Err::<(NbtTagView, nat), ProtoError>(e),
        });
        let mut items: Vec<NbtTag> = Vec::new();
        let mut i: usize = 0;
        while i < n
            invariant
                i <= n,
                depth <= MAX_DEPTH,
                d1 == depth + 1,
                reader.data() == b,
                b == old(reader).data(),
                pos == old(reader).pos(),
                target == dec_payload(b, pos, id, depth as nat),
                target == match whole {
                    Ok((ts, q)) => Ok((NbtTagView::List(ts), q)),
                    Err(e) => Err::<(NbtTagView, nat), ProtoError>(e),
                },
                whole == dec_items(b, pos + 5, elem, n as nat, d1),
                whole == match dec_items(b, reader.pos(), elem, (n - i) as nat, d1) {
                    Ok((ts, q)) => Ok((tag_views(items@) + ts, q)),
                    Err(e) => Err::<(Seq<NbtTagView>, nat), ProtoError>(e),
                },
            decreases n - i,
        {
            let ghost here = reader.pos();
            let tag = decode_payload(reader, elem, depth + 1)?;
            proof {
                lemma_tag_views_push(items@, tag);
                lemma_items_step(b, here, elem, (n - i) as nat, d1, tag_views(items@), tag@, reader.pos());
            }
            items.push(tag);
            i = i + 1;
        }
        proof {
            assert(tag_views(items@) + Seq::<NbtTagView>::empty() =~= tag_views(items@));
        }
        Ok(NbtTag::List(items))
    } else if id == 10 {
        let ghost d1 = depth as nat + 1;
        let mut fuel: usize = reader.remaining();
        let ghost whole = dec_entries(b, pos, d1, fuel as nat);
        let ghost target = dec_payload(b, pos, id, depth as nat);
        assert(target == match whole {
            Ok((raw_es, q)) => Ok((NbtTagView::Compound(sorted_entries(raw_es)), q)),
            Err(e) => Err::<(NbtTagView, nat), ProtoError>(e),
        });
        let mut raw: Vec<(String, NbtTag)> = Vec::new();
        loop
            invariant
                depth <= MAX_DEPTH,
                d1 == depth + 1,
                reader.data() == b,
                b == old(reader).data(),
                pos == old(reader).pos(),
                target == dec_payload(b, pos, id, depth as nat),
                target == match whole {
                    Ok((raw_es, q)) => Ok((NbtTagView::Compound(sorted_entries(raw_es)), q)),
                    Err(e) => Err::<(NbtTagView, nat), ProtoError>(e),
                },
                whole == match dec_entries(b, reader.pos(), d1, fuel as nat) {
                    Ok((es, q)) => Ok((entry_views(raw@) + es, q)),
                    Err(e) => Err::<(Seq<(Seq<char>, NbtTagView)>, nat), ProtoError>(e),
                },
                whole == dec_entries(b, pos, d1, (b.len() - pos) as nat),
            decreases fuel,
        {
            proof { Reader::lemma_pos_bound(reader); }
            if fuel == 0 {
                return Err(ProtoError::Truncated);
            }
            let ghost here = reader.pos();
            let tag_id = reader.read_u8()?;
            if tag_id == 0 {
                proof {
                    assert(entry_views(raw@) + Seq::<(Seq<char>, NbtTagView)>::empty() =~= entry_views(raw@));
                }
                return Ok(NbtTag::Compound(sort_entries(raw)));
            }
            if tag_id > 12 {
                return Err(ProtoError::InvalidTag(tag_id));
            }
            proof {
                Reader::lemma_pos_bound(reader);
                assert(reader.rest() =~= b.skip(here as int).skip(1));
            }
            let ghost name_at = reader.pos();
            let name = reader.read_u16_string()?;
            let ghost after_name = reader.pos();
            let tag = decode_payload(reader, tag_id, depth + 1)?;
            proof {
                lemma_entry_views_push(raw@, (name, tag));
                lemma_entries_step(
                    b,
                    here,
                    d1,
                    fuel as nat,
                    entry_views(raw@),
                    name@,
                    (after_name - name_at) as nat,
                    tag_id,
                    tag@,
                    reader.pos(),
                );
            }
            raw.push((name, tag));
            fuel = fuel - 1;
        }
    } else {
        Err(ProtoError::InvalidTag(id))
    }
}

impl NbtTag {
    /// Reads a named tag: id, name, payload. An end byte (0) is no tag.
    pub fn decode_named(reader: &mut Reader) -> (res: Result<(String, NbtTag), ProtoError>)
        ensures
            final(reader).data() == old(reader).data(),
            match spec_decode_nbt_named(old(reader).data(), old(reader).pos()) {
                Ok((name, t, p)) => res matches Ok((n, tag)) && n@ == name && tag@ == t && final(reader).pos() == p,
                Err(e) => res == Err::<(String, NbtTag), ProtoError>(e),
            },
    {
        let ghost b = old(reader).data();
        let ghost pos = old(reader).pos();
        proof { Reader::lemma_pos_bound(reader); }
        let id = reader.read_u8()?;
        if id == 0 {
            return Err(ProtoError::InvalidTag(id));
        }
        proof {
            Reader::lemma_pos_bound(reader);
            assert(reader.rest() =~= b.skip(pos as int).skip(1));
        }
        let name = reader.read_u16_string()?;
        let tag = decode_payload(reader, id, 0)?;
        Ok((name, tag))
    }

    /// Reads a tag without a name: id, payload.
    pub fn decode_unnamed(reader: &mut Reader) -> (res: Result<NbtTag, ProtoError>)
        ensures
            final(reader).data() == old(reader).data(),
            match spec_decode_nbt_unnamed(old(reader).data(), old(reader).pos()) {
                Ok((t, p)) => res matches Ok(tag) && tag@ == t && final(reader).pos() == p,
                Err(e) => res == Err::<NbtTag, ProtoError>(e),
            },
    {
        proof { Reader::lemma_pos_bound(reader); }
        let id = reader.read_u8()?;
        decode_payload(reader, id, 0)
    }
}


// ---------------------------------------------------------------------------
// Round trip
// ---------------------------------------------------------------------------

/// Names in strictly increasing order.
pub open spec fn names_sorted(es: Seq<(Seq<char>, NbtTagView)>) -> bool {
    forall|i: int, j: int| 0 <= i < j < es.len() ==> key_lt(#[trigger] es[i].0, #[trigger] es[j].0)
}

/// A tag that can be written at nesting `depth` and read back: not too
/// deep, lengths that fit an i32, strings that fit a u16 length, lists of
/// one kind, compounds with sorted distinct names.
pub open spec fn nbt_wf(t: NbtTagView, depth: nat) -> bool
    decreases t,
{
    &&& depth <= MAX_DEPTH
    &&& match t {
        NbtTagView::ByteArray(v) => v.len() <= i32::MAX,
        NbtTagView::IntArray(v) => v.len() <= i32::MAX,
        NbtTagView::LongArray(v) => v.len() <= i32::MAX,
        NbtTagView::String(s) => encode_utf8(s).len() <= u16::MAX,
        NbtTagView::List(items) => {
            &&& items.len() <= i32::MAX
            &&& forall|i: int| 0 <= i < items.len() ==> tag_id(#[trigger] items[i]) == list_elem_id(items)
            &&& forall|i: int| 0 <= i < items.len() ==> nbt_wf(#[trigger] items[i], depth + 1)
        },
        NbtTagView::Compound(es) => {
            &&& names_sorted(es)
            &&& forall|i: int| 0 <= i < es.len() ==> encode_utf8((#[trigger] es[i]).0).len() <= u16::MAX && nbt_wf(es[i].1, depth + 1)
        },
        _ => true,
    }
}


proof fn lemma_key_lt_irrefl(a: Seq<char>)
    ensures
        !key_lt(a, a),
    decreases a.len(),
{
    if a.len() > 0 {
        lemma_key_lt_irrefl(a.drop_first());
    }
}

proof fn lemma_key_lt_asym(a: Seq<char>, b: Seq<char>)
    ensures
        key_lt(a, b) ==> !key_lt(b, a),
    decreases a.len(),
{
    if a.len() > 0 && b.len() > 0 && a[0] == b[0] {
        lemma_key_lt_asym(a.drop_first(), b.drop_first());
    }
}

proof fn lemma_sort_insert_last(es: Seq<(Seq<char>, NbtTagView)>, k: Seq<char>, v: NbtTagView)
    requires
        forall|i: int| 0 <= i < es.len() ==> key_lt(#[trigger] es[i].0, k),
    ensures
        sort_insert(es, k, v) == es.push((k, v)),
    decreases es.len(),
{
    if es.len() > 0 {
        assert(key_lt(es[0].0, k));
        lemma_key_lt_irrefl(k);
        lemma_key_lt_asym(es[0].0, k);
        assert(es[0].0 != k);
        lemma_sort_insert_last(es.drop_first(), k, v);
        assert(seq![es[0]] + es.drop_first().push((k, v)) =~= es.push((k, v)));
    }
}

/// A compound with sorted distinct names is what reading it gives back.
proof fn lemma_sorted_entries_id(es: Seq<(Seq<char>, NbtTagView)>)
    requires
        names_sorted(es),
    ensures
        sorted_entries(es) == es,
    decreases es.len(),
{
    if es.len() > 0 {
        let dl = es.drop_last();
        assert(names_sorted(dl));
        lemma_sorted_entries_id(dl);
        assert forall|i: int| 0 <= i < dl.len() implies key_lt(#[trigger] dl[i].0, es.last().0) by {
            assert(key_lt(es[i].0, es[es.len() - 1].0));
        }
        lemma_sort_insert_last(dl, es.last().0, es.last().1);
        assert(dl.push(es.last()) =~= es);
    }
}

proof fn lemma_items_encode(items: Seq<NbtTagView>, d: nat)
    requires
        forall|i: int| 0 <= i < items.len() ==> nbt_wf(#[trigger] items[i], d),
    ensures
        items_payload(items, d) is Ok,
    decreases items,
{
    if items.len() > 0 {
        lemma_items_encode(items.drop_last(), d);
        lemma_encodes(items.last(), d);
    }
}

proof fn lemma_entries_encode(es: Seq<(Seq<char>, NbtTagView)>, d: nat)
    requires
        forall|i: int| 0 <= i < es.len() ==> encode_utf8((#[trigger] es[i]).0).len() <= u16::MAX && nbt_wf(es[i].1, d),
    ensures
        entries_payload(es, d) is Ok,
        entries_payload(es, d)->Ok_0.len() >= es.len(),
    decreases es,
{
    if es.len() > 0 {
        lemma_entries_encode(es.drop_last(), d);
        lemma_encodes(es.last().1, d);
    }
}

/// A well-formed tag can be written.
pub proof fn lemma_encodes(t: NbtTagView, d: nat)
    requires
        nbt_wf(t, d),
    ensures
        nbt_payload(t, d) is Ok,
    decreases t,
{
    match t {
        NbtTagView::List(items) => {
            lemma_items_encode(items, d + 1);
        },
        NbtTagView::Compound(es) => {
            lemma_entries_encode(es, d + 1);
        },
        _ => {},
    }
}

proof fn lemma_items_front(items: Seq<NbtTagView>, d: nat)
    requires
        items.len() > 0,
        items_payload(items, d) is Ok,
    ensures
        nbt_payload(items[0], d) is Ok,
        items_payload(items.drop_first(), d) is Ok,
        items_payload(items, d)->Ok_0 == nbt_payload(items[0], d)->Ok_0 + items_payload(items.drop_first(), d)->Ok_0,
    decreases items.len(),
{
    let dl = items.drop_last();
    if items.len() == 1 {
        assert(items.drop_first() =~= Seq::<NbtTagView>::empty());
        assert(items.last() == items[0]);
    } else {
        lemma_items_front(dl, d);
        assert(items.drop_first().drop_last() =~= dl.drop_first());
        assert(items.drop_first().last() == items.last());
        assert(dl[0] == items[0]);
    }
}

proof fn lemma_entries_front(es: Seq<(Seq<char>, NbtTagView)>, d: nat)
    requires
        es.len() > 0,
        entries_payload(es, d) is Ok,
    ensures
        name_bytes(es[0].0) is Ok,
        nbt_payload(es[0].1, d) is Ok,
        entries_payload(es.drop_first(), d) is Ok,
        entries_payload(es, d)->Ok_0 == seq![tag_id(es[0].1)] + name_bytes(es[0].0)->Ok_0 + nbt_payload(es[0].1, d)->Ok_0
            + entries_payload(es.drop_first(), d)->Ok_0,
    decreases es.len(),
{
    let dl = es.drop_last();
    if es.len() == 1 {
        assert(es.drop_first() =~= Seq::<(Seq<char>, NbtTagView)>::empty());
        assert(es.last() == es[0]);
    } else {
        lemma_entries_front(dl, d);
        assert(es.drop_first().drop_last() =~= dl.drop_first());
        assert(es.drop_first().last() == es.last());
        assert(dl[0] == es[0]);
    }
}

proof fn lemma_i32s_at(v: Seq<i32>, i: int)
    requires
        0 <= i < v.len(),
    ensures
        bytes_of_i32s(v).len() == 4 * v.len(),
        bytes_of_i32s(v).subrange(4 * i, 4 * i + 4) == u32_be(v[i] as u32),
    decreases v.len(),
{
    lemma_i32s_len(v);
    if i < v.len() - 1 {
        lemma_i32s_at(v.drop_last(), i);
        assert(bytes_of_i32s(v).subrange(4 * i, 4 * i + 4) =~= bytes_of_i32s(v.drop_last()).subrange(4 * i, 4 * i + 4));
    } else {
        lemma_i32s_len(v.drop_last());
        assert(v.last() == v[i]);
        assert(bytes_of_i32s(v) == bytes_of_i32s(v.drop_last()) + u32_be(v.last() as u32));
        assert(bytes_of_i32s(v).subrange(4 * i, 4 * i + 4) =~= u32_be(v[i] as u32));
    }
}

proof fn lemma_i64s_at(v: Seq<i64>, i: int)
    requires
        0 <= i < v.len(),
    ensures
        bytes_of_i64s(v).len() == 8 * v.len(),
        bytes_of_i64s(v).subrange(8 * i, 8 * i + 8) == u64_be(v[i] as u64),
    decreases v.len(),
{
    lemma_i64s_len(v);
    if i < v.len() - 1 {
        lemma_i64s_at(v.drop_last(), i);
        assert(bytes_of_i64s(v).subrange(8 * i, 8 * i + 8) =~= bytes_of_i64s(v.drop_last()).subrange(8 * i, 8 * i + 8));
    } else {
        lemma_i64s_len(v.drop_last());
        assert(v.last() == v[i]);
        assert(bytes_of_i64s(v) == bytes_of_i64s(v.drop_last()) + u64_be(v.last() as u64));
        assert(bytes_of_i64s(v).subrange(8 * i, 8 * i + 8) =~= u64_be(v[i] as u64));
    }
}

proof fn lemma_i32s_len(v: Seq<i32>)
    ensures
        bytes_of_i32s(v).len() == 4 * v.len(),
    decreases v.len(),
{
    if v.len() > 0 {
        lemma_i32s_len(v.drop_last());
    }
}

proof fn lemma_i64s_len(v: Seq<i64>)
    ensures
        bytes_of_i64s(v).len() == 8 * v.len(),
    decreases v.len(),
{
    if v.len() > 0 {
        lemma_i64s_len(v.drop_last());
    }
}

/// A length written before an array or list reads back.
proof fn lemma_len_roundtrip(n: nat)
    requires
        n <= i32::MAX,
    ensures
        u32_from_be(len_bytes(n)) as i32 == n,
{
    super::proto::law_fixed_width_roundtrip(0, 0, n as u32, 0, 0, 0, 0, 0);
    let x = n as u32;
    assert(x <= 0x7fff_ffff ==> (x as i32) as int == x as int) by (bit_vector);
}

/// Whether `p` stands at position `pos` of `b`.
pub open spec fn bytes_at(b: Seq<u8>, pos: nat, p: Seq<u8>) -> bool {
    pos + p.len() <= b.len() && b.subrange(pos as int, (pos + p.len()) as int) == p
}


proof fn lemma_u16_string_read(s: Seq<char>, bytes: Seq<u8>)
    requires
        encode_utf8(s).len() <= u16::MAX,
        u16_string_encoding(s).len() <= bytes.len(),
        bytes.take(u16_string_encoding(s).len() as int) == u16_string_encoding(s),
    ensures
        spec_read_u16_string(bytes) == (Ok::<Seq<char>, ProtoError>(s), u16_string_encoding(s).len()),
{
    let body = encode_utf8(s);
    let n = body.len();
    let enc = u16_string_encoding(s);
    super::proto::law_fixed_width_roundtrip(n as u16, 0, 0, 0, 0, 0, 0, 0);
    assert(bytes.take(2) =~= enc.take(2));
    assert(enc.take(2) =~= u16_be(n as u16));
    assert(bytes.subrange(2, (2 + n) as int) =~= enc.subrange(2, (2 + n) as int));
    assert(enc.subrange(2, (2 + n) as int) =~= body);
    encode_utf8_valid_utf8(s);
    encode_utf8_decode_utf8(s);
}

proof fn lemma_items_dec(items: Seq<NbtTagView>, d: nat, elem: u8, b: Seq<u8>, pos: nat)
    requires
        forall|i: int| 0 <= i < items.len() ==> nbt_wf(#[trigger] items[i], d),
        forall|i: int| 0 <= i < items.len() ==> tag_id(#[trigger] items[i]) == elem,
        items_payload(items, d) is Ok,
        bytes_at(b, pos, items_payload(items, d)->Ok_0),
    ensures
        dec_items(b, pos, elem, items.len(), d) == Ok::<(Seq<NbtTagView>, nat), ProtoError>(
            (items, pos + items_payload(items, d)->Ok_0.len()),
        ),
    decreases items,
{
    let whole = items_payload(items, d)->Ok_0;
    if items.len() > 0 {
        lemma_items_front(items, d);
        let p0 = nbt_payload(items[0], d)->Ok_0;
        let tail = items.drop_first();
        let pt = items_payload(tail, d)->Ok_0;
        assert(b.subrange(pos as int, (pos + p0.len()) as int) =~= b.subrange(pos as int, (pos + whole.len()) as int).subrange(0, p0.len() as int));
        assert(whole.subrange(0, p0.len() as int) =~= p0);
        lemma_dec_rt(items[0], d, b, pos);
        assert(b.subrange((pos + p0.len()) as int, (pos + p0.len() + pt.len()) as int) =~= b.subrange(pos as int, (pos + whole.len()) as int).subrange(
            p0.len() as int,
            whole.len() as int,
        ));
        assert(whole.subrange(p0.len() as int, whole.len() as int) =~= pt);
        assert forall|i: int| 0 <= i < tail.len() implies nbt_wf(#[trigger] tail[i], d) && tag_id(tail[i]) == elem by {
            assert(tail[i] == items[i + 1]);
        }
        lemma_items_dec(tail, d, elem, b, pos + p0.len());
        assert(seq![items[0]] + tail =~= items);
    }
}

/// Where the parts of a written compound stand: the first entry's id,
/// its name, its payload, then the other entries and the end byte.
#[verifier::spinoff_prover]
#[verifier::rlimit(50)]
proof fn lemma_entries_layout(es: Seq<(Seq<char>, NbtTagView)>, d: nat, b: Seq<u8>, pos: nat)
    requires
        es.len() > 0,
        encode_utf8(es[0].0).len() <= u16::MAX,
        entries_payload(es, d) is Ok,
        bytes_at(b, pos, entries_payload(es, d)->Ok_0.push(0u8)),
    ensures
        nbt_payload(es[0].1, d) is Ok,
        entries_payload(es.drop_first(), d) is Ok,
        b.skip(pos as int).len() >= 1,
        b.skip(pos as int)[0] == tag_id(es[0].1),
        spec_read_u16_string(b.skip(pos as int).skip(1)) == (Ok::<Seq<char>, ProtoError>(es[0].0), u16_string_encoding(es[0].0).len()),
        bytes_at(b, pos + 1 + u16_string_encoding(es[0].0).len(), nbt_payload(es[0].1, d)->Ok_0),
        bytes_at(
            b,
            pos + 1 + u16_string_encoding(es[0].0).len() + nbt_payload(es[0].1, d)->Ok_0.len(),
            entries_payload(es.drop_first(), d)->Ok_0.push(0u8),
        ),
        entries_payload(es, d)->Ok_0.len() == 1 + u16_string_encoding(es[0].0).len() + nbt_payload(es[0].1, d)->Ok_0.len()
            + entries_payload(es.drop_first(), d)->Ok_0.len(),
{
    let whole = entries_payload(es, d)->Ok_0.push(0u8);
    let here = b.subrange(pos as int, (pos + whole.len()) as int);
    assert(here == whole);
    let rest = b.skip(pos as int);
    assert(rest[0] == here[0]);
    lemma_entries_front(es, d);
    let id = tag_id(es[0].1);
    let nb = name_bytes(es[0].0)->Ok_0;
    assert(nb == u16_string_encoding(es[0].0));
    let p0 = nbt_payload(es[0].1, d)->Ok_0;
    let pt = entries_payload(es.drop_first(), d)->Ok_0;
    assert(whole =~= seq![id] + nb + p0 + pt.push(0u8));
    assert(rest.skip(1).take(nb.len() as int) =~= here.subrange(1, (1 + nb.len()) as int));
    assert(here.subrange(1, (1 + nb.len()) as int) =~= nb);
    lemma_u16_string_read(es[0].0, rest.skip(1));
    let at1 = pos + 1 + nb.len();
    assert(b.subrange(at1 as int, (at1 + p0.len()) as int) =~= here.subrange(
        (1 + nb.len()) as int,
        (1 + nb.len() + p0.len()) as int,
    ));
    assert(here.subrange((1 + nb.len()) as int, (1 + nb.len() + p0.len()) as int) =~= p0);
    let at2 = at1 + p0.len();
    assert(b.subrange(at2 as int, (at2 + pt.len() + 1) as int) =~= here.subrange(
        (1 + nb.len() + p0.len()) as int,
        whole.len() as int,
    ));
    assert(here.subrange((1 + nb.len() + p0.len()) as int, whole.len() as int) =~= pt.push(0u8));
}

#[verifier::spinoff_prover]
#[verifier::rlimit(100)]
proof fn lemma_entries_dec(es: Seq<(Seq<char>, NbtTagView)>, d: nat, b: Seq<u8>, pos: nat, fuel: nat)
    requires
        forall|i: int| 0 <= i < es.len() ==> encode_utf8((#[trigger] es[i]).0).len() <= u16::MAX && nbt_wf(es[i].1, d),
        entries_payload(es, d) is Ok,
        bytes_at(b, pos, entries_payload(es, d)->Ok_0.push(0u8)),
        fuel >= es.len() + 1,
    ensures
        dec_entries(b, pos, d, fuel) == Ok::<(Seq<(Seq<char>, NbtTagView)>, nat), ProtoError>(
            (es, pos + entries_payload(es, d)->Ok_0.len() + 1),
        ),
    decreases es,
{
    if es.len() == 0 {
        let whole = entries_payload(es, d)->Ok_0.push(0u8);
        assert(b.skip(pos as int)[0] == b.subrange(pos as int, (pos + whole.len()) as int)[0]);
    } else {
        lemma_entries_layout(es, d, b, pos);
        let tail = es.drop_first();
        let at1 = pos + 1 + u16_string_encoding(es[0].0).len();
        assert(nbt_wf(es[0].1, d));
        lemma_dec_rt(es[0].1, d, b, at1);
        let at2 = at1 + nbt_payload(es[0].1, d)->Ok_0.len();
        assert forall|i: int| 0 <= i < tail.len() implies encode_utf8((#[trigger] tail[i]).0).len() <= u16::MAX && nbt_wf(
            tail[i].1,
            d,
        ) by {
            assert(tail[i] == es[i + 1]);
        }
        lemma_entries_dec(tail, d, b, at2, (fuel - 1) as nat);
        assert(seq![(es[0].0, es[0].1)] + tail =~= es);
    }
}

/// The bytes at `pos` of `b` begin with `p`: so does every prefix.
proof fn lemma_prefixes(b: Seq<u8>, pos: nat, p: Seq<u8>)
    requires
        bytes_at(b, pos, p),
    ensures
        forall|k: int| 0 <= k <= p.len() ==> #[trigger] b.skip(pos as int).take(k) == p.take(k),
{
    let rest = b.skip(pos as int);
    assert forall|k: int| 0 <= k <= p.len() implies #[trigger] rest.take(k) == p.take(k) by {
        assert(rest.take(k) =~= b.subrange(pos as int, (pos + p.len()) as int).take(k));
    }
}

/// The round trip for numbers and strings.
#[verifier::spinoff_prover]
proof fn lemma_dec_rt_flat(t: NbtTagView, d: nat, b: Seq<u8>, pos: nat)
    requires
        d <= MAX_DEPTH,
        nbt_wf(t, d),
        !(t is List || t is Compound || t is ByteArray || t is IntArray || t is LongArray),
        nbt_payload(t, d) is Ok,
        bytes_at(b, pos, nbt_payload(t, d)->Ok_0),
    ensures
        dec_payload(b, pos, tag_id(t), d) == Ok::<(NbtTagView, nat), ProtoError>((t, pos + nbt_payload(t, d)->Ok_0.len())),
{
    let p = nbt_payload(t, d)->Ok_0;
    let rest = b.skip(pos as int);
    lemma_prefixes(b, pos, p);
    match t {
        NbtTagView::Byte(v) => {
            assert(rest.take(1) == p.take(1));
            assert(rest.take(1)[0] == rest[0]);
            super::proto::law_fixed_width_roundtrip(0, 0, 0, 0, 0, 0, 0, v);
        },
        NbtTagView::Short(v) => {
            assert(rest.take(2) == p.take(2));
            assert(p.take(2) =~= p);
            super::proto::law_fixed_width_roundtrip(0, v, 0, 0, 0, 0, 0, 0);
        },
        NbtTagView::Int(v) => {
            assert(rest.take(4) == p.take(4));
            assert(p.take(4) =~= p);
            super::proto::law_fixed_width_roundtrip(0, 0, 0, v, 0, 0, 0, 0);
        },
        NbtTagView::Long(v) => {
            assert(rest.take(8) == p.take(8));
            assert(p.take(8) =~= p);
            super::proto::law_fixed_width_roundtrip(0, 0, 0, 0, 0, v, 0, 0);
        },
        NbtTagView::Float(v) => {
            assert(rest.take(4) == p.take(4));
            assert(p.take(4) =~= p);
            super::proto::law_fixed_width_roundtrip(0, 0, v, 0, 0, 0, 0, 0);
        },
        NbtTagView::Double(v) => {
            assert(rest.take(8) == p.take(8));
            assert(p.take(8) =~= p);
            super::proto::law_fixed_width_roundtrip(0, 0, 0, 0, v, 0, 0, 0);
        },
        NbtTagView::String(text) => {
            assert(rest.take(p.len() as int) == p.take(p.len() as int));
            assert(p.take(p.len() as int) =~= p);
            lemma_u16_string_read(text, rest);
        },
        _ => {},
    }
}

/// The round trip for arrays of bytes.
#[verifier::spinoff_prover]
#[verifier::rlimit(50)]
proof fn lemma_dec_rt_bytes(t: NbtTagView, d: nat, b: Seq<u8>, pos: nat)
    requires
        d <= MAX_DEPTH,
        nbt_wf(t, d),
        t is ByteArray,
        nbt_payload(t, d) is Ok,
        bytes_at(b, pos, nbt_payload(t, d)->Ok_0),
    ensures
        dec_payload(b, pos, tag_id(t), d) == Ok::<(NbtTagView, nat), ProtoError>((t, pos + nbt_payload(t, d)->Ok_0.len())),
{
    let p = nbt_payload(t, d)->Ok_0;
    let rest = b.skip(pos as int);
    lemma_prefixes(b, pos, p);
    assert(rest.take(4) == p.take(4));
    assert(rest.take(p.len() as int) == p.take(p.len() as int));
    assert(p.take(p.len() as int) =~= p);
    match t {
        NbtTagView::ByteArray(v) => {
            let n = v.len();
            assert(p.take(4) =~= len_bytes(n));
            lemma_len_roundtrip(n);
            let body = rest.skip(4);
            assert(body.take(n as int) =~= bytes_of_i8s(v)) by {
                assert(body.take(n as int) =~= rest.take(p.len() as int).skip(4));
                assert(p.skip(4) =~= bytes_of_i8s(v));
            }
            assert forall|i: int| 0 <= i < n implies ((#[trigger] v[i]) as u8) as i8 == v[i] by {
                super::proto::law_fixed_width_roundtrip(0, 0, 0, 0, 0, 0, 0, v[i]);
            }
            assert(body.take(n as int).map_values(|x: u8| x as i8) =~= v);
        },
        _ => {},
    }
}

/// The round trip for arrays of i32.
#[verifier::spinoff_prover]
#[verifier::rlimit(50)]
proof fn lemma_dec_rt_ints(t: NbtTagView, d: nat, b: Seq<u8>, pos: nat)
    requires
        d <= MAX_DEPTH,
        nbt_wf(t, d),
        t is IntArray,
        nbt_payload(t, d) is Ok,
        bytes_at(b, pos, nbt_payload(t, d)->Ok_0),
    ensures
        dec_payload(b, pos, tag_id(t), d) == Ok::<(NbtTagView, nat), ProtoError>((t, pos + nbt_payload(t, d)->Ok_0.len())),
{
    let p = nbt_payload(t, d)->Ok_0;
    let rest = b.skip(pos as int);
    lemma_prefixes(b, pos, p);
    assert(rest.take(4) == p.take(4));
    assert(rest.take(p.len() as int) == p.take(p.len() as int));
    assert(p.take(p.len() as int) =~= p);
    match t {
        NbtTagView::IntArray(v) => {
            let n = v.len();
            assert(p.take(4) =~= len_bytes(n));
            lemma_len_roundtrip(n);
            lemma_i32s_len(v);
            let body = rest.skip(4);
            assert(body.take((4 * n) as int) =~= bytes_of_i32s(v)) by {
                assert(body.take((4 * n) as int) =~= rest.take(p.len() as int).skip(4));
                assert(p.skip(4) =~= bytes_of_i32s(v));
            }
            assert forall|i: int| 0 <= i < n implies u32_from_be(body.skip(4 * i).take(4)) as i32 == #[trigger] v[i] by {
                lemma_i32s_at(v, i);
                assert(body.skip(4 * i).take(4) =~= body.take((4 * n) as int).subrange((4 * i) as int, (4 * i + 4) as int));
                super::proto::law_fixed_width_roundtrip(0, 0, 0, v[i], 0, 0, 0, 0);
            }
            assert(Seq::new(n, |i: int| u32_from_be(body.skip(4 * i).take(4)) as i32) =~= v);
        },
        _ => {},
    }
}

/// The round trip for arrays of i64.
#[verifier::spinoff_prover]
#[verifier::rlimit(50)]
proof fn lemma_dec_rt_longs(t: NbtTagView, d: nat, b: Seq<u8>, pos: nat)
    requires
        d <= MAX_DEPTH,
        nbt_wf(t, d),
        t is LongArray,
        nbt_payload(t, d) is Ok,
        bytes_at(b, pos, nbt_payload(t, d)->Ok_0),
    ensures
        dec_payload(b, pos, tag_id(t), d) == Ok::<(NbtTagView, nat), ProtoError>((t, pos + nbt_payload(t, d)->Ok_0.len())),
{
    let p = nbt_payload(t, d)->Ok_0;
    let rest = b.skip(pos as int);
    lemma_prefixes(b, pos, p);
    assert(rest.take(4) == p.take(4));
    assert(rest.take(p.len() as int) == p.take(p.len() as int));
    assert(p.take(p.len() as int) =~= p);
    match t {
        NbtTagView::LongArray(v) => {
            let n = v.len();
            assert(p.take(4) =~= len_bytes(n));
            lemma_len_roundtrip(n);
            lemma_i64s_len(v);
            let body = rest.skip(4);
            assert(body.take((8 * n) as int) =~= bytes_of_i64s(v)) by {
                assert(body.take((8 * n) as int) =~= rest.take(p.len() as int).skip(4));
                assert(p.skip(4) =~= bytes_of_i64s(v));
            }
            assert forall|i: int| 0 <= i < n implies u64_from_be(body.skip(8 * i).take(8)) as i64 == #[trigger] v[i] by {
                lemma_i64s_at(v, i);
                assert(body.skip(8 * i).take(8) =~= body.take((8 * n) as int).subrange((8 * i) as int, (8 * i + 8) as int));
                super::proto::law_fixed_width_roundtrip(0, 0, 0, 0, 0, v[i], 0, 0);
            }
            assert(Seq::new(n, |i: int| u64_from_be(body.skip(8 * i).take(8)) as i64) =~= v);
        },
        _ => {},
    }
}

/// Reading a written well-formed tag's payload gives the tag back, and
/// stops right after it.
#[verifier::spinoff_prover]
#[verifier::rlimit(50)]
proof fn lemma_dec_rt(t: NbtTagView, d: nat, b: Seq<u8>, pos: nat)
    requires
        nbt_wf(t, d),
        nbt_payload(t, d) is Ok,
        bytes_at(b, pos, nbt_payload(t, d)->Ok_0),
    ensures
        dec_payload(b, pos, tag_id(t), d) == Ok::<(NbtTagView, nat), ProtoError>((t, pos + nbt_payload(t, d)->Ok_0.len())),
    decreases t,
{
    let p = nbt_payload(t, d)->Ok_0;
    let rest = b.skip(pos as int);
    match t {
        NbtTagView::List(items) => {
            lemma_prefixes(b, pos, p);
            assert(rest.take(5) == p.take(5));
            let n = items.len();
            let elem = list_elem_id(items);
            lemma_items_encode(items, d + 1);
            let ip = items_payload(items, d + 1)->Ok_0;
            assert(p =~= seq![elem] + len_bytes(n) + ip);
            assert(rest[0] == rest.take(1)[0]);
            assert(rest.skip(1).take(4) =~= p.take(5).skip(1));
            lemma_len_roundtrip(n);
            if n > 0 {
                assert(tag_id(items[0]) == elem);
            }
            assert(b.subrange((pos + 5) as int, (pos + 5 + ip.len()) as int) =~= b.subrange(pos as int, (pos + p.len()) as int).subrange(5, p.len() as int));
            lemma_items_dec(items, d + 1, elem, b, pos + 5);
        },
        NbtTagView::Compound(es) => {
            lemma_entries_encode(es, d + 1);
            let ep = entries_payload(es, d + 1)->Ok_0;
            assert(p == ep.push(0u8));
            assert(b.len() - pos >= es.len() + 1);
            lemma_entries_dec(es, d + 1, b, pos, (b.len() - pos) as nat);
            lemma_sorted_entries_id(es);
        },
        NbtTagView::ByteArray(_) => {
            lemma_dec_rt_bytes(t, d, b, pos);
        },
        NbtTagView::IntArray(_) => {
            lemma_dec_rt_ints(t, d, b, pos);
        },
        NbtTagView::LongArray(_) => {
            lemma_dec_rt_longs(t, d, b, pos);
        },
        _ => {
            lemma_dec_rt_flat(t, d, b, pos);
        },
    }
}

/// NBT round trip: a well-formed tag written without a name reads back
/// as itself, whatever follows it, and reading stops right after it.
pub proof fn law_nbt_roundtrip(t: NbtTagView, rest: Seq<u8>)
    requires
        nbt_wf(t, 0),
    ensures
        spec_nbt_unnamed(t) is Ok,
        spec_decode_nbt_unnamed(spec_nbt_unnamed(t)->Ok_0 + rest, 0) == Ok::<(NbtTagView, nat), ProtoError>(
            (t, spec_nbt_unnamed(t)->Ok_0.len()),
        ),
{
    lemma_encodes(t, 0);
    let p = nbt_payload(t, 0)->Ok_0;
    let b = spec_nbt_unnamed(t)->Ok_0 + rest;
    assert(b.skip(0) =~= b);
    assert(b.subrange(1, (1 + p.len()) as int) =~= p);
    lemma_dec_rt(t, 0, b, 1);
}

/// The same for a named tag: the name and the tag read back.
#[verifier::spinoff_prover]
#[verifier::rlimit(100)]
pub proof fn law_nbt_named_roundtrip(name: Seq<char>, t: NbtTagView, rest: Seq<u8>)
    requires
        encode_utf8(name).len() <= u16::MAX,
        nbt_wf(t, 0),
    ensures
        spec_nbt_named(name, t) is Ok,
        spec_decode_nbt_named(spec_nbt_named(name, t)->Ok_0 + rest, 0) == Ok::<(Seq<char>, NbtTagView, nat), ProtoError>(
            (name, t, spec_nbt_named(name, t)->Ok_0.len()),
        ),
{
    lemma_encodes(t, 0);
    let p = nbt_payload(t, 0)->Ok_0;
    let nb = u16_string_encoding(name);
    let w = seq![tag_id(t)] + nb + p;
    assert(spec_nbt_named(name, t) == Ok::<Seq<u8>, ProtoError>(w));
    let b = w + rest;
    assert(b.skip(0) =~= b);
    assert(b[0] == tag_id(t));
    assert(tag_id(t) != 0);
    assert(b.skip(1).take(nb.len() as int) =~= nb);
    lemma_u16_string_read(name, b.skip(1));
    assert(b.subrange((1 + nb.len()) as int, (1 + nb.len() + p.len()) as int) =~= p);
    lemma_dec_rt(t, 0, b, 1 + nb.len());
    assert(1 + nb.len() + p.len() == w.len());
}

} // verus!
