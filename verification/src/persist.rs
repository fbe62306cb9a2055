//! On-disk chunk format and file names of the server's saved data.
//!
//! Chunk files are little-endian throughout: the magic `FCHK`, a version
//! byte (1), the section count (u16), then per section a run-length
//! encoding: the run count (u16) followed by (block id u16, run length u16)
//! pairs whose lengths must sum to 4096.
use vstd::prelude::*;

use crate::inventory::{empty_stack, item_from_id, Inventory, Item, ItemStack, INVENTORY_SIZE, MAX_HOTBAR_INDEX, MAX_STACK};
use crate::text::{decimal, push_char, push_decimal};

verus! {

broadcast use vstd::seq::group_seq_axioms, vstd::seq_lib::group_seq_properties;

pub const CHUNK_FILE_VERSION: u8 = 1;
pub const SECTION_BLOCKS: usize = 4096;

pub open spec fn u16_le(v: u16) -> Seq<u8> {
    seq![v as u8, (v >> 8) as u8]
}

pub open spec fn u16_from_le(b: Seq<u8>) -> u16 {
    (b[0] as u16) | ((b[1] as u16) << 8)
}

pub open spec fn chunk_file_magic() -> Seq<u8> {
    seq![0x46u8, 0x43u8, 0x48u8, 0x4Bu8]
}

/// Maximal runs of equal values, in order: (value, run length).
pub open spec fn rle(s: Seq<u16>) -> Seq<(u16, nat)>
    decreases s.len(),
{
    if s.len() == 0 {
        Seq::empty()
    } else {
        let prev = rle(s.drop_last());
        if prev.len() > 0 && prev.last().0 == s.last() {
            prev.update(prev.len() - 1, (s.last(), prev.last().1 + 1))
        } else {
            prev.push((s.last(), 1))
        }
    }
}

pub open spec fn runs_bytes(runs: Seq<(u16, nat)>) -> Seq<u8>
    decreases runs.len(),
{
    if runs.len() == 0 {
        Seq::empty()
    } else {
        runs_bytes(runs.drop_last()) + u16_le(runs.last().0) + u16_le(runs.last().1 as u16)
    }
}

/// One section: the run count, then the runs.
pub open spec fn section_bytes(states: Seq<u16>) -> Seq<u8> {
    u16_le(rle(states).len() as u16) + runs_bytes(rle(states))
}

pub open spec fn sections_bytes(secs: Seq<Seq<u16>>) -> Seq<u8>
    decreases secs.len(),
{
    if secs.len() == 0 {
        Seq::empty()
    } else {
        sections_bytes(secs.drop_last()) + section_bytes(secs.last())
    }
}

/// The whole chunk file for the given section states.
pub open spec fn spec_encode_sections(secs: Seq<Seq<u16>>) -> Seq<u8> {
    chunk_file_magic().push(CHUNK_FILE_VERSION) + u16_le(secs.len() as u16) + sections_bytes(secs)
}

/// The block ids that a list of runs stands for.
pub open spec fn expand(runs: Seq<(u16, u16)>) -> Seq<u16>
    decreases runs.len(),
{
    if runs.len() == 0 {
        Seq::empty()
    } else {
        expand(runs.drop_last()) + Seq::new(runs.last().1 as nat, |_i: int| runs.last().0)
    }
}

/// `k` (value, length) pairs read from `bytes` at `pos`, and the position
/// after them.
pub open spec fn parse_runs(bytes: Seq<u8>, pos: nat, k: nat) -> Option<(Seq<(u16, u16)>, nat)>
    decreases k,
{
    if k == 0 {
        Some((Seq::empty(), pos))
    } else {
        match parse_runs(bytes, pos, (k - 1) as nat) {
            None => None,
            Some((runs, p)) => if p + 4 <= bytes.len() {
                Some((runs.push((u16_from_le(bytes.subrange(p as int, p + 2 as int)), u16_from_le(bytes.subrange(p + 2 as int, p + 4 as int)))), p + 4))
            } else {
                None
            },
        }
    }
}

/// Runs are acceptable when none is empty and together they fill exactly
/// one section.
pub open spec fn runs_fill_section(runs: Seq<(u16, u16)>) -> bool {
    &&& forall|j: int| 0 <= j < runs.len() ==> #[trigger] runs[j].1 > 0
    &&& expand(runs).len() == SECTION_BLOCKS
}

/// The section encoded at `pos`: its block ids and the position after it.
pub open spec fn parse_section(bytes: Seq<u8>, pos: nat) -> Option<(Seq<u16>, nat)> {
    if pos + 2 > bytes.len() {
        None
    } else {
        let k = u16_from_le(bytes.subrange(pos as int, pos + 2 as int)) as nat;
        match parse_runs(bytes, pos + 2, k) {
            None => None,
            Some((runs, p)) => if runs_fill_section(runs) { Some((expand(runs), p)) } else { None },
        }
    }
}

pub open spec fn parse_sections(bytes: Seq<u8>, pos: nat, k: nat) -> Option<(Seq<Seq<u16>>, nat)>
    decreases k,
{
    if k == 0 {
        Some((Seq::empty(), pos))
    } else {
        match parse_sections(bytes, pos, (k - 1) as nat) {
            None => None,
            Some((secs, p)) => match parse_section(bytes, p) {
                None => None,
                Some((states, q)) => Some((secs.push(states), q)),
            },
        }
    }
}

/// The sections of a chunk file holding exactly `count` sections and
/// nothing after them; `None` for anything else.
pub open spec fn spec_decode_sections(bytes: Seq<u8>, count: nat) -> Option<Seq<Seq<u16>>> {
    if bytes.len() < 7 || bytes.take(4) != chunk_file_magic() || bytes[4] != CHUNK_FILE_VERSION {
        None
    } else if u16_from_le(bytes.subrange(5, 7)) as nat != count {
        None
    } else {
        match parse_sections(bytes, 7, count) {
            None => None,
            Some((secs, p)) => if p == bytes.len() { Some(secs) } else { None },
        }
    }
}

fn push_u16_le(out: &mut Vec<u8>, v: u16)
    ensures
        final(out)@ == old(out)@ + u16_le(v),
{
    out.push(v as u8);
    out.push((v >> 8) as u8);
    assert(out@ =~= old(out)@ + u16_le(v));
}

fn rle_of(states: &[u16; SECTION_BLOCKS]) -> (r: Vec<(u16, usize)>)
    ensures
        r@.len() == rle(states@).len(),
        forall|j: int| 0 <= j < r@.len() ==> r@[j].0 == rle(states@)[j].0 && r@[j].1 as nat == rle(states@)[j].1,
{
    let mut runs: Vec<(u16, usize)> = Vec::new();
    let mut i: usize = 0;
    while i < SECTION_BLOCKS
        invariant
            0 <= i <= SECTION_BLOCKS,
            states@.len() == SECTION_BLOCKS,
            runs@.len() == rle(states@.take(i as int)).len(),
            forall|j: int| 0 <= j < runs@.len() ==> runs@[j].0 == rle(states@.take(i as int))[j].0
                && runs@[j].1 as nat == rle(states@.take(i as int))[j].1,
            forall|j: int| 0 <= j < runs@.len() ==> runs@[j].1 <= i,
        decreases SECTION_BLOCKS - i,
    {
        let value = states[i];
        let ghost prefix = states@.take(i + 1);
        assert(prefix.drop_last() =~= states@.take(i as int));
        let n = runs.len();
        if n > 0 && runs[n - 1].0 == value {
            let count = runs[n - 1].1;
            runs.set(n - 1, (value, count + 1));
        } else {
            runs.push((value, 1));
        }
        i = i + 1;
    }
    assert(states@.take(SECTION_BLOCKS as int) =~= states@);
    runs
}

/// Writes a chunk file holding the given sections.
#[verifier::spinoff_prover]
#[verifier::rlimit(40)]
pub fn encode_sections(sections: &[&[u16; SECTION_BLOCKS]]) -> (r: Vec<u8>)
    ensures
        r@ == spec_encode_sections(sections@.map_values(|a: &[u16; SECTION_BLOCKS]| a@)),
{
    let ghost secs = sections@.map_values(|a: &[u16; SECTION_BLOCKS]| a@);
    let mut out: Vec<u8> = Vec::new();
    out.push(0x46);
    out.push(0x43);
    out.push(0x48);
    out.push(0x4B);
    out.push(CHUNK_FILE_VERSION);
    push_u16_le(&mut out, sections.len() as u16);
    let ghost header = out@;
    assert(header =~= chunk_file_magic().push(CHUNK_FILE_VERSION) + u16_le(secs.len() as u16));
    let mut s: usize = 0;
    while s < sections.len()
        invariant
            s <= sections@.len(),
            secs == sections@.map_values(|a: &[u16; SECTION_BLOCKS]| a@),
            out@ == header + sections_bytes(secs.take(s as int)),
        decreases sections.len() - s,
    {
        let states = sections[s];
        let runs = rle_of(states);
        let ghost before = out@;
        let ghost want = rle(states@);
        push_u16_le(&mut out, runs.len() as u16);
        let mut j: usize = 0;
        while j < runs.len()
            invariant
                j <= runs@.len(),
                runs@.len() == want.len(),
                forall|q: int| 0 <= q < runs@.len() ==> runs@[q].0 == want[q].0 && runs@[q].1 as nat == want[q].1,
                out@ == before + u16_le(want.len() as u16) + runs_bytes(want.take(j as int)),
            decreases runs.len() - j,
        {
            let (value, len) = runs[j];
            push_u16_le(&mut out, value);
            push_u16_le(&mut out, len as u16);
            assert(want.take(j + 1).drop_last() =~= want.take(j as int));
            j = j + 1;
        }
        assert(want.take(runs@.len() as int) =~= want);
        assert(secs.take(s + 1).drop_last() =~= secs.take(s as int));
        s = s + 1;
    }
    assert(secs.take(sections@.len() as int) =~= secs);
    out
}

fn read_u16_le(bytes: &[u8], pos: usize) -> (r: Option<u16>)
    ensures
        pos + 2 <= bytes@.len() ==> r == Some(u16_from_le(bytes@.subrange(pos as int, pos + 2))),
        pos + 2 > bytes@.len() ==> r is None,
{
    if pos > bytes.len() || bytes.len() - pos < 2 {
        return None;
    }
    Some((bytes[pos] as u16) | ((bytes[pos + 1] as u16) << 8))
}


fn read_runs(bytes: &[u8], pos: usize, k: usize) -> (r: Option<(Vec<(u16, u16)>, usize)>)
    ensures
        match parse_runs(bytes@, pos as nat, k as nat) {
            None => r is None,
            Some((runs, p)) => r matches Some((v, q)) && v@ == runs && q == p,
        },
{
    let blen = bytes.len();
    let mut runs: Vec<(u16, u16)> = Vec::new();
    let mut at = pos;
    let mut j: usize = 0;
    while j < k
        invariant
            blen == bytes@.len(),
            j <= k,
            parse_runs(bytes@, pos as nat, j as nat) == Some((runs@, at as nat)),
        decreases k - j,
    {
        let value = match read_u16_le(bytes, at) {
            Some(v) => v,
            None => {
                proof { lemma_parse_runs_none_grows(bytes@, pos as nat, (j + 1) as nat, k as nat); }
                return None;
            }
        };
        let len = match read_u16_le(bytes, at + 2) {
            Some(v) => v,
            None => {
                proof { lemma_parse_runs_none_grows(bytes@, pos as nat, (j + 1) as nat, k as nat); }
                return None;
            }
        };
        runs.push((value, len));
        at = at + 4;
        j = j + 1;
    }
    Some((runs, at))
}

proof fn lemma_parse_runs_none_grows(bytes: Seq<u8>, pos: nat, j: nat, k: nat)
    requires
        j <= k,
        parse_runs(bytes, pos, j) is None,
    ensures
        parse_runs(bytes, pos, k) is None,
    decreases k - j,
{
    if j < k {
        lemma_parse_runs_none_grows(bytes, pos, j, (k - 1) as nat);
    }
}

proof fn lemma_parse_sections_none_grows(bytes: Seq<u8>, pos: nat, j: nat, k: nat)
    requires
        j <= k,
        parse_sections(bytes, pos, j) is None,
    ensures
        parse_sections(bytes, pos, k) is None,
    decreases k - j,
{
    if j < k {
        lemma_parse_sections_none_grows(bytes, pos, j, (k - 1) as nat);
    }
}

/// Expands runs that fill exactly one section into its block ids; `None`
/// when they do not.
fn expand_runs(runs: &Vec<(u16, u16)>) -> (r: Option<[u16; SECTION_BLOCKS]>)
    ensures
        runs_fill_section(runs@) ==> (r matches Some(a) && a@ == expand(runs@)),
        !runs_fill_section(runs@) ==> r is None,
{
    let mut total: u64 = 0;
    let mut j: usize = 0;
    while j < runs.len()
        invariant
            j <= runs@.len(),
            total == expand(runs@.take(j as int)).len(),
            total <= SECTION_BLOCKS,
            forall|q: int| 0 <= q < j ==> #[trigger] runs@[q].1 > 0,
        decreases runs.len() - j,
    {
        let (_, len) = runs[j];
        if len == 0 {
            return None;
        }
        assert(runs@.take(j + 1).drop_last() =~= runs@.take(j as int));
        total = total + len as u64;
        j = j + 1;
        if total > SECTION_BLOCKS as u64 {
            proof { lemma_expand_prefix_len(runs@, j as nat); }
            return None;
        }
    }
    assert(runs@.take(runs@.len() as int) =~= runs@);
    if total != SECTION_BLOCKS as u64 {
        return None;
    }
    let mut states = [0u16; SECTION_BLOCKS];
    let mut at: usize = 0;
    let mut j: usize = 0;
    while j < runs.len()
        invariant
            j <= runs@.len(),
            states@.len() == SECTION_BLOCKS,
            expand(runs@).len() == SECTION_BLOCKS,
            at == expand(runs@.take(j as int)).len(),
            states@.take(at as int) == expand(runs@.take(j as int)),
        decreases runs.len() - j,
    {
        let (value, len) = runs[j];
        let ghost before = states@;
        assert(runs@.take(j + 1).drop_last() =~= runs@.take(j as int));
        proof { lemma_expand_prefix_len(runs@, (j + 1) as nat); }
        let mut q: usize = 0;
        while q < len as usize
            invariant
                q <= len,
                at + len <= SECTION_BLOCKS,
                states@.len() == SECTION_BLOCKS,
                states@.take(at as int) == before.take(at as int),
                forall|t: int| at <= t < at + q ==> states@[t] == value,
            decreases len as usize - q,
        {
            states[at + q] = value;
            q = q + 1;
        }
        assert(states@.take(at + len) =~= expand(runs@.take(j + 1)));
        at = at + len as usize;
        j = j + 1;
    }
    assert(runs@.take(runs@.len() as int) =~= runs@);
    assert(states@.take(SECTION_BLOCKS as int) =~= states@);
    Some(states)
}

proof fn lemma_expand_prefix_len(runs: Seq<(u16, u16)>, j: nat)
    requires
        j <= runs.len(),
    ensures
        expand(runs.take(j as int)).len() <= expand(runs).len(),
    decreases runs.len(),
{
    if j < runs.len() {
        assert(runs.drop_last().take(j as int) =~= runs.take(j as int));
        lemma_expand_prefix_len(runs.drop_last(), j);
    } else {
        assert(runs.take(j as int) =~= runs);
    }
}

/// Reads a chunk file back into its sections. Anything but a well-formed
/// file of exactly `section_count` sections with nothing after them —
/// wrong magic or version, another count, truncation, empty runs, runs
/// that do not fill a section, trailing bytes — gives `None`.
pub fn decode_sections(bytes: &[u8], section_count: usize) -> (r: Option<Vec<[u16; SECTION_BLOCKS]>>)
    ensures
        match spec_decode_sections(bytes@, section_count as nat) {
            None => r is None,
            Some(secs) => r matches Some(v) && v@.len() == secs.len()
                && forall|i: int| 0 <= i < secs.len() ==> #[trigger] v@[i]@ == secs[i],
        },
{
    if bytes.len() < 7 {
        return None;
    }
    if bytes[0] != 0x46 || bytes[1] != 0x43 || bytes[2] != 0x48 || bytes[3] != 0x4B {
        assert(bytes@.take(4) != chunk_file_magic()) by {
            if bytes@.take(4) == chunk_file_magic() {
                assert(bytes@.take(4)[0] == bytes@[0]);
                assert(bytes@.take(4)[1] == bytes@[1]);
                assert(bytes@.take(4)[2] == bytes@[2]);
                assert(bytes@.take(4)[3] == bytes@[3]);
            }
        }
        return None;
    }
    assert(bytes@.take(4) =~= chunk_file_magic());
    if bytes[4] != CHUNK_FILE_VERSION {
        return None;
    }
    let count = match read_u16_le(bytes, 5) {
        Some(count) => count,
        None => return None,
    };
    if count as usize != section_count {
        return None;
    }
    let blen = bytes.len();
    let mut sections: Vec<[u16; SECTION_BLOCKS]> = Vec::new();
    let ghost mut secs: Seq<Seq<u16>> = Seq::empty();
    let mut pos: usize = 7;
    let mut s: usize = 0;
    while s < section_count
        invariant
            blen == bytes@.len(),
            s <= section_count,
            parse_sections(bytes@, 7, s as nat) == Some((secs, pos as nat)),
            sections@.len() == secs.len(),
            forall|i: int| 0 <= i < secs.len() ==> #[trigger] sections@[i]@ == secs[i],
        decreases section_count - s,
    {
        let run_count = match read_u16_le(bytes, pos) {
            Some(n) => n,
            None => {
                proof { lemma_parse_sections_none_grows(bytes@, 7, (s + 1) as nat, section_count as nat); }
                return None;
            }
        };
        let (runs, next) = match read_runs(bytes, pos + 2, run_count as usize) {
            Some(found) => found,
            None => {
                proof { lemma_parse_sections_none_grows(bytes@, 7, (s + 1) as nat, section_count as nat); }
                return None;
            }
        };
        let states = match expand_runs(&runs) {
            Some(states) => states,
            None => {
                proof { lemma_parse_sections_none_grows(bytes@, 7, (s + 1) as nat, section_count as nat); }
                return None;
            }
        };
        proof { secs = secs.push(states@); }
        sections.push(states);
        pos = next;
        s = s + 1;
    }
    if pos != bytes.len() {
        return None;
    }
    Some(sections)
}


proof fn lemma_parse_sections_len(bytes: Seq<u8>, pos: nat, k: nat)
    ensures
        parse_sections(bytes, pos, k) matches Some((secs, _)) ==> secs.len() == k
            && forall|i: int| 0 <= i < k ==> (#[trigger] secs[i]).len() == SECTION_BLOCKS,
    decreases k,
{
    if k > 0 {
        lemma_parse_sections_len(bytes, pos, (k - 1) as nat);
    }
}

/// A decoded chunk file holds exactly the requested number of sections,
/// each of `SECTION_BLOCKS` block ids.
pub proof fn lemma_decode_sections_len(bytes: Seq<u8>, count: nat)
    ensures
        spec_decode_sections(bytes, count) matches Some(secs) ==> secs.len() == count
            && forall|i: int| 0 <= i < count ==> (#[trigger] secs[i]).len() == SECTION_BLOCKS,
{
    lemma_parse_sections_len(bytes, 7, count);
}

// ---------------------------------------------------------------------------
// Round trip: what `encode_sections` writes, `decode_sections` reads back
// ---------------------------------------------------------------------------

/// Run lengths as the u16 values the file stores.
pub open spec fn stored_runs(runs: Seq<(u16, nat)>) -> Seq<(u16, u16)> {
    runs.map_values(|r: (u16, nat)| (r.0, r.1 as u16))
}

proof fn lemma_u16_le_roundtrip(v: u16)
    ensures
        u16_from_le(u16_le(v)) == v,
{
    let b = u16_le(v);
    assert(b[0] == v as u8 && b[1] == (v >> 8) as u8);
    assert(((v as u8) as u16) | ((((v >> 8) as u8) as u16) << 8) == v) by (bit_vector);
}

proof fn lemma_runs_bytes_len(runs: Seq<(u16, nat)>)
    ensures
        runs_bytes(runs).len() == 4 * runs.len(),
    decreases runs.len(),
{
    if runs.len() > 0 {
        lemma_runs_bytes_len(runs.drop_last());
    }
}

/// Every run of `rle(s)` is 1 to `s.len()` long, there are at most
/// `s.len()` of them, and expanding them gives `s` back.
proof fn lemma_rle(s: Seq<u16>)
    ensures
        rle(s).len() <= s.len(),
        forall|j: int| 0 <= j < rle(s).len() ==> 1 <= (#[trigger] rle(s)[j]).1 <= s.len(),
        s.len() <= u16::MAX ==> expand(stored_runs(rle(s))) == s,
    decreases s.len(),
{
    if s.len() > 0 {
        let prev = rle(s.drop_last());
        lemma_rle(s.drop_last());
        let v = s.last();
        if s.len() <= u16::MAX {
            let sp = stored_runs(prev);
            if prev.len() > 0 && prev.last().0 == v {
                let n = prev.last().1;
                let cur = prev.update(prev.len() - 1, (v, n + 1));
                assert(stored_runs(cur).drop_last() =~= sp.drop_last());
                assert(sp.drop_last() =~= stored_runs(prev.drop_last()));
                assert(expand(sp) == expand(sp.drop_last()) + Seq::new(n as u16 as nat, |_i: int| v));
                assert(expand(stored_runs(cur)) == expand(sp.drop_last()) + Seq::new((n + 1) as u16 as nat, |_i: int| v));
                assert(n <= s.len() - 1);
                let head = expand(sp.drop_last());
                let run = Seq::new(n as u16 as nat, |_i: int| v);
                assert(Seq::new((n + 1) as u16 as nat, |_i: int| v) =~= run.push(v));
                assert(expand(sp) == s.drop_last());
                assert(head + run.push(v) =~= (head + run).push(v));
                assert(s.drop_last().push(v) =~= s);
                assert(expand(stored_runs(cur)) =~= s);
            } else {
                let cur = prev.push((v, 1));
                assert(stored_runs(cur).drop_last() =~= sp);
                assert(Seq::new(1, |_i: int| v) =~= seq![v]);
                assert(expand(stored_runs(cur)) =~= s);
            }
        }
    }
}

/// Reading `runs.len()` runs back from where `runs_bytes(runs)` stands.
proof fn lemma_parse_runs(bytes: Seq<u8>, pos: nat, runs: Seq<(u16, nat)>)
    requires
        pos + 4 * runs.len() <= bytes.len(),
        bytes.subrange(pos as int, (pos + 4 * runs.len()) as int) == runs_bytes(runs),
    ensures
        parse_runs(bytes, pos, runs.len()) == Some((stored_runs(runs), (pos + 4 * runs.len()) as nat)),
    decreases runs.len(),
{
    lemma_runs_bytes_len(runs);
    if runs.len() == 0 {
        assert(stored_runs(runs) =~= Seq::<(u16, u16)>::empty());
    } else {
        let k: int = runs.len() as int;
        let front = runs.drop_last();
        lemma_runs_bytes_len(front);
        let ps: int = pos as int;
        let p: int = ps + 4 * (k - 1);
        let whole = bytes.subrange(ps, ps + 4 * k);
        assert(bytes.subrange(ps, p) =~= runs_bytes(front)) by {
            assert(bytes.subrange(ps, p) =~= whole.subrange(0, 4 * (k - 1)));
        }
        lemma_parse_runs(bytes, pos, front);
        let (v, n) = runs.last();
        assert(bytes.subrange(p, p + 2) =~= u16_le(v)) by {
            assert(bytes.subrange(p, p + 2) =~= whole.subrange(4 * (k - 1), 4 * (k - 1) + 2));
        }
        assert(bytes.subrange(p + 2, p + 4) =~= u16_le(n as u16)) by {
            assert(bytes.subrange(p + 2, p + 4) =~= whole.subrange(4 * (k - 1) + 2, 4 * k));
        }
        lemma_u16_le_roundtrip(v);
        lemma_u16_le_roundtrip(n as u16);
        assert(stored_runs(front).push((v, n as u16)) =~= stored_runs(runs));
    }
}

/// Reading one section back from where `section_bytes(states)` stands.
proof fn lemma_parse_section(bytes: Seq<u8>, pos: nat, states: Seq<u16>)
    requires
        states.len() == SECTION_BLOCKS,
        pos + section_bytes(states).len() <= bytes.len(),
        bytes.subrange(pos as int, (pos + section_bytes(states).len()) as int) == section_bytes(states),
    ensures
        parse_section(bytes, pos) == Some((states, (pos + section_bytes(states).len()) as nat)),
{
    let runs = rle(states);
    lemma_rle(states);
    lemma_runs_bytes_len(runs);
    let ps: int = pos as int;
    let total: int = section_bytes(states).len() as int;
    let k: int = runs.len() as int;
    assert(total == 2 + 4 * k);
    let whole = bytes.subrange(ps, ps + total);
    assert(bytes.subrange(ps, ps + 2) =~= u16_le(runs.len() as u16)) by {
        assert(bytes.subrange(ps, ps + 2) =~= whole.subrange(0, 2));
    }
    lemma_u16_le_roundtrip(runs.len() as u16);
    assert(bytes.subrange(ps + 2, ps + 2 + 4 * k) =~= runs_bytes(runs)) by {
        assert(bytes.subrange(ps + 2, ps + 2 + 4 * k) =~= whole.subrange(2, total));
    }
    lemma_parse_runs(bytes, (pos + 2) as nat, runs);
    let stored = stored_runs(runs);
    assert forall|j: int| 0 <= j < stored.len() implies #[trigger] stored[j].1 > 0 by {
        assert(1 <= runs[j].1 <= SECTION_BLOCKS);
    }
}

/// Reading sections back from where `sections_bytes(secs)` stands.
proof fn lemma_parse_sections(bytes: Seq<u8>, pos: nat, secs: Seq<Seq<u16>>)
    requires
        forall|i: int| 0 <= i < secs.len() ==> (#[trigger] secs[i]).len() == SECTION_BLOCKS,
        pos + sections_bytes(secs).len() <= bytes.len(),
        bytes.subrange(pos as int, (pos + sections_bytes(secs).len()) as int) == sections_bytes(secs),
    ensures
        parse_sections(bytes, pos, secs.len()) == Some((secs, (pos + sections_bytes(secs).len()) as nat)),
    decreases secs.len(),
{
    if secs.len() == 0 {
        assert(secs =~= Seq::<Seq<u16>>::empty());
    } else {
        let front = secs.drop_last();
        let ps: int = pos as int;
        let a: int = sections_bytes(front).len() as int;
        let b: int = section_bytes(secs.last()).len() as int;
        let whole = bytes.subrange(ps, ps + a + b);
        assert(bytes.subrange(ps, ps + a) =~= sections_bytes(front)) by {
            assert(bytes.subrange(ps, ps + a) =~= whole.subrange(0, a));
        }
        lemma_parse_sections(bytes, pos, front);
        assert(bytes.subrange(ps + a, ps + a + b) =~= section_bytes(secs.last())) by {
            assert(bytes.subrange(ps + a, ps + a + b) =~= whole.subrange(a, a + b));
        }
        lemma_parse_section(bytes, (pos + a) as nat, secs.last());
        assert(front.push(secs.last()) =~= secs);
    }
}

/// Reading back a written chunk file gives the sections that were written,
/// for up to `u16::MAX` sections of `SECTION_BLOCKS` block ids each.
pub proof fn law_sections_roundtrip(secs: Seq<Seq<u16>>)
    requires
        secs.len() <= u16::MAX,
        forall|i: int| 0 <= i < secs.len() ==> (#[trigger] secs[i]).len() == SECTION_BLOCKS,
    ensures
        spec_decode_sections(spec_encode_sections(secs), secs.len()) == Some(secs),
{
    let bytes = spec_encode_sections(secs);
    let body = sections_bytes(secs);
    let n: int = body.len() as int;
    assert(bytes.len() == 7 + n);
    assert(bytes.take(4) =~= chunk_file_magic());
    assert(bytes.subrange(5, 7) =~= u16_le(secs.len() as u16));
    lemma_u16_le_roundtrip(secs.len() as u16);
    assert(bytes.subrange(7, 7 + n) =~= body);
    lemma_parse_sections(bytes, 7, secs);
}

// ---------------------------------------------------------------------------
// File names and stored stacks
// ---------------------------------------------------------------------------

/// ASCII letters, digits, `_` and `-` are kept in file names.
pub open spec fn file_safe(c: char) -> bool {
    ('a' <= c <= 'z') || ('A' <= c <= 'Z') || ('0' <= c <= '9') || c == '_' || c == '-'
}

/// Each unsafe character replaced by `_`; an empty name becomes `player`.
pub open spec fn sanitized(name: Seq<char>) -> Seq<char> {
    if name.len() == 0 {
        "player"@
    } else {
        name.map_values(|c: char| if file_safe(c) { c } else { '_' })
    }
}

/// A name that is safe to use as a file name.
#[must_use]
pub fn sanitize_filename(name: &str) -> (r: String)
    ensures
        r@ == sanitized(name@),
{
    let mut cleaned = String::new();
    for c in it: name.chars()
        invariant
            it.seq() == name@,
            cleaned@ == name@.take(it.index()).map_values(|c: char| if file_safe(c) { c } else { '_' }),
    {
        let keep = ('a' <= c && c <= 'z') || ('A' <= c && c <= 'Z') || ('0' <= c && c <= '9') || c == '_' || c == '-';
        push_char(&mut cleaned, if keep { c } else { '_' });
        assert(cleaned@ =~= name@.take(it.index() + 1).map_values(|c: char| if file_safe(c) { c } else { '_' }));
    }
    assert(name@.take(name@.len() as int) =~= name@);
    proof {
        crate::java::proto::lemma_encode_utf8_len(name@);
    }
    if name.as_bytes().len() == 0 {
        return String::from_str("player");
    }
    cleaned
}

/// The file a player's data is kept in: the sanitized name and `.toml`.
#[must_use]
pub fn player_file_name(name: &str) -> (r: String)
    ensures
        r@ == sanitized(name@) + ".toml"@,
{
    let mut file = sanitize_filename(name);
    file.append(".toml");
    file
}

/// The file a chunk is kept in: `c.<x>.<z>.bin`.
#[must_use]
pub fn chunk_file_name(x: i32, z: i32) -> (r: String)
    ensures
        r@ == "c."@ + decimal(x as int) + "."@ + decimal(z as int) + ".bin"@,
{
    let mut file = String::from_str("c.");
    push_decimal(&mut file, x as i64);
    file.append(".");
    push_decimal(&mut file, z as i64);
    file.append(".bin");
    file
}

/// What a saved (id, count) pair restores: the stack, or empty for an
/// unknown id, air, a zero count or more than a full stack.
pub open spec fn restored_stack(id: i32, count: u32) -> ItemStack {
    match item_from_id(id) {
        Some(item) => if count == 0 || item == Item::Air || count > MAX_STACK { empty_stack() } else { ItemStack { item, count } },
        None => empty_stack(),
    }
}

/// Restores the saved slots (the first `INVENTORY_SIZE` pairs; slots past
/// the saved ones keep their stacks), the selected hotbar slot (kept when
/// out of range) and the cursor.
pub fn restore_items(inventory: &mut Inventory, cursor: &mut ItemStack, selected: u8, stacks: &Vec<(i32, u32)>, saved_cursor: (i32, u32))
    ensures
        final(inventory).spec_selected() == if selected <= MAX_HOTBAR_INDEX { selected } else { old(inventory).spec_selected() },
        final(inventory).spec_slots().len() == INVENTORY_SIZE,
        forall|i: int| 0 <= i < INVENTORY_SIZE ==> #[trigger] final(inventory).spec_slots()[i] == if i < stacks@.len() {
            restored_stack(stacks@[i].0, stacks@[i].1)
        } else {
            old(inventory).spec_slots()[i]
        },
        *final(cursor) == restored_stack(saved_cursor.0, saved_cursor.1),
{
    proof {
        Inventory::lemma_shape(&*inventory);
    }
    inventory.select(selected);
    let ghost before = inventory.spec_slots();
    let mut i: usize = 0;
    while i < stacks.len() && i < INVENTORY_SIZE
        invariant
            i <= INVENTORY_SIZE,
            i <= stacks@.len(),
            before.len() == INVENTORY_SIZE,
            before == old(inventory).spec_slots(),
            inventory.spec_selected() == if selected <= MAX_HOTBAR_INDEX { selected } else { old(inventory).spec_selected() },
            inventory.spec_slots().len() == INVENTORY_SIZE,
            forall|j: int| 0 <= j < INVENTORY_SIZE ==> #[trigger] inventory.spec_slots()[j] == if j < i {
                restored_stack(stacks@[j].0, stacks@[j].1)
            } else {
                before[j]
            },
        decreases stacks.len() - i,
    {
        let (id, count) = stacks[i];
        inventory.set(i, stack_of(id, count));
        i = i + 1;
    }
    *cursor = stack_of(saved_cursor.0, saved_cursor.1);
}

/// A stored (item id, count) pair as a stack: unknown items, a zero count
/// and counts over a full stack read as empty.
#[must_use]
pub fn stack_of(id: i32, count: u32) -> (r: ItemStack)
    ensures
        r == (match item_from_id(id) {
            Some(item) => if count == 0 || item == Item::Air || count > MAX_STACK { empty_stack() } else { ItemStack { item, count } },
            None => empty_stack(),
        }),
{
    if count == 0 {
        return ItemStack::empty();
    }
    match Item::from_id(id) {
        Some(item) => match ItemStack::new(item, count) {
            Some(stack) => stack,
            None => ItemStack::empty(),
        },
        None => ItemStack::empty(),
    }
}

} // verus!
