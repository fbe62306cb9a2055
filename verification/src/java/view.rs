//! The chunks a player holds: the square of `CHUNK_RADIUS` chunks around
//! the chunk it stands in, and what to unload and load when it moves.
use vstd::prelude::*;

use vstd::arithmetic::div_mod::lemma_fundamental_div_mod_converse;

use super::chunks::CHUNK_RADIUS;
use crate::world::ChunkPos;

verus! {

broadcast use vstd::seq::group_seq_axioms, vstd::seq_lib::group_seq_properties;

/// Chunks along one side of the view square.
pub const VIEW_WIDTH: i32 = 2 * CHUNK_RADIUS + 1;

/// Chunks in the whole view square.
pub const VIEW_AREA: usize = 169;

/// Whether `pos` lies in the square around `center`.
pub open spec fn in_view(center: ChunkPos, pos: ChunkPos) -> bool {
    &&& center.x - CHUNK_RADIUS <= pos.x <= center.x + CHUNK_RADIUS
    &&& center.z - CHUNK_RADIUS <= pos.z <= center.z + CHUNK_RADIUS
}

/// The view square around `center` keeps to the i32 range.
pub open spec fn view_fits(center: ChunkPos) -> bool {
    &&& i32::MIN + CHUNK_RADIUS <= center.x <= i32::MAX - CHUNK_RADIUS
    &&& i32::MIN + CHUNK_RADIUS <= center.z <= i32::MAX - CHUNK_RADIUS
}

/// Whether the view square around `center` keeps to the i32 range.
pub fn view_in_range(center: ChunkPos) -> (r: bool)
    ensures
        r == view_fits(center),
{
    i32::MIN + CHUNK_RADIUS <= center.x && center.x <= i32::MAX - CHUNK_RADIUS && i32::MIN + CHUNK_RADIUS <= center.z
        && center.z <= i32::MAX - CHUNK_RADIUS
}

/// The watched players a viewer no longer sees, in the order they were seen: each
/// pair is a watched player and the chunk it stands in now (`None` once
/// it has left); it stays in sight while that chunk is one the viewer holds.
pub open spec fn despawns(watched: Seq<(u64, Option<ChunkPos>)>, held: Seq<ChunkPos>) -> Seq<u64>
    decreases watched.len(),
{
    if watched.len() == 0 {
        Seq::empty()
    } else {
        let rest = despawns(watched.drop_last(), held);
        match watched.last().1 {
            Some(c) => if held.contains(c) { rest } else { rest.push(watched.last().0) },
            None => rest.push(watched.last().0),
        }
    }
}

/// Whether the viewer holding `held` sees something standing in `chunk`.
pub fn in_sight(held: &Vec<ChunkPos>, chunk: ChunkPos) -> (r: bool)
    ensures
        r == held@.contains(chunk),
{
    let mut i: usize = 0;
    while i < held.len()
        invariant
            i <= held@.len(),
            forall|j: int| 0 <= j < i ==> held@[j] != chunk,
        decreases held.len() - i,
    {
        if held[i] == chunk {
            return true;
        }
        i = i + 1;
    }
    false
}

/// The watched players to despawn for a viewer (see `despawns`).
pub fn players_to_despawn(watched: &Vec<(u64, Option<ChunkPos>)>, held: &Vec<ChunkPos>) -> (r: Vec<u64>)
    ensures
        r@ == despawns(watched@, held@),
{
    let mut out: Vec<u64> = Vec::new();
    let mut i: usize = 0;
    while i < watched.len()
        invariant
            i <= watched@.len(),
            out@ == despawns(watched@.take(i as int), held@),
        decreases watched.len() - i,
    {
        let (owner, chunk) = watched[i];
        assert(watched@.take(i + 1).drop_last() =~= watched@.take(i as int));
        assert(watched@.take(i + 1).last() == watched@[i as int]);
        match chunk {
            Some(c) => {
                if !in_sight(held, c) {
                    out.push(owner);
                }
            },
            None => {
                out.push(owner);
            },
        }
        i = i + 1;
    }
    assert(watched@.take(i as int) =~= watched@);
    out
}

/// The view square in sending order: by x, then by z.
pub open spec fn view_seq(center: ChunkPos) -> Seq<ChunkPos> {
    Seq::new(
        VIEW_AREA as nat,
        |i: int|
            ChunkPos {
                x: (center.x - CHUNK_RADIUS + i / (VIEW_WIDTH as int)) as i32,
                z: (center.z - CHUNK_RADIUS + i % (VIEW_WIDTH as int)) as i32,
            },
    )
}

/// Keeps the chunks outside the view around `center`.
pub open spec fn outside_view(center: ChunkPos) -> spec_fn(ChunkPos) -> bool {
    |p: ChunkPos| !in_view(center, p)
}

/// Keeps the chunks that `held` does not hold.
pub open spec fn not_held(held: Seq<ChunkPos>) -> spec_fn(ChunkPos) -> bool {
    |p: ChunkPos| !held.contains(p)
}

/// Where chunk `i` of the view square sits: column `i / 13`, row `i % 13`.
proof fn lemma_view_index(center: ChunkPos, i: int)
    requires
        view_fits(center),
        0 <= i < VIEW_AREA,
    ensures
        0 <= i / (VIEW_WIDTH as int) < VIEW_WIDTH,
        0 <= i % (VIEW_WIDTH as int) < VIEW_WIDTH,
        i == (i / (VIEW_WIDTH as int)) * (VIEW_WIDTH as int) + i % (VIEW_WIDTH as int),
        view_seq(center)[i].x == center.x - CHUNK_RADIUS + i / (VIEW_WIDTH as int),
        view_seq(center)[i].z == center.z - CHUNK_RADIUS + i % (VIEW_WIDTH as int),
{
    assert(0 <= i / 13 < 13 && 0 <= i % 13 < 13 && i == (i / 13) * 13 + i % 13) by (nonlinear_arith)
        requires
            0 <= i < 169,
    ;
}

/// The view square holds each chunk in view exactly once, and nothing
/// else, in order of x and then z.
pub proof fn law_view_square(center: ChunkPos)
    requires
        view_fits(center),
    ensures
        forall|p: ChunkPos| view_seq(center).contains(p) <==> in_view(center, p),
        view_seq(center).no_duplicates(),
        forall|i: int, j: int|
            #![trigger view_seq(center)[i], view_seq(center)[j]]
            0 <= i < j < view_seq(center).len() ==> view_seq(center)[i].x < view_seq(center)[j].x || (view_seq(center)[i].x
                == view_seq(center)[j].x && view_seq(center)[i].z < view_seq(center)[j].z),
{
    let s = view_seq(center);
    let w = VIEW_WIDTH as int;
    assert forall|p: ChunkPos| s.contains(p) implies in_view(center, p) by {
        let i = choose|i: int| 0 <= i < s.len() && s[i] == p;
        lemma_view_index(center, i);
    }
    assert forall|p: ChunkPos| in_view(center, p) implies s.contains(p) by {
        let q = p.x - (center.x - CHUNK_RADIUS);
        let r = p.z - (center.z - CHUNK_RADIUS);
        let i = q * w + r;
        assert(0 <= i < VIEW_AREA) by (nonlinear_arith)
            requires
                0 <= q < 13,
                0 <= r < 13,
                i == q * 13 + r,
                w == 13,
        ;
        lemma_fundamental_div_mod_converse(i, w, q, r);
        lemma_view_index(center, i);
        assert(s[i] == p);
    }
    assert forall|i: int, j: int|
        #![trigger s[i], s[j]]
        0 <= i < j < s.len() implies s[i].x < s[j].x || (s[i].x == s[j].x && s[i].z < s[j].z) by {
        lemma_view_index(center, i);
        lemma_view_index(center, j);
    }
    assert forall|i: int, j: int|
        #![trigger s[i], s[j]]
        0 <= i < s.len() && 0 <= j < s.len() && i != j implies s[i] != s[j] by {
        lemma_view_index(center, i);
        lemma_view_index(center, j);
    }
}

/// After a move to `center`, a client that held `held` and then unloads
/// `chunks_to_unload` and loads `chunks_to_load` holds exactly the chunks
/// in view; it is sent no chunk it already held, and unloads only chunks
/// out of view.
pub proof fn law_move_reaches_view(held: Seq<ChunkPos>, center: ChunkPos)
    requires
        view_fits(center),
    ensures
        forall|p: ChunkPos|
            ((held.contains(p) && !held.filter(outside_view(center)).contains(p)) || view_seq(center).filter(
                not_held(held),
            ).contains(p)) <==> in_view(center, p),
        forall|p: ChunkPos| #[trigger] view_seq(center).filter(not_held(held)).contains(p) ==> !held.contains(p),
        forall|p: ChunkPos| #[trigger] held.filter(outside_view(center)).contains(p) ==> !in_view(center, p),
{
    law_view_square(center);
    let unload = held.filter(outside_view(center));
    let load = view_seq(center).filter(not_held(held));
    assert forall|p: ChunkPos| #[trigger] load.contains(p) implies !held.contains(p) && in_view(center, p) by {
        let k = choose|k: int| 0 <= k < load.len() && load[k] == p;
        view_seq(center).lemma_filter_pred(not_held(held), k);
        view_seq(center).lemma_filter_contains_rev(not_held(held), p);
    }
    assert forall|p: ChunkPos| #[trigger] unload.contains(p) implies !in_view(center, p) && held.contains(p) by {
        let k = choose|k: int| 0 <= k < unload.len() && unload[k] == p;
        held.lemma_filter_pred(outside_view(center), k);
        held.lemma_filter_contains_rev(outside_view(center), p);
    }
    assert forall|p: ChunkPos| in_view(center, p) implies (held.contains(p) && !unload.contains(p)) || load.contains(p) by {
        if !held.contains(p) {
            let i = choose|i: int| 0 <= i < view_seq(center).len() && view_seq(center)[i] == p;
            view_seq(center).lemma_filter_contains(not_held(held), i);
        }
    }
}

fn is_in_view(center: ChunkPos, pos: ChunkPos) -> (r: bool)
    ensures
        r == in_view(center, pos),
{
    let (cx, cz) = (center.x as i64, center.z as i64);
    let (px, pz) = (pos.x as i64, pos.z as i64);
    let radius = CHUNK_RADIUS as i64;
    cx - radius <= px && px <= cx + radius && cz - radius <= pz && pz <= cz + radius
}

fn holds(held: &[ChunkPos], pos: ChunkPos) -> (r: bool)
    ensures
        r == held@.contains(pos),
{
    let mut i: usize = 0;
    while i < held.len()
        invariant
            i <= held@.len(),
            forall|j: int| 0 <= j < i ==> held@[j] != pos,
        decreases held.len() - i,
    {
        if held[i].x == pos.x && held[i].z == pos.z {
            assert(held@[i as int] == pos);
            return true;
        }
        i = i + 1;
    }
    false
}

/// Every chunk of the view square around `center`, by x and then by z.
pub fn view_chunks(center: ChunkPos) -> (r: Vec<ChunkPos>)
    requires
        view_fits(center),
    ensures
        r@ == view_seq(center),
{
    let mut out: Vec<ChunkPos> = Vec::new();
    let mut k: usize = 0;
    while k < VIEW_AREA
        invariant
            k <= VIEW_AREA,
            view_fits(center),
            out@ == view_seq(center).take(k as int),
        decreases VIEW_AREA - k,
    {
        let dx = (k / 13) as i32;
        let dz = (k % 13) as i32;
        let pos = ChunkPos { x: center.x - CHUNK_RADIUS + dx, z: center.z - CHUNK_RADIUS + dz };
        out.push(pos);
        k = k + 1;
        assert(out@ =~= view_seq(center).take(k as int));
    }
    assert(view_seq(center).take(VIEW_AREA as int) =~= view_seq(center));
    out
}

/// The held chunks outside the view around `center`, in the order held.
pub fn chunks_to_unload(held: &[ChunkPos], center: ChunkPos) -> (r: Vec<ChunkPos>)
    ensures
        r@ == held@.filter(outside_view(center)),
{
    let mut out: Vec<ChunkPos> = Vec::new();
    let mut i: usize = 0;
    while i < held.len()
        invariant
            i <= held@.len(),
            out@ == held@.take(i as int).filter(outside_view(center)),
        decreases held.len() - i,
    {
        let pos = held[i];
        proof {
            assert(held@.take(i + 1) =~= held@.take(i as int).push(pos));
            held@.take(i as int).lemma_filter_push(pos, outside_view(center));
        }
        if !is_in_view(center, pos) {
            out.push(pos);
        }
        i = i + 1;
    }
    assert(held@.take(held@.len() as int) =~= held@);
    out
}

/// The chunks of the view square around `center` that are not held yet,
/// in sending order.
pub fn chunks_to_load(held: &[ChunkPos], center: ChunkPos) -> (r: Vec<ChunkPos>)
    requires
        view_fits(center),
    ensures
        r@ == view_seq(center).filter(not_held(held@)),
{
    let square = view_chunks(center);
    let mut out: Vec<ChunkPos> = Vec::new();
    let mut i: usize = 0;
    while i < square.len()
        invariant
            i <= square@.len(),
            square@ == view_seq(center),
            out@ == square@.take(i as int).filter(not_held(held@)),
        decreases square.len() - i,
    {
        let pos = square[i];
        proof {
            assert(square@.take(i + 1) =~= square@.take(i as int).push(pos));
            square@.take(i as int).lemma_filter_push(pos, not_held(held@));
        }
        if !holds(held, pos) {
            out.push(pos);
        }
        i = i + 1;
    }
    assert(square@.take(square@.len() as int) =~= square@);
    out
}

} // verus!
