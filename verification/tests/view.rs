use spironmc::java::view::{chunks_to_load, chunks_to_unload, in_sight, players_to_despawn, view_chunks, view_in_range, VIEW_AREA};
use spironmc::world::ChunkPos;

#[test]
fn view_square_is_sent_by_x_then_z() {
    let view = view_chunks(ChunkPos::new(0, 0));
    assert_eq!(view.len(), VIEW_AREA);
    assert_eq!(view[0], ChunkPos::new(-6, -6));
    assert_eq!(view[1], ChunkPos::new(-6, -5));
    assert_eq!(view[13], ChunkPos::new(-5, -6));
    assert_eq!(view[VIEW_AREA - 1], ChunkPos::new(6, 6));
    for pair in view.windows(2) {
        assert!((pair[0].x, pair[0].z) < (pair[1].x, pair[1].z));
    }
}

#[test]
fn first_view_loads_everything_and_unloads_nothing() {
    let center = ChunkPos::new(3, -2);
    assert_eq!(chunks_to_load(&[], center), view_chunks(center));
    assert!(chunks_to_unload(&[], center).is_empty());
}

#[test]
fn staying_put_changes_nothing() {
    let center = ChunkPos::new(-4, 9);
    let held = view_chunks(center);
    assert!(chunks_to_load(&held, center).is_empty());
    assert!(chunks_to_unload(&held, center).is_empty());
}

#[test]
fn moving_one_chunk_east_swaps_one_column() {
    let held = view_chunks(ChunkPos::new(0, 0));
    let center = ChunkPos::new(1, 0);
    let unload = chunks_to_unload(&held, center);
    let load = chunks_to_load(&held, center);
    let west: Vec<ChunkPos> = (-6..=6).map(|z| ChunkPos::new(-6, z)).collect();
    let east: Vec<ChunkPos> = (-6..=6).map(|z| ChunkPos::new(7, z)).collect();
    assert_eq!(unload, west);
    assert_eq!(load, east);

    let mut after: Vec<ChunkPos> = held.into_iter().filter(|p| !unload.contains(p)).collect();
    after.extend(load);
    after.sort_by_key(|p| (p.x, p.z));
    assert_eq!(after, view_chunks(center));
}

#[test]
fn jumping_far_replaces_the_whole_view() {
    let held = view_chunks(ChunkPos::new(0, 0));
    let center = ChunkPos::new(100, -100);
    assert_eq!(chunks_to_unload(&held, center), held);
    assert_eq!(chunks_to_load(&held, center), view_chunks(center));
}

#[test]
fn view_in_range_keeps_to_the_i32_range() {
    assert!(view_in_range(ChunkPos::new(0, 0)));
    assert!(!view_in_range(ChunkPos::new(i32::MAX, 0)));
    assert!(!view_in_range(ChunkPos::new(0, i32::MIN)));
}

#[test]
fn players_out_of_sight_or_gone_are_despawned_in_order() {
    let held = vec![ChunkPos::new(0, 0), ChunkPos::new(1, 0)];
    assert!(in_sight(&held, ChunkPos::new(1, 0)));
    assert!(!in_sight(&held, ChunkPos::new(5, 5)));
    let watched = vec![
        (7, Some(ChunkPos::new(5, 5))),
        (3, Some(ChunkPos::new(0, 0))),
        (9, None),
        (4, Some(ChunkPos::new(1, 0))),
    ];
    assert_eq!(players_to_despawn(&watched, &held), vec![7, 9]);
    assert!(players_to_despawn(&Vec::new(), &held).is_empty());
}
