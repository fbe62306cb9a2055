use spironmc::world::{
    Block, BlockPos, Chunk, ChunkManager, ChunkPos, ChunkSection, SECTION_COUNT, SECTION_SIZE, SURFACE_Y, WORLD_HEIGHT,
    WORLD_MIN_Y,
};

#[test]
fn chunk_conversion_at_boundaries() {
    for (world, chunk, local) in [(0, 0, 0), (15, 0, 15), (16, 1, 0), (17, 1, 1), (-1, -1, 15), (-16, -1, 0), (-17, -2, 15)] {
        assert_eq!(ChunkPos::from_world(world, 0).x, chunk, "x={world}");
        assert_eq!(world.rem_euclid(16) as u8, local, "x={world}");
    }
    for (world, chunk, local) in [(0, 0, 0), (-1, -1, 15), (31, 1, 15), (-33, -3, 15)] {
        assert_eq!(ChunkPos::from_world(0, world).z, chunk, "z={world}");
        assert_eq!(world.rem_euclid(16) as u8, local, "z={world}");
    }
    assert_eq!(BlockPos::new(-1, 64, -17).chunk_pos(), ChunkPos::new(-1, -2));
    assert_eq!(BlockPos::new(-1, 64, 0).local_x(), 15);
    assert_eq!(BlockPos::new(0, 64, -1).local_z(), 15);
    assert_eq!(ChunkPos::new(2, -3).min_block(), (32, -48));
}

#[test]
fn sections_store_and_report_empty() {
    let mut section = ChunkSection::new(0);
    assert!(section.is_empty());
    assert_eq!(section.section_y(), 0);
    assert_eq!(section.get_local(0, 0, 0), Block::Air);
    assert_eq!(section.set_local(1, 2, 3, Block::Stone), Block::Air);
    assert_eq!(section.get_local(1, 2, 3), Block::Stone);
    assert!(!section.is_empty());
    assert_eq!(section.set_local(1, 2, 3, Block::Air), Block::Stone);
    assert!(section.is_empty());
}

#[test]
fn chunk_blocks_across_sections_and_boundaries() {
    let mut chunk = Chunk::new(0, 0);
    assert_eq!(chunk.pos(), ChunkPos::new(0, 0));
    assert_eq!(chunk.section_count(), SECTION_COUNT);
    assert_eq!(chunk.get_block(0, SURFACE_Y, 0), Some(Block::GrassBlock));
    assert_eq!(chunk.get_block(0, SURFACE_Y - 1, 0), Some(Block::Dirt));
    assert_eq!(chunk.get_block(0, WORLD_MIN_Y, 0), Some(Block::Stone));
    assert_eq!(chunk.get_block(0, SURFACE_Y + 1, 0), Some(Block::Air));
    assert_eq!(chunk.get_block(0, WORLD_MIN_Y - 1, 0), None);
    assert_eq!(chunk.get_block(0, WORLD_MIN_Y + WORLD_HEIGHT, 0), None);
    assert_eq!(chunk.get_block(16, 64, 0), None);

    let prev = chunk.set_block(15, 100, 15, Block::Stone);
    assert_eq!(prev, Some(Block::Air));
    assert_eq!(chunk.get_block(15, 100, 15), Some(Block::Stone));
    let prev = chunk.set_block(15, 100, 15, Block::Dirt);
    assert_eq!(prev, Some(Block::Stone));

    let mut neg = Chunk::new(-2, -1);
    assert_eq!(neg.get_block(-17, SURFACE_Y, -1), Some(Block::GrassBlock));
    assert_eq!(neg.set_block(-32, 70, -16, Block::Dirt), Some(Block::Air));
    assert_eq!(neg.get_block(-32, 70, -16), Some(Block::Dirt));
}

#[test]
fn section_changes_track_and_drain() {
    let mut chunk = Chunk::new(0, 0);
    for index in 0..chunk.section_count() {
        assert!(!chunk.section(index).unwrap().is_dirty());
    }
    assert_eq!(chunk.set_block(0, 100, 0, Block::Stone), Some(Block::Air));
    let section = (100 - WORLD_MIN_Y) as usize / SECTION_SIZE as usize;
    assert!(chunk.section(section).unwrap().is_dirty());
    let taken = chunk.section_mut(section).unwrap().take_changed();
    assert_eq!(taken, vec![(0, (100 - WORLD_MIN_Y) as u8 % 16, 0)]);
    assert!(!chunk.section(section).unwrap().is_dirty());
    assert_eq!(chunk.set_block(0, 100, 0, Block::Stone), Some(Block::Stone));
    assert!(!chunk.section(section).unwrap().is_dirty());
}

#[test]
fn chunk_manager_load_get_unload() {
    let mut manager = ChunkManager::new();
    let pos = ChunkPos::new(3, -2);
    assert!(!manager.is_loaded(pos));
    assert!(manager.get(pos).is_none());
    manager.load(pos);
    assert!(manager.is_loaded(pos));
    assert_eq!(manager.loaded_count(), 1);
    manager.load(pos);
    assert_eq!(manager.loaded_count(), 1);
    assert!(manager.get_mut(pos).is_some());
    assert!(manager.unload(pos));
    assert!(!manager.is_loaded(pos));
    assert!(!manager.unload(pos));
    manager.load(ChunkPos::new(0, 0));
    manager.load(ChunkPos::new(1, 1));
    let mut positions = manager.loaded_positions();
    positions.sort_by_key(|p| (p.x, p.z));
    assert_eq!(positions, vec![ChunkPos::new(0, 0), ChunkPos::new(1, 1)]);
}

#[test]
fn block_names_and_ids() {
    assert_eq!(Block::Air.name(), "minecraft:air");
    assert_eq!(Block::Stone.name(), "minecraft:stone");
    assert_eq!(Block::Dirt.name(), "minecraft:dirt");
    assert_eq!(Block::GrassBlock.name(), "minecraft:grass_block");
    assert_eq!(Block::Cobblestone.name(), "minecraft:cobblestone");
    assert_eq!(Block::OakPlanks.name(), "minecraft:oak_planks");
    assert_eq!(Block::Sand.name(), "minecraft:sand");
    assert_eq!(Block::Gravel.name(), "minecraft:gravel");
    assert_eq!(Block::OakLog.name(), "minecraft:oak_log");
    assert_eq!(Block::Glass.name(), "minecraft:glass");
    assert_eq!(Block::WhiteWool.name(), "minecraft:white_wool");
    assert_eq!(Block::Bricks.name(), "minecraft:bricks");
    assert_eq!(Block::Obsidian.name(), "minecraft:obsidian");
    assert_eq!(Block::Glowstone.name(), "minecraft:glowstone");
    assert_eq!(Block::from_id(0), Some(Block::Air));
    assert_eq!(Block::from_id(3), Some(Block::GrassBlock));
    assert_eq!(Block::from_id(13), Some(Block::Glowstone));
    assert_eq!(Block::from_id(240), Some(Block::PaleMossBlock));
    assert_eq!(Block::from_id(241), None);
    assert_eq!(Block::from_id(9999), None);
    assert!(Block::Glass.is_solid());
    assert!(!Block::Air.is_solid());
}

#[test]
fn block_ids_roundtrip_for_every_id() {
    for id in 0..241u16 {
        let block = Block::from_id(id).unwrap();
        assert_eq!(block.id(), id);
    }
}

#[test]
fn chunk_encoding_roundtrips_after_edits() {
    let mut chunk = Chunk::new(4, -7);
    chunk.set_block(68, 10, -110, Block::Glass);
    chunk.set_block(70, -60, -100, Block::Air);
    let bytes = chunk.encode();
    let back = Chunk::decode(4, -7, &bytes).unwrap();
    assert_eq!(back.get_block(68, 10, -110), Some(Block::Glass));
    assert_eq!(back.get_block(70, -60, -100), Some(Block::Air));
    assert_eq!(back.get_block(65, SURFACE_Y, -112), Some(Block::GrassBlock));
    assert!(Chunk::decode(4, -7, &bytes[..bytes.len() - 1]).is_none());
}

#[test]
fn fresh_chunk_is_clean_and_writes_mark_it_dirty() {
    let mut chunk = Chunk::new(0, 0);
    assert!(!chunk.is_dirty());
    chunk.set_block(1, 1, 1, Block::Sand);
    assert!(chunk.is_dirty());
    chunk.mark_clean();
    assert!(!chunk.is_dirty());
}

#[test]
fn a_position_changed_twice_is_listed_once() {
    let mut section = ChunkSection::new(0);
    section.set_local(1, 2, 3, Block::Stone);
    section.set_local(1, 2, 3, Block::Dirt);
    section.set_local(4, 5, 6, Block::Stone);
    assert_eq!(section.take_changed(), vec![(1, 2, 3), (4, 5, 6)]);
    assert!(!section.is_dirty());
}

#[test]
fn dirty_and_outside_positions() {
    let mut manager = ChunkManager::new();
    let (a, b, c) = (ChunkPos::new(0, 0), ChunkPos::new(1, 0), ChunkPos::new(2, 0));
    manager.load(a);
    manager.load(b);
    manager.load(c);
    manager.load(a).set_block(0, 65, 0, Block::Stone);
    assert_eq!(manager.dirty_positions(), vec![a]);
    let mut outside = manager.positions_outside(&vec![b]);
    outside.sort_by_key(|p| (p.x, p.z));
    assert_eq!(outside, vec![a, c]);
    assert!(manager.positions_outside(&vec![a, b, c]).is_empty());
}

#[test]
fn eviction_drops_clean_or_written_chunks_only() {
    let mut manager = ChunkManager::new();
    let (clean, dirty) = (ChunkPos::new(0, 0), ChunkPos::new(1, 0));
    manager.load(clean);
    manager.load(dirty).set_block(16, 65, 0, Block::Stone);
    assert_eq!(manager.loaded_count(), 2);
    assert!(manager.evict_step(clean, None));
    assert!(!manager.evict_step(clean, Some(true)));
    assert!(!manager.evict_step(dirty, None));
    assert!(!manager.evict_step(dirty, Some(false)));
    assert!(manager.is_loaded(dirty));
    assert!(manager.evict_step(dirty, Some(true)));
    assert_eq!(manager.loaded_count(), 0);
}

#[test]
fn a_successful_save_marks_the_chunk_clean() {
    let mut manager = ChunkManager::new();
    let pos = ChunkPos::new(0, 0);
    manager.load(pos).set_block(0, 65, 0, Block::Stone);
    manager.record_save(pos, false);
    assert!(manager.get(pos).unwrap().is_dirty());
    manager.record_save(pos, true);
    assert!(!manager.get(pos).unwrap().is_dirty());
    assert_eq!(manager.get(pos).unwrap().get_block(0, 65, 0), Some(Block::Stone));
    assert!(manager.dirty_positions().is_empty());
}
