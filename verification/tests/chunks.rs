use spironmc::java::chunks::{
    block_to_state, encode_batch_finished, encode_batch_start, encode_chunk_data, encode_set_center, encode_unload_chunk,
    pack_bits, LIGHT_SECTION_COUNT,
};
use spironmc::java::proto::{decode_varint_prefix, Reader};
use spironmc::world::{Block, Chunk, SECTION_COUNT};

fn decode_frame(bytes: &[u8]) -> (i32, Vec<u8>) {
    let (len, header) = decode_varint_prefix(bytes).unwrap().unwrap();
    let mut reader = Reader::new(&bytes[header..header + len as usize]);
    let id = reader.read_varint().unwrap();
    (id, bytes[header + reader.position()..].to_vec())
}

#[test]
fn maps_blocks_to_vanilla_states() {
    assert_eq!(block_to_state(Block::Air), 0);
    assert_eq!(block_to_state(Block::Stone), 1);
    assert_eq!(block_to_state(Block::GrassBlock), 9);
    assert_eq!(block_to_state(Block::Dirt), 10);
    assert_eq!(block_to_state(Block::Cobblestone), 14);
    assert_eq!(block_to_state(Block::OakPlanks), 15);
    assert_eq!(block_to_state(Block::Sand), 118);
    assert_eq!(block_to_state(Block::Gravel), 124);
    assert_eq!(block_to_state(Block::OakLog), 137);
    assert_eq!(block_to_state(Block::Glass), 562);
    assert_eq!(block_to_state(Block::WhiteWool), 2293);
    assert_eq!(block_to_state(Block::Bricks), 2340);
    assert_eq!(block_to_state(Block::Obsidian), 3369);
    assert_eq!(block_to_state(Block::Glowstone), 7016);
    assert_eq!(block_to_state(Block::DiamondOre), 5307);
    assert_eq!(block_to_state(Block::CraftingTable), 5310);
    assert_eq!(block_to_state(Block::MossyCobblestone), 3368);
    assert_eq!(block_to_state(Block::PaleMossBlock), 29703);
}

#[test]
fn packs_bits_lsb_first_with_padding() {
    assert!(pack_bits(&[], 4).is_empty());
    assert!(pack_bits(&[1, 2], 0).is_empty());
    let longs = pack_bits(&[1u64, 2, 3], 4);
    assert_eq!(longs.len(), 1);
    assert_eq!(longs[0], 0x321);
    let longs = pack_bits(&vec![0u64; 256], 9);
    assert_eq!(longs.len(), 37);
}

#[test]
fn chunk_packet_has_expected_shape() {
    let mut chunk = Chunk::new(3, -2);
    chunk.set_block(3, 100, -2, Block::Dirt);
    let bytes = encode_chunk_data(&chunk);
    let (id, payload) = decode_frame(&bytes);
    assert_eq!(id, 0x2D);
    let mut reader = Reader::new(&payload);
    assert_eq!(reader.read_i32().unwrap(), 3);
    assert_eq!(reader.read_i32().unwrap(), -2);

    assert_eq!(reader.read_varint().unwrap(), 2);
    for want in [1, 4] {
        assert_eq!(reader.read_varint().unwrap(), want);
        assert_eq!(reader.read_varint().unwrap(), 37);
        for _ in 0..37 {
            reader.read_u64().unwrap();
        }
    }

    let size = reader.read_varint().unwrap() as usize;
    let data = reader.read_bytes(size).unwrap();
    let mut sections = Reader::new(data);
    for _ in 0..SECTION_COUNT {
        let non_air = sections.read_i16().unwrap();
        assert!(non_air >= 0);
        sections.read_i16().unwrap();
        let bits = sections.read_u8().unwrap();
        if bits == 0 {
            sections.read_varint().unwrap();
        } else {
            assert!((4..=8).contains(&bits));
            let len = sections.read_varint().unwrap() as usize;
            assert!((2..=16).contains(&len));
            for _ in 0..len {
                sections.read_varint().unwrap();
            }
            let entries_per_long = 64 / bits as usize;
            let longs = 4096usize.div_ceil(entries_per_long);
            for _ in 0..longs {
                sections.read_u64().unwrap();
            }
        }
        assert_eq!(sections.read_u8().unwrap(), 0);
        assert_eq!(sections.read_varint().unwrap(), 0);
    }
    assert_eq!(sections.remaining(), 0);

    assert_eq!(reader.read_varint().unwrap(), 0);

    assert_eq!(reader.read_varint().unwrap(), 1);
    reader.read_u64().unwrap();
    assert_eq!(reader.read_varint().unwrap(), 0);
    assert_eq!(reader.read_varint().unwrap(), 0);
    assert_eq!(reader.read_varint().unwrap(), 1);
    reader.read_u64().unwrap();
    assert_eq!(reader.read_varint().unwrap(), LIGHT_SECTION_COUNT as i32);
    for _ in 0..LIGHT_SECTION_COUNT {
        assert_eq!(reader.read_varint().unwrap(), 2048);
        assert_eq!(reader.read_bytes(2048).unwrap().len(), 2048);
    }
    assert_eq!(reader.read_varint().unwrap(), 0);
    assert_eq!(reader.remaining(), 0);
}

#[test]
fn center_and_batch_packets_encode() {
    let (id, payload) = decode_frame(&encode_set_center(5, -7));
    assert_eq!(id, 0x5E);
    let mut reader = Reader::new(&payload);
    assert_eq!(reader.read_varint().unwrap(), 5);
    assert_eq!(reader.read_varint().unwrap(), -7);

    let (id, payload) = decode_frame(&encode_batch_start());
    assert_eq!(id, 0x0C);
    assert!(payload.is_empty());

    let (id, payload) = decode_frame(&encode_unload_chunk(-3, 7));
    assert_eq!(id, 0x25);
    let mut reader = Reader::new(&payload);
    assert_eq!(reader.read_i32().unwrap(), -3);
    assert_eq!(reader.read_i32().unwrap(), 7);
    assert_eq!(reader.remaining(), 0);

    let (id, payload) = decode_frame(&encode_batch_finished(81));
    assert_eq!(id, 0x0B);
    assert_eq!(Reader::new(&payload).read_varint().unwrap(), 81);
}

#[test]
fn single_block_sections_use_a_single_value_palette() {
    let chunk = Chunk::new(0, 0);
    let bytes = encode_chunk_data(&chunk);
    let (_, payload) = decode_frame(&bytes);
    let mut reader = Reader::new(&payload);
    reader.read_i32().unwrap();
    reader.read_i32().unwrap();
    assert_eq!(reader.read_varint().unwrap(), 2);
    for _ in 0..2 {
        reader.read_varint().unwrap();
        let n = reader.read_varint().unwrap();
        for _ in 0..n {
            reader.read_u64().unwrap();
        }
    }
    reader.read_varint().unwrap();
    // Bottom section: all stone, 4096 non-air, single value 1.
    assert_eq!(reader.read_i16().unwrap(), 4096);
    assert_eq!(reader.read_i16().unwrap(), 0);
    assert_eq!(reader.read_u8().unwrap(), 0);
    assert_eq!(reader.read_varint().unwrap(), 1);
}

#[test]
fn heightmap_longs_pack_the_surface_height() {
    let longs = pack_bits(&vec![129u64; 256], 9);
    assert_eq!(longs.len(), 37);
    let mut expected = 0u64;
    for k in 0..7 {
        expected |= 129u64 << (k * 9);
    }
    assert_eq!(longs[0], expected);
    assert_eq!(longs[36], 129 | (129 << 9) | (129 << 18) | (129 << 27));
}
