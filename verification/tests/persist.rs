use spironmc::inventory::{Inventory, Item, ItemStack};
use spironmc::persist::{decode_sections, encode_sections, restore_items, SECTION_BLOCKS};

#[test]
fn chunk_files_roundtrip_rle() {
    let uniform = [5u16; SECTION_BLOCKS];
    let mut mixed = [0u16; SECTION_BLOCKS];
    for (index, slot) in mixed.iter_mut().enumerate() {
        *slot = (index % 7) as u16;
    }
    let bytes = encode_sections(&[&uniform, &mixed]);
    let back = decode_sections(&bytes, 2).unwrap();
    assert_eq!(back[0], uniform);
    assert_eq!(back[1], mixed);
}

#[test]
fn chunk_files_reject_corrupt_input() {
    assert!(decode_sections(&[], 1).is_none());
    assert!(decode_sections(b"NOPE", 1).is_none());
    let good = encode_sections(&[&[3u16; SECTION_BLOCKS]]);
    assert!(decode_sections(&good, 2).is_none());
    assert!(decode_sections(&good[..good.len() - 1], 1).is_none());
    let mut extra = good.clone();
    extra.push(0);
    assert!(decode_sections(&extra, 1).is_none());
    let mut bad_version = good.clone();
    bad_version[4] = 99;
    assert!(decode_sections(&bad_version, 1).is_none());
}

#[test]
fn uniform_section_is_one_run() {
    let bytes = encode_sections(&[&[9u16; SECTION_BLOCKS]]);
    assert_eq!(&bytes[..4], b"FCHK");
    assert_eq!(bytes[4], 1);
    assert_eq!(&bytes[5..7], &[1, 0]);
    assert_eq!(&bytes[7..], &[1, 0, 9, 0, 0x00, 0x10]);
}

#[test]
fn restoring_items_keeps_unknown_and_overfull_stacks_empty() {
    let mut inventory = Inventory::new();
    inventory.set(5, ItemStack::new(Item::Dirt, 3).unwrap());
    let mut cursor = ItemStack::empty();
    let stone = Item::Stone.id();
    let saved = vec![(stone, 10), (-1, 5), (stone, 65), (stone, 0)];
    restore_items(&mut inventory, &mut cursor, 4, &saved, (stone, 2));
    assert_eq!(inventory.get(0).unwrap(), ItemStack::new(Item::Stone, 10).unwrap());
    assert!(inventory.get(1).unwrap().is_empty());
    assert!(inventory.get(2).unwrap().is_empty());
    assert!(inventory.get(3).unwrap().is_empty());
    assert_eq!(inventory.get(5).unwrap(), ItemStack::new(Item::Dirt, 3).unwrap());
    assert_eq!(inventory.selected(), 4);
    assert_eq!(cursor, ItemStack::new(Item::Stone, 2).unwrap());
    restore_items(&mut inventory, &mut cursor, 9, &Vec::new(), (0, 0));
    assert_eq!(inventory.selected(), 4);
    assert!(cursor.is_empty());
}
