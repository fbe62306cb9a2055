use spironmc::inventory::{Inventory, Item, ItemStack, INVENTORY_SIZE};
use spironmc::world::Block;

#[test]
fn item_ids_match_vanilla_registry() {
    assert_eq!(Item::Air.id(), 0);
    assert_eq!(Item::Stone.id(), 1);
    assert_eq!(Item::GrassBlock.id(), 27);
    assert_eq!(Item::Dirt.id(), 28);
    assert_eq!(Item::Cobblestone.id(), 35);
    assert_eq!(Item::OakPlanks.id(), 36);
    assert_eq!(Item::Sand.id(), 59);
    assert_eq!(Item::Gravel.id(), 63);
    assert_eq!(Item::OakLog.id(), 134);
    assert_eq!(Item::Glass.id(), 195);
    assert_eq!(Item::WhiteWool.id(), 213);
    assert_eq!(Item::Bricks.id(), 305);
    assert_eq!(Item::Obsidian.id(), 322);
    assert_eq!(Item::Glowstone.id(), 368);
    assert_eq!(Item::from_id(1), Some(Item::Stone));
    assert_eq!(Item::from_id(368), Some(Item::Glowstone));
    assert_eq!(Item::from_id(78), Some(Item::DiamondOre));
    assert_eq!(Item::from_id(333), Some(Item::CraftingTable));
    assert_eq!(Item::from_id(99), Some(Item::ExposedChiseledCopper));
    assert_eq!(Item::from_id(99999), None);
}

#[test]
fn items_map_to_matching_blocks() {
    assert_eq!(Item::Stone.block(), Some(Block::Stone));
    assert_eq!(Item::Dirt.block(), Some(Block::Dirt));
    assert_eq!(Item::GrassBlock.block(), Some(Block::GrassBlock));
    assert_eq!(Item::Cobblestone.block(), Some(Block::Cobblestone));
    assert_eq!(Item::OakPlanks.block(), Some(Block::OakPlanks));
    assert_eq!(Item::Sand.block(), Some(Block::Sand));
    assert_eq!(Item::Gravel.block(), Some(Block::Gravel));
    assert_eq!(Item::OakLog.block(), Some(Block::OakLog));
    assert_eq!(Item::Glass.block(), Some(Block::Glass));
    assert_eq!(Item::WhiteWool.block(), Some(Block::WhiteWool));
    assert_eq!(Item::Bricks.block(), Some(Block::Bricks));
    assert_eq!(Item::Obsidian.block(), Some(Block::Obsidian));
    assert_eq!(Item::Glowstone.block(), Some(Block::Glowstone));
    assert_eq!(Item::Air.block(), None);
    assert_eq!(Item::Stone.name(), Block::Stone.name());
    assert_eq!(Item::Glass.name(), Block::Glass.name());
}

#[test]
fn stacks_reject_invalid_counts() {
    assert!(ItemStack::new(Item::Stone, 0).is_none());
    assert!(ItemStack::new(Item::Stone, 65).is_none());
    assert!(ItemStack::new(Item::Air, 5).is_none());
    let stack = ItemStack::new(Item::Dirt, 64).unwrap();
    assert!(!stack.is_empty());
    assert!(ItemStack::empty().is_empty());
}

#[test]
fn inventory_reads_writes_and_clears() {
    let mut inventory = Inventory::new();
    assert_eq!(inventory.get(0), Some(ItemStack::empty()));
    assert_eq!(inventory.get(99), None);
    assert!(inventory.set(9, ItemStack::new(Item::Stone, 5).unwrap()));
    assert_eq!(inventory.get(9), Some(ItemStack::new(Item::Stone, 5).unwrap()));
    assert!(!inventory.set(99, ItemStack::empty()));
    assert!(inventory.clear(9));
    assert_eq!(inventory.get(9), Some(ItemStack::empty()));
    assert!(!inventory.clear(99));
}

#[test]
fn inventory_adds_merges_and_reports_leftover() {
    let mut inventory = Inventory::new();
    inventory.set(0, ItemStack::new(Item::Stone, 60).unwrap());
    assert_eq!(inventory.add(ItemStack::new(Item::Stone, 10).unwrap()), 0);
    assert_eq!(inventory.get(0).unwrap().count, 64);
    assert_eq!(inventory.get(1).unwrap().count, 6);

    let mut full = Inventory::new();
    for index in 0..INVENTORY_SIZE {
        full.set(index, ItemStack::new(Item::Dirt, 64).unwrap());
    }
    assert_eq!(full.add(ItemStack::new(Item::Dirt, 5).unwrap()), 5);
    assert_eq!(full.add(ItemStack::empty()), 0);
}

#[test]
fn inventory_take_consumes_and_empties() {
    let mut inventory = Inventory::new();
    inventory.set(3, ItemStack::new(Item::Dirt, 5).unwrap());
    assert_eq!(inventory.take(3, 2), Some(ItemStack::new(Item::Dirt, 2).unwrap()));
    assert_eq!(inventory.get(3).unwrap().count, 3);
    assert!(inventory.consume_one(3));
    assert_eq!(inventory.take(99, 1), None);
    assert_eq!(inventory.take(4, 1), None);
    assert_eq!(inventory.take(3, 0), None);
}

#[test]
fn hotbar_selection_drives_held_item() {
    let mut inventory = Inventory::starting();
    assert_eq!(inventory.selected(), 0);
    assert_eq!(inventory.hotbar(0).unwrap().item, Item::Stone);
    assert_eq!(inventory.hotbar(8), Some(ItemStack::empty()));
    assert_eq!(inventory.hotbar(9), None);
    assert_eq!(inventory.held().item, Item::Stone);
    assert!(inventory.select(2));
    assert_eq!(inventory.held().item, Item::GrassBlock);
    assert!(!inventory.select(9));
    assert!(!inventory.select(u8::MAX));
    assert_eq!(inventory.selected(), 2);
}

#[test]
fn adding_conserves_items_on_concrete_stacks() {
    let mut inventory = Inventory::new();
    inventory.set(5, ItemStack::new(Item::Sand, 40).unwrap());
    let leftover = inventory.add(ItemStack::new(Item::Sand, 50).unwrap());
    let mut total = 0;
    for index in 0..INVENTORY_SIZE {
        let stack = inventory.get(index).unwrap();
        if stack.item == Item::Sand {
            total += stack.count;
        }
    }
    assert_eq!(total + leftover, 90);
    assert_eq!(inventory.get(5).unwrap().count, 64);
    assert_eq!(inventory.get(0).unwrap().count, 26);
}

#[test]
fn consume_one_empties_a_single_item_slot() {
    let mut inventory = Inventory::new();
    inventory.set(7, ItemStack::new(Item::Glass, 1).unwrap());
    assert!(inventory.consume_one(7));
    assert!(inventory.get(7).unwrap().is_empty());
    assert!(!inventory.consume_one(7));
}
