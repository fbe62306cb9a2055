use spironmc::console::parse_gamemode;
use spironmc::inventory::{Inventory, Item, ItemStack, HOTBAR_START, INVENTORY_SIZE, MAX_STACK};
use spironmc::java::player::GameMode;
use spironmc::network::Buffer;
use spironmc::persist::{chunk_file_name, player_file_name, sanitize_filename, stack_of};
use spironmc::text::{
    chars_eq, chars_of, eq_ignore_ascii_case, eq_lowered, is_whitespace, push_decimal,
    push_json_escaped, str_eq, string_of, to_ascii_lower, trim_span, word_span,
};
use spironmc::world::{Block, Chunk, ChunkManager, ChunkPos, ChunkSection, SECTION_COUNT};

#[test]
fn stack_of_skips_unknown_or_invalid() {
    assert!(stack_of(0, 0).is_empty());
    assert!(stack_of(1, 0).is_empty());
    assert_eq!(stack_of(99, 5).item, Item::ExposedChiseledCopper);
    assert!(stack_of(99999, 5).is_empty());
    assert!(stack_of(1, 65).is_empty());
    assert_eq!(stack_of(1, 5).count, 5);
}

#[test]
fn file_names_are_sanitized() {
    assert_eq!(sanitize_filename("Steve!"), "Steve_");
    assert_eq!(sanitize_filename("a-b_C9"), "a-b_C9");
    assert_eq!(sanitize_filename("../etc"), "___etc");
    assert_eq!(sanitize_filename("é"), "_");
    assert_eq!(sanitize_filename(""), "player");
    assert_eq!(player_file_name("Steve!"), "Steve_.toml");
    assert_eq!(player_file_name(""), "player.toml");
    assert_eq!(chunk_file_name(3, -12), "c.3.-12.bin");
    assert_eq!(chunk_file_name(i32::MIN, 0), "c.-2147483648.0.bin");
}

#[test]
fn decimal_and_json_text() {
    let mut s = String::from("n=");
    push_decimal(&mut s, -405);
    push_decimal(&mut s, 0);
    assert_eq!(s, "n=-4050");
    let mut s = String::new();
    push_json_escaped(&mut s, "a\"b\\c\nd\u{1}");
    assert_eq!(s, "a\\\"b\\\\c\\nd\\u0001");
}

#[test]
fn text_comparisons() {
    assert_eq!(chars_of("héllo"), vec!['h', 'é', 'l', 'l', 'o']);
    assert!(chars_eq(&['a', 'b'], &['a', 'b']));
    assert!(!chars_eq(&['a'], &['a', 'b']));
    assert!(str_eq("stop", "stop"));
    assert!(!str_eq("stop", "Stop"));
    assert!(eq_ignore_ascii_case("Stop", "sTOP"));
    assert!(!eq_ignore_ascii_case("stop", "stops"));
    assert!(eq_lowered(&['H', 'e', 'L', 'p'], "help"));
    assert!(!eq_lowered(&['h', 'e', 'l', 'p'], "Help"));
    assert_eq!(to_ascii_lower('Q'), 'q');
    assert_eq!(to_ascii_lower('É'), 'É');
    assert!(is_whitespace(' ') && is_whitespace('\t') && is_whitespace('\n'));
    assert!(!is_whitespace('x'));
}

#[test]
fn spans_find_trimmed_text_and_words() {
    let line: Vec<char> = "  gamemode   creative  ".chars().collect();
    let (start, end) = trim_span(&line);
    assert_eq!(string_of(&line, start, end), "gamemode   creative");
    let (a, b) = word_span(&line, start, end);
    assert_eq!(string_of(&line, a, b), "gamemode");
    let (c, d) = word_span(&line, b, end);
    assert_eq!(string_of(&line, c, d), "creative");
    let blank: Vec<char> = "   ".chars().collect();
    let (s, e) = trim_span(&blank);
    assert_eq!(s, e);
}

#[test]
fn game_mode_words() {
    let word = |w: &str| parse_gamemode(&w.chars().collect::<Vec<char>>());
    assert_eq!(word("survival"), Some(GameMode::Survival));
    assert_eq!(word("C"), Some(GameMode::Creative));
    assert_eq!(word("2"), Some(GameMode::Adventure));
    assert_eq!(word("SP"), Some(GameMode::Spectator));
    assert_eq!(word("3"), Some(GameMode::Spectator));
    assert_eq!(word("nope"), None);
    assert_eq!(word(""), None);
}

#[test]
fn inventory_slots_and_selection() {
    let mut inv = Inventory::starting();
    assert_eq!(Item::Stone.max_stack(), MAX_STACK);
    assert_eq!(inv.selected_slot_index(), HOTBAR_START);
    assert!(inv.select(4));
    assert_eq!(inv.selected_slot_index(), HOTBAR_START + 4);
    for index in 0..INVENTORY_SIZE {
        assert_eq!(Some(inv.slots_at(index)), inv.get(index));
    }
    let stack = ItemStack::new(Item::Sand, 7).unwrap();
    assert!(inv.set(3, stack));
    assert_eq!(inv.slots_at(3), stack);
}

#[test]
fn bare_chunks_and_inserted_chunks() {
    let bare = Chunk::new_bare(2, -1);
    assert_eq!(bare.pos(), ChunkPos::new(2, -1));
    assert!(!bare.is_dirty());
    assert_eq!(bare.section_count(), SECTION_COUNT);
    assert_eq!(bare.get_block(32, 64, -16), Some(Block::Air));
    assert!(bare.section(0).unwrap().states().iter().all(|s| *s == 0));

    let section = ChunkSection::new(5);
    assert_eq!(section.states().len(), 4096);

    let mut chunks = ChunkManager::new();
    let pos = ChunkPos::new(2, -1);
    assert!(!chunks.is_loaded(pos));
    chunks.insert(pos, bare);
    assert!(chunks.is_loaded(pos));
    assert_eq!(chunks.get(pos).unwrap().get_block(32, 0, -16), Some(Block::Air));
    // A generated chunk would have stone there; the stored one is kept.
    assert_eq!(chunks.load(pos).get_block(32, 0, -16), Some(Block::Air));
}

#[test]
fn buffer_consume_drops_the_front() {
    let mut buf = Buffer::new();
    buf.extend(b"abcdef");
    buf.consume(2);
    assert_eq!(buf.peek(4), Some(b"cdef".as_slice()));
    buf.consume(4);
    assert!(buf.is_empty());
}
