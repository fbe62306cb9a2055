//! Blocks, positions, chunk sections and chunks of the server-side world.
use vstd::prelude::*;
use std::collections::HashMap;
use std::collections::hash_map::Entry;
use vstd::std_specs::iter::IteratorSpec;

use crate::persist::{decode_sections, encode_sections, spec_decode_sections, spec_encode_sections, SECTION_BLOCKS};

verus! {

broadcast use vstd::seq::group_seq_axioms, vstd::seq_lib::group_seq_properties, vstd::std_specs::hash::group_hash_axioms;

pub const DEFAULT_WORLD_NAME: &'static str = "world";
pub const DEFAULT_DIMENSION_ID: &'static str = "minecraft:overworld";

pub const WORLD_MIN_Y: i32 = -64;
pub const WORLD_HEIGHT: i32 = 384;
pub const SECTION_SIZE: i32 = 16;
/// `WORLD_HEIGHT / SECTION_SIZE`.
pub const SECTION_COUNT: usize = 24;
pub const CHUNK_WIDTH: i32 = 16;

/// Top of the generated flat terrain (grass).
pub const SURFACE_Y: i32 = 64;

/// Every block kind the server knows. Its numeric id is its position in
/// this list (see [`Block::id`]).
#[derive(Debug, Clone, Copy, PartialEq, Eq, Hash, Structural)]
pub enum Block {
    Air,
    Stone,
    Dirt,
    GrassBlock,
    Cobblestone,
    OakPlanks,
    Sand,
    Gravel,
    OakLog,
    Glass,
    WhiteWool,
    Bricks,
    Obsidian,
    Glowstone,
    Granite,
    PolishedGranite,
    Diorite,
    PolishedDiorite,
    Andesite,
    PolishedAndesite,
    CoarseDirt,
    SprucePlanks,
    BirchPlanks,
    JunglePlanks,
    AcaciaPlanks,
    CherryPlanks,
    DarkOakPlanks,
    PaleOakPlanks,
    MangrovePlanks,
    BambooPlanks,
    BambooMosaic,
    RedSand,
    GoldOre,
    DeepslateGoldOre,
    IronOre,
    DeepslateIronOre,
    CoalOre,
    DeepslateCoalOre,
    NetherGoldOre,
    Sponge,
    WetSponge,
    LapisOre,
    DeepslateLapisOre,
    LapisBlock,
    Sandstone,
    ChiseledSandstone,
    CutSandstone,
    OrangeWool,
    MagentaWool,
    LightBlueWool,
    YellowWool,
    LimeWool,
    PinkWool,
    GrayWool,
    LightGrayWool,
    CyanWool,
    PurpleWool,
    BlueWool,
    BrownWool,
    GreenWool,
    RedWool,
    BlackWool,
    GoldBlock,
    IronBlock,
    Bookshelf,
    MossyCobblestone,
    DiamondOre,
    DeepslateDiamondOre,
    DiamondBlock,
    CraftingTable,
    Clay,
    Netherrack,
    SoulSand,
    SoulSoil,
    WhiteStainedGlass,
    OrangeStainedGlass,
    MagentaStainedGlass,
    LightBlueStainedGlass,
    YellowStainedGlass,
    LimeStainedGlass,
    PinkStainedGlass,
    GrayStainedGlass,
    LightGrayStainedGlass,
    CyanStainedGlass,
    PurpleStainedGlass,
    BlueStainedGlass,
    BrownStainedGlass,
    GreenStainedGlass,
    RedStainedGlass,
    BlackStainedGlass,
    StoneBricks,
    MossyStoneBricks,
    CrackedStoneBricks,
    ChiseledStoneBricks,
    PackedMud,
    MudBricks,
    Pumpkin,
    Melon,
    ResinBlock,
    ResinBricks,
    ChiseledResinBricks,
    NetherBricks,
    EnchantingTable,
    EndStone,
    EmeraldOre,
    DeepslateEmeraldOre,
    EmeraldBlock,
    RedstoneBlock,
    NetherQuartzOre,
    QuartzBlock,
    ChiseledQuartzBlock,
    WhiteTerracotta,
    OrangeTerracotta,
    MagentaTerracotta,
    LightBlueTerracotta,
    YellowTerracotta,
    LimeTerracotta,
    PinkTerracotta,
    GrayTerracotta,
    LightGrayTerracotta,
    CyanTerracotta,
    PurpleTerracotta,
    BlueTerracotta,
    BrownTerracotta,
    GreenTerracotta,
    RedTerracotta,
    BlackTerracotta,
    Prismarine,
    PrismarineBricks,
    DarkPrismarine,
    SeaLantern,
    Terracotta,
    CoalBlock,
    PackedIce,
    RedSandstone,
    ChiseledRedSandstone,
    CutRedSandstone,
    SmoothStone,
    SmoothSandstone,
    SmoothQuartz,
    SmoothRedSandstone,
    PurpurBlock,
    EndStoneBricks,
    NetherWartBlock,
    RedNetherBricks,
    WhiteConcrete,
    OrangeConcrete,
    MagentaConcrete,
    LightBlueConcrete,
    YellowConcrete,
    LimeConcrete,
    PinkConcrete,
    GrayConcrete,
    LightGrayConcrete,
    CyanConcrete,
    PurpleConcrete,
    BlueConcrete,
    BrownConcrete,
    GreenConcrete,
    RedConcrete,
    BlackConcrete,
    DriedKelpBlock,
    DeadTubeCoralBlock,
    DeadBrainCoralBlock,
    DeadBubbleCoralBlock,
    DeadFireCoralBlock,
    DeadHornCoralBlock,
    BlueIce,
    CartographyTable,
    FletchingTable,
    SmithingTable,
    WarpedNylium,
    WarpedWartBlock,
    CrimsonNylium,
    Shroomlight,
    CrimsonPlanks,
    WarpedPlanks,
    HoneycombBlock,
    NetheriteBlock,
    AncientDebris,
    CryingObsidian,
    Lodestone,
    Blackstone,
    PolishedBlackstone,
    PolishedBlackstoneBricks,
    CrackedPolishedBlackstoneBricks,
    ChiseledPolishedBlackstone,
    GildedBlackstone,
    ChiseledNetherBricks,
    CrackedNetherBricks,
    QuartzBricks,
    AmethystBlock,
    Tuff,
    PolishedTuff,
    ChiseledTuff,
    TuffBricks,
    ChiseledTuffBricks,
    Calcite,
    TintedGlass,
    CopperBlock,
    ExposedCopper,
    WeatheredCopper,
    OxidizedCopper,
    CopperOre,
    DeepslateCopperOre,
    OxidizedCutCopper,
    WeatheredCutCopper,
    ExposedCutCopper,
    CutCopper,
    OxidizedChiseledCopper,
    WeatheredChiseledCopper,
    ExposedChiseledCopper,
    ChiseledCopper,
    WaxedOxidizedChiseledCopper,
    WaxedWeatheredChiseledCopper,
    WaxedExposedChiseledCopper,
    WaxedChiseledCopper,
    WaxedCopperBlock,
    WaxedWeatheredCopper,
    WaxedExposedCopper,
    WaxedOxidizedCopper,
    WaxedOxidizedCutCopper,
    WaxedWeatheredCutCopper,
    WaxedExposedCutCopper,
    WaxedCutCopper,
    DripstoneBlock,
    MossBlock,
    RootedDirt,
    Mud,
    CobbledDeepslate,
    PolishedDeepslate,
    DeepslateTiles,
    DeepslateBricks,
    ChiseledDeepslate,
    CrackedDeepslateBricks,
    CrackedDeepslateTiles,
    SmoothBasalt,
    RawIronBlock,
    RawCopperBlock,
    RawGoldBlock,
    PaleMossBlock,
}

/// Numeric block id, as stored in chunk sections.
pub open spec fn block_id(b: Block) -> u16 {
    match b {
        Block::Air => 0,
        Block::Stone => 1,
        Block::Dirt => 2,
        Block::GrassBlock => 3,
        Block::Cobblestone => 4,
        Block::OakPlanks => 5,
        Block::Sand => 6,
        Block::Gravel => 7,
        Block::OakLog => 8,
        Block::Glass => 9,
        Block::WhiteWool => 10,
        Block::Bricks => 11,
        Block::Obsidian => 12,
        Block::Glowstone => 13,
        Block::Granite => 14,
        Block::PolishedGranite => 15,
        Block::Diorite => 16,
        Block::PolishedDiorite => 17,
        Block::Andesite => 18,
        Block::PolishedAndesite => 19,
        Block::CoarseDirt => 20,
        Block::SprucePlanks => 21,
        Block::BirchPlanks => 22,
        Block::JunglePlanks => 23,
        Block::AcaciaPlanks => 24,
        Block::CherryPlanks => 25,
        Block::DarkOakPlanks => 26,
        Block::PaleOakPlanks => 27,
        Block::MangrovePlanks => 28,
        Block::BambooPlanks => 29,
        Block::BambooMosaic => 30,
        Block::RedSand => 31,
        Block::GoldOre => 32,
        Block::DeepslateGoldOre => 33,
        Block::IronOre => 34,
        Block::DeepslateIronOre => 35,
        Block::CoalOre => 36,
        Block::DeepslateCoalOre => 37,
        Block::NetherGoldOre => 38,
        Block::Sponge => 39,
        Block::WetSponge => 40,
        Block::LapisOre => 41,
        Block::DeepslateLapisOre => 42,
        Block::LapisBlock => 43,
        Block::Sandstone => 44,
        Block::ChiseledSandstone => 45,
        Block::CutSandstone => 46,
        Block::OrangeWool => 47,
        Block::MagentaWool => 48,
        Block::LightBlueWool => 49,
        Block::YellowWool => 50,
        Block::LimeWool => 51,
        Block::PinkWool => 52,
        Block::GrayWool => 53,
        Block::LightGrayWool => 54,
        Block::CyanWool => 55,
        Block::PurpleWool => 56,
        Block::BlueWool => 57,
        Block::BrownWool => 58,
        Block::GreenWool => 59,
        Block::RedWool => 60,
        Block::BlackWool => 61,
        Block::GoldBlock => 62,
        Block::IronBlock => 63,
        Block::Bookshelf => 64,
        Block::MossyCobblestone => 65,
        Block::DiamondOre => 66,
        Block::DeepslateDiamondOre => 67,
        Block::DiamondBlock => 68,
        Block::CraftingTable => 69,
        Block::Clay => 70,
        Block::Netherrack => 71,
        Block::SoulSand => 72,
        Block::SoulSoil => 73,
        Block::WhiteStainedGlass => 74,
        Block::OrangeStainedGlass => 75,
        Block::MagentaStainedGlass => 76,
        Block::LightBlueStainedGlass => 77,
        Block::YellowStainedGlass => 78,
        Block::LimeStainedGlass => 79,
        Block::PinkStainedGlass => 80,
        Block::GrayStainedGlass => 81,
        Block::LightGrayStainedGlass => 82,
        Block::CyanStainedGlass => 83,
        Block::PurpleStainedGlass => 84,
        Block::BlueStainedGlass => 85,
        Block::BrownStainedGlass => 86,
        Block::GreenStainedGlass => 87,
        Block::RedStainedGlass => 88,
        Block::BlackStainedGlass => 89,
        Block::StoneBricks => 90,
        Block::MossyStoneBricks => 91,
        Block::CrackedStoneBricks => 92,
        Block::ChiseledStoneBricks => 93,
        Block::PackedMud => 94,
        Block::MudBricks => 95,
        Block::Pumpkin => 96,
        Block::Melon => 97,
        Block::ResinBlock => 98,
        Block::ResinBricks => 99,
        Block::ChiseledResinBricks => 100,
        Block::NetherBricks => 101,
        Block::EnchantingTable => 102,
        Block::EndStone => 103,
        Block::EmeraldOre => 104,
        Block::DeepslateEmeraldOre => 105,
        Block::EmeraldBlock => 106,
        Block::RedstoneBlock => 107,
        Block::NetherQuartzOre => 108,
        Block::QuartzBlock => 109,
        Block::ChiseledQuartzBlock => 110,
        Block::WhiteTerracotta => 111,
        Block::OrangeTerracotta => 112,
        Block::MagentaTerracotta => 113,
        Block::LightBlueTerracotta => 114,
        Block::YellowTerracotta => 115,
        Block::LimeTerracotta => 116,
        Block::PinkTerracotta => 117,
        Block::GrayTerracotta => 118,
        Block::LightGrayTerracotta => 119,
        Block::CyanTerracotta => 120,
        Block::PurpleTerracotta => 121,
        Block::BlueTerracotta => 122,
        Block::BrownTerracotta => 123,
        Block::GreenTerracotta => 124,
        Block::RedTerracotta => 125,
        Block::BlackTerracotta => 126,
        Block::Prismarine => 127,
        Block::PrismarineBricks => 128,
        Block::DarkPrismarine => 129,
        Block::SeaLantern => 130,
        Block::Terracotta => 131,
        Block::CoalBlock => 132,
        Block::PackedIce => 133,
        Block::RedSandstone => 134,
        Block::ChiseledRedSandstone => 135,
        Block::CutRedSandstone => 136,
        Block::SmoothStone => 137,
        Block::SmoothSandstone => 138,
        Block::SmoothQuartz => 139,
        Block::SmoothRedSandstone => 140,
        Block::PurpurBlock => 141,
        Block::EndStoneBricks => 142,
        Block::NetherWartBlock => 143,
        Block::RedNetherBricks => 144,
        Block::WhiteConcrete => 145,
        Block::OrangeConcrete => 146,
        Block::MagentaConcrete => 147,
        Block::LightBlueConcrete => 148,
        Block::YellowConcrete => 149,
        Block::LimeConcrete => 150,
        Block::PinkConcrete => 151,
        Block::GrayConcrete => 152,
        Block::LightGrayConcrete => 153,
        Block::CyanConcrete => 154,
        Block::PurpleConcrete => 155,
        Block::BlueConcrete => 156,
        Block::BrownConcrete => 157,
        Block::GreenConcrete => 158,
        Block::RedConcrete => 159,
        Block::BlackConcrete => 160,
        Block::DriedKelpBlock => 161,
        Block::DeadTubeCoralBlock => 162,
        Block::DeadBrainCoralBlock => 163,
        Block::DeadBubbleCoralBlock => 164,
        Block::DeadFireCoralBlock => 165,
        Block::DeadHornCoralBlock => 166,
        Block::BlueIce => 167,
        Block::CartographyTable => 168,
        Block::FletchingTable => 169,
        Block::SmithingTable => 170,
        Block::WarpedNylium => 171,
        Block::WarpedWartBlock => 172,
        Block::CrimsonNylium => 173,
        Block::Shroomlight => 174,
        Block::CrimsonPlanks => 175,
        Block::WarpedPlanks => 176,
        Block::HoneycombBlock => 177,
        Block::NetheriteBlock => 178,
        Block::AncientDebris => 179,
        Block::CryingObsidian => 180,
        Block::Lodestone => 181,
        Block::Blackstone => 182,
        Block::PolishedBlackstone => 183,
        Block::PolishedBlackstoneBricks => 184,
        Block::CrackedPolishedBlackstoneBricks => 185,
        Block::ChiseledPolishedBlackstone => 186,
        Block::GildedBlackstone => 187,
        Block::ChiseledNetherBricks => 188,
        Block::CrackedNetherBricks => 189,
        Block::QuartzBricks => 190,
        Block::AmethystBlock => 191,
        Block::Tuff => 192,
        Block::PolishedTuff => 193,
        Block::ChiseledTuff => 194,
        Block::TuffBricks => 195,
        Block::ChiseledTuffBricks => 196,
        Block::Calcite => 197,
        Block::TintedGlass => 198,
        Block::CopperBlock => 199,
        Block::ExposedCopper => 200,
        Block::WeatheredCopper => 201,
        Block::OxidizedCopper => 202,
        Block::CopperOre => 203,
        Block::DeepslateCopperOre => 204,
        Block::OxidizedCutCopper => 205,
        Block::WeatheredCutCopper => 206,
        Block::ExposedCutCopper => 207,
        Block::CutCopper => 208,
        Block::OxidizedChiseledCopper => 209,
        Block::WeatheredChiseledCopper => 210,
        Block::ExposedChiseledCopper => 211,
        Block::ChiseledCopper => 212,
        Block::WaxedOxidizedChiseledCopper => 213,
        Block::WaxedWeatheredChiseledCopper => 214,
        Block::WaxedExposedChiseledCopper => 215,
        Block::WaxedChiseledCopper => 216,
        Block::WaxedCopperBlock => 217,
        Block::WaxedWeatheredCopper => 218,
        Block::WaxedExposedCopper => 219,
        Block::WaxedOxidizedCopper => 220,
        Block::WaxedOxidizedCutCopper => 221,
        Block::WaxedWeatheredCutCopper => 222,
        Block::WaxedExposedCutCopper => 223,
        Block::WaxedCutCopper => 224,
        Block::DripstoneBlock => 225,
        Block::MossBlock => 226,
        Block::RootedDirt => 227,
        Block::Mud => 228,
        Block::CobbledDeepslate => 229,
        Block::PolishedDeepslate => 230,
        Block::DeepslateTiles => 231,
        Block::DeepslateBricks => 232,
        Block::ChiseledDeepslate => 233,
        Block::CrackedDeepslateBricks => 234,
        Block::CrackedDeepslateTiles => 235,
        Block::SmoothBasalt => 236,
        Block::RawIronBlock => 237,
        Block::RawCopperBlock => 238,
        Block::RawGoldBlock => 239,
        Block::PaleMossBlock => 240,
    }
}

/// The block with a given numeric id, if any.
pub open spec fn block_from_id(id: u16) -> Option<Block> {
    match id {
        0 => Some(Block::Air),
        1 => Some(Block::Stone),
        2 => Some(Block::Dirt),
        3 => Some(Block::GrassBlock),
        4 => Some(Block::Cobblestone),
        5 => Some(Block::OakPlanks),
        6 => Some(Block::Sand),
        7 => Some(Block::Gravel),
        8 => Some(Block::OakLog),
        9 => Some(Block::Glass),
        10 => Some(Block::WhiteWool),
        11 => Some(Block::Bricks),
        12 => Some(Block::Obsidian),
        13 => Some(Block::Glowstone),
        14 => Some(Block::Granite),
        15 => Some(Block::PolishedGranite),
        16 => Some(Block::Diorite),
        17 => Some(Block::PolishedDiorite),
        18 => Some(Block::Andesite),
        19 => Some(Block::PolishedAndesite),
        20 => Some(Block::CoarseDirt),
        21 => Some(Block::SprucePlanks),
        22 => Some(Block::BirchPlanks),
        23 => Some(Block::JunglePlanks),
        24 => Some(Block::AcaciaPlanks),
        25 => Some(Block::CherryPlanks),
        26 => Some(Block::DarkOakPlanks),
        27 => Some(Block::PaleOakPlanks),
        28 => Some(Block::MangrovePlanks),
        29 => Some(Block::BambooPlanks),
        30 => Some(Block::BambooMosaic),
        31 => Some(Block::RedSand),
        32 => Some(Block::GoldOre),
        33 => Some(Block::DeepslateGoldOre),
        34 => Some(Block::IronOre),
        35 => Some(Block::DeepslateIronOre),
        36 => Some(Block::CoalOre),
        37 => Some(Block::DeepslateCoalOre),
        38 => Some(Block::NetherGoldOre),
        39 => Some(Block::Sponge),
        40 => Some(Block::WetSponge),
        41 => Some(Block::LapisOre),
        42 => Some(Block::DeepslateLapisOre),
        43 => Some(Block::LapisBlock),
        44 => Some(Block::Sandstone),
        45 => Some(Block::ChiseledSandstone),
        46 => Some(Block::CutSandstone),
        47 => Some(Block::OrangeWool),
        48 => Some(Block::MagentaWool),
        49 => Some(Block::LightBlueWool),
        50 => Some(Block::YellowWool),
        51 => Some(Block::LimeWool),
        52 => Some(Block::PinkWool),
        53 => Some(Block::GrayWool),
        54 => Some(Block::LightGrayWool),
        55 => Some(Block::CyanWool),
        56 => Some(Block::PurpleWool),
        57 => Some(Block::BlueWool),
        58 => Some(Block::BrownWool),
        59 => Some(Block::GreenWool),
        60 => Some(Block::RedWool),
        61 => Some(Block::BlackWool),
        62 => Some(Block::GoldBlock),
        63 => Some(Block::IronBlock),
        64 => Some(Block::Bookshelf),
        65 => Some(Block::MossyCobblestone),
        66 => Some(Block::DiamondOre),
        67 => Some(Block::DeepslateDiamondOre),
        68 => Some(Block::DiamondBlock),
        69 => Some(Block::CraftingTable),
        70 => Some(Block::Clay),
        71 => Some(Block::Netherrack),
        72 => Some(Block::SoulSand),
        73 => Some(Block::SoulSoil),
        74 => Some(Block::WhiteStainedGlass),
        75 => Some(Block::OrangeStainedGlass),
        76 => Some(Block::MagentaStainedGlass),
        77 => Some(Block::LightBlueStainedGlass),
        78 => Some(Block::YellowStainedGlass),
        79 => Some(Block::LimeStainedGlass),
        80 => Some(Block::PinkStainedGlass),
        81 => Some(Block::GrayStainedGlass),
        82 => Some(Block::LightGrayStainedGlass),
        83 => Some(Block::CyanStainedGlass),
        84 => Some(Block::PurpleStainedGlass),
        85 => Some(Block::BlueStainedGlass),
        86 => Some(Block::BrownStainedGlass),
        87 => Some(Block::GreenStainedGlass),
        88 => Some(Block::RedStainedGlass),
        89 => Some(Block::BlackStainedGlass),
        90 => Some(Block::StoneBricks),
        91 => Some(Block::MossyStoneBricks),
        92 => Some(Block::CrackedStoneBricks),
        93 => Some(Block::ChiseledStoneBricks),
        94 => Some(Block::PackedMud),
        95 => Some(Block::MudBricks),
        96 => Some(Block::Pumpkin),
        97 => Some(Block::Melon),
        98 => Some(Block::ResinBlock),
        99 => Some(Block::ResinBricks),
        100 => Some(Block::ChiseledResinBricks),
        101 => Some(Block::NetherBricks),
        102 => Some(Block::EnchantingTable),
        103 => Some(Block::EndStone),
        104 => Some(Block::EmeraldOre),
        105 => Some(Block::DeepslateEmeraldOre),
        106 => Some(Block::EmeraldBlock),
        107 => Some(Block::RedstoneBlock),
        108 => Some(Block::NetherQuartzOre),
        109 => Some(Block::QuartzBlock),
        110 => Some(Block::ChiseledQuartzBlock),
        111 => Some(Block::WhiteTerracotta),
        112 => Some(Block::OrangeTerracotta),
        113 => Some(Block::MagentaTerracotta),
        114 => Some(Block::LightBlueTerracotta),
        115 => Some(Block::YellowTerracotta),
        116 => Some(Block::LimeTerracotta),
        117 => Some(Block::PinkTerracotta),
        118 => Some(Block::GrayTerracotta),
        119 => Some(Block::LightGrayTerracotta),
        120 => Some(Block::CyanTerracotta),
        121 => Some(Block::PurpleTerracotta),
        122 => Some(Block::BlueTerracotta),
        123 => Some(Block::BrownTerracotta),
        124 => Some(Block::GreenTerracotta),
        125 => Some(Block::RedTerracotta),
        126 => Some(Block::BlackTerracotta),
        127 => Some(Block::Prismarine),
        128 => Some(Block::PrismarineBricks),
        129 => Some(Block::DarkPrismarine),
        130 => Some(Block::SeaLantern),
        131 => Some(Block::Terracotta),
        132 => Some(Block::CoalBlock),
        133 => Some(Block::PackedIce),
        134 => Some(Block::RedSandstone),
        135 => Some(Block::ChiseledRedSandstone),
        136 => Some(Block::CutRedSandstone),
        137 => Some(Block::SmoothStone),
        138 => Some(Block::SmoothSandstone),
        139 => Some(Block::SmoothQuartz),
        140 => Some(Block::SmoothRedSandstone),
        141 => Some(Block::PurpurBlock),
        142 => Some(Block::EndStoneBricks),
        143 => Some(Block::NetherWartBlock),
        144 => Some(Block::RedNetherBricks),
        145 => Some(Block::WhiteConcrete),
        146 => Some(Block::OrangeConcrete),
        147 => Some(Block::MagentaConcrete),
        148 => Some(Block::LightBlueConcrete),
        149 => Some(Block::YellowConcrete),
        150 => Some(Block::LimeConcrete),
        151 => Some(Block::PinkConcrete),
        152 => Some(Block::GrayConcrete),
        153 => Some(Block::LightGrayConcrete),
        154 => Some(Block::CyanConcrete),
        155 => Some(Block::PurpleConcrete),
        156 => Some(Block::BlueConcrete),
        157 => Some(Block::BrownConcrete),
        158 => Some(Block::GreenConcrete),
        159 => Some(Block::RedConcrete),
        160 => Some(Block::BlackConcrete),
        161 => Some(Block::DriedKelpBlock),
        162 => Some(Block::DeadTubeCoralBlock),
        163 => Some(Block::DeadBrainCoralBlock),
        164 => Some(Block::DeadBubbleCoralBlock),
        165 => Some(Block::DeadFireCoralBlock),
        166 => Some(Block::DeadHornCoralBlock),
        167 => Some(Block::BlueIce),
        168 => Some(Block::CartographyTable),
        169 => Some(Block::FletchingTable),
        170 => Some(Block::SmithingTable),
        171 => Some(Block::WarpedNylium),
        172 => Some(Block::WarpedWartBlock),
        173 => Some(Block::CrimsonNylium),
        174 => Some(Block::Shroomlight),
        175 => Some(Block::CrimsonPlanks),
        176 => Some(Block::WarpedPlanks),
        177 => Some(Block::HoneycombBlock),
        178 => Some(Block::NetheriteBlock),
        179 => Some(Block::AncientDebris),
        180 => Some(Block::CryingObsidian),
        181 => Some(Block::Lodestone),
        182 => Some(Block::Blackstone),
        183 => Some(Block::PolishedBlackstone),
        184 => Some(Block::PolishedBlackstoneBricks),
        185 => Some(Block::CrackedPolishedBlackstoneBricks),
        186 => Some(Block::ChiseledPolishedBlackstone),
        187 => Some(Block::GildedBlackstone),
        188 => Some(Block::ChiseledNetherBricks),
        189 => Some(Block::CrackedNetherBricks),
        190 => Some(Block::QuartzBricks),
        191 => Some(Block::AmethystBlock),
        192 => Some(Block::Tuff),
        193 => Some(Block::PolishedTuff),
        194 => Some(Block::ChiseledTuff),
        195 => Some(Block::TuffBricks),
        196 => Some(Block::ChiseledTuffBricks),
        197 => Some(Block::Calcite),
        198 => Some(Block::TintedGlass),
        199 => Some(Block::CopperBlock),
        200 => Some(Block::ExposedCopper),
        201 => Some(Block::WeatheredCopper),
        202 => Some(Block::OxidizedCopper),
        203 => Some(Block::CopperOre),
        204 => Some(Block::DeepslateCopperOre),
        205 => Some(Block::OxidizedCutCopper),
        206 => Some(Block::WeatheredCutCopper),
        207 => Some(Block::ExposedCutCopper),
        208 => Some(Block::CutCopper),
        209 => Some(Block::OxidizedChiseledCopper),
        210 => Some(Block::WeatheredChiseledCopper),
        211 => Some(Block::ExposedChiseledCopper),
        212 => Some(Block::ChiseledCopper),
        213 => Some(Block::WaxedOxidizedChiseledCopper),
        214 => Some(Block::WaxedWeatheredChiseledCopper),
        215 => Some(Block::WaxedExposedChiseledCopper),
        216 => Some(Block::WaxedChiseledCopper),
        217 => Some(Block::WaxedCopperBlock),
        218 => Some(Block::WaxedWeatheredCopper),
        219 => Some(Block::WaxedExposedCopper),
        220 => Some(Block::WaxedOxidizedCopper),
        221 => Some(Block::WaxedOxidizedCutCopper),
        222 => Some(Block::WaxedWeatheredCutCopper),
        223 => Some(Block::WaxedExposedCutCopper),
        224 => Some(Block::WaxedCutCopper),
        225 => Some(Block::DripstoneBlock),
        226 => Some(Block::MossBlock),
        227 => Some(Block::RootedDirt),
        228 => Some(Block::Mud),
        229 => Some(Block::CobbledDeepslate),
        230 => Some(Block::PolishedDeepslate),
        231 => Some(Block::DeepslateTiles),
        232 => Some(Block::DeepslateBricks),
        233 => Some(Block::ChiseledDeepslate),
        234 => Some(Block::CrackedDeepslateBricks),
        235 => Some(Block::CrackedDeepslateTiles),
        236 => Some(Block::SmoothBasalt),
        237 => Some(Block::RawIronBlock),
        238 => Some(Block::RawCopperBlock),
        239 => Some(Block::RawGoldBlock),
        240 => Some(Block::PaleMossBlock),
        _ => None,
    }
}

/// Namespaced block name.
pub open spec fn block_name(b: Block) -> Seq<char> {
    match b {
        Block::Air => "minecraft:air"@,
        Block::Stone => "minecraft:stone"@,
        Block::Dirt => "minecraft:dirt"@,
        Block::GrassBlock => "minecraft:grass_block"@,
        Block::Cobblestone => "minecraft:cobblestone"@,
        Block::OakPlanks => "minecraft:oak_planks"@,
        Block::Sand => "minecraft:sand"@,
        Block::Gravel => "minecraft:gravel"@,
        Block::OakLog => "minecraft:oak_log"@,
        Block::Glass => "minecraft:glass"@,
        Block::WhiteWool => "minecraft:white_wool"@,
        Block::Bricks => "minecraft:bricks"@,
        Block::Obsidian => "minecraft:obsidian"@,
        Block::Glowstone => "minecraft:glowstone"@,
        Block::Granite => "minecraft:granite"@,
        Block::PolishedGranite => "minecraft:polished_granite"@,
        Block::Diorite => "minecraft:diorite"@,
        Block::PolishedDiorite => "minecraft:polished_diorite"@,
        Block::Andesite => "minecraft:andesite"@,
        Block::PolishedAndesite => "minecraft:polished_andesite"@,
        Block::CoarseDirt => "minecraft:coarse_dirt"@,
        Block::SprucePlanks => "minecraft:spruce_planks"@,
        Block::BirchPlanks => "minecraft:birch_planks"@,
        Block::JunglePlanks => "minecraft:jungle_planks"@,
        Block::AcaciaPlanks => "minecraft:acacia_planks"@,
        Block::CherryPlanks => "minecraft:cherry_planks"@,
        Block::DarkOakPlanks => "minecraft:dark_oak_planks"@,
        Block::PaleOakPlanks => "minecraft:pale_oak_planks"@,
        Block::MangrovePlanks => "minecraft:mangrove_planks"@,
        Block::BambooPlanks => "minecraft:bamboo_planks"@,
        Block::BambooMosaic => "minecraft:bamboo_mosaic"@,
        Block::RedSand => "minecraft:red_sand"@,
        Block::GoldOre => "minecraft:gold_ore"@,
        Block::DeepslateGoldOre => "minecraft:deepslate_gold_ore"@,
        Block::IronOre => "minecraft:iron_ore"@,
        Block::DeepslateIronOre => "minecraft:deepslate_iron_ore"@,
        Block::CoalOre => "minecraft:coal_ore"@,
        Block::DeepslateCoalOre => "minecraft:deepslate_coal_ore"@,
        Block::NetherGoldOre => "minecraft:nether_gold_ore"@,
        Block::Sponge => "minecraft:sponge"@,
        Block::WetSponge => "minecraft:wet_sponge"@,
        Block::LapisOre => "minecraft:lapis_ore"@,
        Block::DeepslateLapisOre => "minecraft:deepslate_lapis_ore"@,
        Block::LapisBlock => "minecraft:lapis_block"@,
        Block::Sandstone => "minecraft:sandstone"@,
        Block::ChiseledSandstone => "minecraft:chiseled_sandstone"@,
        Block::CutSandstone => "minecraft:cut_sandstone"@,
        Block::OrangeWool => "minecraft:orange_wool"@,
        Block::MagentaWool => "minecraft:magenta_wool"@,
        Block::LightBlueWool => "minecraft:light_blue_wool"@,
        Block::YellowWool => "minecraft:yellow_wool"@,
        Block::LimeWool => "minecraft:lime_wool"@,
        Block::PinkWool => "minecraft:pink_wool"@,
        Block::GrayWool => "minecraft:gray_wool"@,
        Block::LightGrayWool => "minecraft:light_gray_wool"@,
        Block::CyanWool => "minecraft:cyan_wool"@,
        Block::PurpleWool => "minecraft:purple_wool"@,
        Block::BlueWool => "minecraft:blue_wool"@,
        Block::BrownWool => "minecraft:brown_wool"@,
        Block::GreenWool => "minecraft:green_wool"@,
        Block::RedWool => "minecraft:red_wool"@,
        Block::BlackWool => "minecraft:black_wool"@,
        Block::GoldBlock => "minecraft:gold_block"@,
        Block::IronBlock => "minecraft:iron_block"@,
        Block::Bookshelf => "minecraft:bookshelf"@,
        Block::MossyCobblestone => "minecraft:mossy_cobblestone"@,
        Block::DiamondOre => "minecraft:diamond_ore"@,
        Block::DeepslateDiamondOre => "minecraft:deepslate_diamond_ore"@,
        Block::DiamondBlock => "minecraft:diamond_block"@,
        Block::CraftingTable => "minecraft:crafting_table"@,
        Block::Clay => "minecraft:clay"@,
        Block::Netherrack => "minecraft:netherrack"@,
        Block::SoulSand => "minecraft:soul_sand"@,
        Block::SoulSoil => "minecraft:soul_soil"@,
        Block::WhiteStainedGlass => "minecraft:white_stained_glass"@,
        Block::OrangeStainedGlass => "minecraft:orange_stained_glass"@,
        Block::MagentaStainedGlass => "minecraft:magenta_stained_glass"@,
        Block::LightBlueStainedGlass => "minecraft:light_blue_stained_glass"@,
        Block::YellowStainedGlass => "minecraft:yellow_stained_glass"@,
        Block::LimeStainedGlass => "minecraft:lime_stained_glass"@,
        Block::PinkStainedGlass => "minecraft:pink_stained_glass"@,
        Block::GrayStainedGlass => "minecraft:gray_stained_glass"@,
        Block::LightGrayStainedGlass => "minecraft:light_gray_stained_glass"@,
        Block::CyanStainedGlass => "minecraft:cyan_stained_glass"@,
        Block::PurpleStainedGlass => "minecraft:purple_stained_glass"@,
        Block::BlueStainedGlass => "minecraft:blue_stained_glass"@,
        Block::BrownStainedGlass => "minecraft:brown_stained_glass"@,
        Block::GreenStainedGlass => "minecraft:green_stained_glass"@,
        Block::RedStainedGlass => "minecraft:red_stained_glass"@,
        Block::BlackStainedGlass => "minecraft:black_stained_glass"@,
        Block::StoneBricks => "minecraft:stone_bricks"@,
        Block::MossyStoneBricks => "minecraft:mossy_stone_bricks"@,
        Block::CrackedStoneBricks => "minecraft:cracked_stone_bricks"@,
        Block::ChiseledStoneBricks => "minecraft:chiseled_stone_bricks"@,
        Block::PackedMud => "minecraft:packed_mud"@,
        Block::MudBricks => "minecraft:mud_bricks"@,
        Block::Pumpkin => "minecraft:pumpkin"@,
        Block::Melon => "minecraft:melon"@,
        Block::ResinBlock => "minecraft:resin_block"@,
        Block::ResinBricks => "minecraft:resin_bricks"@,
        Block::ChiseledResinBricks => "minecraft:chiseled_resin_bricks"@,
        Block::NetherBricks => "minecraft:nether_bricks"@,
        Block::EnchantingTable => "minecraft:enchanting_table"@,
        Block::EndStone => "minecraft:end_stone"@,
        Block::EmeraldOre => "minecraft:emerald_ore"@,
        Block::DeepslateEmeraldOre => "minecraft:deepslate_emerald_ore"@,
        Block::EmeraldBlock => "minecraft:emerald_block"@,
        Block::RedstoneBlock => "minecraft:redstone_block"@,
        Block::NetherQuartzOre => "minecraft:nether_quartz_ore"@,
        Block::QuartzBlock => "minecraft:quartz_block"@,
        Block::ChiseledQuartzBlock => "minecraft:chiseled_quartz_block"@,
        Block::WhiteTerracotta => "minecraft:white_terracotta"@,
        Block::OrangeTerracotta => "minecraft:orange_terracotta"@,
        Block::MagentaTerracotta => "minecraft:magenta_terracotta"@,
        Block::LightBlueTerracotta => "minecraft:light_blue_terracotta"@,
        Block::YellowTerracotta => "minecraft:yellow_terracotta"@,
        Block::LimeTerracotta => "minecraft:lime_terracotta"@,
        Block::PinkTerracotta => "minecraft:pink_terracotta"@,
        Block::GrayTerracotta => "minecraft:gray_terracotta"@,
        Block::LightGrayTerracotta => "minecraft:light_gray_terracotta"@,
        Block::CyanTerracotta => "minecraft:cyan_terracotta"@,
        Block::PurpleTerracotta => "minecraft:purple_terracotta"@,
        Block::BlueTerracotta => "minecraft:blue_terracotta"@,
        Block::BrownTerracotta => "minecraft:brown_terracotta"@,
        Block::GreenTerracotta => "minecraft:green_terracotta"@,
        Block::RedTerracotta => "minecraft:red_terracotta"@,
        Block::BlackTerracotta => "minecraft:black_terracotta"@,
        Block::Prismarine => "minecraft:prismarine"@,
        Block::PrismarineBricks => "minecraft:prismarine_bricks"@,
        Block::DarkPrismarine => "minecraft:dark_prismarine"@,
        Block::SeaLantern => "minecraft:sea_lantern"@,
        Block::Terracotta => "minecraft:terracotta"@,
        Block::CoalBlock => "minecraft:coal_block"@,
        Block::PackedIce => "minecraft:packed_ice"@,
        Block::RedSandstone => "minecraft:red_sandstone"@,
        Block::ChiseledRedSandstone => "minecraft:chiseled_red_sandstone"@,
        Block::CutRedSandstone => "minecraft:cut_red_sandstone"@,
        Block::SmoothStone => "minecraft:smooth_stone"@,
        Block::SmoothSandstone => "minecraft:smooth_sandstone"@,
        Block::SmoothQuartz => "minecraft:smooth_quartz"@,
        Block::SmoothRedSandstone => "minecraft:smooth_red_sandstone"@,
        Block::PurpurBlock => "minecraft:purpur_block"@,
        Block::EndStoneBricks => "minecraft:end_stone_bricks"@,
        Block::NetherWartBlock => "minecraft:nether_wart_block"@,
        Block::RedNetherBricks => "minecraft:red_nether_bricks"@,
        Block::WhiteConcrete => "minecraft:white_concrete"@,
        Block::OrangeConcrete => "minecraft:orange_concrete"@,
        Block::MagentaConcrete => "minecraft:magenta_concrete"@,
        Block::LightBlueConcrete => "minecraft:light_blue_concrete"@,
        Block::YellowConcrete => "minecraft:yellow_concrete"@,
        Block::LimeConcrete => "minecraft:lime_concrete"@,
        Block::PinkConcrete => "minecraft:pink_concrete"@,
        Block::GrayConcrete => "minecraft:gray_concrete"@,
        Block::LightGrayConcrete => "minecraft:light_gray_concrete"@,
        Block::CyanConcrete => "minecraft:cyan_concrete"@,
        Block::PurpleConcrete => "minecraft:purple_concrete"@,
        Block::BlueConcrete => "minecraft:blue_concrete"@,
        Block::BrownConcrete => "minecraft:brown_concrete"@,
        Block::GreenConcrete => "minecraft:green_concrete"@,
        Block::RedConcrete => "minecraft:red_concrete"@,
        Block::BlackConcrete => "minecraft:black_concrete"@,
        Block::DriedKelpBlock => "minecraft:dried_kelp_block"@,
        Block::DeadTubeCoralBlock => "minecraft:dead_tube_coral_block"@,
        Block::DeadBrainCoralBlock => "minecraft:dead_brain_coral_block"@,
        Block::DeadBubbleCoralBlock => "minecraft:dead_bubble_coral_block"@,
        Block::DeadFireCoralBlock => "minecraft:dead_fire_coral_block"@,
        Block::DeadHornCoralBlock => "minecraft:dead_horn_coral_block"@,
        Block::BlueIce => "minecraft:blue_ice"@,
        Block::CartographyTable => "minecraft:cartography_table"@,
        Block::FletchingTable => "minecraft:fletching_table"@,
        Block::SmithingTable => "minecraft:smithing_table"@,
        Block::WarpedNylium => "minecraft:warped_nylium"@,
        Block::WarpedWartBlock => "minecraft:warped_wart_block"@,
        Block::CrimsonNylium => "minecraft:crimson_nylium"@,
        Block::Shroomlight => "minecraft:shroomlight"@,
        Block::CrimsonPlanks => "minecraft:crimson_planks"@,
        Block::WarpedPlanks => "minecraft:warped_planks"@,
        Block::HoneycombBlock => "minecraft:honeycomb_block"@,
        Block::NetheriteBlock => "minecraft:netherite_block"@,
        Block::AncientDebris => "minecraft:ancient_debris"@,
        Block::CryingObsidian => "minecraft:crying_obsidian"@,
        Block::Lodestone => "minecraft:lodestone"@,
        Block::Blackstone => "minecraft:blackstone"@,
        Block::PolishedBlackstone => "minecraft:polished_blackstone"@,
        Block::PolishedBlackstoneBricks => "minecraft:polished_blackstone_bricks"@,
        Block::CrackedPolishedBlackstoneBricks => "minecraft:cracked_polished_blackstone_bricks"@,
        Block::ChiseledPolishedBlackstone => "minecraft:chiseled_polished_blackstone"@,
        Block::GildedBlackstone => "minecraft:gilded_blackstone"@,
        Block::ChiseledNetherBricks => "minecraft:chiseled_nether_bricks"@,
        Block::CrackedNetherBricks => "minecraft:cracked_nether_bricks"@,
        Block::QuartzBricks => "minecraft:quartz_bricks"@,
        Block::AmethystBlock => "minecraft:amethyst_block"@,
        Block::Tuff => "minecraft:tuff"@,
        Block::PolishedTuff => "minecraft:polished_tuff"@,
        Block::ChiseledTuff => "minecraft:chiseled_tuff"@,
        Block::TuffBricks => "minecraft:tuff_bricks"@,
        Block::ChiseledTuffBricks => "minecraft:chiseled_tuff_bricks"@,
        Block::Calcite => "minecraft:calcite"@,
        Block::TintedGlass => "minecraft:tinted_glass"@,
        Block::CopperBlock => "minecraft:copper_block"@,
        Block::ExposedCopper => "minecraft:exposed_copper"@,
        Block::WeatheredCopper => "minecraft:weathered_copper"@,
        Block::OxidizedCopper => "minecraft:oxidized_copper"@,
        Block::CopperOre => "minecraft:copper_ore"@,
        Block::DeepslateCopperOre => "minecraft:deepslate_copper_ore"@,
        Block::OxidizedCutCopper => "minecraft:oxidized_cut_copper"@,
        Block::WeatheredCutCopper => "minecraft:weathered_cut_copper"@,
        Block::ExposedCutCopper => "minecraft:exposed_cut_copper"@,
        Block::CutCopper => "minecraft:cut_copper"@,
        Block::OxidizedChiseledCopper => "minecraft:oxidized_chiseled_copper"@,
        Block::WeatheredChiseledCopper => "minecraft:weathered_chiseled_copper"@,
        Block::ExposedChiseledCopper => "minecraft:exposed_chiseled_copper"@,
        Block::ChiseledCopper => "minecraft:chiseled_copper"@,
        Block::WaxedOxidizedChiseledCopper => "minecraft:waxed_oxidized_chiseled_copper"@,
        Block::WaxedWeatheredChiseledCopper => "minecraft:waxed_weathered_chiseled_copper"@,
        Block::WaxedExposedChiseledCopper => "minecraft:waxed_exposed_chiseled_copper"@,
        Block::WaxedChiseledCopper => "minecraft:waxed_chiseled_copper"@,
        Block::WaxedCopperBlock => "minecraft:waxed_copper_block"@,
        Block::WaxedWeatheredCopper => "minecraft:waxed_weathered_copper"@,
        Block::WaxedExposedCopper => "minecraft:waxed_exposed_copper"@,
        Block::WaxedOxidizedCopper => "minecraft:waxed_oxidized_copper"@,
        Block::WaxedOxidizedCutCopper => "minecraft:waxed_oxidized_cut_copper"@,
        Block::WaxedWeatheredCutCopper => "minecraft:waxed_weathered_cut_copper"@,
        Block::WaxedExposedCutCopper => "minecraft:waxed_exposed_cut_copper"@,
        Block::WaxedCutCopper => "minecraft:waxed_cut_copper"@,
        Block::DripstoneBlock => "minecraft:dripstone_block"@,
        Block::MossBlock => "minecraft:moss_block"@,
        Block::RootedDirt => "minecraft:rooted_dirt"@,
        Block::Mud => "minecraft:mud"@,
        Block::CobbledDeepslate => "minecraft:cobbled_deepslate"@,
        Block::PolishedDeepslate => "minecraft:polished_deepslate"@,
        Block::DeepslateTiles => "minecraft:deepslate_tiles"@,
        Block::DeepslateBricks => "minecraft:deepslate_bricks"@,
        Block::ChiseledDeepslate => "minecraft:chiseled_deepslate"@,
        Block::CrackedDeepslateBricks => "minecraft:cracked_deepslate_bricks"@,
        Block::CrackedDeepslateTiles => "minecraft:cracked_deepslate_tiles"@,
        Block::SmoothBasalt => "minecraft:smooth_basalt"@,
        Block::RawIronBlock => "minecraft:raw_iron_block"@,
        Block::RawCopperBlock => "minecraft:raw_copper_block"@,
        Block::RawGoldBlock => "minecraft:raw_gold_block"@,
        Block::PaleMossBlock => "minecraft:pale_moss_block"@,
    }
}

impl Block {
    /// The namespaced id, e.g. `minecraft:stone`.
    #[must_use]
    pub fn name(self) -> (r: &'static str)
        ensures
            r@ == block_name(self),
    {
        match self {
            Block::Air => "minecraft:air",
            Block::Stone => "minecraft:stone",
            Block::Dirt => "minecraft:dirt",
            Block::GrassBlock => "minecraft:grass_block",
            Block::Cobblestone => "minecraft:cobblestone",
            Block::OakPlanks => "minecraft:oak_planks",
            Block::Sand => "minecraft:sand",
            Block::Gravel => "minecraft:gravel",
            Block::OakLog => "minecraft:oak_log",
            Block::Glass => "minecraft:glass",
            Block::WhiteWool => "minecraft:white_wool",
            Block::Bricks => "minecraft:bricks",
            Block::Obsidian => "minecraft:obsidian",
            Block::Glowstone => "minecraft:glowstone",
            Block::Granite => "minecraft:granite",
            Block::PolishedGranite => "minecraft:polished_granite",
            Block::Diorite => "minecraft:diorite",
            Block::PolishedDiorite => "minecraft:polished_diorite",
            Block::Andesite => "minecraft:andesite",
            Block::PolishedAndesite => "minecraft:polished_andesite",
            Block::CoarseDirt => "minecraft:coarse_dirt",
            Block::SprucePlanks => "minecraft:spruce_planks",
            Block::BirchPlanks => "minecraft:birch_planks",
            Block::JunglePlanks => "minecraft:jungle_planks",
            Block::AcaciaPlanks => "minecraft:acacia_planks",
            Block::CherryPlanks => "minecraft:cherry_planks",
            Block::DarkOakPlanks => "minecraft:dark_oak_planks",
            Block::PaleOakPlanks => "minecraft:pale_oak_planks",
            Block::MangrovePlanks => "minecraft:mangrove_planks",
            Block::BambooPlanks => "minecraft:bamboo_planks",
            Block::BambooMosaic => "minecraft:bamboo_mosaic",
            Block::RedSand => "minecraft:red_sand",
            Block::GoldOre => "minecraft:gold_ore",
            Block::DeepslateGoldOre => "minecraft:deepslate_gold_ore",
            Block::IronOre => "minecraft:iron_ore",
            Block::DeepslateIronOre => "minecraft:deepslate_iron_ore",
            Block::CoalOre => "minecraft:coal_ore",
            Block::DeepslateCoalOre => "minecraft:deepslate_coal_ore",
            Block::NetherGoldOre => "minecraft:nether_gold_ore",
            Block::Sponge => "minecraft:sponge",
            Block::WetSponge => "minecraft:wet_sponge",
            Block::LapisOre => "minecraft:lapis_ore",
            Block::DeepslateLapisOre => "minecraft:deepslate_lapis_ore",
            Block::LapisBlock => "minecraft:lapis_block",
            Block::Sandstone => "minecraft:sandstone",
            Block::ChiseledSandstone => "minecraft:chiseled_sandstone",
            Block::CutSandstone => "minecraft:cut_sandstone",
            Block::OrangeWool => "minecraft:orange_wool",
            Block::MagentaWool => "minecraft:magenta_wool",
            Block::LightBlueWool => "minecraft:light_blue_wool",
            Block::YellowWool => "minecraft:yellow_wool",
            Block::LimeWool => "minecraft:lime_wool",
            Block::PinkWool => "minecraft:pink_wool",
            Block::GrayWool => "minecraft:gray_wool",
            Block::LightGrayWool => "minecraft:light_gray_wool",
            Block::CyanWool => "minecraft:cyan_wool",
            Block::PurpleWool => "minecraft:purple_wool",
            Block::BlueWool => "minecraft:blue_wool",
            Block::BrownWool => "minecraft:brown_wool",
            Block::GreenWool => "minecraft:green_wool",
            Block::RedWool => "minecraft:red_wool",
            Block::BlackWool => "minecraft:black_wool",
            Block::GoldBlock => "minecraft:gold_block",
            Block::IronBlock => "minecraft:iron_block",
            Block::Bookshelf => "minecraft:bookshelf",
            Block::MossyCobblestone => "minecraft:mossy_cobblestone",
            Block::DiamondOre => "minecraft:diamond_ore",
            Block::DeepslateDiamondOre => "minecraft:deepslate_diamond_ore",
            Block::DiamondBlock => "minecraft:diamond_block",
            Block::CraftingTable => "minecraft:crafting_table",
            Block::Clay => "minecraft:clay",
            Block::Netherrack => "minecraft:netherrack",
            Block::SoulSand => "minecraft:soul_sand",
            Block::SoulSoil => "minecraft:soul_soil",
            Block::WhiteStainedGlass => "minecraft:white_stained_glass",
            Block::OrangeStainedGlass => "minecraft:orange_stained_glass",
            Block::MagentaStainedGlass => "minecraft:magenta_stained_glass",
            Block::LightBlueStainedGlass => "minecraft:light_blue_stained_glass",
            Block::YellowStainedGlass => "minecraft:yellow_stained_glass",
            Block::LimeStainedGlass => "minecraft:lime_stained_glass",
            Block::PinkStainedGlass => "minecraft:pink_stained_glass",
            Block::GrayStainedGlass => "minecraft:gray_stained_glass",
            Block::LightGrayStainedGlass => "minecraft:light_gray_stained_glass",
            Block::CyanStainedGlass => "minecraft:cyan_stained_glass",
            Block::PurpleStainedGlass => "minecraft:purple_stained_glass",
            Block::BlueStainedGlass => "minecraft:blue_stained_glass",
            Block::BrownStainedGlass => "minecraft:brown_stained_glass",
            Block::GreenStainedGlass => "minecraft:green_stained_glass",
            Block::RedStainedGlass => "minecraft:red_stained_glass",
            Block::BlackStainedGlass => "minecraft:black_stained_glass",
            Block::StoneBricks => "minecraft:stone_bricks",
            Block::MossyStoneBricks => "minecraft:mossy_stone_bricks",
            Block::CrackedStoneBricks => "minecraft:cracked_stone_bricks",
            Block::ChiseledStoneBricks => "minecraft:chiseled_stone_bricks",
            Block::PackedMud => "minecraft:packed_mud",
            Block::MudBricks => "minecraft:mud_bricks",
            Block::Pumpkin => "minecraft:pumpkin",
            Block::Melon => "minecraft:melon",
            Block::ResinBlock => "minecraft:resin_block",
            Block::ResinBricks => "minecraft:resin_bricks",
            Block::ChiseledResinBricks => "minecraft:chiseled_resin_bricks",
            Block::NetherBricks => "minecraft:nether_bricks",
            Block::EnchantingTable => "minecraft:enchanting_table",
            Block::EndStone => "minecraft:end_stone",
            Block::EmeraldOre => "minecraft:emerald_ore",
            Block::DeepslateEmeraldOre => "minecraft:deepslate_emerald_ore",
            Block::EmeraldBlock => "minecraft:emerald_block",
            Block::RedstoneBlock => "minecraft:redstone_block",
            Block::NetherQuartzOre => "minecraft:nether_quartz_ore",
            Block::QuartzBlock => "minecraft:quartz_block",
            Block::ChiseledQuartzBlock => "minecraft:chiseled_quartz_block",
            Block::WhiteTerracotta => "minecraft:white_terracotta",
            Block::OrangeTerracotta => "minecraft:orange_terracotta",
            Block::MagentaTerracotta => "minecraft:magenta_terracotta",
            Block::LightBlueTerracotta => "minecraft:light_blue_terracotta",
            Block::YellowTerracotta => "minecraft:yellow_terracotta",
            Block::LimeTerracotta => "minecraft:lime_terracotta",
            Block::PinkTerracotta => "minecraft:pink_terracotta",
            Block::GrayTerracotta => "minecraft:gray_terracotta",
            Block::LightGrayTerracotta => "minecraft:light_gray_terracotta",
            Block::CyanTerracotta => "minecraft:cyan_terracotta",
            Block::PurpleTerracotta => "minecraft:purple_terracotta",
            Block::BlueTerracotta => "minecraft:blue_terracotta",
            Block::BrownTerracotta => "minecraft:brown_terracotta",
            Block::GreenTerracotta => "minecraft:green_terracotta",
            Block::RedTerracotta => "minecraft:red_terracotta",
            Block::BlackTerracotta => "minecraft:black_terracotta",
            Block::Prismarine => "minecraft:prismarine",
            Block::PrismarineBricks => "minecraft:prismarine_bricks",
            Block::DarkPrismarine => "minecraft:dark_prismarine",
            Block::SeaLantern => "minecraft:sea_lantern",
            Block::Terracotta => "minecraft:terracotta",
            Block::CoalBlock => "minecraft:coal_block",
            Block::PackedIce => "minecraft:packed_ice",
            Block::RedSandstone => "minecraft:red_sandstone",
            Block::ChiseledRedSandstone => "minecraft:chiseled_red_sandstone",
            Block::CutRedSandstone => "minecraft:cut_red_sandstone",
            Block::SmoothStone => "minecraft:smooth_stone",
            Block::SmoothSandstone => "minecraft:smooth_sandstone",
            Block::SmoothQuartz => "minecraft:smooth_quartz",
            Block::SmoothRedSandstone => "minecraft:smooth_red_sandstone",
            Block::PurpurBlock => "minecraft:purpur_block",
            Block::EndStoneBricks => "minecraft:end_stone_bricks",
            Block::NetherWartBlock => "minecraft:nether_wart_block",
            Block::RedNetherBricks => "minecraft:red_nether_bricks",
            Block::WhiteConcrete => "minecraft:white_concrete",
            Block::OrangeConcrete => "minecraft:orange_concrete",
            Block::MagentaConcrete => "minecraft:magenta_concrete",
            Block::LightBlueConcrete => "minecraft:light_blue_concrete",
            Block::YellowConcrete => "minecraft:yellow_concrete",
            Block::LimeConcrete => "minecraft:lime_concrete",
            Block::PinkConcrete => "minecraft:pink_concrete",
            Block::GrayConcrete => "minecraft:gray_concrete",
            Block::LightGrayConcrete => "minecraft:light_gray_concrete",
            Block::CyanConcrete => "minecraft:cyan_concrete",
            Block::PurpleConcrete => "minecraft:purple_concrete",
            Block::BlueConcrete => "minecraft:blue_concrete",
            Block::BrownConcrete => "minecraft:brown_concrete",
            Block::GreenConcrete => "minecraft:green_concrete",
            Block::RedConcrete => "minecraft:red_concrete",
            Block::BlackConcrete => "minecraft:black_concrete",
            Block::DriedKelpBlock => "minecraft:dried_kelp_block",
            Block::DeadTubeCoralBlock => "minecraft:dead_tube_coral_block",
            Block::DeadBrainCoralBlock => "minecraft:dead_brain_coral_block",
            Block::DeadBubbleCoralBlock => "minecraft:dead_bubble_coral_block",
            Block::DeadFireCoralBlock => "minecraft:dead_fire_coral_block",
            Block::DeadHornCoralBlock => "minecraft:dead_horn_coral_block",
            Block::BlueIce => "minecraft:blue_ice",
            Block::CartographyTable => "minecraft:cartography_table",
            Block::FletchingTable => "minecraft:fletching_table",
            Block::SmithingTable => "minecraft:smithing_table",
            Block::WarpedNylium => "minecraft:warped_nylium",
            Block::WarpedWartBlock => "minecraft:warped_wart_block",
            Block::CrimsonNylium => "minecraft:crimson_nylium",
            Block::Shroomlight => "minecraft:shroomlight",
            Block::CrimsonPlanks => "minecraft:crimson_planks",
            Block::WarpedPlanks => "minecraft:warped_planks",
            Block::HoneycombBlock => "minecraft:honeycomb_block",
            Block::NetheriteBlock => "minecraft:netherite_block",
            Block::AncientDebris => "minecraft:ancient_debris",
            Block::CryingObsidian => "minecraft:crying_obsidian",
            Block::Lodestone => "minecraft:lodestone",
            Block::Blackstone => "minecraft:blackstone",
            Block::PolishedBlackstone => "minecraft:polished_blackstone",
            Block::PolishedBlackstoneBricks => "minecraft:polished_blackstone_bricks",
            Block::CrackedPolishedBlackstoneBricks => "minecraft:cracked_polished_blackstone_bricks",
            Block::ChiseledPolishedBlackstone => "minecraft:chiseled_polished_blackstone",
            Block::GildedBlackstone => "minecraft:gilded_blackstone",
            Block::ChiseledNetherBricks => "minecraft:chiseled_nether_bricks",
            Block::CrackedNetherBricks => "minecraft:cracked_nether_bricks",
            Block::QuartzBricks => "minecraft:quartz_bricks",
            Block::AmethystBlock => "minecraft:amethyst_block",
            Block::Tuff => "minecraft:tuff",
            Block::PolishedTuff => "minecraft:polished_tuff",
            Block::ChiseledTuff => "minecraft:chiseled_tuff",
            Block::TuffBricks => "minecraft:tuff_bricks",
            Block::ChiseledTuffBricks => "minecraft:chiseled_tuff_bricks",
            Block::Calcite => "minecraft:calcite",
            Block::TintedGlass => "minecraft:tinted_glass",
            Block::CopperBlock => "minecraft:copper_block",
            Block::ExposedCopper => "minecraft:exposed_copper",
            Block::WeatheredCopper => "minecraft:weathered_copper",
            Block::OxidizedCopper => "minecraft:oxidized_copper",
            Block::CopperOre => "minecraft:copper_ore",
            Block::DeepslateCopperOre => "minecraft:deepslate_copper_ore",
            Block::OxidizedCutCopper => "minecraft:oxidized_cut_copper",
            Block::WeatheredCutCopper => "minecraft:weathered_cut_copper",
            Block::ExposedCutCopper => "minecraft:exposed_cut_copper",
            Block::CutCopper => "minecraft:cut_copper",
            Block::OxidizedChiseledCopper => "minecraft:oxidized_chiseled_copper",
            Block::WeatheredChiseledCopper => "minecraft:weathered_chiseled_copper",
            Block::ExposedChiseledCopper => "minecraft:exposed_chiseled_copper",
            Block::ChiseledCopper => "minecraft:chiseled_copper",
            Block::WaxedOxidizedChiseledCopper => "minecraft:waxed_oxidized_chiseled_copper",
            Block::WaxedWeatheredChiseledCopper => "minecraft:waxed_weathered_chiseled_copper",
            Block::WaxedExposedChiseledCopper => "minecraft:waxed_exposed_chiseled_copper",
            Block::WaxedChiseledCopper => "minecraft:waxed_chiseled_copper",
            Block::WaxedCopperBlock => "minecraft:waxed_copper_block",
            Block::WaxedWeatheredCopper => "minecraft:waxed_weathered_copper",
            Block::WaxedExposedCopper => "minecraft:waxed_exposed_copper",
            Block::WaxedOxidizedCopper => "minecraft:waxed_oxidized_copper",
            Block::WaxedOxidizedCutCopper => "minecraft:waxed_oxidized_cut_copper",
            Block::WaxedWeatheredCutCopper => "minecraft:waxed_weathered_cut_copper",
            Block::WaxedExposedCutCopper => "minecraft:waxed_exposed_cut_copper",
            Block::WaxedCutCopper => "minecraft:waxed_cut_copper",
            Block::DripstoneBlock => "minecraft:dripstone_block",
            Block::MossBlock => "minecraft:moss_block",
            Block::RootedDirt => "minecraft:rooted_dirt",
            Block::Mud => "minecraft:mud",
            Block::CobbledDeepslate => "minecraft:cobbled_deepslate",
            Block::PolishedDeepslate => "minecraft:polished_deepslate",
            Block::DeepslateTiles => "minecraft:deepslate_tiles",
            Block::DeepslateBricks => "minecraft:deepslate_bricks",
            Block::ChiseledDeepslate => "minecraft:chiseled_deepslate",
            Block::CrackedDeepslateBricks => "minecraft:cracked_deepslate_bricks",
            Block::CrackedDeepslateTiles => "minecraft:cracked_deepslate_tiles",
            Block::SmoothBasalt => "minecraft:smooth_basalt",
            Block::RawIronBlock => "minecraft:raw_iron_block",
            Block::RawCopperBlock => "minecraft:raw_copper_block",
            Block::RawGoldBlock => "minecraft:raw_gold_block",
            Block::PaleMossBlock => "minecraft:pale_moss_block",
        }
    }

    /// The numeric id stored in chunk sections.
    #[must_use]
    pub fn id(self) -> (r: u16)
        ensures
            r == block_id(self),
    {
        match self {
            Block::Air => 0,
            Block::Stone => 1,
            Block::Dirt => 2,
            Block::GrassBlock => 3,
            Block::Cobblestone => 4,
            Block::OakPlanks => 5,
            Block::Sand => 6,
            Block::Gravel => 7,
            Block::OakLog => 8,
            Block::Glass => 9,
            Block::WhiteWool => 10,
            Block::Bricks => 11,
            Block::Obsidian => 12,
            Block::Glowstone => 13,
            Block::Granite => 14,
            Block::PolishedGranite => 15,
            Block::Diorite => 16,
            Block::PolishedDiorite => 17,
            Block::Andesite => 18,
            Block::PolishedAndesite => 19,
            Block::CoarseDirt => 20,
            Block::SprucePlanks => 21,
            Block::BirchPlanks => 22,
            Block::JunglePlanks => 23,
            Block::AcaciaPlanks => 24,
            Block::CherryPlanks => 25,
            Block::DarkOakPlanks => 26,
            Block::PaleOakPlanks => 27,
            Block::MangrovePlanks => 28,
            Block::BambooPlanks => 29,
            Block::BambooMosaic => 30,
            Block::RedSand => 31,
            Block::GoldOre => 32,
            Block::DeepslateGoldOre => 33,
            Block::IronOre => 34,
            Block::DeepslateIronOre => 35,
            Block::CoalOre => 36,
            Block::DeepslateCoalOre => 37,
            Block::NetherGoldOre => 38,
            Block::Sponge => 39,
            Block::WetSponge => 40,
            Block::LapisOre => 41,
            Block::DeepslateLapisOre => 42,
            Block::LapisBlock => 43,
            Block::Sandstone => 44,
            Block::ChiseledSandstone => 45,
            Block::CutSandstone => 46,
            Block::OrangeWool => 47,
            Block::MagentaWool => 48,
            Block::LightBlueWool => 49,
            Block::YellowWool => 50,
            Block::LimeWool => 51,
            Block::PinkWool => 52,
            Block::GrayWool => 53,
            Block::LightGrayWool => 54,
            Block::CyanWool => 55,
            Block::PurpleWool => 56,
            Block::BlueWool => 57,
            Block::BrownWool => 58,
            Block::GreenWool => 59,
            Block::RedWool => 60,
            Block::BlackWool => 61,
            Block::GoldBlock => 62,
            Block::IronBlock => 63,
            Block::Bookshelf => 64,
            Block::MossyCobblestone => 65,
            Block::DiamondOre => 66,
            Block::DeepslateDiamondOre => 67,
            Block::DiamondBlock => 68,
            Block::CraftingTable => 69,
            Block::Clay => 70,
            Block::Netherrack => 71,
            Block::SoulSand => 72,
            Block::SoulSoil => 73,
            Block::WhiteStainedGlass => 74,
            Block::OrangeStainedGlass => 75,
            Block::MagentaStainedGlass => 76,
            Block::LightBlueStainedGlass => 77,
            Block::YellowStainedGlass => 78,
            Block::LimeStainedGlass => 79,
            Block::PinkStainedGlass => 80,
            Block::GrayStainedGlass => 81,
            Block::LightGrayStainedGlass => 82,
            Block::CyanStainedGlass => 83,
            Block::PurpleStainedGlass => 84,
            Block::BlueStainedGlass => 85,
            Block::BrownStainedGlass => 86,
            Block::GreenStainedGlass => 87,
            Block::RedStainedGlass => 88,
            Block::BlackStainedGlass => 89,
            Block::StoneBricks => 90,
            Block::MossyStoneBricks => 91,
            Block::CrackedStoneBricks => 92,
            Block::ChiseledStoneBricks => 93,
            Block::PackedMud => 94,
            Block::MudBricks => 95,
            Block::Pumpkin => 96,
            Block::Melon => 97,
            Block::ResinBlock => 98,
            Block::ResinBricks => 99,
            Block::ChiseledResinBricks => 100,
            Block::NetherBricks => 101,
            Block::EnchantingTable => 102,
            Block::EndStone => 103,
            Block::EmeraldOre => 104,
            Block::DeepslateEmeraldOre => 105,
            Block::EmeraldBlock => 106,
            Block::RedstoneBlock => 107,
            Block::NetherQuartzOre => 108,
            Block::QuartzBlock => 109,
            Block::ChiseledQuartzBlock => 110,
            Block::WhiteTerracotta => 111,
            Block::OrangeTerracotta => 112,
            Block::MagentaTerracotta => 113,
            Block::LightBlueTerracotta => 114,
            Block::YellowTerracotta => 115,
            Block::LimeTerracotta => 116,
            Block::PinkTerracotta => 117,
            Block::GrayTerracotta => 118,
            Block::LightGrayTerracotta => 119,
            Block::CyanTerracotta => 120,
            Block::PurpleTerracotta => 121,
            Block::BlueTerracotta => 122,
            Block::BrownTerracotta => 123,
            Block::GreenTerracotta => 124,
            Block::RedTerracotta => 125,
            Block::BlackTerracotta => 126,
            Block::Prismarine => 127,
            Block::PrismarineBricks => 128,
            Block::DarkPrismarine => 129,
            Block::SeaLantern => 130,
            Block::Terracotta => 131,
            Block::CoalBlock => 132,
            Block::PackedIce => 133,
            Block::RedSandstone => 134,
            Block::ChiseledRedSandstone => 135,
            Block::CutRedSandstone => 136,
            Block::SmoothStone => 137,
            Block::SmoothSandstone => 138,
            Block::SmoothQuartz => 139,
            Block::SmoothRedSandstone => 140,
            Block::PurpurBlock => 141,
            Block::EndStoneBricks => 142,
            Block::NetherWartBlock => 143,
            Block::RedNetherBricks => 144,
            Block::WhiteConcrete => 145,
            Block::OrangeConcrete => 146,
            Block::MagentaConcrete => 147,
            Block::LightBlueConcrete => 148,
            Block::YellowConcrete => 149,
            Block::LimeConcrete => 150,
            Block::PinkConcrete => 151,
            Block::GrayConcrete => 152,
            Block::LightGrayConcrete => 153,
            Block::CyanConcrete => 154,
            Block::PurpleConcrete => 155,
            Block::BlueConcrete => 156,
            Block::BrownConcrete => 157,
            Block::GreenConcrete => 158,
            Block::RedConcrete => 159,
            Block::BlackConcrete => 160,
            Block::DriedKelpBlock => 161,
            Block::DeadTubeCoralBlock => 162,
            Block::DeadBrainCoralBlock => 163,
            Block::DeadBubbleCoralBlock => 164,
            Block::DeadFireCoralBlock => 165,
            Block::DeadHornCoralBlock => 166,
            Block::BlueIce => 167,
            Block::CartographyTable => 168,
            Block::FletchingTable => 169,
            Block::SmithingTable => 170,
            Block::WarpedNylium => 171,
            Block::WarpedWartBlock => 172,
            Block::CrimsonNylium => 173,
            Block::Shroomlight => 174,
            Block::CrimsonPlanks => 175,
            Block::WarpedPlanks => 176,
            Block::HoneycombBlock => 177,
            Block::NetheriteBlock => 178,
            Block::AncientDebris => 179,
            Block::CryingObsidian => 180,
            Block::Lodestone => 181,
            Block::Blackstone => 182,
            Block::PolishedBlackstone => 183,
            Block::PolishedBlackstoneBricks => 184,
            Block::CrackedPolishedBlackstoneBricks => 185,
            Block::ChiseledPolishedBlackstone => 186,
            Block::GildedBlackstone => 187,
            Block::ChiseledNetherBricks => 188,
            Block::CrackedNetherBricks => 189,
            Block::QuartzBricks => 190,
            Block::AmethystBlock => 191,
            Block::Tuff => 192,
            Block::PolishedTuff => 193,
            Block::ChiseledTuff => 194,
            Block::TuffBricks => 195,
            Block::ChiseledTuffBricks => 196,
            Block::Calcite => 197,
            Block::TintedGlass => 198,
            Block::CopperBlock => 199,
            Block::ExposedCopper => 200,
            Block::WeatheredCopper => 201,
            Block::OxidizedCopper => 202,
            Block::CopperOre => 203,
            Block::DeepslateCopperOre => 204,
            Block::OxidizedCutCopper => 205,
            Block::WeatheredCutCopper => 206,
            Block::ExposedCutCopper => 207,
            Block::CutCopper => 208,
            Block::OxidizedChiseledCopper => 209,
            Block::WeatheredChiseledCopper => 210,
            Block::ExposedChiseledCopper => 211,
            Block::ChiseledCopper => 212,
            Block::WaxedOxidizedChiseledCopper => 213,
            Block::WaxedWeatheredChiseledCopper => 214,
            Block::WaxedExposedChiseledCopper => 215,
            Block::WaxedChiseledCopper => 216,
            Block::WaxedCopperBlock => 217,
            Block::WaxedWeatheredCopper => 218,
            Block::WaxedExposedCopper => 219,
            Block::WaxedOxidizedCopper => 220,
            Block::WaxedOxidizedCutCopper => 221,
            Block::WaxedWeatheredCutCopper => 222,
            Block::WaxedExposedCutCopper => 223,
            Block::WaxedCutCopper => 224,
            Block::DripstoneBlock => 225,
            Block::MossBlock => 226,
            Block::RootedDirt => 227,
            Block::Mud => 228,
            Block::CobbledDeepslate => 229,
            Block::PolishedDeepslate => 230,
            Block::DeepslateTiles => 231,
            Block::DeepslateBricks => 232,
            Block::ChiseledDeepslate => 233,
            Block::CrackedDeepslateBricks => 234,
            Block::CrackedDeepslateTiles => 235,
            Block::SmoothBasalt => 236,
            Block::RawIronBlock => 237,
            Block::RawCopperBlock => 238,
            Block::RawGoldBlock => 239,
            Block::PaleMossBlock => 240,
        }
    }

    /// The block with the given numeric id, `None` for unknown ids.
    #[must_use]
    pub fn from_id(id: u16) -> (r: Option<Self>)
        ensures
            r == block_from_id(id),
    {
        match id {
            0 => Some(Block::Air),
            1 => Some(Block::Stone),
            2 => Some(Block::Dirt),
            3 => Some(Block::GrassBlock),
            4 => Some(Block::Cobblestone),
            5 => Some(Block::OakPlanks),
            6 => Some(Block::Sand),
            7 => Some(Block::Gravel),
            8 => Some(Block::OakLog),
            9 => Some(Block::Glass),
            10 => Some(Block::WhiteWool),
            11 => Some(Block::Bricks),
            12 => Some(Block::Obsidian),
            13 => Some(Block::Glowstone),
            14 => Some(Block::Granite),
            15 => Some(Block::PolishedGranite),
            16 => Some(Block::Diorite),
            17 => Some(Block::PolishedDiorite),
            18 => Some(Block::Andesite),
            19 => Some(Block::PolishedAndesite),
            20 => Some(Block::CoarseDirt),
            21 => Some(Block::SprucePlanks),
            22 => Some(Block::BirchPlanks),
            23 => Some(Block::JunglePlanks),
            24 => Some(Block::AcaciaPlanks),
            25 => Some(Block::CherryPlanks),
            26 => Some(Block::DarkOakPlanks),
            27 => Some(Block::PaleOakPlanks),
            28 => Some(Block::MangrovePlanks),
            29 => Some(Block::BambooPlanks),
            30 => Some(Block::BambooMosaic),
            31 => Some(Block::RedSand),
            32 => Some(Block::GoldOre),
            33 => Some(Block::DeepslateGoldOre),
            34 => Some(Block::IronOre),
            35 => Some(Block::DeepslateIronOre),
            36 => Some(Block::CoalOre),
            37 => Some(Block::DeepslateCoalOre),
            38 => Some(Block::NetherGoldOre),
            39 => Some(Block::Sponge),
            40 => Some(Block::WetSponge),
            41 => Some(Block::LapisOre),
            42 => Some(Block::DeepslateLapisOre),
            43 => Some(Block::LapisBlock),
            44 => Some(Block::Sandstone),
            45 => Some(Block::ChiseledSandstone),
            46 => Some(Block::CutSandstone),
            47 => Some(Block::OrangeWool),
            48 => Some(Block::MagentaWool),
            49 => Some(Block::LightBlueWool),
            50 => Some(Block::YellowWool),
            51 => Some(Block::LimeWool),
            52 => Some(Block::PinkWool),
            53 => Some(Block::GrayWool),
            54 => Some(Block::LightGrayWool),
            55 => Some(Block::CyanWool),
            56 => Some(Block::PurpleWool),
            57 => Some(Block::BlueWool),
            58 => Some(Block::BrownWool),
            59 => Some(Block::GreenWool),
            60 => Some(Block::RedWool),
            61 => Some(Block::BlackWool),
            62 => Some(Block::GoldBlock),
            63 => Some(Block::IronBlock),
            64 => Some(Block::Bookshelf),
            65 => Some(Block::MossyCobblestone),
            66 => Some(Block::DiamondOre),
            67 => Some(Block::DeepslateDiamondOre),
            68 => Some(Block::DiamondBlock),
            69 => Some(Block::CraftingTable),
            70 => Some(Block::Clay),
            71 => Some(Block::Netherrack),
            72 => Some(Block::SoulSand),
            73 => Some(Block::SoulSoil),
            74 => Some(Block::WhiteStainedGlass),
            75 => Some(Block::OrangeStainedGlass),
            76 => Some(Block::MagentaStainedGlass),
            77 => Some(Block::LightBlueStainedGlass),
            78 => Some(Block::YellowStainedGlass),
            79 => Some(Block::LimeStainedGlass),
            80 => Some(Block::PinkStainedGlass),
            81 => Some(Block::GrayStainedGlass),
            82 => Some(Block::LightGrayStainedGlass),
            83 => Some(Block::CyanStainedGlass),
            84 => Some(Block::PurpleStainedGlass),
            85 => Some(Block::BlueStainedGlass),
            86 => Some(Block::BrownStainedGlass),
            87 => Some(Block::GreenStainedGlass),
            88 => Some(Block::RedStainedGlass),
            89 => Some(Block::BlackStainedGlass),
            90 => Some(Block::StoneBricks),
            91 => Some(Block::MossyStoneBricks),
            92 => Some(Block::CrackedStoneBricks),
            93 => Some(Block::ChiseledStoneBricks),
            94 => Some(Block::PackedMud),
            95 => Some(Block::MudBricks),
            96 => Some(Block::Pumpkin),
            97 => Some(Block::Melon),
            98 => Some(Block::ResinBlock),
            99 => Some(Block::ResinBricks),
            100 => Some(Block::ChiseledResinBricks),
            101 => Some(Block::NetherBricks),
            102 => Some(Block::EnchantingTable),
            103 => Some(Block::EndStone),
            104 => Some(Block::EmeraldOre),
            105 => Some(Block::DeepslateEmeraldOre),
            106 => Some(Block::EmeraldBlock),
            107 => Some(Block::RedstoneBlock),
            108 => Some(Block::NetherQuartzOre),
            109 => Some(Block::QuartzBlock),
            110 => Some(Block::ChiseledQuartzBlock),
            111 => Some(Block::WhiteTerracotta),
            112 => Some(Block::OrangeTerracotta),
            113 => Some(Block::MagentaTerracotta),
            114 => Some(Block::LightBlueTerracotta),
            115 => Some(Block::YellowTerracotta),
            116 => Some(Block::LimeTerracotta),
            117 => Some(Block::PinkTerracotta),
            118 => Some(Block::GrayTerracotta),
            119 => Some(Block::LightGrayTerracotta),
            120 => Some(Block::CyanTerracotta),
            121 => Some(Block::PurpleTerracotta),
            122 => Some(Block::BlueTerracotta),
            123 => Some(Block::BrownTerracotta),
            124 => Some(Block::GreenTerracotta),
            125 => Some(Block::RedTerracotta),
            126 => Some(Block::BlackTerracotta),
            127 => Some(Block::Prismarine),
            128 => Some(Block::PrismarineBricks),
            129 => Some(Block::DarkPrismarine),
            130 => Some(Block::SeaLantern),
            131 => Some(Block::Terracotta),
            132 => Some(Block::CoalBlock),
            133 => Some(Block::PackedIce),
            134 => Some(Block::RedSandstone),
            135 => Some(Block::ChiseledRedSandstone),
            136 => Some(Block::CutRedSandstone),
            137 => Some(Block::SmoothStone),
            138 => Some(Block::SmoothSandstone),
            139 => Some(Block::SmoothQuartz),
            140 => Some(Block::SmoothRedSandstone),
            141 => Some(Block::PurpurBlock),
            142 => Some(Block::EndStoneBricks),
            143 => Some(Block::NetherWartBlock),
            144 => Some(Block::RedNetherBricks),
            145 => Some(Block::WhiteConcrete),
            146 => Some(Block::OrangeConcrete),
            147 => Some(Block::MagentaConcrete),
            148 => Some(Block::LightBlueConcrete),
            149 => Some(Block::YellowConcrete),
            150 => Some(Block::LimeConcrete),
            151 => Some(Block::PinkConcrete),
            152 => Some(Block::GrayConcrete),
            153 => Some(Block::LightGrayConcrete),
            154 => Some(Block::CyanConcrete),
            155 => Some(Block::PurpleConcrete),
            156 => Some(Block::BlueConcrete),
            157 => Some(Block::BrownConcrete),
            158 => Some(Block::GreenConcrete),
            159 => Some(Block::RedConcrete),
            160 => Some(Block::BlackConcrete),
            161 => Some(Block::DriedKelpBlock),
            162 => Some(Block::DeadTubeCoralBlock),
            163 => Some(Block::DeadBrainCoralBlock),
            164 => Some(Block::DeadBubbleCoralBlock),
            165 => Some(Block::DeadFireCoralBlock),
            166 => Some(Block::DeadHornCoralBlock),
            167 => Some(Block::BlueIce),
            168 => Some(Block::CartographyTable),
            169 => Some(Block::FletchingTable),
            170 => Some(Block::SmithingTable),
            171 => Some(Block::WarpedNylium),
            172 => Some(Block::WarpedWartBlock),
            173 => Some(Block::CrimsonNylium),
            174 => Some(Block::Shroomlight),
            175 => Some(Block::CrimsonPlanks),
            176 => Some(Block::WarpedPlanks),
            177 => Some(Block::HoneycombBlock),
            178 => Some(Block::NetheriteBlock),
            179 => Some(Block::AncientDebris),
            180 => Some(Block::CryingObsidian),
            181 => Some(Block::Lodestone),
            182 => Some(Block::Blackstone),
            183 => Some(Block::PolishedBlackstone),
            184 => Some(Block::PolishedBlackstoneBricks),
            185 => Some(Block::CrackedPolishedBlackstoneBricks),
            186 => Some(Block::ChiseledPolishedBlackstone),
            187 => Some(Block::GildedBlackstone),
            188 => Some(Block::ChiseledNetherBricks),
            189 => Some(Block::CrackedNetherBricks),
            190 => Some(Block::QuartzBricks),
            191 => Some(Block::AmethystBlock),
            192 => Some(Block::Tuff),
            193 => Some(Block::PolishedTuff),
            194 => Some(Block::ChiseledTuff),
            195 => Some(Block::TuffBricks),
            196 => Some(Block::ChiseledTuffBricks),
            197 => Some(Block::Calcite),
            198 => Some(Block::TintedGlass),
            199 => Some(Block::CopperBlock),
            200 => Some(Block::ExposedCopper),
            201 => Some(Block::WeatheredCopper),
            202 => Some(Block::OxidizedCopper),
            203 => Some(Block::CopperOre),
            204 => Some(Block::DeepslateCopperOre),
            205 => Some(Block::OxidizedCutCopper),
            206 => Some(Block::WeatheredCutCopper),
            207 => Some(Block::ExposedCutCopper),
            208 => Some(Block::CutCopper),
            209 => Some(Block::OxidizedChiseledCopper),
            210 => Some(Block::WeatheredChiseledCopper),
            211 => Some(Block::ExposedChiseledCopper),
            212 => Some(Block::ChiseledCopper),
            213 => Some(Block::WaxedOxidizedChiseledCopper),
            214 => Some(Block::WaxedWeatheredChiseledCopper),
            215 => Some(Block::WaxedExposedChiseledCopper),
            216 => Some(Block::WaxedChiseledCopper),
            217 => Some(Block::WaxedCopperBlock),
            218 => Some(Block::WaxedWeatheredCopper),
            219 => Some(Block::WaxedExposedCopper),
            220 => Some(Block::WaxedOxidizedCopper),
            221 => Some(Block::WaxedOxidizedCutCopper),
            222 => Some(Block::WaxedWeatheredCutCopper),
            223 => Some(Block::WaxedExposedCutCopper),
            224 => Some(Block::WaxedCutCopper),
            225 => Some(Block::DripstoneBlock),
            226 => Some(Block::MossBlock),
            227 => Some(Block::RootedDirt),
            228 => Some(Block::Mud),
            229 => Some(Block::CobbledDeepslate),
            230 => Some(Block::PolishedDeepslate),
            231 => Some(Block::DeepslateTiles),
            232 => Some(Block::DeepslateBricks),
            233 => Some(Block::ChiseledDeepslate),
            234 => Some(Block::CrackedDeepslateBricks),
            235 => Some(Block::CrackedDeepslateTiles),
            236 => Some(Block::SmoothBasalt),
            237 => Some(Block::RawIronBlock),
            238 => Some(Block::RawCopperBlock),
            239 => Some(Block::RawGoldBlock),
            240 => Some(Block::PaleMossBlock),
            _ => None,
        }
    }


    /// Everything but air is solid.
    #[must_use]
    pub fn is_solid(self) -> (r: bool)
        ensures
            r == (self != Block::Air),
    {
        match self {
            Block::Air => false,
            _ => true,
        }
    }
}

/// Block ids round trip: every block's id maps back to that block.
pub proof fn law_block_id_roundtrip(b: Block)
    ensures
        block_from_id(block_id(b)) == Some(b),
        block_id(b) <= 240,
{
}

/// Only ids of known blocks decode, and they decode to the block with that id.
pub proof fn law_block_from_id_inverse(id: u16)
    ensures
        block_from_id(id) matches Some(b) ==> block_id(b) == id,
        block_from_id(id) is Some <==> id <= 240,
{
}

/// A position in block coordinates.
#[derive(Debug, Clone, Copy, PartialEq, Eq, Hash, Structural)]
pub struct BlockPos {
    pub x: i32,
    pub y: i32,
    pub z: i32,
}

/// A chunk column's position: block coordinates divided by 16, rounded
/// towards negative infinity.
#[derive(Debug, Clone, Copy, PartialEq, Eq, Hash, Structural)]
pub struct ChunkPos {
    pub x: i32,
    pub z: i32,
}

/// Floor division by 16 (Euclidean, as in `div_euclid`).
fn div16(v: i32) -> (r: i32)
    ensures
        r as int == v as int / 16,
{
    match v.checked_div_euclid(16) {
        Some(q) => q,
        None => {
            assert(false);
            0
        }
    }
}

/// Remainder of floor division by 16, in `0..16`.
fn rem16(v: i32) -> (r: u8)
    ensures
        r as int == v as int % 16,
        r < 16,
{
    match v.checked_rem_euclid(16) {
        Some(q) => q as u8,
        None => {
            assert(false);
            0
        }
    }
}

impl BlockPos {
    #[must_use]
    pub fn new(x: i32, y: i32, z: i32) -> (r: Self)
        ensures
            r == (BlockPos { x, y, z }),
    {
        Self { x, y, z }
    }

    /// The chunk column containing this block.
    #[must_use]
    pub fn chunk_pos(self) -> (r: ChunkPos)
        ensures
            r.x == self.x as int / 16,
            r.z == self.z as int / 16,
    {
        ChunkPos::from_world(self.x, self.z)
    }

    /// X within the chunk, in `0..16`.
    #[must_use]
    pub fn local_x(self) -> (r: u8)
        ensures
            r == self.x as int % 16,
    {
        rem16(self.x)
    }

    /// Z within the chunk, in `0..16`.
    #[must_use]
    pub fn local_z(self) -> (r: u8)
        ensures
            r == self.z as int % 16,
    {
        rem16(self.z)
    }
}

impl ChunkPos {
    #[must_use]
    pub fn new(x: i32, z: i32) -> (r: Self)
        ensures
            r == (ChunkPos { x, z }),
    {
        Self { x, z }
    }

    /// The chunk column containing world block column (x, z).
    #[must_use]
    pub fn from_world(world_x: i32, world_z: i32) -> (r: Self)
        ensures
            r.x == world_x as int / 16,
            r.z == world_z as int / 16,
    {
        Self { x: div16(world_x), z: div16(world_z) }
    }

    /// The smallest block x and z inside this chunk column.
    #[must_use]
    pub fn min_block(self) -> (r: (i32, i32))
        requires
            i32::MIN <= self.x * 16 <= i32::MAX,
            i32::MIN <= self.z * 16 <= i32::MAX,
        ensures
            r.0 == self.x * 16,
            r.1 == self.z * 16,
    {
        (self.x * CHUNK_WIDTH, self.z * CHUNK_WIDTH)
    }
}

/// Chunk coordinates and in-chunk offsets split a block coordinate exactly:
/// `chunk * 16 + local == coordinate`, with `local` in `0..16`.
pub proof fn law_chunk_local_split(v: i32)
    ensures
        (v as int / 16) * 16 + v as int % 16 == v,
        0 <= v as int % 16 < 16,
{
}


// ---------------------------------------------------------------------------
// Chunk sections
// ---------------------------------------------------------------------------

/// Index of a block inside a 16x16x16 section: x fastest, then z, then y.
pub open spec fn section_index(x: int, y: int, z: int) -> int {
    (y * 16 + z) * 16 + x
}

/// The block a stored id stands for; unknown ids read as air.
pub open spec fn block_of_state(id: u16) -> Block {
    match block_from_id(id) {
        Some(b) => b,
        None => Block::Air,
    }
}

/// Section contents after writing `b` at index `i`: nothing is written
/// when the block there already reads as `b`.
pub open spec fn section_after_set(states: Seq<u16>, i: int, b: Block) -> Seq<u16> {
    if block_of_state(states[i]) != b {
        states.update(i, block_id(b))
    } else {
        states
    }
}

/// A 16x16x16 cube of block ids, with the local coordinates changed since
/// they were last drained (each listed once, in order of first change).
pub struct ChunkSection {
    section_y: i32,
    blocks: [u16; 4096],
    changed: Vec<(u8, u8, u8)>,
}

impl ChunkSection {
    pub closed spec fn spec_section_y(&self) -> i32 {
        self.section_y
    }

    /// The 4096 stored block ids.
    pub closed spec fn spec_states(&self) -> Seq<u16> {
        self.blocks@
    }

    pub closed spec fn spec_changed(&self) -> Seq<(u8, u8, u8)> {
        self.changed@
    }

    /// No position stands twice in the change list.
    #[verifier::type_invariant]
    spec fn changes_listed_once(self) -> bool {
        self.changed@.no_duplicates()
    }

    /// An all-air section.
    #[must_use]
    pub fn new(section_y: i32) -> (r: Self)
        ensures
            r.spec_section_y() == section_y,
            r.spec_states() == Seq::new(4096, |_i: int| 0u16),
            r.spec_changed() == Seq::<(u8, u8, u8)>::empty(),
    {
        let r = Self { section_y, blocks: [0u16; 4096], changed: Vec::new() };
        assert(r.spec_states() =~= Seq::new(4096, |_i: int| 0u16));
        r
    }

    #[must_use]
    pub fn section_y(&self) -> (r: i32)
        ensures
            r == self.spec_section_y(),
    {
        self.section_y
    }

    fn index(x: u8, y: u8, z: u8) -> (r: usize)
        requires
            x < 16,
            y < 16,
            z < 16,
        ensures
            r == section_index(x as int, y as int, z as int),
            r < 4096,
    {
        (y as usize * 16 + z as usize) * 16 + x as usize
    }

    /// The block at local (x, y, z); ids without a block read as air.
    #[must_use]
    pub fn get_local(&self, x: u8, y: u8, z: u8) -> (r: Block)
        requires
            x < 16,
            y < 16,
            z < 16,
        ensures
            r == block_of_state(self.spec_states()[section_index(x as int, y as int, z as int)]),
    {
        match Block::from_id(self.blocks[Self::index(x, y, z)]) {
            Some(block) => block,
            None => Block::Air,
        }
    }

    /// Writes a block and returns what was there. A real change is recorded
    /// in the change list (once per position).
    pub fn set_local(&mut self, x: u8, y: u8, z: u8, block: Block) -> (r: Block)
        requires
            x < 16,
            y < 16,
            z < 16,
        ensures
            r == block_of_state(old(self).spec_states()[section_index(x as int, y as int, z as int)]),
            final(self).spec_section_y() == old(self).spec_section_y(),
            final(self).spec_states() == section_after_set(old(self).spec_states(), section_index(x as int, y as int, z as int), block),
            final(self).spec_changed() == if r != block && !old(self).spec_changed().contains((x, y, z)) {
                old(self).spec_changed().push((x, y, z))
            } else {
                old(self).spec_changed()
            },
            final(self).spec_changed().no_duplicates(),
    {
        proof {
            use_type_invariant(&*self);
        }
        let index = Self::index(x, y, z);
        let prev = match Block::from_id(self.blocks[index]) {
            Some(block) => block,
            None => Block::Air,
        };
        if prev != block {
            self.blocks[index] = block.id();
            let mut seen = false;
            let mut i: usize = 0;
            while i < self.changed.len()
                invariant
                    i <= self.changed@.len(),
                    self.changed@ == old(self).changed@,
                    seen == self.changed@.take(i as int).contains((x, y, z)),
                decreases self.changed.len() - i,
            {
                let (cx, cy, cz) = self.changed[i];
                assert(self.changed@.take(i + 1) =~= self.changed@.take(i as int).push(self.changed@[i as int]));
                if cx == x && cy == y && cz == z {
                    seen = true;
                }
                i = i + 1;
            }
            assert(self.changed@.take(i as int) =~= self.changed@);
            if !seen {
                assert(self.changed@.push((x, y, z)).no_duplicates()) by {
                    let s = self.changed@.push((x, y, z));
                    assert forall|a: int, b: int| 0 <= a < s.len() && 0 <= b < s.len() && a != b implies s[a] != s[b] by {
                        if b == s.len() - 1 && s[a] == s[b] {
                            assert(self.changed@[a] == (x, y, z));
                            assert(self.changed@.contains((x, y, z)));
                        } else if a == s.len() - 1 && s[a] == s[b] {
                            assert(self.changed@[b] == (x, y, z));
                            assert(self.changed@.contains((x, y, z)));
                        }
                    }
                }
                let mut list: Vec<(u8, u8, u8)> = Vec::new();
                std::mem::swap(&mut list, &mut self.changed);
                list.push((x, y, z));
                self.changed = list;
            }
        }
        prev
    }

    #[must_use]
    pub fn is_dirty(&self) -> (r: bool)
        ensures
            r == (self.spec_changed().len() > 0),
    {
        self.changed.len() > 0
    }

    /// Drains the change list.
    pub fn take_changed(&mut self) -> (r: Vec<(u8, u8, u8)>)
        ensures
            r@ == old(self).spec_changed(),
            r@.no_duplicates(),
            final(self).spec_changed() == Seq::<(u8, u8, u8)>::empty(),
            final(self).spec_states() == old(self).spec_states(),
            final(self).spec_section_y() == old(self).spec_section_y(),
    {
        proof {
            use_type_invariant(&*self);
        }
        let mut taken: Vec<(u8, u8, u8)> = Vec::new();
        std::mem::swap(&mut taken, &mut self.changed);
        taken
    }

    /// Whether every stored id is air.
    #[must_use]
    pub fn is_empty(&self) -> (r: bool)
        ensures
            r == (forall|i: int| 0 <= i < 4096 ==> #[trigger] self.spec_states()[i] == 0),
    {
        let mut i: usize = 0;
        while i < 4096
            invariant
                i <= 4096,
                self.blocks@.len() == 4096,
                forall|j: int| 0 <= j < i ==> #[trigger] self.blocks@[j] == 0,
            decreases 4096 - i,
        {
            if self.blocks[i] != 0 {
                assert(self.spec_states()[i as int] != 0);
                return false;
            }
            i = i + 1;
        }
        true
    }

    #[must_use]
    pub fn states(&self) -> (r: &[u16; 4096])
        ensures
            r@ == self.spec_states(),
    {
        &self.blocks
    }
}

/// A write is what a later read at the same place gives back, and every
/// other place of the section keeps its block id.
pub proof fn law_section_set_then_get(states: Seq<u16>, i: int, j: int, b: Block)
    requires
        0 <= i < states.len(),
        0 <= j < states.len(),
        i != j,
    ensures
        block_of_state(section_after_set(states, i, b)[i]) == b,
        section_after_set(states, i, b)[j] == states[j],
        section_after_set(states, i, b).len() == states.len(),
{
    law_block_id_roundtrip(b);
}


// ---------------------------------------------------------------------------
// Chunks
// ---------------------------------------------------------------------------

/// The generated flat terrain: grass on top at `SURFACE_Y`, three layers of
/// dirt under it, stone down to the bottom of the world, air above.
pub open spec fn flat_block(y: int) -> Block {
    if y == SURFACE_Y {
        Block::GrassBlock
    } else if SURFACE_Y - 3 <= y < SURFACE_Y {
        Block::Dirt
    } else if WORLD_MIN_Y <= y < SURFACE_Y - 3 {
        Block::Stone
    } else {
        Block::Air
    }
}

/// Block ids of section `section` of a freshly generated chunk.
pub open spec fn flat_states(section: int) -> Seq<u16> {
    Seq::new(4096, |i: int| block_id(flat_block(section * 16 + i / 256 + WORLD_MIN_Y)))
}

/// Index of the section holding world height `y`, if inside the world.
pub open spec fn section_of_y(y: int) -> Option<int> {
    if WORLD_MIN_Y <= y < WORLD_MIN_Y + WORLD_HEIGHT {
        Some((y - WORLD_MIN_Y) / 16)
    } else {
        None
    }
}

/// Index within its section of world block (x, y, z).
pub open spec fn index_in_section(x: i32, y: i32, z: i32) -> int {
    section_index(x as int % 16, (y - WORLD_MIN_Y) % 16, z as int % 16)
}

/// The block at world (x, y, z) in a column at `pos` whose sections hold
/// `states`: `None` outside the column or the world's height.
pub open spec fn block_in(pos: ChunkPos, states: Seq<Seq<u16>>, x: i32, y: i32, z: i32) -> Option<Block> {
    if x as int / 16 != pos.x || z as int / 16 != pos.z {
        None
    } else {
        match section_of_y(y as int) {
            None => None,
            Some(s) => Some(block_of_state(states[s][index_in_section(x, y, z)])),
        }
    }
}

/// Section contents after writing `b` at world (x, y, z); unchanged when
/// the position is outside the column or the world's height.
pub open spec fn states_after_set(pos: ChunkPos, states: Seq<Seq<u16>>, x: i32, y: i32, z: i32, b: Block) -> Seq<Seq<u16>> {
    match block_in(pos, states, x, y, z) {
        None => states,
        Some(_) => {
            let s = section_of_y(y as int).unwrap();
            states.update(s, section_after_set(states[s], index_in_section(x, y, z), b))
        },
    }
}

/// Section contents of well-formed chunk data: `SECTION_COUNT` sections of
/// `SECTION_BLOCKS` ids each.
pub open spec fn states_wf(states: Seq<Seq<u16>>) -> bool {
    &&& states.len() == SECTION_COUNT
    &&& forall|s: int| 0 <= s < SECTION_COUNT ==> (#[trigger] states[s]).len() == SECTION_BLOCKS
}

/// A 16-wide column of `SECTION_COUNT` sections from `WORLD_MIN_Y` up.
pub struct Chunk {
    pos: ChunkPos,
    sections: Vec<ChunkSection>,
    dirty: bool,
}

fn flat_section(section: usize) -> (r: ChunkSection)
    requires
        section < SECTION_COUNT,
    ensures
        r.spec_section_y() == section,
        r.spec_states() == flat_states(section as int),
        r.spec_changed() == Seq::<(u8, u8, u8)>::empty(),
{
    let mut blocks = [0u16; 4096];
    let mut i: usize = 0;
    while i < 4096
        invariant
            section < SECTION_COUNT,
            i <= 4096,
            blocks@.len() == 4096,
            forall|j: int| 0 <= j < i ==> #[trigger] blocks@[j] == flat_states(section as int)[j],
        decreases 4096 - i,
    {
        let y = (section * 16 + i / 256) as i32 + WORLD_MIN_Y;
        let block = if y == SURFACE_Y {
            Block::GrassBlock
        } else if y >= SURFACE_Y - 3 && y < SURFACE_Y {
            Block::Dirt
        } else if y < SURFACE_Y - 3 {
            Block::Stone
        } else {
            Block::Air
        };
        blocks[i] = block.id();
        i = i + 1;
    }
    let r = ChunkSection { section_y: section as i32, blocks, changed: Vec::new() };
    assert(r.spec_states() =~= flat_states(section as int));
    r
}

impl Chunk {
    pub closed spec fn spec_pos(&self) -> ChunkPos {
        self.pos
    }

    /// Whether the chunk changed since it was last saved.
    pub closed spec fn spec_dirty(&self) -> bool {
        self.dirty
    }

    pub closed spec fn spec_sections(&self) -> Seq<ChunkSection> {
        self.sections@
    }

    /// Holds exactly `SECTION_COUNT` sections of 4096 block ids each.
    pub open spec fn wf(&self) -> bool {
        &&& self.spec_sections().len() == SECTION_COUNT
        &&& forall|s: int| 0 <= s < SECTION_COUNT ==> (#[trigger] self.spec_sections()[s]).spec_states().len() == 4096
    }

    /// The block ids of every section, bottom first.
    pub open spec fn spec_states(&self) -> Seq<Seq<u16>> {
        self.spec_sections().map_values(|s: ChunkSection| s.spec_states())
    }

    /// The block at world (x, y, z): `None` outside this column or outside
    /// the world's height.
    pub open spec fn spec_block_at(&self, x: i32, y: i32, z: i32) -> Option<Block> {
        block_in(self.spec_pos(), self.spec_states(), x, y, z)
    }

    /// A chunk of generated flat terrain, clean and with empty change lists.
    #[must_use]
    pub fn new(x: i32, z: i32) -> (r: Self)
        ensures
            r.wf(),
            r.spec_pos() == (ChunkPos { x, z }),
            !r.spec_dirty(),
            forall|s: int| 0 <= s < SECTION_COUNT ==> (#[trigger] r.spec_sections()[s]).spec_states() == flat_states(s)
                && r.spec_sections()[s].spec_changed().len() == 0 && r.spec_sections()[s].spec_section_y() == s,
    {
        let mut sections: Vec<ChunkSection> = Vec::new();
        let mut s: usize = 0;
        while s < SECTION_COUNT
            invariant
                s <= SECTION_COUNT,
                sections@.len() == s,
                forall|t: int| 0 <= t < s ==> (#[trigger] sections@[t]).spec_states() == flat_states(t)
                    && sections@[t].spec_changed().len() == 0 && sections@[t].spec_section_y() == t,
            decreases SECTION_COUNT - s,
        {
            sections.push(flat_section(s));
            s = s + 1;
        }
        Self { pos: ChunkPos::new(x, z), sections, dirty: false }
    }

    /// All-air sections, clean. What `decode` fills in.
    #[must_use]
    pub fn new_bare(x: i32, z: i32) -> (r: Self)
        ensures
            r.wf(),
            r.spec_pos() == (ChunkPos { x, z }),
            !r.spec_dirty(),
            forall|s: int| 0 <= s < SECTION_COUNT ==> (#[trigger] r.spec_sections()[s]).spec_states() == Seq::new(4096, |_i: int| 0u16)
                && r.spec_sections()[s].spec_changed().len() == 0 && r.spec_sections()[s].spec_section_y() == s,
    {
        let mut sections: Vec<ChunkSection> = Vec::new();
        let mut s: usize = 0;
        while s < SECTION_COUNT
            invariant
                s <= SECTION_COUNT,
                sections@.len() == s,
                forall|t: int| 0 <= t < s ==> (#[trigger] sections@[t]).spec_states() == Seq::new(4096, |_i: int| 0u16)
                    && sections@[t].spec_changed().len() == 0 && sections@[t].spec_section_y() == t,
            decreases SECTION_COUNT - s,
        {
            sections.push(ChunkSection::new(s as i32));
            s = s + 1;
        }
        Self { pos: ChunkPos::new(x, z), sections, dirty: false }
    }

    #[must_use]
    pub fn is_dirty(&self) -> (r: bool)
        ensures
            r == self.spec_dirty(),
    {
        self.dirty
    }

    pub fn mark_clean(&mut self)
        ensures
            !final(self).spec_dirty(),
            final(self).spec_pos() == old(self).spec_pos(),
            final(self).spec_sections() == old(self).spec_sections(),
    {
        self.dirty = false;
    }

    /// The chunk file bytes of this chunk's sections.
    #[must_use]
    pub fn encode(&self) -> (r: Vec<u8>)
        ensures
            r@ == spec_encode_sections(self.spec_states()),
    {
        let mut refs: Vec<&[u16; SECTION_BLOCKS]> = Vec::new();
        let mut i: usize = 0;
        while i < self.sections.len()
            invariant
                i <= self.sections@.len(),
                refs@.len() == i,
                forall|j: int| 0 <= j < i ==> (#[trigger] refs@[j])@ == self.sections@[j].spec_states(),
            decreases self.sections.len() - i,
        {
            refs.push(self.sections[i].states());
            i = i + 1;
        }
        let r = encode_sections(refs.as_slice());
        assert(refs@.map_values(|a: &[u16; SECTION_BLOCKS]| a@) =~= self.spec_states());
        r
    }

    /// Restores a chunk from chunk file bytes holding exactly
    /// `SECTION_COUNT` sections; corrupt input gives `None`. A restored
    /// chunk is dirty, so that it is saved again.
    #[must_use]
    pub fn decode(x: i32, z: i32, bytes: &[u8]) -> (r: Option<Self>)
        ensures
            match spec_decode_sections(bytes@, SECTION_COUNT as nat) {
                None => r is None,
                Some(secs) => r matches Some(c) && c.wf() && c.spec_pos() == (ChunkPos { x, z }) && c.spec_dirty()
                    && c.spec_states() == secs
                    && forall|s: int| 0 <= s < SECTION_COUNT ==> (#[trigger] c.spec_sections()[s]).spec_changed().len() == 0
                        && c.spec_sections()[s].spec_section_y() == s,
            },
    {
        let states = match decode_sections(bytes, SECTION_COUNT) {
            Some(states) => states,
            None => return None,
        };
        let ghost secs = spec_decode_sections(bytes@, SECTION_COUNT as nat).unwrap();
        proof { crate::persist::lemma_decode_sections_len(bytes@, SECTION_COUNT as nat); }
        let mut sections: Vec<ChunkSection> = Vec::new();
        let mut s: usize = 0;
        while s < SECTION_COUNT
            invariant
                s <= SECTION_COUNT,
                states@.len() == SECTION_COUNT,
                secs.len() == SECTION_COUNT,
                forall|i: int| 0 <= i < secs.len() ==> #[trigger] states@[i]@ == secs[i],
                sections@.len() == s,
                forall|t: int| 0 <= t < s ==> (#[trigger] sections@[t]).spec_states() == secs[t]
                    && sections@[t].spec_changed().len() == 0 && sections@[t].spec_section_y() == t,
            decreases SECTION_COUNT - s,
        {
            sections.push(ChunkSection { section_y: s as i32, blocks: states[s], changed: Vec::new() });
            s = s + 1;
        }
        let chunk = Self { pos: ChunkPos::new(x, z), sections, dirty: true };
        assert(chunk.spec_states() =~= secs);
        Some(chunk)
    }

    /// Mutable access to section `index` (bottom is 0).
    pub fn section_mut(&mut self, index: usize) -> (r: Option<&mut ChunkSection>)
        ensures
            index >= old(self).spec_sections().len() ==> r is None && *final(self) == *old(self),
            index < old(self).spec_sections().len() ==> (r matches Some(s) && *s == old(self).spec_sections()[index as int]),
            final(self).spec_pos() == old(self).spec_pos(),
            final(self).spec_dirty() == old(self).spec_dirty(),
            final(self).spec_sections().len() == old(self).spec_sections().len(),
    {
        if index < self.sections.len() {
            Some(&mut self.sections[index])
        } else {
            None
        }
    }

    #[must_use]
    pub fn pos(&self) -> (r: ChunkPos)
        ensures
            r == self.spec_pos(),
    {
        self.pos
    }

    fn section_for_y(y: i32) -> (r: Option<usize>)
        ensures
            match section_of_y(y as int) {
                None => r is None,
                Some(s) => r == Some(s as usize) && s < SECTION_COUNT,
            },
    {
        if y < WORLD_MIN_Y || y >= WORLD_MIN_Y + WORLD_HEIGHT {
            return None;
        }
        Some(((y - WORLD_MIN_Y) / SECTION_SIZE) as usize)
    }

    /// The block at world (x, y, z), `None` outside this column or the
    /// world's height.
    #[must_use]
    pub fn get_block(&self, x: i32, y: i32, z: i32) -> (r: Option<Block>)
        requires
            self.wf(),
        ensures
            r == self.spec_block_at(x, y, z),
    {
        let here = ChunkPos::from_world(x, z);
        if here.x != self.pos.x || here.z != self.pos.z {
            return None;
        }
        let section = match Self::section_for_y(y) {
            Some(section) => section,
            None => return None,
        };
        Some(self.sections[section].get_local(rem16(x), ((y - WORLD_MIN_Y) % SECTION_SIZE) as u8, rem16(z)))
    }

    /// Writes a block and returns the previous one; `None` (and no change)
    /// outside this column or the world's height. A real change marks the
    /// chunk dirty.
    pub fn set_block(&mut self, x: i32, y: i32, z: i32, block: Block) -> (r: Option<Block>)
        requires
            old(self).wf(),
        ensures
            final(self).wf(),
            r == old(self).spec_block_at(x, y, z),
            final(self).spec_pos() == old(self).spec_pos(),
            final(self).spec_states() == states_after_set(old(self).spec_pos(), old(self).spec_states(), x, y, z, block),
            r is None ==> *final(self) == *old(self),
            r matches Some(prev) ==> {
                let s = section_of_y(y as int).unwrap();
                let i = index_in_section(x, y, z);
                let sec = old(self).spec_sections()[s];
                &&& final(self).spec_dirty() == (old(self).spec_dirty() || prev != block)
                &&& final(self).spec_sections() == old(self).spec_sections().update(s, final(self).spec_sections()[s])
                &&& final(self).spec_sections()[s].spec_states() == section_after_set(sec.spec_states(), i, block)
                &&& final(self).spec_sections()[s].spec_section_y() == sec.spec_section_y()
                &&& final(self).spec_sections()[s].spec_changed() == if prev != block && !sec.spec_changed().contains(
                    (((x as int % 16) as u8), (((y - WORLD_MIN_Y) % 16) as u8), ((z as int % 16) as u8)),
                ) {
                    sec.spec_changed().push((((x as int % 16) as u8), (((y - WORLD_MIN_Y) % 16) as u8), ((z as int % 16) as u8)))
                } else {
                    sec.spec_changed()
                }
            },
    {
        let here = ChunkPos::from_world(x, z);
        if here.x != self.pos.x || here.z != self.pos.z {
            return None;
        }
        let section = match Self::section_for_y(y) {
            Some(section) => section,
            None => return None,
        };
        let prev = self.sections[section].set_local(rem16(x), ((y - WORLD_MIN_Y) % SECTION_SIZE) as u8, rem16(z), block);
        if prev != block {
            self.dirty = true;
        }
        assert(self.spec_states() =~= states_after_set(old(self).spec_pos(), old(self).spec_states(), x, y, z, block));
        Some(prev)
    }

    /// Section `index` (bottom is 0), if any.
    #[must_use]
    pub fn section(&self, index: usize) -> (r: Option<&ChunkSection>)
        ensures
            index < self.spec_sections().len() ==> r == Some(&self.spec_sections()[index as int]),
            index >= self.spec_sections().len() ==> r is None,
    {
        if index < self.sections.len() {
            Some(&self.sections[index])
        } else {
            None
        }
    }

    #[must_use]
    pub fn section_count(&self) -> (r: usize)
        ensures
            r == self.spec_sections().len(),
    {
        self.sections.len()
    }
}


/// What a chunk write stores is what a later read at the same place gives
/// back; every other place keeps its block; outside the column or the
/// world's height nothing is written.
pub proof fn law_chunk_set_then_get(pos: ChunkPos, states: Seq<Seq<u16>>, x: i32, y: i32, z: i32, b: Block, x2: i32, y2: i32, z2: i32)
    requires
        states_wf(states),
    ensures
        block_in(pos, states, x, y, z) is Some ==> block_in(pos, states_after_set(pos, states, x, y, z, b), x, y, z) == Some(b),
        block_in(pos, states, x, y, z) is None ==> states_after_set(pos, states, x, y, z, b) == states,
        (x2, y2, z2) != (x, y, z) ==> block_in(pos, states_after_set(pos, states, x, y, z, b), x2, y2, z2)
            == block_in(pos, states, x2, y2, z2),
        states_wf(states_after_set(pos, states, x, y, z, b)),
{
    law_block_id_roundtrip(b);
    if block_in(pos, states, x, y, z) is Some {
        let s = section_of_y(y as int).unwrap();
        let i = index_in_section(x, y, z);
        let after = states_after_set(pos, states, x, y, z, b);
        assert(0 <= i < 4096);
        if (x2, y2, z2) != (x, y, z) && block_in(pos, states, x2, y2, z2) is Some {
            let s2 = section_of_y(y2 as int).unwrap();
            let i2 = index_in_section(x2, y2, z2);
            assert(0 <= i2 < 4096);
            assert(s2 != s || i2 != i);
        }
    }
}

/// A freshly generated chunk is the flat terrain: every position of its
/// column inside the world's height holds `flat_block(y)`.
pub proof fn law_fresh_chunk_is_flat(pos: ChunkPos, x: i32, y: i32, z: i32)
    requires
        x as int / 16 == pos.x,
        z as int / 16 == pos.z,
        WORLD_MIN_Y <= y < WORLD_MIN_Y + WORLD_HEIGHT,
    ensures
        block_in(pos, Seq::new(SECTION_COUNT as nat, |s: int| flat_states(s)), x, y, z) == Some(flat_block(y as int)),
{
    let s = section_of_y(y as int).unwrap();
    let i = index_in_section(x, y, z);
    assert(0 <= i < 4096);
    assert(i / 256 == (y - WORLD_MIN_Y) % 16);
    assert(s * 16 + i / 256 + WORLD_MIN_Y == y);
    law_block_id_roundtrip(flat_block(y as int));
}


// ---------------------------------------------------------------------------
// Loaded chunks
// ---------------------------------------------------------------------------

/// The map key of a chunk position: x in the high 32 bits, z in the low.
pub open spec fn chunk_key(pos: ChunkPos) -> u64 {
    ((pos.x as u32 as u64) << 32u64) | (pos.z as u32 as u64)
}

/// The chunk position a map key stands for.
pub open spec fn key_pos(key: u64) -> ChunkPos {
    ChunkPos { x: (key >> 32u64) as u32 as i32, z: key as u32 as i32 }
}

/// Chunk keys and positions are in one-to-one correspondence.
pub proof fn law_chunk_key_bijective(pos: ChunkPos, key: u64)
    ensures
        key_pos(chunk_key(pos)) == pos,
        chunk_key(key_pos(key)) == key,
{
    let (x, z) = (pos.x, pos.z);
    assert((((((x as u32 as u64) << 32u64) | (z as u32 as u64)) >> 32u64) as u32 as i32) == x) by (bit_vector);
    assert(((((x as u32 as u64) << 32u64) | (z as u32 as u64)) as u32 as i32) == z) by (bit_vector);
    assert(((((key >> 32u64) as u32 as i32) as u32 as u64) << 32u64) | ((key as u32 as i32) as u32 as u64) == key) by (bit_vector);
}

fn contains_pos(list: &Vec<ChunkPos>, pos: ChunkPos) -> (r: bool)
    ensures
        r == list@.contains(pos),
{
    let mut i: usize = 0;
    while i < list.len()
        invariant
            i <= list@.len(),
            forall|j: int| 0 <= j < i ==> list@[j] != pos,
        decreases list.len() - i,
    {
        if list[i] == pos {
            return true;
        }
        i = i + 1;
    }
    false
}

fn key_of(pos: ChunkPos) -> (r: u64)
    ensures
        r == chunk_key(pos),
{
    ((pos.x as u32 as u64) << 32) | (pos.z as u32 as u64)
}

fn pos_of(key: u64) -> (r: ChunkPos)
    ensures
        r == key_pos(key),
{
    ChunkPos { x: (key >> 32) as u32 as i32, z: key as u32 as i32 }
}

/// A freshly generated chunk at `pos`: flat terrain, clean, no pending changes.
pub open spec fn is_fresh_chunk(c: Chunk, pos: ChunkPos) -> bool {
    &&& c.wf()
    &&& c.spec_pos() == pos
    &&& !c.spec_dirty()
    &&& forall|s: int| 0 <= s < SECTION_COUNT ==> (#[trigger] c.spec_sections()[s]).spec_states() == flat_states(s)
        && c.spec_sections()[s].spec_changed().len() == 0 && c.spec_sections()[s].spec_section_y() == s
}

/// The chunks held in memory, by position.
pub struct ChunkManager {
    chunks: HashMap<u64, Chunk>,
}

impl Default for ChunkManager {
    fn default() -> (r: Self)
        ensures
            r.spec_chunks() == Map::<u64, Chunk>::empty(),
    {
        ChunkManager::new()
    }
}

impl ChunkManager {
    /// Loaded chunks keyed by `chunk_key` of their position.
    pub closed spec fn spec_chunks(&self) -> Map<u64, Chunk> {
        self.chunks@
    }

    /// Only finitely many chunks are ever loaded.
    pub proof fn lemma_finite(m: &ChunkManager)
        ensures
            m.spec_chunks().dom().finite(),
    {
        broadcast use vstd::std_specs::hash::axiom_hashmap_view_finite_dom;
        assert(m.chunks@.dom().finite());
    }

    #[must_use]
    pub fn new() -> (r: Self)
        ensures
            r.spec_chunks() == Map::<u64, Chunk>::empty(),
    {
        ChunkManager { chunks: HashMap::new() }
    }

    /// The chunk at `pos`, generating flat terrain there first if it is not
    /// loaded.
    pub fn load(&mut self, pos: ChunkPos) -> (r: &mut Chunk)
        ensures
            old(self).spec_chunks().contains_key(chunk_key(pos)) ==> *r == old(self).spec_chunks()[chunk_key(pos)],
            !old(self).spec_chunks().contains_key(chunk_key(pos)) ==> is_fresh_chunk(*r, pos),
            final(self).spec_chunks() == old(self).spec_chunks().insert(chunk_key(pos), *final(r)),
            final(self).spec_chunks().len() == old(self).spec_chunks().len() + if old(self).spec_chunks().contains_key(
                chunk_key(pos),
            ) {
                0int
            } else {
                1int
            },
    {
        proof {
            broadcast use vstd::std_specs::hash::axiom_hashmap_view_finite_dom;
            assert(self.chunks@.dom().finite());
        }
        let key = key_of(pos);
        match self.chunks.entry(key) {
            Entry::Occupied(entry) => entry.into_mut(),
            Entry::Vacant(entry) => entry.insert(Chunk::new(pos.x, pos.z)),
        }
    }

    #[must_use]
    pub fn get(&self, pos: ChunkPos) -> (r: Option<&Chunk>)
        ensures
            self.spec_chunks().contains_key(chunk_key(pos)) ==> r == Some(&self.spec_chunks()[chunk_key(pos)]),
            !self.spec_chunks().contains_key(chunk_key(pos)) ==> r is None,
    {
        let key = key_of(pos);
        self.chunks.get(&key)
    }

    pub fn get_mut(&mut self, pos: ChunkPos) -> (r: Option<&mut Chunk>)
        ensures
            !old(self).spec_chunks().contains_key(chunk_key(pos)) ==> r is None && final(self).spec_chunks() == old(self).spec_chunks(),
            old(self).spec_chunks().contains_key(chunk_key(pos)) ==> (r matches Some(c)
                && *c == old(self).spec_chunks()[chunk_key(pos)]
                && final(self).spec_chunks() == old(self).spec_chunks().insert(chunk_key(pos), *final(c))),
    {
        let key = key_of(pos);
        match self.chunks.entry(key) {
            Entry::Occupied(entry) => Some(entry.into_mut()),
            Entry::Vacant(_) => None,
        }
    }

    /// Drops the chunk at `pos`; whether one was loaded.
    pub fn unload(&mut self, pos: ChunkPos) -> (r: bool)
        ensures
            r == old(self).spec_chunks().contains_key(chunk_key(pos)),
            final(self).spec_chunks() == old(self).spec_chunks().remove(chunk_key(pos)),
            final(self).spec_chunks().len() == old(self).spec_chunks().len() - if r { 1int } else { 0int },
    {
        proof {
            broadcast use vstd::std_specs::hash::axiom_hashmap_view_finite_dom;
            assert(self.chunks@.dom().finite());
        }
        let key = key_of(pos);
        self.chunks.remove(&key).is_some()
    }

    #[must_use]
    pub fn is_loaded(&self, pos: ChunkPos) -> (r: bool)
        ensures
            r == self.spec_chunks().contains_key(chunk_key(pos)),
    {
        let key = key_of(pos);
        self.chunks.contains_key(&key)
    }

    #[must_use]
    pub fn loaded_count(&self) -> (r: usize)
        ensures
            r == self.spec_chunks().len(),
    {
        self.chunks.len()
    }

    /// Every loaded position, once each, in no particular order.
    pub fn loaded_positions(&self) -> (r: Vec<ChunkPos>)
        ensures
            r@.len() == self.spec_chunks().len(),
            forall|i: int| 0 <= i < r@.len() ==> self.spec_chunks().contains_key(chunk_key(#[trigger] r@[i])),
            forall|k: u64| #[trigger] self.spec_chunks().contains_key(k) ==> r@.contains(key_pos(k)),
    {
        let mut out: Vec<ChunkPos> = Vec::new();
        let ghost all = vstd::std_specs::hash::spec_keys_iter(&self.chunks).remaining().unref();
        proof { vstd::std_specs::hash::axiom_spec_keys_iter(&self.chunks); }
        for key in it: self.chunks.keys()
            invariant
                out@.len() == it.index(),
                it.seq().unref() == all,
                forall|i: int| 0 <= i < out@.len() ==> (#[trigger] out@[i]) == key_pos(all[i]),
                all.to_set() == self.chunks@.dom(),
                all.len() == self.chunks@.dom().len(),
        {
            out.push(pos_of(*key));
        }
        assert forall|i: int| 0 <= i < out@.len() implies self.spec_chunks().contains_key(chunk_key(#[trigger] out@[i])) by {
            let k = all[i];
            assert(all.to_set().contains(k));
            law_chunk_key_bijective(out@[i], k);
        }
        assert forall|k: u64| #[trigger] self.spec_chunks().contains_key(k) implies out@.contains(key_pos(k)) by {
            assert(all.to_set().contains(k));
            let i = choose|i: int| 0 <= i < all.len() && all[i] == k;
            assert(out@[i] == key_pos(k));
        }
        out
    }

    /// The loaded positions whose chunk changed since it was last saved:
    /// what a save writes.
    pub fn dirty_positions(&self) -> (r: Vec<ChunkPos>)
        ensures
            forall|i: int| 0 <= i < r@.len() ==> self.spec_chunks().contains_key(chunk_key(#[trigger] r@[i]))
                && self.spec_chunks()[chunk_key(r@[i])].spec_dirty(),
            forall|k: u64| #[trigger] self.spec_chunks().contains_key(k) && self.spec_chunks()[k].spec_dirty() ==> r@.contains(key_pos(k)),
    {
        let all = self.loaded_positions();
        let mut out: Vec<ChunkPos> = Vec::new();
        let mut i: usize = 0;
        while i < all.len()
            invariant
                i <= all@.len(),
                forall|j: int| 0 <= j < all@.len() ==> self.spec_chunks().contains_key(chunk_key(#[trigger] all@[j])),
                forall|j: int| 0 <= j < out@.len() ==> self.spec_chunks().contains_key(chunk_key(#[trigger] out@[j]))
                    && self.spec_chunks()[chunk_key(out@[j])].spec_dirty(),
                forall|j: int| 0 <= j < i && self.spec_chunks()[chunk_key(all@[j])].spec_dirty() ==> out@.contains(#[trigger] all@[j]),
            decreases all.len() - i,
        {
            let pos = all[i];
            let ghost prev = out@;
            match self.get(pos) {
                Some(chunk) => {
                    if chunk.is_dirty() {
                        out.push(pos);
                        assert(out@[out@.len() - 1] == pos);
                    }
                },
                None => {},
            }
            assert forall|j: int| 0 <= j < i + 1 && self.spec_chunks()[chunk_key(all@[j])].spec_dirty() implies out@.contains(
                #[trigger] all@[j],
            ) by {
                if j < i {
                    assert(prev.contains(all@[j]));
                    let w = choose|w: int| 0 <= w < prev.len() && prev[w] == all@[j];
                    assert(out@[w] == prev[w]);
                }
            }
            i = i + 1;
        }
        assert forall|k: u64| #[trigger] self.spec_chunks().contains_key(k) && self.spec_chunks()[k].spec_dirty() implies out@.contains(
            key_pos(k),
        ) by {
            assert(all@.contains(key_pos(k)));
            let j = choose|j: int| 0 <= j < all@.len() && all@[j] == key_pos(k);
            law_chunk_key_bijective(key_pos(k), k);
        }
        out
    }

    /// The loaded positions that are not in `keep`: what an eviction
    /// drops.
    pub fn positions_outside(&self, keep: &Vec<ChunkPos>) -> (r: Vec<ChunkPos>)
        ensures
            forall|i: int| 0 <= i < r@.len() ==> self.spec_chunks().contains_key(chunk_key(#[trigger] r@[i])) && !keep@.contains(r@[i]),
            forall|k: u64| #[trigger] self.spec_chunks().contains_key(k) && !keep@.contains(key_pos(k)) ==> r@.contains(key_pos(k)),
    {
        let all = self.loaded_positions();
        let mut out: Vec<ChunkPos> = Vec::new();
        let mut i: usize = 0;
        while i < all.len()
            invariant
                i <= all@.len(),
                forall|j: int| 0 <= j < all@.len() ==> self.spec_chunks().contains_key(chunk_key(#[trigger] all@[j])),
                forall|j: int| 0 <= j < out@.len() ==> self.spec_chunks().contains_key(chunk_key(#[trigger] out@[j])) && !keep@.contains(out@[j]),
                forall|j: int| 0 <= j < i && !keep@.contains(all@[j]) ==> out@.contains(#[trigger] all@[j]),
            decreases all.len() - i,
        {
            let pos = all[i];
            let ghost prev = out@;
            if !contains_pos(keep, pos) {
                out.push(pos);
                assert(out@[out@.len() - 1] == pos);
            }
            assert forall|j: int| 0 <= j < i + 1 && !keep@.contains(all@[j]) implies out@.contains(#[trigger] all@[j]) by {
                if j < i {
                    assert(prev.contains(all@[j]));
                    let w = choose|w: int| 0 <= w < prev.len() && prev[w] == all@[j];
                    assert(out@[w] == prev[w]);
                }
            }
            i = i + 1;
        }
        assert forall|k: u64| #[trigger] self.spec_chunks().contains_key(k) && !keep@.contains(key_pos(k)) implies out@.contains(key_pos(k)) by {
            assert(all@.contains(key_pos(k)));
            let j = choose|j: int| 0 <= j < all@.len() && all@[j] == key_pos(k);
        }
        out
    }

    /// One step of an eviction: drops the chunk at `pos` if it is clean,
    /// or dirty and written out (`written` is `None` when there is nowhere
    /// to write it, else whether the write succeeded). A dirty chunk that
    /// was not written stays. Whether the chunk was dropped.
    pub fn evict_step(&mut self, pos: ChunkPos, written: Option<bool>) -> (r: bool)
        ensures
            r == (old(self).spec_chunks().contains_key(chunk_key(pos)) && (!old(self).spec_chunks()[chunk_key(pos)].spec_dirty()
                || written == Some(true))),
            final(self).spec_chunks() == if r {
                old(self).spec_chunks().remove(chunk_key(pos))
            } else {
                old(self).spec_chunks()
            },
    {
        let keep = match self.get(pos) {
            None => true,
            Some(chunk) => chunk.is_dirty() && !matches!(written, Some(true)),
        };
        if keep {
            return false;
        }
        self.unload(pos)
    }

    /// After a save of the chunk at `pos`: a successful write marks it
    /// clean; otherwise nothing changes.
    pub fn record_save(&mut self, pos: ChunkPos, written: bool)
        ensures
            written && old(self).spec_chunks().contains_key(chunk_key(pos)) ==> {
                let c = old(self).spec_chunks()[chunk_key(pos)];
                final(self).spec_chunks().dom() == old(self).spec_chunks().dom() && {
                    let d = final(self).spec_chunks()[chunk_key(pos)];
                    &&& !d.spec_dirty()
                    &&& d.spec_pos() == c.spec_pos()
                    &&& d.spec_sections() == c.spec_sections()
                } && forall|k: u64| k != chunk_key(pos) && #[trigger] old(self).spec_chunks().contains_key(k)
                    ==> final(self).spec_chunks()[k] == old(self).spec_chunks()[k]
            },
            !(written && old(self).spec_chunks().contains_key(chunk_key(pos))) ==> final(self).spec_chunks() == old(
                self,
            ).spec_chunks(),
    {
        if written {
            match self.get_mut(pos) {
                Some(chunk) => chunk.mark_clean(),
                None => {},
            }
        }
    }

    /// Stores `chunk` at `pos`, replacing any chunk there.
    pub fn insert(&mut self, pos: ChunkPos, chunk: Chunk)
        ensures
            final(self).spec_chunks() == old(self).spec_chunks().insert(chunk_key(pos), chunk),
            final(self).spec_chunks().len() == old(self).spec_chunks().len() + if old(self).spec_chunks().contains_key(
                chunk_key(pos),
            ) {
                0int
            } else {
                1int
            },
    {
        proof {
            broadcast use vstd::std_specs::hash::axiom_hashmap_view_finite_dom;
            assert(self.chunks@.dom().finite());
        }
        let key = key_of(pos);
        self.chunks.insert(key, chunk);
    }
}

} // verus!
