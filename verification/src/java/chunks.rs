//! The chunk data packet and the chunk-streaming packets around it.
use vstd::prelude::*;
use vstd::arithmetic::div_mod::lemma_fundamental_div_mod_converse;
use vstd::arithmetic::power2::{lemma2_to64, lemma_pow2_strictly_increases, lemma_pow2_unfold, pow2};

use super::packets::{encode_packet, frame_fits, packet_frame};
use super::proto::{u16_be, u32_be, u64_be, varint_encoding, Writer};
use crate::world::{block_of_state, Block, Chunk, SECTION_COUNT, SURFACE_Y, WORLD_HEIGHT, WORLD_MIN_Y};

verus! {

broadcast use
    vstd::seq::group_seq_axioms,
    vstd::seq_lib::group_seq_properties,
    super::proto::lemma_varint_encoding_len,
;

/// Chunks streamed around a player, in each direction.
pub const CHUNK_RADIUS: i32 = 6;

/// Global block-state id the client uses for each block's default state.
pub open spec fn block_state(b: Block) -> i32 {
    match b {
        Block::Air => 0,
        Block::Stone => 1,
        Block::Dirt => 10,
        Block::GrassBlock => 9,
        Block::Cobblestone => 14,
        Block::OakPlanks => 15,
        Block::Sand => 118,
        Block::Gravel => 124,
        Block::OakLog => 137,
        Block::Glass => 562,
        Block::WhiteWool => 2293,
        Block::Bricks => 2340,
        Block::Obsidian => 3369,
        Block::Glowstone => 7016,
        Block::Granite => 2,
        Block::PolishedGranite => 3,
        Block::Diorite => 4,
        Block::PolishedDiorite => 5,
        Block::Andesite => 6,
        Block::PolishedAndesite => 7,
        Block::CoarseDirt => 11,
        Block::SprucePlanks => 16,
        Block::BirchPlanks => 17,
        Block::JunglePlanks => 18,
        Block::AcaciaPlanks => 19,
        Block::CherryPlanks => 20,
        Block::DarkOakPlanks => 21,
        Block::PaleOakPlanks => 25,
        Block::MangrovePlanks => 26,
        Block::BambooPlanks => 27,
        Block::BambooMosaic => 28,
        Block::RedSand => 123,
        Block::GoldOre => 129,
        Block::DeepslateGoldOre => 130,
        Block::IronOre => 131,
        Block::DeepslateIronOre => 132,
        Block::CoalOre => 133,
        Block::DeepslateCoalOre => 134,
        Block::NetherGoldOre => 135,
        Block::Sponge => 560,
        Block::WetSponge => 561,
        Block::LapisOre => 563,
        Block::DeepslateLapisOre => 564,
        Block::LapisBlock => 565,
        Block::Sandstone => 578,
        Block::ChiseledSandstone => 579,
        Block::CutSandstone => 580,
        Block::OrangeWool => 2294,
        Block::MagentaWool => 2295,
        Block::LightBlueWool => 2296,
        Block::YellowWool => 2297,
        Block::LimeWool => 2298,
        Block::PinkWool => 2299,
        Block::GrayWool => 2300,
        Block::LightGrayWool => 2301,
        Block::CyanWool => 2302,
        Block::PurpleWool => 2303,
        Block::BlueWool => 2304,
        Block::BrownWool => 2305,
        Block::GreenWool => 2306,
        Block::RedWool => 2307,
        Block::BlackWool => 2308,
        Block::GoldBlock => 2338,
        Block::IronBlock => 2339,
        Block::Bookshelf => 2343,
        Block::MossyCobblestone => 3368,
        Block::DiamondOre => 5307,
        Block::DeepslateDiamondOre => 5308,
        Block::DiamondBlock => 5309,
        Block::CraftingTable => 5310,
        Block::Clay => 6946,
        Block::Netherrack => 6997,
        Block::SoulSand => 6998,
        Block::SoulSoil => 6999,
        Block::WhiteStainedGlass => 7098,
        Block::OrangeStainedGlass => 7099,
        Block::MagentaStainedGlass => 7100,
        Block::LightBlueStainedGlass => 7101,
        Block::YellowStainedGlass => 7102,
        Block::LimeStainedGlass => 7103,
        Block::PinkStainedGlass => 7104,
        Block::GrayStainedGlass => 7105,
        Block::LightGrayStainedGlass => 7106,
        Block::CyanStainedGlass => 7107,
        Block::PurpleStainedGlass => 7108,
        Block::BlueStainedGlass => 7109,
        Block::BrownStainedGlass => 7110,
        Block::GreenStainedGlass => 7111,
        Block::RedStainedGlass => 7112,
        Block::BlackStainedGlass => 7113,
        Block::StoneBricks => 7754,
        Block::MossyStoneBricks => 7755,
        Block::CrackedStoneBricks => 7756,
        Block::ChiseledStoneBricks => 7757,
        Block::PackedMud => 7758,
        Block::MudBricks => 7759,
        Block::Pumpkin => 8332,
        Block::Melon => 8333,
        Block::ResinBlock => 8921,
        Block::ResinBricks => 8922,
        Block::ChiseledResinBricks => 9333,
        Block::NetherBricks => 9334,
        Block::EnchantingTable => 9451,
        Block::EndStone => 9477,
        Block::EmeraldOre => 9573,
        Block::DeepslateEmeraldOre => 9574,
        Block::EmeraldBlock => 9727,
        Block::RedstoneBlock => 11311,
        Block::NetherQuartzOre => 11312,
        Block::QuartzBlock => 11323,
        Block::ChiseledQuartzBlock => 11324,
        Block::WhiteTerracotta => 11444,
        Block::OrangeTerracotta => 11445,
        Block::MagentaTerracotta => 11446,
        Block::LightBlueTerracotta => 11447,
        Block::YellowTerracotta => 11448,
        Block::LimeTerracotta => 11449,
        Block::PinkTerracotta => 11450,
        Block::GrayTerracotta => 11451,
        Block::LightGrayTerracotta => 11452,
        Block::CyanTerracotta => 11453,
        Block::PurpleTerracotta => 11454,
        Block::BlueTerracotta => 11455,
        Block::BrownTerracotta => 11456,
        Block::GreenTerracotta => 11457,
        Block::RedTerracotta => 11458,
        Block::BlackTerracotta => 11459,
        Block::Prismarine => 12631,
        Block::PrismarineBricks => 12632,
        Block::DarkPrismarine => 12633,
        Block::SeaLantern => 12892,
        Block::Terracotta => 12912,
        Block::CoalBlock => 12913,
        Block::PackedIce => 12914,
        Block::RedSandstone => 13247,
        Block::ChiseledRedSandstone => 13248,
        Block::CutRedSandstone => 13249,
        Block::SmoothStone => 13480,
        Block::SmoothSandstone => 13481,
        Block::SmoothQuartz => 13482,
        Block::SmoothRedSandstone => 13483,
        Block::PurpurBlock => 14712,
        Block::EndStoneBricks => 14796,
        Block::NetherWartBlock => 14846,
        Block::RedNetherBricks => 14847,
        Block::WhiteConcrete => 15030,
        Block::OrangeConcrete => 15031,
        Block::MagentaConcrete => 15032,
        Block::LightBlueConcrete => 15033,
        Block::YellowConcrete => 15034,
        Block::LimeConcrete => 15035,
        Block::PinkConcrete => 15036,
        Block::GrayConcrete => 15037,
        Block::LightGrayConcrete => 15038,
        Block::CyanConcrete => 15039,
        Block::PurpleConcrete => 15040,
        Block::BlueConcrete => 15041,
        Block::BrownConcrete => 15042,
        Block::GreenConcrete => 15043,
        Block::RedConcrete => 15044,
        Block::BlackConcrete => 15045,
        Block::DriedKelpBlock => 15089,
        Block::DeadTubeCoralBlock => 15137,
        Block::DeadBrainCoralBlock => 15138,
        Block::DeadBubbleCoralBlock => 15139,
        Block::DeadFireCoralBlock => 15140,
        Block::DeadHornCoralBlock => 15141,
        Block::BlueIce => 15275,
        Block::CartographyTable => 20770,
        Block::FletchingTable => 20771,
        Block::SmithingTable => 20800,
        Block::WarpedNylium => 20957,
        Block::WarpedWartBlock => 20959,
        Block::CrimsonNylium => 20974,
        Block::Shroomlight => 20976,
        Block::CrimsonPlanks => 21032,
        Block::WarpedPlanks => 21033,
        Block::HoneycombBlock => 21817,
        Block::NetheriteBlock => 21818,
        Block::AncientDebris => 21819,
        Block::CryingObsidian => 21820,
        Block::Lodestone => 21830,
        Block::Blackstone => 21831,
        Block::PolishedBlackstone => 22242,
        Block::PolishedBlackstoneBricks => 22243,
        Block::CrackedPolishedBlackstoneBricks => 22244,
        Block::ChiseledPolishedBlackstone => 22245,
        Block::GildedBlackstone => 22656,
        Block::ChiseledNetherBricks => 23093,
        Block::CrackedNetherBricks => 23094,
        Block::QuartzBricks => 23095,
        Block::AmethystBlock => 23402,
        Block::Tuff => 23452,
        Block::PolishedTuff => 23863,
        Block::ChiseledTuff => 24274,
        Block::TuffBricks => 24275,
        Block::ChiseledTuffBricks => 24686,
        Block::Calcite => 24687,
        Block::TintedGlass => 24688,
        Block::CopperBlock => 25309,
        Block::ExposedCopper => 25310,
        Block::WeatheredCopper => 25311,
        Block::OxidizedCopper => 25312,
        Block::CopperOre => 25313,
        Block::DeepslateCopperOre => 25314,
        Block::OxidizedCutCopper => 25315,
        Block::WeatheredCutCopper => 25316,
        Block::ExposedCutCopper => 25317,
        Block::CutCopper => 25318,
        Block::OxidizedChiseledCopper => 25319,
        Block::WeatheredChiseledCopper => 25320,
        Block::ExposedChiseledCopper => 25321,
        Block::ChiseledCopper => 25322,
        Block::WaxedOxidizedChiseledCopper => 25323,
        Block::WaxedWeatheredChiseledCopper => 25324,
        Block::WaxedExposedChiseledCopper => 25325,
        Block::WaxedChiseledCopper => 25326,
        Block::WaxedCopperBlock => 25671,
        Block::WaxedWeatheredCopper => 25672,
        Block::WaxedExposedCopper => 25673,
        Block::WaxedOxidizedCopper => 25674,
        Block::WaxedOxidizedCutCopper => 25675,
        Block::WaxedWeatheredCutCopper => 25676,
        Block::WaxedExposedCutCopper => 25677,
        Block::WaxedCutCopper => 25678,
        Block::DripstoneBlock => 27755,
        Block::MossBlock => 27862,
        Block::RootedDirt => 27921,
        Block::Mud => 27922,
        Block::CobbledDeepslate => 27926,
        Block::PolishedDeepslate => 28337,
        Block::DeepslateTiles => 28748,
        Block::DeepslateBricks => 29159,
        Block::ChiseledDeepslate => 29570,
        Block::CrackedDeepslateBricks => 29571,
        Block::CrackedDeepslateTiles => 29572,
        Block::SmoothBasalt => 29576,
        Block::RawIronBlock => 29577,
        Block::RawCopperBlock => 29578,
        Block::RawGoldBlock => 29579,
        Block::PaleMossBlock => 29703,
    }
}

/// The client's global block-state id for `block` (its default state).
#[must_use]
pub fn block_to_state(block: Block) -> (r: i32)
    ensures
        r == block_state(block),
{
    match block {
        Block::Air => 0,
        Block::Stone => 1,
        Block::Dirt => 10,
        Block::GrassBlock => 9,
        Block::Cobblestone => 14,
        Block::OakPlanks => 15,
        Block::Sand => 118,
        Block::Gravel => 124,
        Block::OakLog => 137,
        Block::Glass => 562,
        Block::WhiteWool => 2293,
        Block::Bricks => 2340,
        Block::Obsidian => 3369,
        Block::Glowstone => 7016,
        Block::Granite => 2,
        Block::PolishedGranite => 3,
        Block::Diorite => 4,
        Block::PolishedDiorite => 5,
        Block::Andesite => 6,
        Block::PolishedAndesite => 7,
        Block::CoarseDirt => 11,
        Block::SprucePlanks => 16,
        Block::BirchPlanks => 17,
        Block::JunglePlanks => 18,
        Block::AcaciaPlanks => 19,
        Block::CherryPlanks => 20,
        Block::DarkOakPlanks => 21,
        Block::PaleOakPlanks => 25,
        Block::MangrovePlanks => 26,
        Block::BambooPlanks => 27,
        Block::BambooMosaic => 28,
        Block::RedSand => 123,
        Block::GoldOre => 129,
        Block::DeepslateGoldOre => 130,
        Block::IronOre => 131,
        Block::DeepslateIronOre => 132,
        Block::CoalOre => 133,
        Block::DeepslateCoalOre => 134,
        Block::NetherGoldOre => 135,
        Block::Sponge => 560,
        Block::WetSponge => 561,
        Block::LapisOre => 563,
        Block::DeepslateLapisOre => 564,
        Block::LapisBlock => 565,
        Block::Sandstone => 578,
        Block::ChiseledSandstone => 579,
        Block::CutSandstone => 580,
        Block::OrangeWool => 2294,
        Block::MagentaWool => 2295,
        Block::LightBlueWool => 2296,
        Block::YellowWool => 2297,
        Block::LimeWool => 2298,
        Block::PinkWool => 2299,
        Block::GrayWool => 2300,
        Block::LightGrayWool => 2301,
        Block::CyanWool => 2302,
        Block::PurpleWool => 2303,
        Block::BlueWool => 2304,
        Block::BrownWool => 2305,
        Block::GreenWool => 2306,
        Block::RedWool => 2307,
        Block::BlackWool => 2308,
        Block::GoldBlock => 2338,
        Block::IronBlock => 2339,
        Block::Bookshelf => 2343,
        Block::MossyCobblestone => 3368,
        Block::DiamondOre => 5307,
        Block::DeepslateDiamondOre => 5308,
        Block::DiamondBlock => 5309,
        Block::CraftingTable => 5310,
        Block::Clay => 6946,
        Block::Netherrack => 6997,
        Block::SoulSand => 6998,
        Block::SoulSoil => 6999,
        Block::WhiteStainedGlass => 7098,
        Block::OrangeStainedGlass => 7099,
        Block::MagentaStainedGlass => 7100,
        Block::LightBlueStainedGlass => 7101,
        Block::YellowStainedGlass => 7102,
        Block::LimeStainedGlass => 7103,
        Block::PinkStainedGlass => 7104,
        Block::GrayStainedGlass => 7105,
        Block::LightGrayStainedGlass => 7106,
        Block::CyanStainedGlass => 7107,
        Block::PurpleStainedGlass => 7108,
        Block::BlueStainedGlass => 7109,
        Block::BrownStainedGlass => 7110,
        Block::GreenStainedGlass => 7111,
        Block::RedStainedGlass => 7112,
        Block::BlackStainedGlass => 7113,
        Block::StoneBricks => 7754,
        Block::MossyStoneBricks => 7755,
        Block::CrackedStoneBricks => 7756,
        Block::ChiseledStoneBricks => 7757,
        Block::PackedMud => 7758,
        Block::MudBricks => 7759,
        Block::Pumpkin => 8332,
        Block::Melon => 8333,
        Block::ResinBlock => 8921,
        Block::ResinBricks => 8922,
        Block::ChiseledResinBricks => 9333,
        Block::NetherBricks => 9334,
        Block::EnchantingTable => 9451,
        Block::EndStone => 9477,
        Block::EmeraldOre => 9573,
        Block::DeepslateEmeraldOre => 9574,
        Block::EmeraldBlock => 9727,
        Block::RedstoneBlock => 11311,
        Block::NetherQuartzOre => 11312,
        Block::QuartzBlock => 11323,
        Block::ChiseledQuartzBlock => 11324,
        Block::WhiteTerracotta => 11444,
        Block::OrangeTerracotta => 11445,
        Block::MagentaTerracotta => 11446,
        Block::LightBlueTerracotta => 11447,
        Block::YellowTerracotta => 11448,
        Block::LimeTerracotta => 11449,
        Block::PinkTerracotta => 11450,
        Block::GrayTerracotta => 11451,
        Block::LightGrayTerracotta => 11452,
        Block::CyanTerracotta => 11453,
        Block::PurpleTerracotta => 11454,
        Block::BlueTerracotta => 11455,
        Block::BrownTerracotta => 11456,
        Block::GreenTerracotta => 11457,
        Block::RedTerracotta => 11458,
        Block::BlackTerracotta => 11459,
        Block::Prismarine => 12631,
        Block::PrismarineBricks => 12632,
        Block::DarkPrismarine => 12633,
        Block::SeaLantern => 12892,
        Block::Terracotta => 12912,
        Block::CoalBlock => 12913,
        Block::PackedIce => 12914,
        Block::RedSandstone => 13247,
        Block::ChiseledRedSandstone => 13248,
        Block::CutRedSandstone => 13249,
        Block::SmoothStone => 13480,
        Block::SmoothSandstone => 13481,
        Block::SmoothQuartz => 13482,
        Block::SmoothRedSandstone => 13483,
        Block::PurpurBlock => 14712,
        Block::EndStoneBricks => 14796,
        Block::NetherWartBlock => 14846,
        Block::RedNetherBricks => 14847,
        Block::WhiteConcrete => 15030,
        Block::OrangeConcrete => 15031,
        Block::MagentaConcrete => 15032,
        Block::LightBlueConcrete => 15033,
        Block::YellowConcrete => 15034,
        Block::LimeConcrete => 15035,
        Block::PinkConcrete => 15036,
        Block::GrayConcrete => 15037,
        Block::LightGrayConcrete => 15038,
        Block::CyanConcrete => 15039,
        Block::PurpleConcrete => 15040,
        Block::BlueConcrete => 15041,
        Block::BrownConcrete => 15042,
        Block::GreenConcrete => 15043,
        Block::RedConcrete => 15044,
        Block::BlackConcrete => 15045,
        Block::DriedKelpBlock => 15089,
        Block::DeadTubeCoralBlock => 15137,
        Block::DeadBrainCoralBlock => 15138,
        Block::DeadBubbleCoralBlock => 15139,
        Block::DeadFireCoralBlock => 15140,
        Block::DeadHornCoralBlock => 15141,
        Block::BlueIce => 15275,
        Block::CartographyTable => 20770,
        Block::FletchingTable => 20771,
        Block::SmithingTable => 20800,
        Block::WarpedNylium => 20957,
        Block::WarpedWartBlock => 20959,
        Block::CrimsonNylium => 20974,
        Block::Shroomlight => 20976,
        Block::CrimsonPlanks => 21032,
        Block::WarpedPlanks => 21033,
        Block::HoneycombBlock => 21817,
        Block::NetheriteBlock => 21818,
        Block::AncientDebris => 21819,
        Block::CryingObsidian => 21820,
        Block::Lodestone => 21830,
        Block::Blackstone => 21831,
        Block::PolishedBlackstone => 22242,
        Block::PolishedBlackstoneBricks => 22243,
        Block::CrackedPolishedBlackstoneBricks => 22244,
        Block::ChiseledPolishedBlackstone => 22245,
        Block::GildedBlackstone => 22656,
        Block::ChiseledNetherBricks => 23093,
        Block::CrackedNetherBricks => 23094,
        Block::QuartzBricks => 23095,
        Block::AmethystBlock => 23402,
        Block::Tuff => 23452,
        Block::PolishedTuff => 23863,
        Block::ChiseledTuff => 24274,
        Block::TuffBricks => 24275,
        Block::ChiseledTuffBricks => 24686,
        Block::Calcite => 24687,
        Block::TintedGlass => 24688,
        Block::CopperBlock => 25309,
        Block::ExposedCopper => 25310,
        Block::WeatheredCopper => 25311,
        Block::OxidizedCopper => 25312,
        Block::CopperOre => 25313,
        Block::DeepslateCopperOre => 25314,
        Block::OxidizedCutCopper => 25315,
        Block::WeatheredCutCopper => 25316,
        Block::ExposedCutCopper => 25317,
        Block::CutCopper => 25318,
        Block::OxidizedChiseledCopper => 25319,
        Block::WeatheredChiseledCopper => 25320,
        Block::ExposedChiseledCopper => 25321,
        Block::ChiseledCopper => 25322,
        Block::WaxedOxidizedChiseledCopper => 25323,
        Block::WaxedWeatheredChiseledCopper => 25324,
        Block::WaxedExposedChiseledCopper => 25325,
        Block::WaxedChiseledCopper => 25326,
        Block::WaxedCopperBlock => 25671,
        Block::WaxedWeatheredCopper => 25672,
        Block::WaxedExposedCopper => 25673,
        Block::WaxedOxidizedCopper => 25674,
        Block::WaxedOxidizedCutCopper => 25675,
        Block::WaxedWeatheredCutCopper => 25676,
        Block::WaxedExposedCutCopper => 25677,
        Block::WaxedCutCopper => 25678,
        Block::DripstoneBlock => 27755,
        Block::MossBlock => 27862,
        Block::RootedDirt => 27921,
        Block::Mud => 27922,
        Block::CobbledDeepslate => 27926,
        Block::PolishedDeepslate => 28337,
        Block::DeepslateTiles => 28748,
        Block::DeepslateBricks => 29159,
        Block::ChiseledDeepslate => 29570,
        Block::CrackedDeepslateBricks => 29571,
        Block::CrackedDeepslateTiles => 29572,
        Block::SmoothBasalt => 29576,
        Block::RawIronBlock => 29577,
        Block::RawCopperBlock => 29578,
        Block::RawGoldBlock => 29579,
        Block::PaleMossBlock => 29703,
    }
}

/// The block whose default state has this id, if any.
pub open spec fn state_block(state: i32) -> Option<Block> {
    match state {
        0 => Some(Block::Air),
        1 => Some(Block::Stone),
        10 => Some(Block::Dirt),
        9 => Some(Block::GrassBlock),
        14 => Some(Block::Cobblestone),
        15 => Some(Block::OakPlanks),
        118 => Some(Block::Sand),
        124 => Some(Block::Gravel),
        137 => Some(Block::OakLog),
        562 => Some(Block::Glass),
        2293 => Some(Block::WhiteWool),
        2340 => Some(Block::Bricks),
        3369 => Some(Block::Obsidian),
        7016 => Some(Block::Glowstone),
        2 => Some(Block::Granite),
        3 => Some(Block::PolishedGranite),
        4 => Some(Block::Diorite),
        5 => Some(Block::PolishedDiorite),
        6 => Some(Block::Andesite),
        7 => Some(Block::PolishedAndesite),
        11 => Some(Block::CoarseDirt),
        16 => Some(Block::SprucePlanks),
        17 => Some(Block::BirchPlanks),
        18 => Some(Block::JunglePlanks),
        19 => Some(Block::AcaciaPlanks),
        20 => Some(Block::CherryPlanks),
        21 => Some(Block::DarkOakPlanks),
        25 => Some(Block::PaleOakPlanks),
        26 => Some(Block::MangrovePlanks),
        27 => Some(Block::BambooPlanks),
        28 => Some(Block::BambooMosaic),
        123 => Some(Block::RedSand),
        129 => Some(Block::GoldOre),
        130 => Some(Block::DeepslateGoldOre),
        131 => Some(Block::IronOre),
        132 => Some(Block::DeepslateIronOre),
        133 => Some(Block::CoalOre),
        134 => Some(Block::DeepslateCoalOre),
        135 => Some(Block::NetherGoldOre),
        560 => Some(Block::Sponge),
        561 => Some(Block::WetSponge),
        563 => Some(Block::LapisOre),
        564 => Some(Block::DeepslateLapisOre),
        565 => Some(Block::LapisBlock),
        578 => Some(Block::Sandstone),
        579 => Some(Block::ChiseledSandstone),
        580 => Some(Block::CutSandstone),
        2294 => Some(Block::OrangeWool),
        2295 => Some(Block::MagentaWool),
        2296 => Some(Block::LightBlueWool),
        2297 => Some(Block::YellowWool),
        2298 => Some(Block::LimeWool),
        2299 => Some(Block::PinkWool),
        2300 => Some(Block::GrayWool),
        2301 => Some(Block::LightGrayWool),
        2302 => Some(Block::CyanWool),
        2303 => Some(Block::PurpleWool),
        2304 => Some(Block::BlueWool),
        2305 => Some(Block::BrownWool),
        2306 => Some(Block::GreenWool),
        2307 => Some(Block::RedWool),
        2308 => Some(Block::BlackWool),
        2338 => Some(Block::GoldBlock),
        2339 => Some(Block::IronBlock),
        2343 => Some(Block::Bookshelf),
        3368 => Some(Block::MossyCobblestone),
        5307 => Some(Block::DiamondOre),
        5308 => Some(Block::DeepslateDiamondOre),
        5309 => Some(Block::DiamondBlock),
        5310 => Some(Block::CraftingTable),
        6946 => Some(Block::Clay),
        6997 => Some(Block::Netherrack),
        6998 => Some(Block::SoulSand),
        6999 => Some(Block::SoulSoil),
        7098 => Some(Block::WhiteStainedGlass),
        7099 => Some(Block::OrangeStainedGlass),
        7100 => Some(Block::MagentaStainedGlass),
        7101 => Some(Block::LightBlueStainedGlass),
        7102 => Some(Block::YellowStainedGlass),
        7103 => Some(Block::LimeStainedGlass),
        7104 => Some(Block::PinkStainedGlass),
        7105 => Some(Block::GrayStainedGlass),
        7106 => Some(Block::LightGrayStainedGlass),
        7107 => Some(Block::CyanStainedGlass),
        7108 => Some(Block::PurpleStainedGlass),
        7109 => Some(Block::BlueStainedGlass),
        7110 => Some(Block::BrownStainedGlass),
        7111 => Some(Block::GreenStainedGlass),
        7112 => Some(Block::RedStainedGlass),
        7113 => Some(Block::BlackStainedGlass),
        7754 => Some(Block::StoneBricks),
        7755 => Some(Block::MossyStoneBricks),
        7756 => Some(Block::CrackedStoneBricks),
        7757 => Some(Block::ChiseledStoneBricks),
        7758 => Some(Block::PackedMud),
        7759 => Some(Block::MudBricks),
        8332 => Some(Block::Pumpkin),
        8333 => Some(Block::Melon),
        8921 => Some(Block::ResinBlock),
        8922 => Some(Block::ResinBricks),
        9333 => Some(Block::ChiseledResinBricks),
        9334 => Some(Block::NetherBricks),
        9451 => Some(Block::EnchantingTable),
        9477 => Some(Block::EndStone),
        9573 => Some(Block::EmeraldOre),
        9574 => Some(Block::DeepslateEmeraldOre),
        9727 => Some(Block::EmeraldBlock),
        11311 => Some(Block::RedstoneBlock),
        11312 => Some(Block::NetherQuartzOre),
        11323 => Some(Block::QuartzBlock),
        11324 => Some(Block::ChiseledQuartzBlock),
        11444 => Some(Block::WhiteTerracotta),
        11445 => Some(Block::OrangeTerracotta),
        11446 => Some(Block::MagentaTerracotta),
        11447 => Some(Block::LightBlueTerracotta),
        11448 => Some(Block::YellowTerracotta),
        11449 => Some(Block::LimeTerracotta),
        11450 => Some(Block::PinkTerracotta),
        11451 => Some(Block::GrayTerracotta),
        11452 => Some(Block::LightGrayTerracotta),
        11453 => Some(Block::CyanTerracotta),
        11454 => Some(Block::PurpleTerracotta),
        11455 => Some(Block::BlueTerracotta),
        11456 => Some(Block::BrownTerracotta),
        11457 => Some(Block::GreenTerracotta),
        11458 => Some(Block::RedTerracotta),
        11459 => Some(Block::BlackTerracotta),
        12631 => Some(Block::Prismarine),
        12632 => Some(Block::PrismarineBricks),
        12633 => Some(Block::DarkPrismarine),
        12892 => Some(Block::SeaLantern),
        12912 => Some(Block::Terracotta),
        12913 => Some(Block::CoalBlock),
        12914 => Some(Block::PackedIce),
        13247 => Some(Block::RedSandstone),
        13248 => Some(Block::ChiseledRedSandstone),
        13249 => Some(Block::CutRedSandstone),
        13480 => Some(Block::SmoothStone),
        13481 => Some(Block::SmoothSandstone),
        13482 => Some(Block::SmoothQuartz),
        13483 => Some(Block::SmoothRedSandstone),
        14712 => Some(Block::PurpurBlock),
        14796 => Some(Block::EndStoneBricks),
        14846 => Some(Block::NetherWartBlock),
        14847 => Some(Block::RedNetherBricks),
        15030 => Some(Block::WhiteConcrete),
        15031 => Some(Block::OrangeConcrete),
        15032 => Some(Block::MagentaConcrete),
        15033 => Some(Block::LightBlueConcrete),
        15034 => Some(Block::YellowConcrete),
        15035 => Some(Block::LimeConcrete),
        15036 => Some(Block::PinkConcrete),
        15037 => Some(Block::GrayConcrete),
        15038 => Some(Block::LightGrayConcrete),
        15039 => Some(Block::CyanConcrete),
        15040 => Some(Block::PurpleConcrete),
        15041 => Some(Block::BlueConcrete),
        15042 => Some(Block::BrownConcrete),
        15043 => Some(Block::GreenConcrete),
        15044 => Some(Block::RedConcrete),
        15045 => Some(Block::BlackConcrete),
        15089 => Some(Block::DriedKelpBlock),
        15137 => Some(Block::DeadTubeCoralBlock),
        15138 => Some(Block::DeadBrainCoralBlock),
        15139 => Some(Block::DeadBubbleCoralBlock),
        15140 => Some(Block::DeadFireCoralBlock),
        15141 => Some(Block::DeadHornCoralBlock),
        15275 => Some(Block::BlueIce),
        20770 => Some(Block::CartographyTable),
        20771 => Some(Block::FletchingTable),
        20800 => Some(Block::SmithingTable),
        20957 => Some(Block::WarpedNylium),
        20959 => Some(Block::WarpedWartBlock),
        20974 => Some(Block::CrimsonNylium),
        20976 => Some(Block::Shroomlight),
        21032 => Some(Block::CrimsonPlanks),
        21033 => Some(Block::WarpedPlanks),
        21817 => Some(Block::HoneycombBlock),
        21818 => Some(Block::NetheriteBlock),
        21819 => Some(Block::AncientDebris),
        21820 => Some(Block::CryingObsidian),
        21830 => Some(Block::Lodestone),
        21831 => Some(Block::Blackstone),
        22242 => Some(Block::PolishedBlackstone),
        22243 => Some(Block::PolishedBlackstoneBricks),
        22244 => Some(Block::CrackedPolishedBlackstoneBricks),
        22245 => Some(Block::ChiseledPolishedBlackstone),
        22656 => Some(Block::GildedBlackstone),
        23093 => Some(Block::ChiseledNetherBricks),
        23094 => Some(Block::CrackedNetherBricks),
        23095 => Some(Block::QuartzBricks),
        23402 => Some(Block::AmethystBlock),
        23452 => Some(Block::Tuff),
        23863 => Some(Block::PolishedTuff),
        24274 => Some(Block::ChiseledTuff),
        24275 => Some(Block::TuffBricks),
        24686 => Some(Block::ChiseledTuffBricks),
        24687 => Some(Block::Calcite),
        24688 => Some(Block::TintedGlass),
        25309 => Some(Block::CopperBlock),
        25310 => Some(Block::ExposedCopper),
        25311 => Some(Block::WeatheredCopper),
        25312 => Some(Block::OxidizedCopper),
        25313 => Some(Block::CopperOre),
        25314 => Some(Block::DeepslateCopperOre),
        25315 => Some(Block::OxidizedCutCopper),
        25316 => Some(Block::WeatheredCutCopper),
        25317 => Some(Block::ExposedCutCopper),
        25318 => Some(Block::CutCopper),
        25319 => Some(Block::OxidizedChiseledCopper),
        25320 => Some(Block::WeatheredChiseledCopper),
        25321 => Some(Block::ExposedChiseledCopper),
        25322 => Some(Block::ChiseledCopper),
        25323 => Some(Block::WaxedOxidizedChiseledCopper),
        25324 => Some(Block::WaxedWeatheredChiseledCopper),
        25325 => Some(Block::WaxedExposedChiseledCopper),
        25326 => Some(Block::WaxedChiseledCopper),
        25671 => Some(Block::WaxedCopperBlock),
        25672 => Some(Block::WaxedWeatheredCopper),
        25673 => Some(Block::WaxedExposedCopper),
        25674 => Some(Block::WaxedOxidizedCopper),
        25675 => Some(Block::WaxedOxidizedCutCopper),
        25676 => Some(Block::WaxedWeatheredCutCopper),
        25677 => Some(Block::WaxedExposedCutCopper),
        25678 => Some(Block::WaxedCutCopper),
        27755 => Some(Block::DripstoneBlock),
        27862 => Some(Block::MossBlock),
        27921 => Some(Block::RootedDirt),
        27922 => Some(Block::Mud),
        27926 => Some(Block::CobbledDeepslate),
        28337 => Some(Block::PolishedDeepslate),
        28748 => Some(Block::DeepslateTiles),
        29159 => Some(Block::DeepslateBricks),
        29570 => Some(Block::ChiseledDeepslate),
        29571 => Some(Block::CrackedDeepslateBricks),
        29572 => Some(Block::CrackedDeepslateTiles),
        29576 => Some(Block::SmoothBasalt),
        29577 => Some(Block::RawIronBlock),
        29578 => Some(Block::RawCopperBlock),
        29579 => Some(Block::RawGoldBlock),
        29703 => Some(Block::PaleMossBlock),
        _ => None,
    }
}

/// Distinct blocks have distinct default states: the state id names the
/// block back.
pub proof fn law_block_state_names_block(b: Block)
    ensures
        state_block(block_state(b)) == Some(b),
{
}

/// Air is the only block whose state id is 0.
pub proof fn law_only_air_has_state_zero(b: Block)
    ensures
        (block_state(b) == 0) <==> (b == Block::Air),
{
}

/// The first `j` values ORed together, value `k` shifted left by
/// `k * bits`: one packed long, least significant entry first.
pub open spec fn packed_long(values: Seq<u64>, bits: u32, j: nat) -> u64
    decreases j,
{
    if j == 0 {
        0
    } else {
        packed_long(values, bits, (j - 1) as nat) | (values[j - 1] << (((j - 1) * bits) as u32))
    }
}

/// The values packed `per_long` to a long, the last long padded with zero
/// bits.
pub open spec fn packed_longs(values: Seq<u64>, bits: u32, per_long: nat) -> Seq<u64>
    decreases values.len(),
{
    if values.len() == 0 || per_long == 0 {
        Seq::empty()
    } else if values.len() <= per_long {
        seq![packed_long(values, bits, values.len())]
    } else {
        seq![packed_long(values, bits, per_long)] + packed_longs(values.skip(per_long as int), bits, per_long)
    }
}

/// What `pack_bits` gives: nothing for zero bits, else as many entries to a
/// long as fit in 64 bits.
pub open spec fn packed(values: Seq<u64>, bits: u32) -> Seq<u64> {
    if bits == 0 {
        Seq::empty()
    } else {
        packed_longs(values, bits, (64u32 / bits) as nat)
    }
}

/// Packs values of `bits_per_entry` bits into longs, lowest bits first;
/// entries never straddle two longs.
#[must_use]
pub fn pack_bits(values: &[u64], bits_per_entry: u32) -> (r: Vec<u64>)
    requires
        bits_per_entry <= 64,
    ensures
        r@ == packed(values@, bits_per_entry),
{
    if bits_per_entry == 0 {
        return Vec::new();
    }
    let entries_per_long = (64 / bits_per_entry) as usize;
    let ghost per_long = (64u32 / bits_per_entry) as nat;
    let n = values.len();
    assert(1 <= 64u32 / bits_per_entry <= 64) by (nonlinear_arith)
        requires
            1 <= bits_per_entry <= 64,
    ;
    let mut out: Vec<u64> = Vec::new();
    let mut start: usize = 0;
    while start < n
        invariant
            start <= n == values@.len(),
            1 <= bits_per_entry <= 64,
            entries_per_long == per_long == 64u32 / bits_per_entry,
            1 <= entries_per_long <= 64,
            out@ + packed_longs(values@.skip(start as int), bits_per_entry, per_long) == packed_longs(values@, bits_per_entry, per_long),
        decreases n - start,
    {
        let count = if n - start < entries_per_long { n - start } else { entries_per_long };
        let ghost rest = values@.skip(start as int);
        let mut long: u64 = 0;
        let mut j: usize = 0;
        while j < count
            invariant
                j <= count <= entries_per_long,
                start + count <= n == values@.len(),
                1 <= bits_per_entry <= 64,
                entries_per_long == 64u32 / bits_per_entry,
                rest == values@.skip(start as int),
                long == packed_long(rest, bits_per_entry, j as nat),
            decreases count - j,
        {
            assert((j as u32) * bits_per_entry < 64) by (nonlinear_arith)
                requires
                    j < entries_per_long,
                    entries_per_long == 64u32 / bits_per_entry,
                    1 <= bits_per_entry <= 64,
            ;
            long = long | (values[start + j] << ((j as u32) * bits_per_entry));
            j = j + 1;
        }
        let ghost old_out = out@;
        out.push(long);
        proof {
            let next = values@.skip(start + count);
            if rest.len() > per_long {
                assert(rest.skip(per_long as int) =~= next);
                assert(packed_longs(rest, bits_per_entry, per_long) == seq![long] + packed_longs(next, bits_per_entry, per_long));
            } else {
                assert(next =~= Seq::<u64>::empty());
                assert(packed_longs(rest, bits_per_entry, per_long) == seq![long]);
                assert(packed_longs(next, bits_per_entry, per_long) == Seq::<u64>::empty());
            }
            assert(out@ + packed_longs(next, bits_per_entry, per_long) =~= old_out + packed_longs(rest, bits_per_entry, per_long));
        }
        start = start + count;
    }
    assert(values@.skip(n as int) =~= Seq::<u64>::empty());
    assert(out@ + Seq::<u64>::empty() =~= out@);
    out
}

/// Fewest bits that hold `count` distinct values: `2^bits >= count`.
fn bits_needed(count: usize) -> (r: u32)
    requires
        count <= 0x8000_0000,
    ensures
        r <= 31,
        pow2(r as nat) >= count,
        r == 0 || pow2((r - 1) as nat) < count,
{
    proof {
        lemma2_to64();
    }
    let mut bits: u32 = 0;
    let mut p: u64 = 1;
    while p < count as u64
        invariant
            count <= 0x8000_0000,
            bits <= 31,
            p == pow2(bits as nat),
            bits == 0 || pow2((bits - 1) as nat) < count,
        decreases 31 - bits,
    {
        proof {
            if bits >= 31 {
                if bits > 31 {
                    lemma_pow2_strictly_increases(31, bits as nat);
                }
                lemma2_to64();
            }
            lemma_pow2_unfold((bits + 1) as nat);
        }
        p = p * 2;
        bits = bits + 1;
    }
    bits
}

/// The number of bits `bits_needed` gives for `count` values: the one `b`
/// with `2^b >= count` and `b == 0 || 2^(b-1) < count`.
pub open spec fn bits_for(count: nat) -> u32 {
    choose|b: u32| b <= 31 && #[trigger] pow2(b as nat) >= count && (b == 0 || pow2((b - 1) as nat) < count)
}

proof fn lemma_bits_for_unique(b: u32, count: nat)
    requires
        b <= 31,
        pow2(b as nat) >= count,
        b == 0 || pow2((b - 1) as nat) < count,
    ensures
        bits_for(count) == b,
{
    let c = bits_for(count);
    assert(c <= 31 && pow2(c as nat) >= count && (c == 0 || pow2((c - 1) as nat) < count));
    if c < b {
        if c < (b - 1) as u32 {
            lemma_pow2_strictly_increases(c as nat, (b - 1) as nat);
        }
    } else if b < c {
        if b < (c - 1) as u32 {
            lemma_pow2_strictly_increases(b as nat, (c - 1) as nat);
        }
    }
}

/// Big-endian bytes of each long in turn.
pub open spec fn longs_bytes(longs: Seq<u64>) -> Seq<u8>
    decreases longs.len(),
{
    if longs.len() == 0 {
        Seq::empty()
    } else {
        longs_bytes(longs.drop_last()) + u64_be(longs.last())
    }
}

/// The VarInt of each value in turn.
pub open spec fn varints_bytes(values: Seq<i32>) -> Seq<u8>
    decreases values.len(),
{
    if values.len() == 0 {
        Seq::empty()
    } else {
        varints_bytes(values.drop_last()) + varint_encoding(values.last())
    }
}

proof fn lemma_longs_bytes_len(longs: Seq<u64>)
    ensures
        longs_bytes(longs).len() == 8 * longs.len(),
    decreases longs.len(),
{
    if longs.len() > 0 {
        lemma_longs_bytes_len(longs.drop_last());
    }
}

proof fn lemma_varints_bytes_len(values: Seq<i32>)
    ensures
        varints_bytes(values).len() <= 5 * values.len(),
    decreases values.len(),
{
    if values.len() > 0 {
        lemma_varints_bytes_len(values.drop_last());
    }
}

proof fn lemma_packed_longs_len(values: Seq<u64>, bits: u32, per_long: nat)
    ensures
        packed_longs(values, bits, per_long).len() <= values.len(),
    decreases values.len(),
{
    if values.len() > per_long && per_long > 0 {
        lemma_packed_longs_len(values.skip(per_long as int), bits, per_long);
    }
}

fn write_longs(body: &mut Writer, longs: &[u64])
    ensures
        final(body)@ == old(body)@ + longs_bytes(longs@),
{
    let mut i: usize = 0;
    while i < longs.len()
        invariant
            i <= longs@.len(),
            body@ == old(body)@ + longs_bytes(longs@.take(i as int)),
        decreases longs.len() - i,
    {
        assert(longs@.take(i + 1).drop_last() =~= longs@.take(i as int));
        body.write_u64(longs[i]);
        i = i + 1;
    }
    assert(longs@.take(i as int) =~= longs@);
}

/// Height of the top block above the bottom of the world, plus one: where
/// both heightmaps stand over flat terrain.
pub const HEIGHTMAP_TOP: u64 = 129;

/// The heightmap longs: 256 columns at `HEIGHTMAP_TOP`, 9 bits each.
pub open spec fn heightmap_longs() -> Seq<u64> {
    packed(Seq::new(256, |i: int| HEIGHTMAP_TOP), 9)
}

/// Two heightmaps (motion blocking, world surface), both flat.
pub open spec fn heightmaps_bytes() -> Seq<u8> {
    let longs = heightmap_longs();
    varint_encoding(2) + varint_encoding(1) + varint_encoding(longs.len() as i32) + longs_bytes(longs)
        + varint_encoding(4) + varint_encoding(longs.len() as i32) + longs_bytes(longs)
}

fn write_heightmaps(body: &mut Writer)
    ensures
        final(body)@ == old(body)@ + heightmaps_bytes(),
        heightmaps_bytes().len() <= 5000,
{
    let bits = bits_needed((WORLD_HEIGHT + 1) as usize);
    proof {
        lemma2_to64();
        lemma_bits_for_unique(9, 385);
        lemma_bits_for_unique(bits, 385);
    }
    let top = (SURFACE_Y - WORLD_MIN_Y + 1) as u64;
    let heights = vec![top; 256];
    let longs = pack_bits(heights.as_slice(), bits);
    assert(heights@ =~= Seq::new(256, |i: int| HEIGHTMAP_TOP));
    proof {
        lemma_packed_longs_len(heights@, 9, 7);
        lemma_longs_bytes_len(longs@);
    }
    body.write_varint(2);
    body.write_varint(1);
    body.write_varint(longs.len() as i32);
    write_longs(body, longs.as_slice());
    body.write_varint(4);
    body.write_varint(longs.len() as i32);
    write_longs(body, longs.as_slice());
    assert(body@ =~= old(body)@ + heightmaps_bytes());
}

/// Global state of each stored block id (unknown ids read as air).
pub open spec fn section_globals(states: Seq<u16>) -> Seq<i32> {
    states.map_values(|s: u16| block_state(block_of_state(s)))
}

/// The distinct values in order of first appearance.
pub open spec fn palette_of(globals: Seq<i32>) -> Seq<i32>
    decreases globals.len(),
{
    if globals.len() == 0 {
        Seq::empty()
    } else {
        let p = palette_of(globals.drop_last());
        if p.contains(globals.last()) {
            p
        } else {
            p.push(globals.last())
        }
    }
}

/// Where `x` stands in the palette.
pub open spec fn palette_index(palette: Seq<i32>, x: i32) -> int {
    choose|k: int| 0 <= k < palette.len() && palette[k] == x
}

/// Each value replaced by its palette index.
pub open spec fn palette_indices(globals: Seq<i32>) -> Seq<u64> {
    Seq::new(globals.len(), |i: int| palette_index(palette_of(globals), globals[i]) as u64)
}

/// How many values are not air (state 0).
pub open spec fn non_air_count(globals: Seq<i32>) -> nat
    decreases globals.len(),
{
    if globals.len() == 0 {
        0
    } else {
        non_air_count(globals.drop_last()) + if globals.last() != 0 { 1nat } else { 0nat }
    }
}

/// Bits per palette index on the wire: the bits the palette needs, kept
/// within 4 to 8.
pub open spec fn index_bits(palette_len: nat) -> u32 {
    let b = bits_for(palette_len);
    if b < 4 {
        4
    } else if b > 8 {
        8
    } else {
        b
    }
}

/// A paletted block container: non-air count, fluid count, then either a
/// single value or the palette and the packed indices.
pub open spec fn block_container_bytes(states: Seq<u16>) -> Seq<u8> {
    let g = section_globals(states);
    let p = palette_of(g);
    let head = u16_be(non_air_count(g) as u16) + u16_be(0);
    if p.len() == 1 {
        head + seq![0u8] + varint_encoding(p[0])
    } else {
        let bits = index_bits(p.len());
        head + seq![bits as u8] + varint_encoding(p.len() as i32) + varints_bytes(p)
            + longs_bytes(packed(palette_indices(g), bits))
    }
}

proof fn lemma_palette_of(globals: Seq<i32>)
    ensures
        palette_of(globals).len() <= globals.len(),
        forall|a: int, b: int| 0 <= a < b < palette_of(globals).len() ==> palette_of(globals)[a] != palette_of(globals)[b],
        forall|j: int| 0 <= j < globals.len() ==> palette_of(globals).contains(#[trigger] globals[j]),
    decreases globals.len(),
{
    if globals.len() > 0 {
        let prev = globals.drop_last();
        lemma_palette_of(prev);
        assert forall|j: int| 0 <= j < globals.len() implies palette_of(globals).contains(#[trigger] globals[j]) by {
            if j < globals.len() - 1 {
                assert(prev[j] == globals[j]);
                assert(palette_of(prev).contains(prev[j]));
            }
        }
    }
}

/// The palette of a section's states, each block's palette index, and
/// how many blocks are not air.
fn build_palette(states: &[u16; 4096]) -> (r: (Vec<i32>, Vec<u64>, i16))
    ensures
        r.0@ == palette_of(section_globals(states@)),
        r.1@ == palette_indices(section_globals(states@)),
        r.2 == non_air_count(section_globals(states@)),
        r.0@.len() <= 4096,
        r.1@.len() == 4096,
{
    let ghost g = section_globals(states@);
    let mut palette: Vec<i32> = Vec::new();
    let mut indices: Vec<u64> = vec![0u64; 4096];
    let mut non_air: i16 = 0;
    let mut i: usize = 0;
    while i < 4096
        invariant
            i <= 4096,
            states@.len() == 4096,
            g == section_globals(states@),
            indices@.len() == 4096,
            palette@ == palette_of(g.take(i as int)),
            palette@.len() <= i,
            non_air == non_air_count(g.take(i as int)),
            non_air <= i,
            forall|j: int| 0 <= j < i ==> (#[trigger] indices@[j]) < palette@.len() && palette@[indices@[j] as int] == g[j],
        decreases 4096 - i,
    {
        let global = block_to_state(match Block::from_id(states[i]) {
            Some(b) => b,
            None => Block::Air,
        });
        assert(global == g[i as int]);
        assert(g.take(i + 1).drop_last() =~= g.take(i as int));
        if global != 0 {
            non_air = non_air + 1;
        }
        let mut slot: usize = 0;
        while slot < palette.len() && palette[slot] != global
            invariant
                slot <= palette@.len(),
                forall|k: int| 0 <= k < slot ==> palette@[k] != global,
            decreases palette.len() - slot,
        {
            slot = slot + 1;
        }
        if slot == palette.len() {
            assert(!palette@.contains(global));
            palette.push(global);
        } else {
            assert(palette@.contains(global));
        }
        indices.set(i, slot as u64);
        i = i + 1;
    }
    assert(g.take(4096) =~= g);
    let ghost p = palette_of(g);
    proof {
        lemma_palette_of(g);
        assert forall|j: int| 0 <= j < 4096 implies indices@[j] == palette_indices(g)[j] by {
            let k = palette_index(p, g[j]);
            assert(p[indices@[j] as int] == g[j]);
            assert(0 <= k < p.len() && p[k] == g[j]);
        }
        assert(indices@ =~= palette_indices(g));
    }
    (palette, indices, non_air)
}

fn write_block_container(body: &mut Writer, states: &[u16; 4096])
    ensures
        final(body)@ == old(body)@ + block_container_bytes(states@),
        block_container_bytes(states@).len() <= 60000,
{
    let ghost g = section_globals(states@);
    let (palette, indices, non_air) = build_palette(states);
    body.write_i16(non_air);
    body.write_i16(0);
    let ghost head = u16_be(non_air_count(g) as u16) + u16_be(0);
    assert(body@ =~= old(body)@ + head);
    if palette.len() == 1 {
        body.write_u8(0);
        body.write_varint(palette[0]);
        assert(body@ =~= old(body)@ + block_container_bytes(states@));
        return;
    }
    let needed = bits_needed(palette.len());
    proof {
        lemma_bits_for_unique(needed, palette@.len() as nat);
    }
    let bits = if needed < 4 {
        4
    } else if needed > 8 {
        8
    } else {
        needed
    };
    body.write_u8(bits as u8);
    body.write_varint(palette.len() as i32);
    let mut k: usize = 0;
    while k < palette.len()
        invariant
            k <= palette@.len(),
            body@ == old(body)@ + head + seq![bits as u8] + varint_encoding(palette@.len() as i32)
                + varints_bytes(palette@.take(k as int)),
        decreases palette.len() - k,
    {
        assert(palette@.take(k + 1).drop_last() =~= palette@.take(k as int));
        body.write_varint(palette[k]);
        k = k + 1;
    }
    assert(palette@.take(k as int) =~= palette@);
    let longs = pack_bits(indices.as_slice(), bits);
    write_longs(body, longs.as_slice());
    proof {
        lemma_varints_bytes_len(palette@);
        lemma_packed_longs_len(indices@, bits, (64u32 / bits) as nat);
        lemma_longs_bytes_len(longs@);
    }
    assert(body@ =~= old(body)@ + block_container_bytes(states@));
}

/// Plains everywhere: a single-valued biome container.
pub open spec fn biome_container_bytes() -> Seq<u8> {
    seq![0u8] + varint_encoding(0)
}

fn write_biome_container(body: &mut Writer)
    ensures
        final(body)@ == old(body)@ + biome_container_bytes(),
{
    body.write_u8(0);
    body.write_varint(0);
    assert(body@ =~= old(body)@ + biome_container_bytes());
}

/// Light sections: one below the world, the chunk's sections, one above.
pub const LIGHT_SECTION_COUNT: usize = 26;

/// One bit per light section.
pub const LIGHT_MASK: u64 = 0x3FF_FFFF;

/// Full sky light for one section: length 2048, then 2048 bytes of 0xFF.
pub open spec fn sky_light_array() -> Seq<u8> {
    varint_encoding(2048) + Seq::new(2048, |i: int| 0xFFu8)
}

/// `n` full sky-light arrays.
pub open spec fn sky_light_arrays(n: nat) -> Seq<u8>
    decreases n,
{
    if n == 0 {
        Seq::empty()
    } else {
        sky_light_arrays((n - 1) as nat) + sky_light_array()
    }
}

/// The bytes of `n` full sky-light arrays, one position at a time: each
/// array is the length 2048 as a VarInt, then 2048 bytes of 0xFF.
proof fn lemma_sky_light_bytes(n: nat)
    ensures
        sky_light_arrays(n).len() == n * (varint_encoding(2048).len() + 2048),
        forall|p: int| #![trigger sky_light_arrays(n)[p]] 0 <= p < sky_light_arrays(n).len() ==> {
            let c: int = (varint_encoding(2048).len() + 2048) as int;
            let r = p % c;
            &&& r < varint_encoding(2048).len() ==> sky_light_arrays(n)[p] == varint_encoding(2048)[r]
            &&& r >= varint_encoding(2048).len() ==> sky_light_arrays(n)[p] == 0xFFu8
        },
    decreases n,
{
    let w: int = varint_encoding(2048).len() as int;
    let c: int = w + 2048;
    if n > 0 {
        let m = (n - 1) as nat;
        lemma_sky_light_bytes(m);
        let prev = sky_light_arrays(m);
        assert(n * c == m * c + c) by (nonlinear_arith)
            requires
                n == m + 1,
        ;
        assert forall|p: int| #![trigger sky_light_arrays(n)[p]] 0 <= p < sky_light_arrays(n).len() implies {
            let r = p % c;
            &&& r < w ==> sky_light_arrays(n)[p] == varint_encoding(2048)[r]
            &&& r >= w ==> sky_light_arrays(n)[p] == 0xFFu8
        } by {
            if p < prev.len() {
                assert(sky_light_arrays(n)[p] == prev[p]);
            } else {
                let r = p - m * c;
                lemma_fundamental_div_mod_converse(p, c, m as int, r);
                assert(sky_light_arrays(n)[p] == sky_light_array()[r]);
            }
        }
    }
}

/// Full daylight: the Chunk Data body of every column ends with one sky
/// light array per light section, each the length 2048 and then 2048
/// bytes of 0xFF, and then an empty block-light list.
pub proof fn law_full_sky_light(x: i32, z: i32, states: Seq<Seq<u16>>)
    ensures
        ({
            let b = chunk_data_body(x, z, states);
            let w: int = varint_encoding(2048).len() as int;
            let c: int = w + 2048;
            let tail = varint_encoding(0);
            let start: int = b.len() - tail.len() - LIGHT_SECTION_COUNT * c;
            &&& 0 <= start
            &&& b.subrange((b.len() - tail.len()) as int, b.len() as int) == tail
            &&& forall|p: int| #![trigger b[p]] start <= p < start + LIGHT_SECTION_COUNT * c ==> {
                let r = (p - start) % c;
                &&& r < w ==> b[p] == varint_encoding(2048)[r]
                &&& r >= w ==> b[p] == 0xFFu8
            }
        }),
{
    let b = chunk_data_body(x, z, states);
    let sky = sky_light_arrays(LIGHT_SECTION_COUNT as nat);
    let tail = varint_encoding(0);
    lemma_sky_light_bytes(LIGHT_SECTION_COUNT as nat);
    let data = sections_data(states);
    let front = u32_be(x as u32) + u32_be(z as u32) + heightmaps_bytes() + varint_encoding(data.len() as i32) + data
        + varint_encoding(0) + varint_encoding(1) + u64_be(LIGHT_MASK) + varint_encoding(0) + varint_encoding(0)
        + varint_encoding(1) + u64_be(LIGHT_MASK) + varint_encoding(LIGHT_SECTION_COUNT as i32);
    assert(b =~= front + sky + tail);
    let start = front.len() as int;
    assert forall|p: int| #![trigger b[p]] start <= p < start + sky.len() implies b[p] == sky[p - start] by {}
    assert(b.subrange((b.len() - tail.len()) as int, b.len() as int) =~= tail);
}

/// Sky light full in every section, no block light.
pub open spec fn light_bytes() -> Seq<u8> {
    varint_encoding(1) + u64_be(LIGHT_MASK) + varint_encoding(0) + varint_encoding(0) + varint_encoding(1)
        + u64_be(LIGHT_MASK) + varint_encoding(LIGHT_SECTION_COUNT as i32) + sky_light_arrays(LIGHT_SECTION_COUNT as nat)
        + varint_encoding(0)
}

fn write_light(body: &mut Writer)
    ensures
        final(body)@ == old(body)@ + light_bytes(),
        light_bytes().len() <= 60000,
{
    assert((1u64 << 26u64) == 0x400_0000u64) by (bit_vector);
    let full_mask: u64 = (1u64 << 26u64) - 1;
    body.write_varint(1);
    body.write_u64(full_mask);
    body.write_varint(0);
    body.write_varint(0);
    body.write_varint(1);
    body.write_u64(full_mask);
    body.write_varint(LIGHT_SECTION_COUNT as i32);
    let ghost head = body@;
    let sky = [0xFFu8; 2048];
    assert(sky@ =~= Seq::new(2048, |i: int| 0xFFu8));
    let mut n: usize = 0;
    while n < LIGHT_SECTION_COUNT
        invariant
            n <= LIGHT_SECTION_COUNT,
            sky@ == Seq::new(2048, |i: int| 0xFFu8),
            body@ == head + sky_light_arrays(n as nat),
            sky_light_arrays(n as nat).len() <= 2060 * n,
        decreases LIGHT_SECTION_COUNT - n,
    {
        body.write_varint(2048);
        body.write_bytes(sky.as_slice());
        n = n + 1;
        assert(body@ =~= head + sky_light_arrays(n as nat));
    }
    body.write_varint(0);
    assert(body@ =~= old(body)@ + light_bytes());
}

/// Each section's block container followed by its biome container.
pub open spec fn sections_data(states: Seq<Seq<u16>>) -> Seq<u8>
    decreases states.len(),
{
    if states.len() == 0 {
        Seq::empty()
    } else {
        sections_data(states.drop_last()) + block_container_bytes(states.last()) + biome_container_bytes()
    }
}

/// Chunk Data and Update Light: position, heightmaps, sized section data,
/// no block entities, light.
pub open spec fn chunk_data_body(x: i32, z: i32, states: Seq<Seq<u16>>) -> Seq<u8> {
    let data = sections_data(states);
    u32_be(x as u32) + u32_be(z as u32) + heightmaps_bytes() + varint_encoding(data.len() as i32) + data
        + varint_encoding(0) + light_bytes()
}

/// The whole column as one Chunk Data and Update Light packet.
#[must_use]
pub fn encode_chunk_data(chunk: &Chunk) -> (r: Vec<u8>)
    requires
        chunk.wf(),
    ensures
        r@ == packet_frame(0x2D, chunk_data_body(chunk.spec_pos().x, chunk.spec_pos().z, chunk.spec_states())),
{
    let ghost states = chunk.spec_states();
    let mut body = Writer::new();
    body.write_i32(chunk.pos().x);
    body.write_i32(chunk.pos().z);
    write_heightmaps(&mut body);
    let mut data = Writer::new();
    let count = chunk.section_count();
    let mut index: usize = 0;
    while index < count
        invariant
            index <= count == SECTION_COUNT,
            chunk.wf(),
            states == chunk.spec_states(),
            states.len() == count,
            data@ == sections_data(states.take(index as int)),
            data@.len() <= 60010 * index,
        decreases count - index,
    {
        assert(states.take(index + 1).drop_last() =~= states.take(index as int));
        if let Some(section) = chunk.section(index) {
            write_block_container(&mut data, section.states());
            write_biome_container(&mut data);
        }
        index = index + 1;
    }
    assert(states.take(count as int) =~= states);
    let data = data.into_bytes();
    body.write_varint(data.len() as i32);
    body.write_bytes(data.as_slice());
    body.write_varint(0);
    write_light(&mut body);
    let bytes = body.into_bytes();
    assert(bytes@ =~= chunk_data_body(chunk.spec_pos().x, chunk.spec_pos().z, states));
    encode_packet(0x2D, bytes.as_slice())
}

/// Set Center Chunk: the chunk the client centres its view on.
#[must_use]
pub fn encode_set_center(x: i32, z: i32) -> (r: Vec<u8>)
    ensures
        r@ == packet_frame(0x5E, varint_encoding(x) + varint_encoding(z)),
{
    let mut body = Writer::new();
    body.write_varint(x);
    body.write_varint(z);
    encode_packet(0x5E, body.into_bytes().as_slice())
}

/// Chunk Batch Start: no body.
#[must_use]
pub fn encode_batch_start() -> (r: Vec<u8>)
    ensures
        r@ == packet_frame(0x0C, Seq::<u8>::empty()),
{
    let empty: [u8; 0] = [];
    encode_packet(0x0C, empty.as_slice())
}

/// Unload Chunk: the chunk's x then z as big-endian i32.
#[must_use]
pub fn encode_unload_chunk(x: i32, z: i32) -> (r: Vec<u8>)
    ensures
        r@ == packet_frame(0x25, u32_be(x as u32) + u32_be(z as u32)),
{
    let mut body = Writer::new();
    body.write_i32(x);
    body.write_i32(z);
    encode_packet(0x25, body.into_bytes().as_slice())
}

/// Chunk Batch Finished: how many chunks the batch held.
#[must_use]
pub fn encode_batch_finished(batch_size: i32) -> (r: Vec<u8>)
    ensures
        r@ == packet_frame(0x0B, varint_encoding(batch_size)),
{
    let mut body = Writer::new();
    body.write_varint(batch_size);
    encode_packet(0x0B, body.into_bytes().as_slice())
}

} // verus!
