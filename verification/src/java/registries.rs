//! The registry data sent during configuration. Entries without data are
//! loaded by the client from its own vanilla pack; the overworld dimension
//! type is sent in full.
use vstd::prelude::*;

use super::error::ProtoError;
use super::nbt::{entry_views, lemma_entry_views, spec_nbt_unnamed, NbtTag, NbtTagView};
use super::packets::{encode_packet, packet_frame};
use super::proto::{string_encoding, varint_encoding, Writer};

verus! {

broadcast use vstd::seq::group_seq_axioms, vstd::seq_lib::group_seq_properties;

/// One registry entry; without data the client uses its own vanilla entry.
pub struct RegistryEntry {
    pub id: &'static str,
    pub data: Option<NbtTag>,
}

/// A registry and its entries, in the order of their numeric ids.
pub struct ProtocolRegistry {
    pub id: &'static str,
    pub entries: Vec<RegistryEntry>,
}

pub ghost struct RegistryEntryView {
    pub id: Seq<char>,
    pub data: Option<NbtTagView>,
}

pub ghost struct RegistryView {
    pub id: Seq<char>,
    pub entries: Seq<RegistryEntryView>,
}

impl View for RegistryEntry {
    type V = RegistryEntryView;

    open spec fn view(&self) -> RegistryEntryView {
        RegistryEntryView {
            id: self.id@,
            data: match self.data {
                Some(t) => Some(t@),
                None => None,
            },
        }
    }
}

impl View for ProtocolRegistry {
    type V = RegistryView;

    open spec fn view(&self) -> RegistryView {
        RegistryView { id: self.id@, entries: self.entries@.map_values(|e: RegistryEntry| e@) }
    }
}

impl ProtocolRegistry {
    /// The numeric id of the entry named `id`: its position.
    #[must_use]
    pub fn entry_index(&self, id: &str) -> (r: Option<usize>)
        ensures
            match r {
                Some(i) => i < self.entries@.len() && self.entries@[i as int].id@ == id@ && forall|j: int|
                    0 <= j < i ==> self.entries@[j].id@ != id@,
                None => forall|j: int| 0 <= j < self.entries@.len() ==> self.entries@[j].id@ != id@,
            },
    {
        let mut i: usize = 0;
        while i < self.entries.len()
            invariant
                i <= self.entries@.len(),
                forall|j: int| 0 <= j < i ==> self.entries@[j].id@ != id@,
            decreases self.entries.len() - i,
        {
            if crate::text::str_eq(self.entries[i].id, id) {
                return Some(i);
            }
            i = i + 1;
        }
        None
    }
}

/// The bits of the f32 0.0, the f64 1.0 and 2.0, and the f32 192.33.
pub const FLOAT_ZERO_BITS: u32 = 0;
pub const DOUBLE_ONE_BITS: u64 = 0x3FF0_0000_0000_0000;
pub const DOUBLE_TWO_BITS: u64 = 0x4000_0000_0000_0000;
pub const CLOUD_HEIGHT_BITS: u32 = 0x4340_547B;

/// An overworld dimension type that needs no tags from the client. The
/// vanilla one points at the `#minecraft:infiniburn_overworld` and
/// `#minecraft:in_overworld` tags and the `minecraft:overworld` clock, which
/// this server never sends; here `infiniburn` is a plain block id and the
/// timelines and clock are left out.
pub open spec fn minimal_overworld_dimension_view() -> NbtTagView {
    NbtTagView::Compound(seq![
        ("ambient_light"@, NbtTagView::Float(FLOAT_ZERO_BITS)),
        ("attributes"@, NbtTagView::Compound(Seq::empty())),
        ("coordinate_scale"@, NbtTagView::Double(DOUBLE_ONE_BITS)),
        ("has_ceiling"@, NbtTagView::Byte(0)),
        ("has_ender_dragon_fight"@, NbtTagView::Byte(0)),
        ("has_fixed_time"@, NbtTagView::Byte(0)),
        ("has_skylight"@, NbtTagView::Byte(1)),
        ("height"@, NbtTagView::Int(384)),
        ("infiniburn"@, NbtTagView::String("minecraft:netherrack"@)),
        ("logical_height"@, NbtTagView::Int(384)),
        ("min_y"@, NbtTagView::Int(-64i32)),
        ("monster_spawn_block_light_limit"@, NbtTagView::Int(0)),
        ("monster_spawn_light_level"@, NbtTagView::Compound(seq![
            ("max_inclusive"@, NbtTagView::Int(7)),
            ("min_inclusive"@, NbtTagView::Int(0)),
            ("type"@, NbtTagView::String("minecraft:uniform"@)),
        ])),
    ])
}

fn named(name: &str, tag: NbtTag) -> (r: (String, NbtTag))
    ensures
        r.0@ == name@,
        r.1@ == tag@,
{
    (name.to_string(), tag)
}

/// The overworld dimension type the registries carry (see
/// `minimal_overworld_dimension_view`).
#[must_use]
pub fn minimal_overworld_dimension() -> (r: NbtTag)
    ensures
        r@ == minimal_overworld_dimension_view(),
{
    let light = vec![
        named("max_inclusive", NbtTag::Int(7)),
        named("min_inclusive", NbtTag::Int(0)),
        named("type", NbtTag::String("minecraft:uniform".to_string())),
    ];
    let entries = vec![
        named("ambient_light", NbtTag::Float(FLOAT_ZERO_BITS)),
        named("attributes", NbtTag::Compound(Vec::new())),
        named("coordinate_scale", NbtTag::Double(DOUBLE_ONE_BITS)),
        named("has_ceiling", NbtTag::Byte(0)),
        named("has_ender_dragon_fight", NbtTag::Byte(0)),
        named("has_fixed_time", NbtTag::Byte(0)),
        named("has_skylight", NbtTag::Byte(1)),
        named("height", NbtTag::Int(384)),
        named("infiniburn", NbtTag::String("minecraft:netherrack".to_string())),
        named("logical_height", NbtTag::Int(384)),
        named("min_y", NbtTag::Int(-64)),
        named("monster_spawn_block_light_limit", NbtTag::Int(0)),
        named("monster_spawn_light_level", NbtTag::Compound(light)),
    ];
    proof {
        lemma_entry_views(light@);
        assert(entry_views(light@) =~= seq![
            ("max_inclusive"@, NbtTagView::Int(7)),
            ("min_inclusive"@, NbtTagView::Int(0)),
            ("type"@, NbtTagView::String("minecraft:uniform"@)),
        ]);
        lemma_entry_views(entries@);
        lemma_entry_views(Seq::<(String, NbtTag)>::empty());
        assert(entry_views(Seq::<(String, NbtTag)>::empty()) =~= Seq::<(Seq<char>, NbtTagView)>::empty());
    }
    let r = NbtTag::Compound(entries);
    proof {
        assert(entry_views(entries@) =~= minimal_overworld_dimension_view()->Compound_0);
    }
    r
}

/// The vanilla overworld dimension type, attributes, timelines and clock
/// included. It needs tags this server never sends, so the registries carry
/// `minimal_overworld_dimension` instead.
pub open spec fn overworld_dimension_view() -> NbtTagView {
    NbtTagView::Compound(seq![
        ("ambient_light"@, NbtTagView::Float(FLOAT_ZERO_BITS)),
        ("attributes"@, NbtTagView::Compound(seq![
            ("minecraft:audio/ambient_sounds"@, NbtTagView::Compound(seq![
                ("mood"@, NbtTagView::Compound(seq![
                    ("block_search_extent"@, NbtTagView::Int(8)),
                    ("offset"@, NbtTagView::Double(DOUBLE_TWO_BITS)),
                    ("sound"@, NbtTagView::String("minecraft:ambient.cave"@)),
                    ("tick_delay"@, NbtTagView::Int(6000)),
                ])),
            ])),
            ("minecraft:audio/background_music"@, NbtTagView::Compound(seq![
                ("creative"@, NbtTagView::Compound(seq![
                    ("max_delay"@, NbtTagView::Int(24000)),
                    ("min_delay"@, NbtTagView::Int(12000)),
                    ("sound"@, NbtTagView::String("minecraft:music.creative"@)),
                ])),
                ("default"@, NbtTagView::Compound(seq![
                    ("max_delay"@, NbtTagView::Int(24000)),
                    ("min_delay"@, NbtTagView::Int(12000)),
                    ("sound"@, NbtTagView::String("minecraft:music.game"@)),
                ])),
            ])),
            ("minecraft:gameplay/bed_rule"@, NbtTagView::Compound(seq![
                ("can_set_spawn"@, NbtTagView::String("always"@)),
                ("can_sleep"@, NbtTagView::String("when_dark"@)),
                ("error_message"@, NbtTagView::Compound(seq![
                    ("translate"@, NbtTagView::String("block.minecraft.bed.no_sleep"@)),
                ])),
            ])),
            ("minecraft:gameplay/nether_portal_spawns_piglin"@, NbtTagView::Byte(1)),
            ("minecraft:gameplay/respawn_anchor_works"@, NbtTagView::Byte(0)),
            ("minecraft:visual/ambient_light_color"@, NbtTagView::String("#0a0a0a"@)),
            ("minecraft:visual/cloud_color"@, NbtTagView::String("#ccffffff"@)),
            ("minecraft:visual/cloud_height"@, NbtTagView::Float(CLOUD_HEIGHT_BITS)),
            ("minecraft:visual/fog_color"@, NbtTagView::String("#c0d8ff"@)),
            ("minecraft:visual/sky_color"@, NbtTagView::String("#78a7ff"@)),
        ])),
        ("coordinate_scale"@, NbtTagView::Double(DOUBLE_ONE_BITS)),
        ("default_clock"@, NbtTagView::String("minecraft:overworld"@)),
        ("has_ceiling"@, NbtTagView::Byte(0)),
        ("has_ender_dragon_fight"@, NbtTagView::Byte(0)),
        ("has_skylight"@, NbtTagView::Byte(1)),
        ("height"@, NbtTagView::Int(384)),
        ("infiniburn"@, NbtTagView::String("#minecraft:infiniburn_overworld"@)),
        ("logical_height"@, NbtTagView::Int(384)),
        ("min_y"@, NbtTagView::Int(-64i32)),
        ("monster_spawn_block_light_limit"@, NbtTagView::Int(0)),
        ("monster_spawn_light_level"@, NbtTagView::Compound(seq![
            ("max_inclusive"@, NbtTagView::Int(7)),
            ("min_inclusive"@, NbtTagView::Int(0)),
            ("type"@, NbtTagView::String("minecraft:uniform"@)),
        ])),
        ("timelines"@, NbtTagView::String("#minecraft:in_overworld"@)),
    ])
}

/// The vanilla overworld dimension type's NBT (see `overworld_dimension_view`).
#[must_use]
#[verifier::spinoff_prover]
#[verifier::rlimit(100)]
pub fn overworld_dimension() -> (r: NbtTag)
    ensures
        r@ == overworld_dimension_view(),
{
    let c1 = vec![
        named("block_search_extent", NbtTag::Int(8)),
        named("offset", NbtTag::Double(DOUBLE_TWO_BITS)),
        named("sound", NbtTag::String("minecraft:ambient.cave".to_string())),
        named("tick_delay", NbtTag::Int(6000)),
    ];
    proof {
        lemma_entry_views(c1@);
        assert(entry_views(c1@) =~= NbtTagView::Compound(seq![
            ("block_search_extent"@, NbtTagView::Int(8)),
            ("offset"@, NbtTagView::Double(DOUBLE_TWO_BITS)),
            ("sound"@, NbtTagView::String("minecraft:ambient.cave"@)),
            ("tick_delay"@, NbtTagView::Int(6000)),
        ])->Compound_0);
    }
    let c2 = vec![
        named("mood", NbtTag::Compound(c1)),
    ];
    proof {
        lemma_entry_views(c2@);
        assert(entry_views(c2@) =~= NbtTagView::Compound(seq![
            ("mood"@, NbtTagView::Compound(seq![
                ("block_search_extent"@, NbtTagView::Int(8)),
                ("offset"@, NbtTagView::Double(DOUBLE_TWO_BITS)),
                ("sound"@, NbtTagView::String("minecraft:ambient.cave"@)),
                ("tick_delay"@, NbtTagView::Int(6000)),
            ])),
        ])->Compound_0);
    }
    let c3 = vec![
        named("max_delay", NbtTag::Int(24000)),
        named("min_delay", NbtTag::Int(12000)),
        named("sound", NbtTag::String("minecraft:music.creative".to_string())),
    ];
    proof {
        lemma_entry_views(c3@);
        assert(entry_views(c3@) =~= NbtTagView::Compound(seq![
            ("max_delay"@, NbtTagView::Int(24000)),
            ("min_delay"@, NbtTagView::Int(12000)),
            ("sound"@, NbtTagView::String("minecraft:music.creative"@)),
        ])->Compound_0);
    }
    let c4 = vec![
        named("max_delay", NbtTag::Int(24000)),
        named("min_delay", NbtTag::Int(12000)),
        named("sound", NbtTag::String("minecraft:music.game".to_string())),
    ];
    proof {
        lemma_entry_views(c4@);
        assert(entry_views(c4@) =~= NbtTagView::Compound(seq![
            ("max_delay"@, NbtTagView::Int(24000)),
            ("min_delay"@, NbtTagView::Int(12000)),
            ("sound"@, NbtTagView::String("minecraft:music.game"@)),
        ])->Compound_0);
    }
    let c5 = vec![
        named("creative", NbtTag::Compound(c3)),
        named("default", NbtTag::Compound(c4)),
    ];
    proof {
        lemma_entry_views(c5@);
        assert(entry_views(c5@) =~= NbtTagView::Compound(seq![
            ("creative"@, NbtTagView::Compound(seq![
                ("max_delay"@, NbtTagView::Int(24000)),
                ("min_delay"@, NbtTagView::Int(12000)),
                ("sound"@, NbtTagView::String("minecraft:music.creative"@)),
            ])),
            ("default"@, NbtTagView::Compound(seq![
                ("max_delay"@, NbtTagView::Int(24000)),
                ("min_delay"@, NbtTagView::Int(12000)),
                ("sound"@, NbtTagView::String("minecraft:music.game"@)),
            ])),
        ])->Compound_0);
    }
    let c6 = vec![
        named("translate", NbtTag::String("block.minecraft.bed.no_sleep".to_string())),
    ];
    proof {
        lemma_entry_views(c6@);
        assert(entry_views(c6@) =~= NbtTagView::Compound(seq![
            ("translate"@, NbtTagView::String("block.minecraft.bed.no_sleep"@)),
        ])->Compound_0);
    }
    let c7 = vec![
        named("can_set_spawn", NbtTag::String("always".to_string())),
        named("can_sleep", NbtTag::String("when_dark".to_string())),
        named("error_message", NbtTag::Compound(c6)),
    ];
    proof {
        lemma_entry_views(c7@);
        assert(entry_views(c7@) =~= NbtTagView::Compound(seq![
            ("can_set_spawn"@, NbtTagView::String("always"@)),
            ("can_sleep"@, NbtTagView::String("when_dark"@)),
            ("error_message"@, NbtTagView::Compound(seq![
                ("translate"@, NbtTagView::String("block.minecraft.bed.no_sleep"@)),
            ])),
        ])->Compound_0);
    }
    let c8 = vec![
        named("minecraft:audio/ambient_sounds", NbtTag::Compound(c2)),
        named("minecraft:audio/background_music", NbtTag::Compound(c5)),
        named("minecraft:gameplay/bed_rule", NbtTag::Compound(c7)),
        named("minecraft:gameplay/nether_portal_spawns_piglin", NbtTag::Byte(1)),
        named("minecraft:gameplay/respawn_anchor_works", NbtTag::Byte(0)),
        named("minecraft:visual/ambient_light_color", NbtTag::String("#0a0a0a".to_string())),
        named("minecraft:visual/cloud_color", NbtTag::String("#ccffffff".to_string())),
        named("minecraft:visual/cloud_height", NbtTag::Float(CLOUD_HEIGHT_BITS)),
        named("minecraft:visual/fog_color", NbtTag::String("#c0d8ff".to_string())),
        named("minecraft:visual/sky_color", NbtTag::String("#78a7ff".to_string())),
    ];
    proof {
        lemma_entry_views(c8@);
        assert(entry_views(c8@) =~= NbtTagView::Compound(seq![
            ("minecraft:audio/ambient_sounds"@, NbtTagView::Compound(seq![
                ("mood"@, NbtTagView::Compound(seq![
                    ("block_search_extent"@, NbtTagView::Int(8)),
                    ("offset"@, NbtTagView::Double(DOUBLE_TWO_BITS)),
                    ("sound"@, NbtTagView::String("minecraft:ambient.cave"@)),
                    ("tick_delay"@, NbtTagView::Int(6000)),
                ])),
            ])),
            ("minecraft:audio/background_music"@, NbtTagView::Compound(seq![
                ("creative"@, NbtTagView::Compound(seq![
                    ("max_delay"@, NbtTagView::Int(24000)),
                    ("min_delay"@, NbtTagView::Int(12000)),
                    ("sound"@, NbtTagView::String("minecraft:music.creative"@)),
                ])),
                ("default"@, NbtTagView::Compound(seq![
                    ("max_delay"@, NbtTagView::Int(24000)),
                    ("min_delay"@, NbtTagView::Int(12000)),
                    ("sound"@, NbtTagView::String("minecraft:music.game"@)),
                ])),
            ])),
            ("minecraft:gameplay/bed_rule"@, NbtTagView::Compound(seq![
                ("can_set_spawn"@, NbtTagView::String("always"@)),
                ("can_sleep"@, NbtTagView::String("when_dark"@)),
                ("error_message"@, NbtTagView::Compound(seq![
                    ("translate"@, NbtTagView::String("block.minecraft.bed.no_sleep"@)),
                ])),
            ])),
            ("minecraft:gameplay/nether_portal_spawns_piglin"@, NbtTagView::Byte(1)),
            ("minecraft:gameplay/respawn_anchor_works"@, NbtTagView::Byte(0)),
            ("minecraft:visual/ambient_light_color"@, NbtTagView::String("#0a0a0a"@)),
            ("minecraft:visual/cloud_color"@, NbtTagView::String("#ccffffff"@)),
            ("minecraft:visual/cloud_height"@, NbtTagView::Float(CLOUD_HEIGHT_BITS)),
            ("minecraft:visual/fog_color"@, NbtTagView::String("#c0d8ff"@)),
            ("minecraft:visual/sky_color"@, NbtTagView::String("#78a7ff"@)),
        ])->Compound_0);
    }
    let c9 = vec![
        named("max_inclusive", NbtTag::Int(7)),
        named("min_inclusive", NbtTag::Int(0)),
        named("type", NbtTag::String("minecraft:uniform".to_string())),
    ];
    proof {
        lemma_entry_views(c9@);
        assert(entry_views(c9@) =~= NbtTagView::Compound(seq![
            ("max_inclusive"@, NbtTagView::Int(7)),
            ("min_inclusive"@, NbtTagView::Int(0)),
            ("type"@, NbtTagView::String("minecraft:uniform"@)),
        ])->Compound_0);
    }
    let c10 = vec![
        named("ambient_light", NbtTag::Float(FLOAT_ZERO_BITS)),
        named("attributes", NbtTag::Compound(c8)),
        named("coordinate_scale", NbtTag::Double(DOUBLE_ONE_BITS)),
        named("default_clock", NbtTag::String("minecraft:overworld".to_string())),
        named("has_ceiling", NbtTag::Byte(0)),
        named("has_ender_dragon_fight", NbtTag::Byte(0)),
        named("has_skylight", NbtTag::Byte(1)),
        named("height", NbtTag::Int(384)),
        named("infiniburn", NbtTag::String("#minecraft:infiniburn_overworld".to_string())),
        named("logical_height", NbtTag::Int(384)),
        named("min_y", NbtTag::Int(-64)),
        named("monster_spawn_block_light_limit", NbtTag::Int(0)),
        named("monster_spawn_light_level", NbtTag::Compound(c9)),
        named("timelines", NbtTag::String("#minecraft:in_overworld".to_string())),
    ];
    proof {
        lemma_entry_views(c10@);
        assert(entry_views(c10@) =~= NbtTagView::Compound(seq![
            ("ambient_light"@, NbtTagView::Float(FLOAT_ZERO_BITS)),
            ("attributes"@, NbtTagView::Compound(seq![
                ("minecraft:audio/ambient_sounds"@, NbtTagView::Compound(seq![
                    ("mood"@, NbtTagView::Compound(seq![
                        ("block_search_extent"@, NbtTagView::Int(8)),
                        ("offset"@, NbtTagView::Double(DOUBLE_TWO_BITS)),
                        ("sound"@, NbtTagView::String("minecraft:ambient.cave"@)),
                        ("tick_delay"@, NbtTagView::Int(6000)),
                    ])),
                ])),
                ("minecraft:audio/background_music"@, NbtTagView::Compound(seq![
                    ("creative"@, NbtTagView::Compound(seq![
                        ("max_delay"@, NbtTagView::Int(24000)),
                        ("min_delay"@, NbtTagView::Int(12000)),
                        ("sound"@, NbtTagView::String("minecraft:music.creative"@)),
                    ])),
                    ("default"@, NbtTagView::Compound(seq![
                        ("max_delay"@, NbtTagView::Int(24000)),
                        ("min_delay"@, NbtTagView::Int(12000)),
                        ("sound"@, NbtTagView::String("minecraft:music.game"@)),
                    ])),
                ])),
                ("minecraft:gameplay/bed_rule"@, NbtTagView::Compound(seq![
                    ("can_set_spawn"@, NbtTagView::String("always"@)),
                    ("can_sleep"@, NbtTagView::String("when_dark"@)),
                    ("error_message"@, NbtTagView::Compound(seq![
                        ("translate"@, NbtTagView::String("block.minecraft.bed.no_sleep"@)),
                    ])),
                ])),
                ("minecraft:gameplay/nether_portal_spawns_piglin"@, NbtTagView::Byte(1)),
                ("minecraft:gameplay/respawn_anchor_works"@, NbtTagView::Byte(0)),
                ("minecraft:visual/ambient_light_color"@, NbtTagView::String("#0a0a0a"@)),
                ("minecraft:visual/cloud_color"@, NbtTagView::String("#ccffffff"@)),
                ("minecraft:visual/cloud_height"@, NbtTagView::Float(CLOUD_HEIGHT_BITS)),
                ("minecraft:visual/fog_color"@, NbtTagView::String("#c0d8ff"@)),
                ("minecraft:visual/sky_color"@, NbtTagView::String("#78a7ff"@)),
            ])),
            ("coordinate_scale"@, NbtTagView::Double(DOUBLE_ONE_BITS)),
            ("default_clock"@, NbtTagView::String("minecraft:overworld"@)),
            ("has_ceiling"@, NbtTagView::Byte(0)),
            ("has_ender_dragon_fight"@, NbtTagView::Byte(0)),
            ("has_skylight"@, NbtTagView::Byte(1)),
            ("height"@, NbtTagView::Int(384)),
            ("infiniburn"@, NbtTagView::String("#minecraft:infiniburn_overworld"@)),
            ("logical_height"@, NbtTagView::Int(384)),
            ("min_y"@, NbtTagView::Int(-64i32)),
            ("monster_spawn_block_light_limit"@, NbtTagView::Int(0)),
            ("monster_spawn_light_level"@, NbtTagView::Compound(seq![
                ("max_inclusive"@, NbtTagView::Int(7)),
                ("min_inclusive"@, NbtTagView::Int(0)),
                ("type"@, NbtTagView::String("minecraft:uniform"@)),
            ])),
            ("timelines"@, NbtTagView::String("#minecraft:in_overworld"@)),
        ])->Compound_0);
    }
    NbtTag::Compound(c10)
}

fn vanilla(id: &'static str) -> (r: RegistryEntry)
    ensures
        r@ == (RegistryEntryView { id: id@, data: None }),
{
    RegistryEntry { id, data: None }
}

fn with_nbt(id: &'static str, data: NbtTag) -> (r: RegistryEntry)
    ensures
        r@ == (RegistryEntryView { id: id@, data: Some(data@) }),
{
    RegistryEntry { id, data: Some(data) }
}

/// The registries sent, in order, with their entries in id order.
pub open spec fn spec_default_registries() -> Seq<RegistryView> {
    seq![
        RegistryView { id: "minecraft:banner_pattern"@, entries: seq![RegistryEntryView { id: "minecraft:base"@, data: None }] },
        RegistryView { id: "minecraft:chat_type"@, entries: seq![RegistryEntryView { id: "minecraft:chat"@, data: None }, RegistryEntryView { id: "minecraft:say_command"@, data: None }] },
        RegistryView { id: "minecraft:damage_type"@, entries: seq![RegistryEntryView { id: "minecraft:cactus"@, data: None }, RegistryEntryView { id: "minecraft:campfire"@, data: None }, RegistryEntryView { id: "minecraft:cramming"@, data: None }, RegistryEntryView { id: "minecraft:dragon_breath"@, data: None }, RegistryEntryView { id: "minecraft:drown"@, data: None }, RegistryEntryView { id: "minecraft:dry_out"@, data: None }, RegistryEntryView { id: "minecraft:ender_pearl"@, data: None }, RegistryEntryView { id: "minecraft:fall"@, data: None }, RegistryEntryView { id: "minecraft:fly_into_wall"@, data: None }, RegistryEntryView { id: "minecraft:freeze"@, data: None }, RegistryEntryView { id: "minecraft:generic"@, data: None }, RegistryEntryView { id: "minecraft:generic_kill"@, data: None }, RegistryEntryView { id: "minecraft:hot_floor"@, data: None }, RegistryEntryView { id: "minecraft:in_fire"@, data: None }, RegistryEntryView { id: "minecraft:in_wall"@, data: None }, RegistryEntryView { id: "minecraft:lava"@, data: None }, RegistryEntryView { id: "minecraft:lightning_bolt"@, data: None }, RegistryEntryView { id: "minecraft:magic"@, data: None }, RegistryEntryView { id: "minecraft:on_fire"@, data: None }, RegistryEntryView { id: "minecraft:out_of_world"@, data: None }, RegistryEntryView { id: "minecraft:outside_border"@, data: None }, RegistryEntryView { id: "minecraft:spear"@, data: None }, RegistryEntryView { id: "minecraft:stalagmite"@, data: None }, RegistryEntryView { id: "minecraft:starve"@, data: None }, RegistryEntryView { id: "minecraft:sulfur_cube_hot"@, data: None }, RegistryEntryView { id: "minecraft:sweet_berry_bush"@, data: None }, RegistryEntryView { id: "minecraft:wither"@, data: None }] },
        RegistryView { id: "minecraft:dialog"@, entries: seq![] },
        RegistryView { id: "minecraft:dimension_type"@, entries: seq![RegistryEntryView { id: "minecraft:overworld"@, data: Some(minimal_overworld_dimension_view()) }] },
        RegistryView { id: "minecraft:enchantment"@, entries: seq![] },
        RegistryView { id: "minecraft:instrument"@, entries: seq![RegistryEntryView { id: "minecraft:ponder_goat_horn"@, data: None }] },
        RegistryView { id: "minecraft:jukebox_song"@, entries: seq![RegistryEntryView { id: "minecraft:11"@, data: None }, RegistryEntryView { id: "minecraft:13"@, data: None }, RegistryEntryView { id: "minecraft:5"@, data: None }, RegistryEntryView { id: "minecraft:blocks"@, data: None }, RegistryEntryView { id: "minecraft:bounce"@, data: None }, RegistryEntryView { id: "minecraft:cat"@, data: None }, RegistryEntryView { id: "minecraft:chirp"@, data: None }, RegistryEntryView { id: "minecraft:creator"@, data: None }, RegistryEntryView { id: "minecraft:creator_music_box"@, data: None }, RegistryEntryView { id: "minecraft:far"@, data: None }, RegistryEntryView { id: "minecraft:lava_chicken"@, data: None }, RegistryEntryView { id: "minecraft:mall"@, data: None }, RegistryEntryView { id: "minecraft:mellohi"@, data: None }, RegistryEntryView { id: "minecraft:otherside"@, data: None }, RegistryEntryView { id: "minecraft:pigstep"@, data: None }, RegistryEntryView { id: "minecraft:precipice"@, data: None }, RegistryEntryView { id: "minecraft:relic"@, data: None }, RegistryEntryView { id: "minecraft:stal"@, data: None }, RegistryEntryView { id: "minecraft:strad"@, data: None }, RegistryEntryView { id: "minecraft:tears"@, data: None }, RegistryEntryView { id: "minecraft:wait"@, data: None }, RegistryEntryView { id: "minecraft:ward"@, data: None }] },
        RegistryView { id: "minecraft:painting_variant"@, entries: seq![RegistryEntryView { id: "minecraft:kebab"@, data: None }] },
        RegistryView { id: "minecraft:sulfur_cube_archetype"@, entries: seq![RegistryEntryView { id: "minecraft:regular"@, data: None }, RegistryEntryView { id: "minecraft:bouncy"@, data: None }, RegistryEntryView { id: "minecraft:slow_bouncy"@, data: None }, RegistryEntryView { id: "minecraft:slow_flat"@, data: None }, RegistryEntryView { id: "minecraft:fast_flat"@, data: None }, RegistryEntryView { id: "minecraft:light"@, data: None }, RegistryEntryView { id: "minecraft:fast_sliding"@, data: None }, RegistryEntryView { id: "minecraft:slow_sliding"@, data: None }, RegistryEntryView { id: "minecraft:high_resistance"@, data: None }, RegistryEntryView { id: "minecraft:sticky"@, data: None }, RegistryEntryView { id: "minecraft:explosive"@, data: None }, RegistryEntryView { id: "minecraft:hot"@, data: None }] },
        RegistryView { id: "minecraft:test_environment"@, entries: seq![] },
        RegistryView { id: "minecraft:test_instance"@, entries: seq![] },
        RegistryView { id: "minecraft:timeline"@, entries: seq![] },
        RegistryView { id: "minecraft:trim_material"@, entries: seq![RegistryEntryView { id: "minecraft:quartz"@, data: None }, RegistryEntryView { id: "minecraft:iron"@, data: None }, RegistryEntryView { id: "minecraft:netherite"@, data: None }, RegistryEntryView { id: "minecraft:redstone"@, data: None }, RegistryEntryView { id: "minecraft:copper"@, data: None }, RegistryEntryView { id: "minecraft:gold"@, data: None }, RegistryEntryView { id: "minecraft:emerald"@, data: None }, RegistryEntryView { id: "minecraft:diamond"@, data: None }, RegistryEntryView { id: "minecraft:lapis"@, data: None }, RegistryEntryView { id: "minecraft:amethyst"@, data: None }, RegistryEntryView { id: "minecraft:resin"@, data: None }] },
        RegistryView { id: "minecraft:trim_pattern"@, entries: seq![RegistryEntryView { id: "minecraft:sentry"@, data: None }] },
        RegistryView { id: "minecraft:world_clock"@, entries: seq![] },
        RegistryView { id: "minecraft:worldgen/biome"@, entries: seq![RegistryEntryView { id: "minecraft:plains"@, data: None }] },
        RegistryView { id: "minecraft:cat_variant"@, entries: seq![RegistryEntryView { id: "minecraft:tabby"@, data: None }] },
        RegistryView { id: "minecraft:cat_sound_variant"@, entries: seq![RegistryEntryView { id: "minecraft:classic"@, data: None }, RegistryEntryView { id: "minecraft:royal"@, data: None }] },
        RegistryView { id: "minecraft:chicken_variant"@, entries: seq![RegistryEntryView { id: "minecraft:temperate"@, data: None }, RegistryEntryView { id: "minecraft:cold"@, data: None }, RegistryEntryView { id: "minecraft:warm"@, data: None }] },
        RegistryView { id: "minecraft:chicken_sound_variant"@, entries: seq![RegistryEntryView { id: "minecraft:classic"@, data: None }, RegistryEntryView { id: "minecraft:picky"@, data: None }] },
        RegistryView { id: "minecraft:cow_variant"@, entries: seq![RegistryEntryView { id: "minecraft:temperate"@, data: None }] },
        RegistryView { id: "minecraft:cow_sound_variant"@, entries: seq![RegistryEntryView { id: "minecraft:classic"@, data: None }, RegistryEntryView { id: "minecraft:moody"@, data: None }] },
        RegistryView { id: "minecraft:frog_variant"@, entries: seq![RegistryEntryView { id: "minecraft:temperate"@, data: None }] },
        RegistryView { id: "minecraft:pig_variant"@, entries: seq![RegistryEntryView { id: "minecraft:temperate"@, data: None }] },
        RegistryView { id: "minecraft:pig_sound_variant"@, entries: seq![RegistryEntryView { id: "minecraft:classic"@, data: None }, RegistryEntryView { id: "minecraft:big"@, data: None }, RegistryEntryView { id: "minecraft:mini"@, data: None }] },
        RegistryView { id: "minecraft:wolf_variant"@, entries: seq![RegistryEntryView { id: "minecraft:pale"@, data: None }, RegistryEntryView { id: "minecraft:spotted"@, data: None }, RegistryEntryView { id: "minecraft:snowy"@, data: None }, RegistryEntryView { id: "minecraft:black"@, data: None }, RegistryEntryView { id: "minecraft:ashen"@, data: None }, RegistryEntryView { id: "minecraft:rusty"@, data: None }, RegistryEntryView { id: "minecraft:woods"@, data: None }, RegistryEntryView { id: "minecraft:chestnut"@, data: None }, RegistryEntryView { id: "minecraft:striped"@, data: None }] },
        RegistryView { id: "minecraft:wolf_sound_variant"@, entries: seq![RegistryEntryView { id: "minecraft:angry"@, data: None }, RegistryEntryView { id: "minecraft:big"@, data: None }, RegistryEntryView { id: "minecraft:classic"@, data: None }, RegistryEntryView { id: "minecraft:cute"@, data: None }, RegistryEntryView { id: "minecraft:grumpy"@, data: None }, RegistryEntryView { id: "minecraft:puglin"@, data: None }, RegistryEntryView { id: "minecraft:sad"@, data: None }] },
        RegistryView { id: "minecraft:zombie_nautilus_variant"@, entries: seq![RegistryEntryView { id: "minecraft:temperate"@, data: None }, RegistryEntryView { id: "minecraft:warm"@, data: None }] },
    ]
}

/// The registries sent during configuration (see `spec_default_registries`).
#[must_use]
#[verifier::spinoff_prover]
#[verifier::rlimit(100)]
pub fn default_registries() -> (r: Vec<ProtocolRegistry>)
    ensures
        r@.map_values(|g: ProtocolRegistry| g@) == spec_default_registries(),
{
    let mut out: Vec<ProtocolRegistry> = Vec::new();
    let entries = vec![vanilla("minecraft:base")];
    assert(entries@.map_values(|e: RegistryEntry| e@) =~= spec_default_registries()[0].entries);
    out.push(ProtocolRegistry { id: "minecraft:banner_pattern", entries });
    assert(out@[0]@ == spec_default_registries()[0]);
    let entries = vec![vanilla("minecraft:chat"), vanilla("minecraft:say_command")];
    assert(entries@.map_values(|e: RegistryEntry| e@) =~= spec_default_registries()[1].entries);
    out.push(ProtocolRegistry { id: "minecraft:chat_type", entries });
    assert(out@[1]@ == spec_default_registries()[1]);
    let entries = vec![vanilla("minecraft:cactus"), vanilla("minecraft:campfire"), vanilla("minecraft:cramming"), vanilla("minecraft:dragon_breath"), vanilla("minecraft:drown"), vanilla("minecraft:dry_out"), vanilla("minecraft:ender_pearl"), vanilla("minecraft:fall"), vanilla("minecraft:fly_into_wall"), vanilla("minecraft:freeze"), vanilla("minecraft:generic"), vanilla("minecraft:generic_kill"), vanilla("minecraft:hot_floor"), vanilla("minecraft:in_fire"), vanilla("minecraft:in_wall"), vanilla("minecraft:lava"), vanilla("minecraft:lightning_bolt"), vanilla("minecraft:magic"), vanilla("minecraft:on_fire"), vanilla("minecraft:out_of_world"), vanilla("minecraft:outside_border"), vanilla("minecraft:spear"), vanilla("minecraft:stalagmite"), vanilla("minecraft:starve"), vanilla("minecraft:sulfur_cube_hot"), vanilla("minecraft:sweet_berry_bush"), vanilla("minecraft:wither")];
    assert(entries@.map_values(|e: RegistryEntry| e@) =~= spec_default_registries()[2].entries);
    out.push(ProtocolRegistry { id: "minecraft:damage_type", entries });
    assert(out@[2]@ == spec_default_registries()[2]);
    let entries = vec![];
    assert(entries@.map_values(|e: RegistryEntry| e@) =~= spec_default_registries()[3].entries);
    out.push(ProtocolRegistry { id: "minecraft:dialog", entries });
    assert(out@[3]@ == spec_default_registries()[3]);
    let entries = vec![with_nbt("minecraft:overworld", minimal_overworld_dimension())];
    assert(entries@.map_values(|e: RegistryEntry| e@) =~= spec_default_registries()[4].entries);
    out.push(ProtocolRegistry { id: "minecraft:dimension_type", entries });
    assert(out@[4]@ == spec_default_registries()[4]);
    let entries = vec![];
    assert(entries@.map_values(|e: RegistryEntry| e@) =~= spec_default_registries()[5].entries);
    out.push(ProtocolRegistry { id: "minecraft:enchantment", entries });
    assert(out@[5]@ == spec_default_registries()[5]);
    let entries = vec![vanilla("minecraft:ponder_goat_horn")];
    assert(entries@.map_values(|e: RegistryEntry| e@) =~= spec_default_registries()[6].entries);
    out.push(ProtocolRegistry { id: "minecraft:instrument", entries });
    assert(out@[6]@ == spec_default_registries()[6]);
    let entries = vec![vanilla("minecraft:11"), vanilla("minecraft:13"), vanilla("minecraft:5"), vanilla("minecraft:blocks"), vanilla("minecraft:bounce"), vanilla("minecraft:cat"), vanilla("minecraft:chirp"), vanilla("minecraft:creator"), vanilla("minecraft:creator_music_box"), vanilla("minecraft:far"), vanilla("minecraft:lava_chicken"), vanilla("minecraft:mall"), vanilla("minecraft:mellohi"), vanilla("minecraft:otherside"), vanilla("minecraft:pigstep"), vanilla("minecraft:precipice"), vanilla("minecraft:relic"), vanilla("minecraft:stal"), vanilla("minecraft:strad"), vanilla("minecraft:tears"), vanilla("minecraft:wait"), vanilla("minecraft:ward")];
    assert(entries@.map_values(|e: RegistryEntry| e@) =~= spec_default_registries()[7].entries);
    out.push(ProtocolRegistry { id: "minecraft:jukebox_song", entries });
    assert(out@[7]@ == spec_default_registries()[7]);
    let entries = vec![vanilla("minecraft:kebab")];
    assert(entries@.map_values(|e: RegistryEntry| e@) =~= spec_default_registries()[8].entries);
    out.push(ProtocolRegistry { id: "minecraft:painting_variant", entries });
    assert(out@[8]@ == spec_default_registries()[8]);
    let entries = vec![vanilla("minecraft:regular"), vanilla("minecraft:bouncy"), vanilla("minecraft:slow_bouncy"), vanilla("minecraft:slow_flat"), vanilla("minecraft:fast_flat"), vanilla("minecraft:light"), vanilla("minecraft:fast_sliding"), vanilla("minecraft:slow_sliding"), vanilla("minecraft:high_resistance"), vanilla("minecraft:sticky"), vanilla("minecraft:explosive"), vanilla("minecraft:hot")];
    assert(entries@.map_values(|e: RegistryEntry| e@) =~= spec_default_registries()[9].entries);
    out.push(ProtocolRegistry { id: "minecraft:sulfur_cube_archetype", entries });
    assert(out@[9]@ == spec_default_registries()[9]);
    let entries = vec![];
    assert(entries@.map_values(|e: RegistryEntry| e@) =~= spec_default_registries()[10].entries);
    out.push(ProtocolRegistry { id: "minecraft:test_environment", entries });
    assert(out@[10]@ == spec_default_registries()[10]);
    let entries = vec![];
    assert(entries@.map_values(|e: RegistryEntry| e@) =~= spec_default_registries()[11].entries);
    out.push(ProtocolRegistry { id: "minecraft:test_instance", entries });
    assert(out@[11]@ == spec_default_registries()[11]);
    let entries = vec![];
    assert(entries@.map_values(|e: RegistryEntry| e@) =~= spec_default_registries()[12].entries);
    out.push(ProtocolRegistry { id: "minecraft:timeline", entries });
    assert(out@[12]@ == spec_default_registries()[12]);
    let entries = vec![vanilla("minecraft:quartz"), vanilla("minecraft:iron"), vanilla("minecraft:netherite"), vanilla("minecraft:redstone"), vanilla("minecraft:copper"), vanilla("minecraft:gold"), vanilla("minecraft:emerald"), vanilla("minecraft:diamond"), vanilla("minecraft:lapis"), vanilla("minecraft:amethyst"), vanilla("minecraft:resin")];
    assert(entries@.map_values(|e: RegistryEntry| e@) =~= spec_default_registries()[13].entries);
    out.push(ProtocolRegistry { id: "minecraft:trim_material", entries });
    assert(out@[13]@ == spec_default_registries()[13]);
    let entries = vec![vanilla("minecraft:sentry")];
    assert(entries@.map_values(|e: RegistryEntry| e@) =~= spec_default_registries()[14].entries);
    out.push(ProtocolRegistry { id: "minecraft:trim_pattern", entries });
    assert(out@[14]@ == spec_default_registries()[14]);
    let entries = vec![];
    assert(entries@.map_values(|e: RegistryEntry| e@) =~= spec_default_registries()[15].entries);
    out.push(ProtocolRegistry { id: "minecraft:world_clock", entries });
    assert(out@[15]@ == spec_default_registries()[15]);
    let entries = vec![vanilla("minecraft:plains")];
    assert(entries@.map_values(|e: RegistryEntry| e@) =~= spec_default_registries()[16].entries);
    out.push(ProtocolRegistry { id: "minecraft:worldgen/biome", entries });
    assert(out@[16]@ == spec_default_registries()[16]);
    let entries = vec![vanilla("minecraft:tabby")];
    assert(entries@.map_values(|e: RegistryEntry| e@) =~= spec_default_registries()[17].entries);
    out.push(ProtocolRegistry { id: "minecraft:cat_variant", entries });
    assert(out@[17]@ == spec_default_registries()[17]);
    let entries = vec![vanilla("minecraft:classic"), vanilla("minecraft:royal")];
    assert(entries@.map_values(|e: RegistryEntry| e@) =~= spec_default_registries()[18].entries);
    out.push(ProtocolRegistry { id: "minecraft:cat_sound_variant", entries });
    assert(out@[18]@ == spec_default_registries()[18]);
    let entries = vec![vanilla("minecraft:temperate"), vanilla("minecraft:cold"), vanilla("minecraft:warm")];
    assert(entries@.map_values(|e: RegistryEntry| e@) =~= spec_default_registries()[19].entries);
    out.push(ProtocolRegistry { id: "minecraft:chicken_variant", entries });
    assert(out@[19]@ == spec_default_registries()[19]);
    let entries = vec![vanilla("minecraft:classic"), vanilla("minecraft:picky")];
    assert(entries@.map_values(|e: RegistryEntry| e@) =~= spec_default_registries()[20].entries);
    out.push(ProtocolRegistry { id: "minecraft:chicken_sound_variant", entries });
    assert(out@[20]@ == spec_default_registries()[20]);
    let entries = vec![vanilla("minecraft:temperate")];
    assert(entries@.map_values(|e: RegistryEntry| e@) =~= spec_default_registries()[21].entries);
    out.push(ProtocolRegistry { id: "minecraft:cow_variant", entries });
    assert(out@[21]@ == spec_default_registries()[21]);
    let entries = vec![vanilla("minecraft:classic"), vanilla("minecraft:moody")];
    assert(entries@.map_values(|e: RegistryEntry| e@) =~= spec_default_registries()[22].entries);
    out.push(ProtocolRegistry { id: "minecraft:cow_sound_variant", entries });
    assert(out@[22]@ == spec_default_registries()[22]);
    let entries = vec![vanilla("minecraft:temperate")];
    assert(entries@.map_values(|e: RegistryEntry| e@) =~= spec_default_registries()[23].entries);
    out.push(ProtocolRegistry { id: "minecraft:frog_variant", entries });
    assert(out@[23]@ == spec_default_registries()[23]);
    let entries = vec![vanilla("minecraft:temperate")];
    assert(entries@.map_values(|e: RegistryEntry| e@) =~= spec_default_registries()[24].entries);
    out.push(ProtocolRegistry { id: "minecraft:pig_variant", entries });
    assert(out@[24]@ == spec_default_registries()[24]);
    let entries = vec![vanilla("minecraft:classic"), vanilla("minecraft:big"), vanilla("minecraft:mini")];
    assert(entries@.map_values(|e: RegistryEntry| e@) =~= spec_default_registries()[25].entries);
    out.push(ProtocolRegistry { id: "minecraft:pig_sound_variant", entries });
    assert(out@[25]@ == spec_default_registries()[25]);
    let entries = vec![vanilla("minecraft:pale"), vanilla("minecraft:spotted"), vanilla("minecraft:snowy"), vanilla("minecraft:black"), vanilla("minecraft:ashen"), vanilla("minecraft:rusty"), vanilla("minecraft:woods"), vanilla("minecraft:chestnut"), vanilla("minecraft:striped")];
    assert(entries@.map_values(|e: RegistryEntry| e@) =~= spec_default_registries()[26].entries);
    out.push(ProtocolRegistry { id: "minecraft:wolf_variant", entries });
    assert(out@[26]@ == spec_default_registries()[26]);
    let entries = vec![vanilla("minecraft:angry"), vanilla("minecraft:big"), vanilla("minecraft:classic"), vanilla("minecraft:cute"), vanilla("minecraft:grumpy"), vanilla("minecraft:puglin"), vanilla("minecraft:sad")];
    assert(entries@.map_values(|e: RegistryEntry| e@) =~= spec_default_registries()[27].entries);
    out.push(ProtocolRegistry { id: "minecraft:wolf_sound_variant", entries });
    assert(out@[27]@ == spec_default_registries()[27]);
    let entries = vec![vanilla("minecraft:temperate"), vanilla("minecraft:warm")];
    assert(entries@.map_values(|e: RegistryEntry| e@) =~= spec_default_registries()[28].entries);
    out.push(ProtocolRegistry { id: "minecraft:zombie_nautilus_variant", entries });
    assert(out@[28]@ == spec_default_registries()[28]);
    assert(out@.map_values(|g: ProtocolRegistry| g@) =~= spec_default_registries());
    out
}

/// Each entry: its id, then whether data follows and the unnamed NBT.
pub open spec fn entries_body(entries: Seq<RegistryEntryView>) -> Result<Seq<u8>, ProtoError>
    decreases entries.len(),
{
    if entries.len() == 0 {
        Ok(Seq::empty())
    } else {
        match entries_body(entries.drop_last()) {
            Err(e) => Err(e),
            Ok(p) => {
                let e = entries.last();
                match e.data {
                    None => Ok(p + string_encoding(e.id) + seq![0u8]),
                    Some(t) => match spec_nbt_unnamed(t) {
                        Err(err) => Err(err),
                        Ok(nbt) => Ok(p + string_encoding(e.id) + seq![1u8] + nbt),
                    },
                }
            },
        }
    }
}

/// The body of a Registry Data packet: the registry id, the entry count,
/// the entries.
pub open spec fn registry_body(g: RegistryView) -> Result<Seq<u8>, ProtoError> {
    match entries_body(g.entries) {
        Err(e) => Err(e),
        Ok(p) => Ok(string_encoding(g.id) + varint_encoding(g.entries.len() as i32) + p),
    }
}

proof fn lemma_entries_body_prefix_err(entries: Seq<RegistryEntryView>, k: int)
    requires
        0 <= k <= entries.len(),
        entries_body(entries.take(k)) is Err,
    ensures
        entries_body(entries) == entries_body(entries.take(k)),
    decreases entries.len() - k,
{
    if k < entries.len() {
        assert(entries.take(k + 1).drop_last() =~= entries.take(k));
        lemma_entries_body_prefix_err(entries, k + 1);
    } else {
        assert(entries.take(k) =~= entries);
    }
}

/// A Registry Data packet for `g`; an entry whose NBT cannot be written,
/// or a body too long for a frame, fails.
pub fn encode_registry_data(g: &ProtocolRegistry) -> (r: Result<Vec<u8>, ProtoError>)
    ensures
        match registry_body(g@) {
            Ok(body) => if varint_encoding(0x07).len() + body.len() <= i32::MAX {
                r matches Ok(v) && v@ == packet_frame(0x07, body)
            } else {
                r == Err::<Vec<u8>, ProtoError>(ProtoError::PacketTooLong(i32::MAX))
            },
            Err(e) => r == Err::<Vec<u8>, ProtoError>(e),
        },
{
    let ghost views = g@.entries;
    let mut body = Writer::new();
    body.write_string(g.id);
    body.write_varint(g.entries.len() as i32);
    let ghost base = body@;
    let mut i: usize = 0;
    while i < g.entries.len()
        invariant
            i <= g.entries@.len(),
            views == g.entries@.map_values(|e: RegistryEntry| e@),
            entries_body(views.take(i as int)) matches Ok(p) && body@ == base + p,
        decreases g.entries.len() - i,
    {
        proof {
            assert(views.take(i + 1).drop_last() =~= views.take(i as int));
            assert(views.take(i + 1).last() == g.entries@[i as int]@);
        }
        let entry = &g.entries[i];
        body.write_string(entry.id);
        match &entry.data {
            Some(nbt) => {
                body.write_bool(true);
                match nbt.encode_unnamed(&mut body) {
                    Ok(()) => {},
                    Err(e) => {
                        proof { lemma_entries_body_prefix_err(views, i + 1); }
                        return Err(e);
                    },
                }
            },
            None => {
                body.write_bool(false);
            },
        }
        i = i + 1;
        proof {
            let p = entries_body(views.take(i - 1))->Ok_0;
            let e = views[i - 1];
            match e.data {
                Some(t) => {
                    let nbt = spec_nbt_unnamed(t)->Ok_0;
                    assert(body@ =~= base + (p + string_encoding(e.id) + seq![1u8] + nbt));
                },
                None => {
                    assert(body@ =~= base + (p + string_encoding(e.id) + seq![0u8]));
                },
            }
        }
    }
    proof {
        assert(views.take(i as int) =~= views);
        assert(views.len() == g.entries@.len());
    }
    let bytes = body.into_bytes();
    proof {
        let p = entries_body(views)->Ok_0;
        assert(bytes@ =~= string_encoding(g.id@) + varint_encoding(g.entries@.len() as i32) + p);
    }
    proof {
        assert(7u32 >> 7u32 == 0u32) by (bit_vector);
        assert(varint_encoding(0x07).len() == 1);
    }
    if bytes.len() > 2147483646 {
        return Err(ProtoError::PacketTooLong(i32::MAX));
    }
    Ok(encode_packet(0x07, bytes.as_slice()))
}

} // verus!
