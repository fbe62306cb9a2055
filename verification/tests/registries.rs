use spironmc::java::nbt::NbtTag;
use spironmc::java::proto::{decode_varint_prefix, Reader};
use spironmc::java::registries::{
    default_registries, encode_registry_data, minimal_overworld_dimension, overworld_dimension,
};

fn decode_frame(bytes: &[u8]) -> (i32, Vec<u8>) {
    let (len, header) = decode_varint_prefix(bytes).unwrap().unwrap();
    let mut reader = Reader::new(&bytes[header..header + len as usize]);
    let id = reader.read_varint().unwrap();
    (id, bytes[header + reader.position()..].to_vec())
}

#[test]
fn ships_required_registries() {
    let registries = default_registries();
    let ids: Vec<&str> = registries.iter().map(|r| r.id).collect();
    assert_eq!(
        ids,
        vec![
            "minecraft:banner_pattern",
            "minecraft:chat_type",
            "minecraft:damage_type",
            "minecraft:dialog",
            "minecraft:dimension_type",
            "minecraft:enchantment",
            "minecraft:instrument",
            "minecraft:jukebox_song",
            "minecraft:painting_variant",
            "minecraft:sulfur_cube_archetype",
            "minecraft:test_environment",
            "minecraft:test_instance",
            "minecraft:timeline",
            "minecraft:trim_material",
            "minecraft:trim_pattern",
            "minecraft:world_clock",
            "minecraft:worldgen/biome",
            "minecraft:cat_variant",
            "minecraft:cat_sound_variant",
            "minecraft:chicken_variant",
            "minecraft:chicken_sound_variant",
            "minecraft:cow_variant",
            "minecraft:cow_sound_variant",
            "minecraft:frog_variant",
            "minecraft:pig_variant",
            "minecraft:pig_sound_variant",
            "minecraft:wolf_variant",
            "minecraft:wolf_sound_variant",
            "minecraft:zombie_nautilus_variant",
        ]
    );
    let dim = registries.iter().find(|r| r.id == "minecraft:dimension_type").unwrap();
    assert_eq!(dim.entries[0].id, "minecraft:overworld");
    assert_eq!(dim.entry_index("minecraft:overworld"), Some(0));
    assert_eq!(dim.entry_index("minecraft:the_nether"), None);
    let biome = registries.iter().find(|r| r.id == "minecraft:worldgen/biome").unwrap();
    assert_eq!(biome.entries[0].id, "minecraft:plains");
    let damage = registries.iter().find(|r| r.id == "minecraft:damage_type").unwrap();
    assert!(damage.entries.len() >= 26);
    for r in &registries {
        match r.id {
            "minecraft:dialog"
            | "minecraft:enchantment"
            | "minecraft:test_environment"
            | "minecraft:test_instance"
            | "minecraft:timeline"
            | "minecraft:world_clock" => {}
            _ => assert!(!r.entries.is_empty(), "{} must be non-empty", r.id),
        }
    }
}

#[test]
fn registry_packets_roundtrip() {
    for registry in default_registries() {
        let bytes = encode_registry_data(&registry).unwrap();
        let (id, payload) = decode_frame(&bytes);
        assert_eq!(id, 0x07);
        let mut reader = Reader::new(&payload);
        assert_eq!(reader.read_string().unwrap(), registry.id);
        let count = reader.read_varint().unwrap() as usize;
        assert_eq!(count, registry.entries.len());
        for entry in &registry.entries {
            assert_eq!(reader.read_string().unwrap(), entry.id);
            let has_data = reader.read_bool().unwrap();
            assert_eq!(has_data, entry.data.is_some());
            if has_data {
                assert_eq!(NbtTag::decode_unnamed(&mut reader).unwrap(), *entry.data.as_ref().unwrap());
            }
        }
        assert_eq!(reader.remaining(), 0);
    }
}

#[test]
fn overworld_dimension_has_expected_shape() {
    let registries = default_registries();
    let dimension = registries.iter().find(|r| r.id == "minecraft:dimension_type").unwrap();
    assert_eq!(dimension.entries[0].id, "minecraft:overworld");
    let Some(NbtTag::Compound(fields)) = dimension.entries[0].data.as_ref() else {
        panic!("dimension entry must be a compound");
    };
    let get = |name: &str| fields.iter().find(|(k, _)| k == name).map(|(_, v)| v);
    assert_eq!(get("min_y"), Some(&NbtTag::Int(-64)));
    assert_eq!(get("height"), Some(&NbtTag::Int(384)));
    assert_eq!(get("has_skylight"), Some(&NbtTag::Byte(1)));
    assert_eq!(get("infiniburn"), Some(&NbtTag::String("minecraft:netherrack".to_owned())));
    assert!(get("timelines").is_none());
    assert!(get("default_clock").is_none());
    assert_eq!(get("ambient_light"), Some(&NbtTag::Float(0.0f32.to_bits())));
    assert_eq!(get("coordinate_scale"), Some(&NbtTag::Double(1.0f64.to_bits())));
    assert_eq!(*dimension.entries[0].data.as_ref().unwrap(), minimal_overworld_dimension());
    assert_ne!(minimal_overworld_dimension(), overworld_dimension());
}

#[test]
fn vanilla_overworld_dimension_keeps_its_tags_and_attributes() {
    let NbtTag::Compound(fields) = overworld_dimension() else {
        panic!("dimension must be a compound");
    };
    let get = |name: &str| fields.iter().find(|(k, _)| k == name).map(|(_, v)| v);
    assert_eq!(get("timelines"), Some(&NbtTag::String("#minecraft:in_overworld".to_owned())));
    assert_eq!(get("default_clock"), Some(&NbtTag::String("minecraft:overworld".to_owned())));
    assert_eq!(get("infiniburn"), Some(&NbtTag::String("#minecraft:infiniburn_overworld".to_owned())));
    assert!(get("has_fixed_time").is_none());
    let Some(NbtTag::Compound(attributes)) = get("attributes") else {
        panic!("attributes must be a compound");
    };
    assert_eq!(attributes.len(), 10);
    let cloud = attributes.iter().find(|(k, _)| k == "minecraft:visual/cloud_height").map(|(_, v)| v);
    assert_eq!(cloud, Some(&NbtTag::Float(192.33f32.to_bits())));
}
