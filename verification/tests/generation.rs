use pipework_datagen::datapack::{
    datapack_impl_file, datapack_registries, registry_key_of, registry_message_of,
    registry_output_file_of, registry_source_dir_of, registry_type_generics_of, DatapackEntry,
    DatapackRegistry,
};
use pipework_datagen::entity_types::{arm_for, entity_type_file, variant_for, EntityTypeEntry};
use pipework_datagen::naming::{file_stem_of, second_segment_of};
use pipework_datagen::packets::{
    bound_name, bound_upper_name, packet_arm, packet_file_for, packet_files, packet_id_macro,
    packet_label_for, state_name, Bound, ConnectionState, PacketEntry, PacketRegistry,
    PacketsByBound,
};
use pipework_datagen::version_file::{cache_dir, version_file};

fn entry(name: &str, protocol_id: u8) -> PacketEntry {
    PacketEntry { name: name.to_string(), protocol_id }
}

fn no_packets() -> PacketsByBound {
    PacketsByBound { c2s: None, s2c: None }
}

#[test]
fn packet_arm_writes_two_upper_case_hex_digits() {
    assert_eq!(packet_arm("\"x\"", 0), "    ( \"x\" $(,)? ) => { 0x00 },\n");
    assert_eq!(packet_arm("\"x\"", 10), "    ( \"x\" $(,)? ) => { 0x0A },\n");
    assert_eq!(packet_arm("\"x\"", 0x7f), "    ( \"x\" $(,)? ) => { 0x7F },\n");
    assert_eq!(packet_arm("\"x\"", 255), "    ( \"x\" $(,)? ) => { 0xFF },\n");
}

#[test]
fn hex_rendering_reads_back() {
    for b in 0..=255u8 {
        let arm = packet_arm("\"p\"", b);
        let digits = &arm[arm.find("0x").unwrap() + 2..arm.find(" },").unwrap()];
        assert_eq!(digits.len(), 2);
        assert_eq!(u8::from_str_radix(digits, 16).unwrap(), b);
        assert_eq!(digits, digits.to_uppercase());
    }
}

#[test]
fn packet_macro_quotes_the_path_of_each_name() {
    let entries = vec![entry("minecraft:intention", 0), entry("minecraft:custom_payload", 0x1b)];
    assert_eq!(
        packet_id_macro(&entries),
        "macro packet_id {\n    ( \"intention\" $(,)? ) => { 0x00 },\n    ( \"custom_payload\" $(,)? ) => { 0x1B },\n}\n"
    );
}

#[test]
fn packet_macro_of_no_packets() {
    assert_eq!(packet_id_macro(&Vec::new()), "macro packet_id {\n}\n");
}

#[test]
fn packet_macro_escapes_quotes_in_the_path() {
    let entries = vec![entry("ns:say\"hi", 2)];
    assert_eq!(packet_id_macro(&entries), "macro packet_id {\n    ( \"say\\\"hi\" $(,)? ) => { 0x02 },\n}\n");
}

#[test]
fn packet_macro_takes_only_the_second_segment() {
    let entries = vec![entry("a:b:c", 1)];
    assert_eq!(packet_id_macro(&entries), "macro packet_id {\n    ( \"b\" $(,)? ) => { 0x01 },\n}\n");
}

#[test]
fn state_and_bound_names() {
    assert_eq!(state_name(ConnectionState::Handshake), "handshake");
    assert_eq!(state_name(ConnectionState::Status), "status");
    assert_eq!(state_name(ConnectionState::Login), "login");
    assert_eq!(state_name(ConnectionState::Config), "config");
    assert_eq!(state_name(ConnectionState::Play), "play");
    assert_eq!(bound_name(Bound::C2s), "c2s");
    assert_eq!(bound_name(Bound::S2c), "s2c");
    assert_eq!(bound_upper_name(Bound::C2s), "C2S");
    assert_eq!(bound_upper_name(Bound::S2c), "S2C");
    assert_eq!(packet_label_for(Bound::S2c, "Play"), "  S2CPlay");
}

#[test]
fn packet_file_is_named_by_bound_and_state() {
    let file = packet_file_for(Bound::S2c, ConnectionState::Config, &vec![entry("minecraft:ping", 5)]);
    assert_eq!(file.file_name, "s2c_config.rs");
    assert_eq!(file.label, "  S2CConfig");
    assert_eq!(file.contents, "macro packet_id {\n    ( \"ping\" $(,)? ) => { 0x05 },\n}\n");
}

#[test]
fn packet_files_follow_the_report_order_and_skip_missing_directions() {
    let registry = PacketRegistry {
        handshake: PacketsByBound { c2s: Some(vec![entry("minecraft:intention", 0)]), s2c: None },
        status: no_packets(),
        login: PacketsByBound { c2s: Some(vec![]), s2c: Some(vec![entry("minecraft:hello", 1)]) },
        config: no_packets(),
        play: PacketsByBound {
            c2s: Some(vec![entry("minecraft:chat", 8)]),
            s2c: Some(vec![entry("minecraft:bundle_delimiter", 0)]),
        },
    };
    let files = packet_files(&registry);
    let names: Vec<&str> = files.iter().map(|f| f.file_name.as_str()).collect();
    assert_eq!(names, vec!["c2s_handshake.rs", "c2s_login.rs", "s2c_login.rs", "c2s_play.rs", "s2c_play.rs"]);
    let labels: Vec<&str> = files.iter().map(|f| f.label.as_str()).collect();
    assert_eq!(labels, vec!["  C2SHandshake", "  C2SLogin", "  S2CLogin", "  C2SPlay", "  S2CPlay"]);
    assert_eq!(files[1].contents, "macro packet_id {\n}\n");
    assert_eq!(files[4].contents, "macro packet_id {\n    ( \"bundle_delimiter\" $(,)? ) => { 0x00 },\n}\n");
}

#[test]
fn packet_file_names_never_collide() {
    let all = || PacketsByBound { c2s: Some(vec![]), s2c: Some(vec![]) };
    let registry = PacketRegistry { handshake: all(), status: all(), login: all(), config: all(), play: all() };
    let files = packet_files(&registry);
    assert_eq!(files.len(), 10);
    for i in 0..files.len() {
        for j in i + 1..files.len() {
            assert_ne!(files[i].file_name, files[j].file_name);
        }
    }
}

#[test]
fn second_segment_cases() {
    assert_eq!(second_segment_of("minecraft:intention"), Some("intention".to_string()));
    assert_eq!(second_segment_of("a:b:c"), Some("b".to_string()));
    assert_eq!(second_segment_of(":x"), Some("x".to_string()));
    assert_eq!(second_segment_of("x:"), Some(String::new()));
    assert_eq!(second_segment_of("nocolon"), None);
    assert_eq!(second_segment_of(""), None);
}

#[test]
fn file_stem_cases() {
    assert_eq!(file_stem_of("zombie.json"), "zombie");
    assert_eq!(file_stem_of("a.b.json"), "a.b");
    assert_eq!(file_stem_of(".hidden"), ".hidden");
    assert_eq!(file_stem_of("noext"), "noext");
    assert_eq!(file_stem_of("foo."), "foo");
    assert_eq!(file_stem_of(".."), "..");
    assert_eq!(file_stem_of(""), "");
}

#[test]
fn file_stem_agrees_with_std() {
    for name in ["zombie.json", "a.b.json", ".hidden", "noext", "foo.", ".a.b", "x.y.z.w", "é.json"] {
        let std_stem = std::path::Path::new(name).file_stem().map(|s| s.to_str().unwrap().to_string());
        assert_eq!(Some(file_stem_of(name)), std_stem.or(Some(String::new())), "{}", name);
    }
}

#[test]
fn entity_variant_and_arm() {
    assert_eq!(variant_for("minecraft:zombie", "Zombie"), "    /// `minecraft:minecraft:zombie`\n    Zombie,\n");
    assert_eq!(arm_for("Zombie", 0), "            Self::Zombie => 0,\n");
    assert_eq!(arm_for("Zombie", 149), "            Self::Zombie => 149,\n");
    assert_eq!(arm_for("Zombie", u32::MAX), "            Self::Zombie => 4294967295,\n");
}

#[test]
fn decimal_rendering_reads_back() {
    for n in [0u32, 1, 9, 10, 99, 100, 101, 65535, 1_000_000, u32::MAX - 1, u32::MAX] {
        let arm = arm_for("X", n);
        let digits = &arm["            Self::X => ".len()..arm.len() - 2];
        assert_eq!(digits.parse::<u32>().unwrap(), n);
        assert!(!digits.starts_with('0') || n == 0);
    }
}

#[test]
fn entity_type_file_lists_variants_and_arms_in_order() {
    let entries = vec![
        EntityTypeEntry { path: "zombie_villager".to_string(), id: "minecraft:zombie_villager".to_string(), protocol_id: 150 },
        EntityTypeEntry { path: "pig".to_string(), id: "minecraft:pig".to_string(), protocol_id: 95 },
    ];
    let expected = "/// A character type.\n\
#[derive(Clone, Copy, PartialEq, Eq, Hash, Debug)]\n\
pub enum CharacterType {\n\
\x20   /// `minecraft:minecraft:zombie_villager`\n\
\x20   ZombieVillager,\n\
\x20   /// `minecraft:minecraft:pig`\n\
\x20   Pig,\n\
}\n\
impl CharacterType {\n\
\x20   /// Returns this [`CharacterType`]'s protocol ID.\n\
\x20   pub const fn protocol_id(&self) -> u32 {\n\
\x20       match (self) {\n\
\x20           Self::ZombieVillager => 150,\n\
\x20           Self::Pig => 95,\n\
\x20       }\n\
\x20   }\n\
}\n";
    assert_eq!(entity_type_file(&entries), expected);
}

#[test]
fn entity_type_file_of_no_entries() {
    assert_eq!(
        entity_type_file(&Vec::new()),
        "/// A character type.\n#[derive(Clone, Copy, PartialEq, Eq, Hash, Debug)]\npub enum CharacterType {\n}\nimpl CharacterType {\n    /// Returns this [`CharacterType`]'s protocol ID.\n    pub const fn protocol_id(&self) -> u32 {\n        match (self) {\n        }\n    }\n}\n"
    );
}

#[test]
fn datapack_impl_file_lists_constants_and_slices() {
    let entries = vec![
        DatapackEntry { id: "base".to_string(), value: "BannerPattern { x : 1 }".to_string() },
        DatapackEntry { id: "flower_bank".to_string(), value: "BannerPattern { x : 2 }".to_string() },
    ];
    let expected = "impl<> BannerPattern<'static> {\n\
\x20   /// `minecraft:base`\n\
\x20   pub const BASE : Self = BannerPattern { x : 1 };\n\
\x20   /// `minecraft:flower_bank`\n\
\x20   pub const FLOWER_BANK : Self = BannerPattern { x : 2 };\n\
\n\
\x20   /// All entries in the vanilla datapack.\n\
\x20   pub const VANILLA_ENTRIES : &'static [Self] = &[\n\
\x20       Self::BASE,\n\
\x20       Self::FLOWER_BANK,\n\
\x20   ];\n\
\n\
\n\
\x20   /// All entries in the vanilla datapack, as a [`RegistryEntry`] slice.\n\
\n\
\x20   pub const VANILLA_REGISTRY_ENTRIES : &'static [RegistryEntry<Self>] = &[\n\
\x20       RegistryEntry { id : Ident::new(\"minecraft:base\"), data : Self::BASE },\n\
\x20       RegistryEntry { id : Ident::new(\"minecraft:flower_bank\"), data : Self::FLOWER_BANK },\n\
\x20   ];\n\
\n\
}\n";
    assert_eq!(datapack_impl_file("BannerPattern", "", "'static", &entries), expected);
}

#[test]
fn datapack_registry_entry_escapes_the_id() {
    let entries = vec![DatapackEntry { id: "we\"ird".to_string(), value: "V".to_string() }];
    let text = datapack_impl_file("T", "", "", &entries);
    assert!(text.contains("RegistryEntry { id : Ident::new(\"minecraft:we\\\"ird\"), data : Self::"));
    assert!(text.starts_with("impl<> T<> {\n    /// `minecraft:we\"ird`\n"));
}

#[test]
fn datapack_registry_table() {
    let regs = datapack_registries();
    assert_eq!(regs.len(), 12);
    assert_eq!(regs[0], DatapackRegistry::BannerPattern);
    assert_eq!(regs[11], DatapackRegistry::WorldgenBiome);
    assert_eq!(registry_source_dir_of(DatapackRegistry::BannerPattern), "datagen/data/minecraft/banner_pattern");
    assert_eq!(registry_output_file_of(DatapackRegistry::BannerPattern), "banner_pattern.rs");
    assert_eq!(registry_message_of(DatapackRegistry::BannerPattern), "Generating banner patterns...");
    assert_eq!(registry_type_generics_of(DatapackRegistry::BannerPattern), "'static");
    assert_eq!(registry_type_generics_of(DatapackRegistry::CatVariant), "");
    assert_eq!(registry_source_dir_of(DatapackRegistry::WorldgenBiome), "datagen/data/minecraft/worldgen/biome");
    assert_eq!(registry_output_file_of(DatapackRegistry::WorldgenBiome), "worldgen/biome.rs");
    assert_eq!(registry_message_of(DatapackRegistry::WolfSoundVariant), "Generating wolf sound variants...");
    assert_eq!(registry_key_of(DatapackRegistry::WolfSoundVariant), "wolf_sound_variant");
    let statics: Vec<DatapackRegistry> =
        regs.iter().copied().filter(|r| registry_type_generics_of(*r) == "'static").collect();
    assert_eq!(
        statics,
        vec![
            DatapackRegistry::BannerPattern,
            DatapackRegistry::DamageType,
            DatapackRegistry::DimensionType,
            DatapackRegistry::WolfVariant,
            DatapackRegistry::WorldgenBiome
        ]
    );
}

#[test]
fn datapack_output_files_never_collide() {
    let regs = datapack_registries();
    for i in 0..regs.len() {
        for j in i + 1..regs.len() {
            assert_ne!(registry_output_file_of(regs[i]), registry_output_file_of(regs[j]));
            assert_ne!(registry_source_dir_of(regs[i]), registry_source_dir_of(regs[j]));
        }
    }
}

#[test]
fn version_file_and_cache_dir() {
    assert_eq!(
        version_file(772),
        "impl Version {\n    /// The current version supported by pipework.\n    pub const CURRENT : Self = Self::by_id(772).unwrap();\n}\n"
    );
    assert_eq!(cache_dir("1.21.8"), "output/cache/1.21.8");
}

fn sorted_lines(text: &str) -> Vec<String> {
    let mut lines: Vec<String> = text.lines().map(str::to_string).collect();
    lines.sort();
    lines
}

#[test]
fn reordered_packets_give_the_same_lines() {
    let forward = vec![entry("minecraft:a", 1), entry("minecraft:b", 2), entry("minecraft:c", 3)];
    let backward = vec![entry("minecraft:c", 3), entry("minecraft:a", 1), entry("minecraft:b", 2)];
    let t1 = packet_id_macro(&forward);
    let t2 = packet_id_macro(&backward);
    assert_ne!(t1, t2);
    assert_eq!(sorted_lines(&t1), sorted_lines(&t2));
    assert_eq!(t1.lines().next(), t2.lines().next());
    assert_eq!(t1.lines().last(), t2.lines().last());
}

#[test]
fn reordered_entity_types_give_the_same_lines_and_ids() {
    let e = |path: &str, id: u32| EntityTypeEntry { path: path.to_string(), id: format!("minecraft:{path}"), protocol_id: id };
    let t1 = entity_type_file(&vec![e("pig", 95), e("zombie", 149)]);
    let t2 = entity_type_file(&vec![e("zombie", 149), e("pig", 95)]);
    assert_ne!(t1, t2);
    assert_eq!(sorted_lines(&t1), sorted_lines(&t2));
    assert!(t2.contains("            Self::Pig => 95,\n") && t2.contains("            Self::Zombie => 149,\n"));
}
