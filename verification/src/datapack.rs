//! The vanilla datapack constants: for each registry of data files, an
//! `impl` block with one constant per file and the slices that list them.

use vstd::prelude::*;

use crate::naming::{constant_case, escape_debug, escape_debug_str, to_constant_case};
use crate::text::{concat, joined, lemma_joined_concat, lemma_joined_step, push_str};

verus! {

/// One data file of a registry: its identifier (the file's stem) and the
/// Rust expression that its parsed contents render to.
#[derive(Debug)]
pub struct DatapackEntry {
    pub id: String,
    pub value: String,
}

/// The line that opens the `impl` block.
pub open spec fn impl_header(
    short_name: Seq<char>,
    impl_generics: Seq<char>,
    type_generics: Seq<char>,
) -> Seq<char> {
    "impl<"@ + impl_generics + "> "@ + short_name + "<"@ + type_generics + "> {\n"@
}

/// A constant named `ident` with the value `value`, documented with the identifier `id`.
pub open spec fn constant_text(id: Seq<char>, ident: Seq<char>, value: Seq<char>) -> Seq<char> {
    "    /// `minecraft:"@ + id + "`\n"@ + "    pub const "@ + ident + " : Self = "@ + value
        + ";\n"@
}

/// The documented constant for one entry, named by its identifier in constant case.
pub open spec fn constant_item(e: DatapackEntry) -> Seq<char> {
    constant_text(e.id@, constant_case(e.id@), e.value@)
}

/// The text that opens the `VANILLA_ENTRIES` slice.
pub open spec fn entries_header() -> Seq<char> {
    "\n    /// All entries in the vanilla datapack.\n"@
        + "    pub const VANILLA_ENTRIES : &'static [Self] = &[\n"@
}

/// An element of `VANILLA_ENTRIES`: the constant named `ident`.
pub open spec fn entry_ref_text(ident: Seq<char>) -> Seq<char> {
    "        Self::"@ + ident + ",\n"@
}

/// The element of `VANILLA_ENTRIES` for one entry.
pub open spec fn entry_ref(e: DatapackEntry) -> Seq<char> {
    entry_ref_text(constant_case(e.id@))
}

/// The text that closes a slice.
pub open spec fn slice_footer() -> Seq<char> {
    "    ];\n\n"@
}

/// The text that opens the `VANILLA_REGISTRY_ENTRIES` slice.
pub open spec fn registry_entries_header() -> Seq<char> {
    "\n    /// All entries in the vanilla datapack, as a [`RegistryEntry`] slice.\n"@
        + "\n    pub const VANILLA_REGISTRY_ENTRIES : &'static [RegistryEntry<Self>] = &[\n"@
}

/// The element of `VANILLA_REGISTRY_ENTRIES` for one entry: its namespaced
/// identifier, escaped for a string literal, and its constant.
pub open spec fn registry_entry(e: DatapackEntry) -> Seq<char> {
    registry_entry_text(escape_debug_str(e.id@), constant_case(e.id@))
}

/// An element of `VANILLA_REGISTRY_ENTRIES`: the escaped identifier
/// `escaped_id` in the `minecraft` namespace, with the constant `ident`.
pub open spec fn registry_entry_text(escaped_id: Seq<char>, ident: Seq<char>) -> Seq<char> {
    "        RegistryEntry { id : Ident::new(\"minecraft:"@ + escaped_id + "\"), data : Self::"@
        + ident + " },\n"@
}

/// A constant named `ident` with the value `value`, documented with the identifier `id`.
pub fn constant_for(id: &str, ident: &str, value: &str) -> (res: String)
    ensures
        res@ == constant_text(id@, ident@, value@),
{
    let mut out = String::new();
    push_str(&mut out, "    /// `minecraft:");
    push_str(&mut out, id);
    push_str(&mut out, "`\n");
    push_str(&mut out, "    pub const ");
    push_str(&mut out, ident);
    push_str(&mut out, " : Self = ");
    push_str(&mut out, value);
    push_str(&mut out, ";\n");
    out
}

/// An element of `VANILLA_ENTRIES`: the constant named `ident`.
pub fn entry_ref_for(ident: &str) -> (res: String)
    ensures
        res@ == entry_ref_text(ident@),
{
    let mut out = String::new();
    push_str(&mut out, "        Self::");
    push_str(&mut out, ident);
    push_str(&mut out, ",\n");
    out
}

/// An element of `VANILLA_REGISTRY_ENTRIES` for an escaped identifier and a constant.
pub fn registry_entry_for(escaped_id: &str, ident: &str) -> (res: String)
    ensures
        res@ == registry_entry_text(escaped_id@, ident@),
{
    let mut out = String::new();
    push_str(&mut out, "        RegistryEntry { id : Ident::new(\"minecraft:");
    push_str(&mut out, escaped_id);
    push_str(&mut out, "\"), data : Self::");
    push_str(&mut out, ident);
    push_str(&mut out, " },\n");
    out
}

/// The generated `impl` block for a registry's entries; the constants and
/// both slices follow the order of `es`.
pub open spec fn datapack_source(
    short_name: Seq<char>,
    impl_generics: Seq<char>,
    type_generics: Seq<char>,
    es: Seq<DatapackEntry>,
) -> Seq<char> {
    impl_header(short_name, impl_generics, type_generics) + joined(
        es,
        |e: DatapackEntry| constant_item(e),
    ) + entries_header() + joined(es, |e: DatapackEntry| entry_ref(e)) + slice_footer()
        + registry_entries_header() + joined(es, |e: DatapackEntry| registry_entry(e))
        + slice_footer() + "}\n"@
}

/// The generated `impl` block of the vanilla datapack constants for one
/// registry's type, entries in the order given.
pub fn datapack_impl_file(
    short_name: &str,
    impl_generics: &str,
    type_generics: &str,
    entries: &Vec<DatapackEntry>,
) -> (res: String)
    ensures
        res@ == datapack_source(short_name@, impl_generics@, type_generics@, entries@),
{
    let mut out = String::new();
    push_str(&mut out, "impl<");
    push_str(&mut out, impl_generics);
    push_str(&mut out, "> ");
    push_str(&mut out, short_name);
    push_str(&mut out, "<");
    push_str(&mut out, type_generics);
    push_str(&mut out, "> {\n");
    let ghost head = out@;
    let n = entries.len();
    let mut idents: Vec<String> = Vec::new();
    for i in 0..n
        invariant
            n == entries@.len(),
            idents@.len() == i,
            forall|k: int| 0 <= k < i ==> (#[trigger] idents@[k])@ == constant_case(entries@[k].id@),
            out@ == head + joined(entries@.take(i as int), |e: DatapackEntry| constant_item(e)),
    {
        let e = &entries[i];
        let ident = to_constant_case(e.id.as_str());
        let item = constant_for(e.id.as_str(), ident.as_str(), e.value.as_str());
        push_str(&mut out, item.as_str());
        idents.push(ident);
        proof {
            lemma_joined_step(entries@, |e: DatapackEntry| constant_item(e), i as int);
            assert(out@ =~= head + joined(
                entries@.take(i + 1),
                |e: DatapackEntry| constant_item(e),
            ));
        }
    }
    assert(entries@.take(n as int) =~= entries@);
    push_str(&mut out, "\n    /// All entries in the vanilla datapack.\n");
    push_str(&mut out, "    pub const VANILLA_ENTRIES : &'static [Self] = &[\n");
    let ghost consts = out@;
    for i in 0..n
        invariant
            n == entries@.len(),
            idents@.len() == n,
            forall|k: int| 0 <= k < n ==> (#[trigger] idents@[k])@ == constant_case(entries@[k].id@),
            out@ == consts + joined(entries@.take(i as int), |e: DatapackEntry| entry_ref(e)),
    {
        let item = entry_ref_for(idents[i].as_str());
        push_str(&mut out, item.as_str());
        proof {
            lemma_joined_step(entries@, |e: DatapackEntry| entry_ref(e), i as int);
            assert(out@ =~= consts + joined(
                entries@.take(i + 1),
                |e: DatapackEntry| entry_ref(e),
            ));
        }
    }
    push_str(&mut out, "    ];\n\n");
    push_str(&mut out, "\n    /// All entries in the vanilla datapack, as a [`RegistryEntry`] slice.\n");
    push_str(
        &mut out,
        "\n    pub const VANILLA_REGISTRY_ENTRIES : &'static [RegistryEntry<Self>] = &[\n",
    );
    let ghost refs = out@;
    for i in 0..n
        invariant
            n == entries@.len(),
            idents@.len() == n,
            forall|k: int| 0 <= k < n ==> (#[trigger] idents@[k])@ == constant_case(entries@[k].id@),
            out@ == refs + joined(entries@.take(i as int), |e: DatapackEntry| registry_entry(e)),
    {
        let e = &entries[i];
        let escaped = escape_debug(e.id.as_str());
        let item = registry_entry_for(escaped.as_str(), idents[i].as_str());
        push_str(&mut out, item.as_str());
        proof {
            lemma_joined_step(entries@, |e: DatapackEntry| registry_entry(e), i as int);
            assert(out@ =~= refs + joined(
                entries@.take(i + 1),
                |e: DatapackEntry| registry_entry(e),
            ));
        }
    }
    push_str(&mut out, "    ];\n\n");
    push_str(&mut out, "}\n");
    assert(out@ =~= datapack_source(short_name@, impl_generics@, type_generics@, entries@));
    out
}

/// A registry of the vanilla datapack whose data files become constants,
/// in the order they are generated.
#[derive(Clone, Copy, Debug, PartialEq, Eq, Structural)]
pub enum DatapackRegistry {
    BannerPattern,
    CatVariant,
    ChickenVariant,
    CowVariant,
    DamageType,
    DimensionType,
    FrogVariant,
    PaintingVariant,
    PigVariant,
    WolfVariant,
    WolfSoundVariant,
    WorldgenBiome,
}

/// The registry's path below `minecraft/` in the data directory.
pub open spec fn registry_key(r: DatapackRegistry) -> Seq<char> {
    match r {
        DatapackRegistry::BannerPattern => "banner_pattern"@,
        DatapackRegistry::CatVariant => "cat_variant"@,
        DatapackRegistry::ChickenVariant => "chicken_variant"@,
        DatapackRegistry::CowVariant => "cow_variant"@,
        DatapackRegistry::DamageType => "damage_type"@,
        DatapackRegistry::DimensionType => "dimension_type"@,
        DatapackRegistry::FrogVariant => "frog_variant"@,
        DatapackRegistry::PaintingVariant => "painting_variant"@,
        DatapackRegistry::PigVariant => "pig_variant"@,
        DatapackRegistry::WolfVariant => "wolf_variant"@,
        DatapackRegistry::WolfSoundVariant => "wolf_sound_variant"@,
        DatapackRegistry::WorldgenBiome => "worldgen/biome"@,
    }
}

/// What the registry's progress message calls its entries.
pub open spec fn registry_title(r: DatapackRegistry) -> Seq<char> {
    match r {
        DatapackRegistry::BannerPattern => "banner patterns"@,
        DatapackRegistry::CatVariant => "cat variants"@,
        DatapackRegistry::ChickenVariant => "chicken variants"@,
        DatapackRegistry::CowVariant => "cow variants"@,
        DatapackRegistry::DamageType => "damage types"@,
        DatapackRegistry::DimensionType => "dimension types"@,
        DatapackRegistry::FrogVariant => "frog variants"@,
        DatapackRegistry::PaintingVariant => "painting variants"@,
        DatapackRegistry::PigVariant => "pig variants"@,
        DatapackRegistry::WolfVariant => "wolf variants"@,
        DatapackRegistry::WolfSoundVariant => "wolf sound variants"@,
        DatapackRegistry::WorldgenBiome => "worldgen biomes"@,
    }
}

/// The generic arguments the registry's type takes.
pub open spec fn registry_type_generics(r: DatapackRegistry) -> Seq<char> {
    match r {
        DatapackRegistry::BannerPattern => "'static"@,
        DatapackRegistry::CatVariant => ""@,
        DatapackRegistry::ChickenVariant => ""@,
        DatapackRegistry::CowVariant => ""@,
        DatapackRegistry::DamageType => "'static"@,
        DatapackRegistry::DimensionType => "'static"@,
        DatapackRegistry::FrogVariant => ""@,
        DatapackRegistry::PaintingVariant => ""@,
        DatapackRegistry::PigVariant => ""@,
        DatapackRegistry::WolfVariant => "'static"@,
        DatapackRegistry::WolfSoundVariant => ""@,
        DatapackRegistry::WorldgenBiome => "'static"@,
    }
}

/// The registry's data directory, relative to the cache directory.
pub open spec fn registry_source_dir(r: DatapackRegistry) -> Seq<char> {
    "datagen/data/minecraft/"@ + registry_key(r)
}

/// The registry's generated file, relative to the generated directory.
pub open spec fn registry_output_file(r: DatapackRegistry) -> Seq<char> {
    registry_key(r) + ".rs"@
}

/// The progress message printed before the registry is generated.
pub open spec fn registry_message(r: DatapackRegistry) -> Seq<char> {
    "Generating "@ + registry_title(r) + "..."@
}

/// All registries, in the order they are generated.
pub open spec fn all_registries() -> Seq<DatapackRegistry> {
    seq![
        DatapackRegistry::BannerPattern,
        DatapackRegistry::CatVariant,
        DatapackRegistry::ChickenVariant,
        DatapackRegistry::CowVariant,
        DatapackRegistry::DamageType,
        DatapackRegistry::DimensionType,
        DatapackRegistry::FrogVariant,
        DatapackRegistry::PaintingVariant,
        DatapackRegistry::PigVariant,
        DatapackRegistry::WolfVariant,
        DatapackRegistry::WolfSoundVariant,
        DatapackRegistry::WorldgenBiome,
    ]
}

/// All registries of the vanilla datapack, in the order they are generated.
pub fn datapack_registries() -> (res: Vec<DatapackRegistry>)
    ensures
        res@ == all_registries(),
{
    let res = vec![
        DatapackRegistry::BannerPattern,
        DatapackRegistry::CatVariant,
        DatapackRegistry::ChickenVariant,
        DatapackRegistry::CowVariant,
        DatapackRegistry::DamageType,
        DatapackRegistry::DimensionType,
        DatapackRegistry::FrogVariant,
        DatapackRegistry::PaintingVariant,
        DatapackRegistry::PigVariant,
        DatapackRegistry::WolfVariant,
        DatapackRegistry::WolfSoundVariant,
        DatapackRegistry::WorldgenBiome,
    ];
    assert(res@ =~= all_registries());
    res
}

/// The registry's path below `minecraft/` in the data directory.
pub fn registry_key_of(r: DatapackRegistry) -> (res: &'static str)
    ensures
        res@ == registry_key(r),
{
    match r {
        DatapackRegistry::BannerPattern => "banner_pattern",
        DatapackRegistry::CatVariant => "cat_variant",
        DatapackRegistry::ChickenVariant => "chicken_variant",
        DatapackRegistry::CowVariant => "cow_variant",
        DatapackRegistry::DamageType => "damage_type",
        DatapackRegistry::DimensionType => "dimension_type",
        DatapackRegistry::FrogVariant => "frog_variant",
        DatapackRegistry::PaintingVariant => "painting_variant",
        DatapackRegistry::PigVariant => "pig_variant",
        DatapackRegistry::WolfVariant => "wolf_variant",
        DatapackRegistry::WolfSoundVariant => "wolf_sound_variant",
        DatapackRegistry::WorldgenBiome => "worldgen/biome",
    }
}

fn registry_title_of(r: DatapackRegistry) -> (res: &'static str)
    ensures
        res@ == registry_title(r),
{
    match r {
        DatapackRegistry::BannerPattern => "banner patterns",
        DatapackRegistry::CatVariant => "cat variants",
        DatapackRegistry::ChickenVariant => "chicken variants",
        DatapackRegistry::CowVariant => "cow variants",
        DatapackRegistry::DamageType => "damage types",
        DatapackRegistry::DimensionType => "dimension types",
        DatapackRegistry::FrogVariant => "frog variants",
        DatapackRegistry::PaintingVariant => "painting variants",
        DatapackRegistry::PigVariant => "pig variants",
        DatapackRegistry::WolfVariant => "wolf variants",
        DatapackRegistry::WolfSoundVariant => "wolf sound variants",
        DatapackRegistry::WorldgenBiome => "worldgen biomes",
    }
}

/// The generic arguments the registry's type takes.
pub fn registry_type_generics_of(r: DatapackRegistry) -> (res: &'static str)
    ensures
        res@ == registry_type_generics(r),
{
    match r {
        DatapackRegistry::BannerPattern => "'static",
        DatapackRegistry::CatVariant => "",
        DatapackRegistry::ChickenVariant => "",
        DatapackRegistry::CowVariant => "",
        DatapackRegistry::DamageType => "'static",
        DatapackRegistry::DimensionType => "'static",
        DatapackRegistry::FrogVariant => "",
        DatapackRegistry::PaintingVariant => "",
        DatapackRegistry::PigVariant => "",
        DatapackRegistry::WolfVariant => "'static",
        DatapackRegistry::WolfSoundVariant => "",
        DatapackRegistry::WorldgenBiome => "'static",
    }
}

/// The registry's data directory, relative to the cache directory.
pub fn registry_source_dir_of(r: DatapackRegistry) -> (res: String)
    ensures
        res@ == registry_source_dir(r),
{
    let mut out = String::new();
    push_str(&mut out, "datagen/data/minecraft/");
    push_str(&mut out, registry_key_of(r));
    out
}

/// The registry's generated file, relative to the generated directory.
pub fn registry_output_file_of(r: DatapackRegistry) -> (res: String)
    ensures
        res@ == registry_output_file(r),
{
    let mut out = String::new();
    push_str(&mut out, registry_key_of(r));
    push_str(&mut out, ".rs");
    out
}

/// The progress message printed before the registry is generated.
pub fn registry_message_of(r: DatapackRegistry) -> (res: String)
    ensures
        res@ == registry_message(r),
{
    let mut out = String::new();
    push_str(&mut out, "Generating ");
    push_str(&mut out, registry_title_of(r));
    push_str(&mut out, "...");
    out
}

/// Law: distinct registries read distinct data directories and write
/// distinct files, so no generated file overwrites another.
pub proof fn lemma_registry_paths_distinct(r1: DatapackRegistry, r2: DatapackRegistry)
    requires
        r1 != r2,
    ensures
        registry_key(r1) != registry_key(r2),
        registry_source_dir(r1) != registry_source_dir(r2),
        registry_output_file(r1) != registry_output_file(r2),
{
    reveal_strlit("banner_pattern");
    reveal_strlit("cat_variant");
    reveal_strlit("chicken_variant");
    reveal_strlit("cow_variant");
    reveal_strlit("damage_type");
    reveal_strlit("dimension_type");
    reveal_strlit("frog_variant");
    reveal_strlit("painting_variant");
    reveal_strlit("pig_variant");
    reveal_strlit("wolf_variant");
    reveal_strlit("wolf_sound_variant");
    reveal_strlit("worldgen/biome");
    reveal_strlit("datagen/data/minecraft/");
    reveal_strlit(".rs");
    let k1 = registry_key(r1);
    let k2 = registry_key(r2);
    assert(k1.len() != k2.len() || k1[0] != k2[0] || k1[1] != k2[1]);
    let p = "datagen/data/minecraft/"@;
    assert((p + k1).subrange(p.len() as int, (p + k1).len() as int) =~= k1);
    assert((p + k2).subrange(p.len() as int, (p + k2).len() as int) =~= k2);
    assert((k1 + ".rs"@).take(k1.len() as int) =~= k1);
    assert((k2 + ".rs"@).take(k2.len() as int) =~= k2);
}

/// Law: the list of registries names each registry once, in the order they
/// are generated: banner patterns, cat, chicken and cow variants, damage and
/// dimension types, frog, painting, pig, wolf and wolf sound variants, and
/// last the worldgen biomes.
pub proof fn lemma_all_registries_distinct()
    ensures
        all_registries().len() == 12,
        all_registries()[0] == DatapackRegistry::BannerPattern,
        all_registries()[1] == DatapackRegistry::CatVariant,
        all_registries()[2] == DatapackRegistry::ChickenVariant,
        all_registries()[3] == DatapackRegistry::CowVariant,
        all_registries()[4] == DatapackRegistry::DamageType,
        all_registries()[5] == DatapackRegistry::DimensionType,
        all_registries()[6] == DatapackRegistry::FrogVariant,
        all_registries()[7] == DatapackRegistry::PaintingVariant,
        all_registries()[8] == DatapackRegistry::PigVariant,
        all_registries()[9] == DatapackRegistry::WolfVariant,
        all_registries()[10] == DatapackRegistry::WolfSoundVariant,
        all_registries()[11] == DatapackRegistry::WorldgenBiome,
        forall|i: int, j: int|
            0 <= i < j < all_registries().len() ==> all_registries()[i] != all_registries()[j],
{
}

/// Law: the generated block opens `impl<G> T<A> {` with the given
/// generics and type; then, for every entry in order, a constant named by
/// the entry's identifier in constant case, documented with the identifier
/// and holding the entry's value; then the `VANILLA_ENTRIES` slice with one
/// element per entry, in order; then the `VANILLA_REGISTRY_ENTRIES` slice
/// with one element per entry, in order, pairing the identifier in the
/// `minecraft` namespace (escaped) with the constant; then `}`.
pub proof fn lemma_datapack_source_spelled_out(
    short_name: Seq<char>,
    impl_generics: Seq<char>,
    type_generics: Seq<char>,
    es: Seq<DatapackEntry>,
)
    ensures
        datapack_source(short_name, impl_generics, type_generics, es) == "impl<"@ + impl_generics
            + "> "@ + short_name + "<"@ + type_generics + "> {\n"@ + concat(
            es.map_values(
                |e: DatapackEntry|
                    "    /// `minecraft:"@ + e.id@ + "`\n"@ + "    pub const "@ + constant_case(e.id@)
                        + " : Self = "@ + e.value@ + ";\n"@,
            ),
        ) + "\n    /// All entries in the vanilla datapack.\n"@
            + "    pub const VANILLA_ENTRIES : &'static [Self] = &[\n"@ + concat(
            es.map_values(|e: DatapackEntry| "        Self::"@ + constant_case(e.id@) + ",\n"@),
        ) + "    ];\n\n"@
            + "\n    /// All entries in the vanilla datapack, as a [`RegistryEntry`] slice.\n"@
            + "\n    pub const VANILLA_REGISTRY_ENTRIES : &'static [RegistryEntry<Self>] = &[\n"@
            + concat(
            es.map_values(
                |e: DatapackEntry|
                    "        RegistryEntry { id : Ident::new(\"minecraft:"@ + escape_debug_str(e.id@)
                        + "\"), data : Self::"@ + constant_case(e.id@) + " },\n"@,
            ),
        ) + "    ];\n\n"@ + "}\n"@,
{
    lemma_joined_concat(es, |e: DatapackEntry| constant_item(e));
    lemma_joined_concat(es, |e: DatapackEntry| entry_ref(e));
    lemma_joined_concat(es, |e: DatapackEntry| registry_entry(e));
    assert(es.map_values(|e: DatapackEntry| constant_item(e)) =~= es.map_values(
        |e: DatapackEntry|
            "    /// `minecraft:"@ + e.id@ + "`\n"@ + "    pub const "@ + constant_case(e.id@)
                + " : Self = "@ + e.value@ + ";\n"@,
    ));
    assert(es.map_values(|e: DatapackEntry| entry_ref(e)) =~= es.map_values(
        |e: DatapackEntry| "        Self::"@ + constant_case(e.id@) + ",\n"@,
    ));
    assert(es.map_values(|e: DatapackEntry| registry_entry(e)) =~= es.map_values(
        |e: DatapackEntry|
            "        RegistryEntry { id : Ident::new(\"minecraft:"@ + escape_debug_str(e.id@)
                + "\"), data : Self::"@ + constant_case(e.id@) + " },\n"@,
    ));
}

/// The words of a registry key: `_` and `/` read as spaces.
pub open spec fn key_words(key: Seq<char>) -> Seq<char> {
    key.map_values(|c: char| if c == '_' || c == '/' { ' ' } else { c })
}

/// Law: the registry table. Each registry's key (its data directory below
/// `minecraft/` and its generated file without `.rs`) is the snake-case name
/// of its type, the biomes standing under `worldgen/`; the types that borrow
/// data take `'static`; and each progress message names the registry's
/// entries as the words of its key in the plural.
pub proof fn lemma_registry_table()
    ensures
        registry_key(DatapackRegistry::BannerPattern) == "banner_pattern"@,
        registry_key(DatapackRegistry::CatVariant) == "cat_variant"@,
        registry_key(DatapackRegistry::ChickenVariant) == "chicken_variant"@,
        registry_key(DatapackRegistry::CowVariant) == "cow_variant"@,
        registry_key(DatapackRegistry::DamageType) == "damage_type"@,
        registry_key(DatapackRegistry::DimensionType) == "dimension_type"@,
        registry_key(DatapackRegistry::FrogVariant) == "frog_variant"@,
        registry_key(DatapackRegistry::PaintingVariant) == "painting_variant"@,
        registry_key(DatapackRegistry::PigVariant) == "pig_variant"@,
        registry_key(DatapackRegistry::WolfVariant) == "wolf_variant"@,
        registry_key(DatapackRegistry::WolfSoundVariant) == "wolf_sound_variant"@,
        registry_key(DatapackRegistry::WorldgenBiome) == "worldgen/biome"@,
        registry_type_generics(DatapackRegistry::BannerPattern) == "'static"@,
        registry_type_generics(DatapackRegistry::CatVariant) == ""@,
        registry_type_generics(DatapackRegistry::ChickenVariant) == ""@,
        registry_type_generics(DatapackRegistry::CowVariant) == ""@,
        registry_type_generics(DatapackRegistry::DamageType) == "'static"@,
        registry_type_generics(DatapackRegistry::DimensionType) == "'static"@,
        registry_type_generics(DatapackRegistry::FrogVariant) == ""@,
        registry_type_generics(DatapackRegistry::PaintingVariant) == ""@,
        registry_type_generics(DatapackRegistry::PigVariant) == ""@,
        registry_type_generics(DatapackRegistry::WolfVariant) == "'static"@,
        registry_type_generics(DatapackRegistry::WolfSoundVariant) == ""@,
        registry_type_generics(DatapackRegistry::WorldgenBiome) == "'static"@,
        forall|r: DatapackRegistry|
            #[trigger] registry_title(r) == key_words(registry_key(r)) + "s"@,
        forall|r: DatapackRegistry|
            #[trigger] registry_message(r) == "Generating "@ + key_words(registry_key(r)) + "s"@
                + "..."@,
        forall|r: DatapackRegistry|
            #[trigger] registry_source_dir(r) == "datagen/data/minecraft/"@ + registry_key(r)
                && registry_output_file(r) == registry_key(r) + ".rs"@,
{
    reveal_strlit("banner_pattern");
    reveal_strlit("banner patterns");
    reveal_strlit("cat_variant");
    reveal_strlit("cat variants");
    reveal_strlit("chicken_variant");
    reveal_strlit("chicken variants");
    reveal_strlit("cow_variant");
    reveal_strlit("cow variants");
    reveal_strlit("damage_type");
    reveal_strlit("damage types");
    reveal_strlit("dimension_type");
    reveal_strlit("dimension types");
    reveal_strlit("frog_variant");
    reveal_strlit("frog variants");
    reveal_strlit("painting_variant");
    reveal_strlit("painting variants");
    reveal_strlit("pig_variant");
    reveal_strlit("pig variants");
    reveal_strlit("wolf_variant");
    reveal_strlit("wolf variants");
    reveal_strlit("wolf_sound_variant");
    reveal_strlit("wolf sound variants");
    reveal_strlit("worldgen/biome");
    reveal_strlit("worldgen biomes");
    reveal_strlit("s");
    assert forall|r: DatapackRegistry|
        #[trigger] registry_title(r) == key_words(registry_key(r)) + "s"@ by {
        match r {
        DatapackRegistry::BannerPattern => {
            assert(registry_title(r) =~= key_words(registry_key(r)) + "s"@);
        },
        DatapackRegistry::CatVariant => {
            assert(registry_title(r) =~= key_words(registry_key(r)) + "s"@);
        },
        DatapackRegistry::ChickenVariant => {
            assert(registry_title(r) =~= key_words(registry_key(r)) + "s"@);
        },
        DatapackRegistry::CowVariant => {
            assert(registry_title(r) =~= key_words(registry_key(r)) + "s"@);
        },
        DatapackRegistry::DamageType => {
            assert(registry_title(r) =~= key_words(registry_key(r)) + "s"@);
        },
        DatapackRegistry::DimensionType => {
            assert(registry_title(r) =~= key_words(registry_key(r)) + "s"@);
        },
        DatapackRegistry::FrogVariant => {
            assert(registry_title(r) =~= key_words(registry_key(r)) + "s"@);
        },
        DatapackRegistry::PaintingVariant => {
            assert(registry_title(r) =~= key_words(registry_key(r)) + "s"@);
        },
        DatapackRegistry::PigVariant => {
            assert(registry_title(r) =~= key_words(registry_key(r)) + "s"@);
        },
        DatapackRegistry::WolfVariant => {
            assert(registry_title(r) =~= key_words(registry_key(r)) + "s"@);
        },
        DatapackRegistry::WolfSoundVariant => {
            assert(registry_title(r) =~= key_words(registry_key(r)) + "s"@);
        },
        DatapackRegistry::WorldgenBiome => {
            assert(registry_title(r) =~= key_words(registry_key(r)) + "s"@);
        },
        }
    }
}

} // verus!
