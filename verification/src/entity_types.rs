//! The `CharacterType` enum: one variant per entity type of the server's
//! registry report, with the protocol id of each.

use vstd::prelude::*;

use crate::naming::{pascal_case, to_pascal_case};
use crate::text::{
    concat, decimal, joined, lemma_joined_concat, lemma_joined_step, lemma_map_values_reorder,
    push_decimal, push_str,
};

verus! {

/// One entry of the entity type registry: the path of its identifier (the
/// part after the namespace), the identifier as it is displayed, and its
/// protocol id.
#[derive(Debug)]
pub struct EntityTypeEntry {
    pub path: String,
    pub id: String,
    pub protocol_id: u32,
}

/// The text before the variants.
pub open spec fn entity_header() -> Seq<char> {
    "/// A character type.\n#[derive(Clone, Copy, PartialEq, Eq, Hash, Debug)]\npub enum CharacterType {\n"@
}

/// The text between the variants and the match arms.
pub open spec fn entity_middle() -> Seq<char> {
    "}\nimpl CharacterType {\n    /// Returns this [`CharacterType`]'s protocol ID.\n    pub const fn protocol_id(&self) -> u32 {\n        match (self) {\n"@
}

/// The text after the match arms.
pub open spec fn entity_footer() -> Seq<char> {
    "        }\n    }\n}\n"@
}

/// A variant named `ident`, documented with the identifier `id`.
pub open spec fn variant_text(id: Seq<char>, ident: Seq<char>) -> Seq<char> {
    "    /// `minecraft:"@ + id + "`\n"@ + "    "@ + ident + ",\n"@
}

/// A match arm that maps the variant `ident` to a protocol id in decimal.
pub open spec fn arm_text(ident: Seq<char>, protocol_id: u32) -> Seq<char> {
    "            Self::"@ + ident + " => "@ + decimal(protocol_id as nat) + ",\n"@
}

/// The documented variant for one entity type: named by its path in Pascal case.
pub open spec fn entity_variant(e: EntityTypeEntry) -> Seq<char> {
    variant_text(e.id@, pascal_case(e.path@))
}

/// The match arm that maps an entity type's variant to its protocol id.
pub open spec fn entity_arm(e: EntityTypeEntry) -> Seq<char> {
    arm_text(pascal_case(e.path@), e.protocol_id)
}

/// A variant named `ident`, documented with the identifier `id`.
pub fn variant_for(id: &str, ident: &str) -> (res: String)
    ensures
        res@ == variant_text(id@, ident@),
{
    let mut out = String::new();
    push_str(&mut out, "    /// `minecraft:");
    push_str(&mut out, id);
    push_str(&mut out, "`\n");
    push_str(&mut out, "    ");
    push_str(&mut out, ident);
    push_str(&mut out, ",\n");
    out
}

/// A match arm that maps the variant `ident` to a protocol id.
pub fn arm_for(ident: &str, protocol_id: u32) -> (res: String)
    ensures
        res@ == arm_text(ident@, protocol_id),
{
    let mut out = String::new();
    push_str(&mut out, "            Self::");
    push_str(&mut out, ident);
    push_str(&mut out, " => ");
    push_decimal(&mut out, protocol_id);
    push_str(&mut out, ",\n");
    out
}

/// The generated `CharacterType` source for the registry's entries: the
/// variants and the match arms both follow the order of `es`.
pub open spec fn entity_type_source(es: Seq<EntityTypeEntry>) -> Seq<char> {
    entity_header() + joined(es, |e: EntityTypeEntry| entity_variant(e)) + entity_middle()
        + joined(es, |e: EntityTypeEntry| entity_arm(e)) + entity_footer()
}

/// The generated `CharacterType` source for the entity type registry,
/// entries in the order given.
pub fn entity_type_file(entries: &Vec<EntityTypeEntry>) -> (res: String)
    ensures
        res@ == entity_type_source(entries@),
{
    let mut out = String::new();
    push_str(
        &mut out,
        "/// A character type.\n#[derive(Clone, Copy, PartialEq, Eq, Hash, Debug)]\npub enum CharacterType {\n",
    );
    let n = entries.len();
    for i in 0..n
        invariant
            n == entries@.len(),
            out@ == entity_header() + joined(
                entries@.take(i as int),
                |e: EntityTypeEntry| entity_variant(e),
            ),
    {
        let e = &entries[i];
        let ident = to_pascal_case(e.path.as_str());
        let variant = variant_for(e.id.as_str(), ident.as_str());
        push_str(&mut out, variant.as_str());
        proof {
            lemma_joined_step(entries@, |e: EntityTypeEntry| entity_variant(e), i as int);
            assert(out@ =~= entity_header() + joined(
                entries@.take(i + 1),
                |e: EntityTypeEntry| entity_variant(e),
            ));
        }
    }
    assert(entries@.take(n as int) =~= entries@);
    let ghost variants = out@;
    push_str(
        &mut out,
        "}\nimpl CharacterType {\n    /// Returns this [`CharacterType`]'s protocol ID.\n    pub const fn protocol_id(&self) -> u32 {\n        match (self) {\n",
    );
    for i in 0..n
        invariant
            n == entries@.len(),
            out@ == variants + entity_middle() + joined(
                entries@.take(i as int),
                |e: EntityTypeEntry| entity_arm(e),
            ),
    {
        let e = &entries[i];
        let ident = to_pascal_case(e.path.as_str());
        let arm = arm_for(ident.as_str(), e.protocol_id);
        push_str(&mut out, arm.as_str());
        proof {
            lemma_joined_step(entries@, |e: EntityTypeEntry| entity_arm(e), i as int);
            assert(out@ =~= variants + entity_middle() + joined(
                entries@.take(i + 1),
                |e: EntityTypeEntry| entity_arm(e),
            ));
        }
    }
    push_str(&mut out, "        }\n    }\n}\n");
    assert(out@ =~= entity_type_source(entries@));
    out
}

/// The variants for a list of entity types, one per entry.
pub open spec fn variant_list(es: Seq<EntityTypeEntry>) -> Seq<Seq<char>> {
    es.map_values(|e: EntityTypeEntry| entity_variant(e))
}

/// The match arms for a list of entity types, one per entry.
pub open spec fn arm_list(es: Seq<EntityTypeEntry>) -> Seq<Seq<char>> {
    es.map_values(|e: EntityTypeEntry| entity_arm(e))
}

/// The pairs of variant name and protocol id that a list of entity types gives.
pub open spec fn variant_ids(es: Seq<EntityTypeEntry>) -> Seq<(Seq<char>, u32)> {
    es.map_values(|e: EntityTypeEntry| (pascal_case(e.path@), e.protocol_id))
}

/// Law: the entity types may come in any order (the registry's map is
/// walked in no fixed order); whatever the order, the source is the fixed
/// header, the variants one after another, the fixed middle, the arms one
/// after another and the fixed footer, and it holds the same variants, the
/// same arms and the same mapping of variant to protocol id as any other
/// order does, each as often.
pub proof fn lemma_entity_type_source_reorder(es1: Seq<EntityTypeEntry>, es2: Seq<EntityTypeEntry>)
    requires
        es1.to_multiset() == es2.to_multiset(),
    ensures
        entity_type_source(es1) == entity_header() + concat(variant_list(es1)) + entity_middle()
            + concat(arm_list(es1)) + entity_footer(),
        entity_type_source(es2) == entity_header() + concat(variant_list(es2)) + entity_middle()
            + concat(arm_list(es2)) + entity_footer(),
        variant_list(es1).to_multiset() == variant_list(es2).to_multiset(),
        arm_list(es1).to_multiset() == arm_list(es2).to_multiset(),
        variant_ids(es1).to_multiset() == variant_ids(es2).to_multiset(),
{
    lemma_joined_concat(es1, |e: EntityTypeEntry| entity_variant(e));
    lemma_joined_concat(es2, |e: EntityTypeEntry| entity_variant(e));
    lemma_joined_concat(es1, |e: EntityTypeEntry| entity_arm(e));
    lemma_joined_concat(es2, |e: EntityTypeEntry| entity_arm(e));
    lemma_map_values_reorder(es1, es2, |e: EntityTypeEntry| entity_variant(e));
    lemma_map_values_reorder(es1, es2, |e: EntityTypeEntry| entity_arm(e));
    lemma_map_values_reorder(
        es1,
        es2,
        |e: EntityTypeEntry| (pascal_case(e.path@), e.protocol_id),
    );
}

/// Law: the generated source is the header line of the enum, then for every
/// entry, in order and whatever its protocol id, a variant documented with
/// the entry's identifier and named by its path in Pascal case, then the
/// opening of the `protocol_id` match, then for every entry an arm that maps
/// that variant to the entry's protocol id in decimal, then the closing
/// braces.
pub proof fn lemma_entity_type_source_spelled_out(es: Seq<EntityTypeEntry>)
    ensures
        entity_type_source(es) == "/// A character type.\n#[derive(Clone, Copy, PartialEq, Eq, Hash, Debug)]\npub enum CharacterType {\n"@
            + concat(
            es.map_values(
                |e: EntityTypeEntry|
                    "    /// `minecraft:"@ + e.id@ + "`\n"@ + "    "@ + pascal_case(e.path@)
                        + ",\n"@,
            ),
        )
            + "}\nimpl CharacterType {\n    /// Returns this [`CharacterType`]'s protocol ID.\n    pub const fn protocol_id(&self) -> u32 {\n        match (self) {\n"@
            + concat(
            es.map_values(
                |e: EntityTypeEntry|
                    "            Self::"@ + pascal_case(e.path@) + " => "@ + decimal(
                        e.protocol_id as nat,
                    ) + ",\n"@,
            ),
        ) + "        }\n    }\n}\n"@,
{
    lemma_joined_concat(es, |e: EntityTypeEntry| entity_variant(e));
    lemma_joined_concat(es, |e: EntityTypeEntry| entity_arm(e));
    assert(es.map_values(|e: EntityTypeEntry| entity_variant(e)) =~= es.map_values(
        |e: EntityTypeEntry|
            "    /// `minecraft:"@ + e.id@ + "`\n"@ + "    "@ + pascal_case(e.path@) + ",\n"@,
    ));
    assert(es.map_values(|e: EntityTypeEntry| entity_arm(e)) =~= es.map_values(
        |e: EntityTypeEntry|
            "            Self::"@ + pascal_case(e.path@) + " => "@ + decimal(e.protocol_id as nat)
                + ",\n"@,
    ));
}

} // verus!
