//! The `version.rs` file, which names the protocol version the generated
//! code belongs to, and the cache directory of a game version.

use vstd::prelude::*;

use crate::text::{decimal, push_decimal, push_str};

verus! {

/// The generated `version.rs` source for a protocol id.
pub open spec fn version_source(protocol_id: u32) -> Seq<char> {
    "impl Version {\n"@ + "    /// The current version supported by pipework.\n"@
        + "    pub const CURRENT : Self = Self::by_id("@ + decimal(protocol_id as nat)
        + ").unwrap();\n"@ + "}\n"@
}

/// The generated `version.rs` source for a protocol id.
pub fn version_file(protocol_id: u32) -> (res: String)
    ensures
        res@ == version_source(protocol_id),
{
    let mut out = String::new();
    push_str(&mut out, "impl Version {\n");
    push_str(&mut out, "    /// The current version supported by pipework.\n");
    push_str(&mut out, "    pub const CURRENT : Self = Self::by_id(");
    push_decimal(&mut out, protocol_id);
    push_str(&mut out, ").unwrap();\n");
    push_str(&mut out, "}\n");
    out
}

/// Law: the version file is one `impl Version` block whose `CURRENT`
/// constant is looked up by the protocol id, written in decimal.
pub proof fn lemma_version_source(protocol_id: u32)
    ensures
        version_source(protocol_id)
            == "impl Version {\n    /// The current version supported by pipework.\n    pub const CURRENT : Self = Self::by_id("@
            + decimal(protocol_id as nat) + ").unwrap();\n}\n"@,
{
    reveal_strlit("impl Version {\n");
    reveal_strlit("    /// The current version supported by pipework.\n");
    reveal_strlit("    pub const CURRENT : Self = Self::by_id(");
    reveal_strlit(
        "impl Version {\n    /// The current version supported by pipework.\n    pub const CURRENT : Self = Self::by_id(",
    );
    reveal_strlit(").unwrap();\n");
    reveal_strlit("}\n");
    reveal_strlit(").unwrap();\n}\n");
    assert(version_source(protocol_id)
        =~= "impl Version {\n    /// The current version supported by pipework.\n    pub const CURRENT : Self = Self::by_id("@
        + decimal(protocol_id as nat) + ").unwrap();\n}\n"@);
}

/// The directory where the files of a game version are cached.
pub fn cache_dir(version: &str) -> (res: String)
    ensures
        res@ == "output/cache/"@ + version@,
{
    let mut out = String::new();
    push_str(&mut out, "output/cache/");
    push_str(&mut out, version);
    out
}

} // verus!
