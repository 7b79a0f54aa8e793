//! Code generation for the pipework data crate: turns the reports and data
//! files of the vanilla server's data generator into Rust source text.

pub mod text;
pub mod naming;
pub mod packets;
pub mod entity_types;
pub mod datapack;
pub mod fetch;
pub mod version_file;
