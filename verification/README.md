# pipework_datagen

Generates Rust source for the pipework data crate from the vanilla Minecraft
server's data generator output.

- `src/` is the verified library: the text of every generated file (packet id
  macros, the `CharacterType` enum, the vanilla datapack constants,
  `version.rs`), the table of datapack registries, and the decisions of the
  fetching steps (which server files to download, which manifest entry to use,
  whether the data generator must run again).
- `app/` is the program around it: downloads, running the data generator,
  reading the JSON reports and data files, and writing the generated files.
