# precompiled_shaders

Offline-precompiled Metal shaders for a render engine, with the logic verified
by Verus, and error handling for commands that act on a world.

- `src/stage_key.rs`: the canonical text and the key of a pipeline stage, over
  the descriptors of `src/descriptor.rs` and their text forms
  (`src/descriptor_text.rs`, `src/text.rs`) and the hash of `src/hash.rs`.
- `src/harvest.rs`: the build-time harvest, which records each stage's key and
  tags the pipeline.
- `src/record_lines.rs`: harvest records as JSON lines.
- `src/table.rs`: the run-time table, which decides how a stage is served and
  asks its caller for blobs and shader modules.
- `src/command_handling.rs`: commands, error handlers, and commands on entities.
- `app/`: the engine side, which converts the engine's descriptors, reads the
  environment, writes records, reads blobs, makes shader modules and names
  commands.

Functions named `law_*` state what holds of the library as a whole.
