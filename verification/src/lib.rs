//! Offline-precompiled Metal shaders: stage keys, the build-time harvest and the
//! run-time table; and error handling for commands that act on a world.

pub mod command_handling;
pub mod command_laws;
pub mod descriptor;
pub mod descriptor_text;
pub mod descriptor_text_laws;
pub mod harvest;
pub mod harvest_laws;
pub mod hash;
pub mod key_laws;
pub mod record_lines;
pub mod stage_key;
pub mod table;
pub mod table_laws;
pub mod text;
pub mod text_laws;
