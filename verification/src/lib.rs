//! Command-language data model, validation and text generation for CLI tools.

pub mod text;
pub mod keyed;
pub mod interner;
pub mod debug_text;
pub mod error;
pub mod data;
pub mod command_validation;
pub mod build;
pub mod cargo_tool;
pub mod help;
pub mod multi_yaml;
pub mod pipeline;
pub mod parser_helpers;
pub mod loader;

/// Perfect-hash maps and sets, as used by generated static command tables.
pub use phf;
