//! The build step's own logic: validation of manifest commands, type hints
//! for argument declarations, and generation of the static command table.

pub mod validation;
pub mod manifest;
pub mod codegen;
pub mod type_hints;
pub mod discovery;
