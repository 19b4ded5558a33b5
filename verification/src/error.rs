//! Error type shared by the library.

use vstd::prelude::*;
use crate::data::output::ErrorData;

verus! {

/// Errors reported by validation, registration and loading.
#[derive(Debug, Clone)]
pub enum Error {
    /// A command name was empty.
    EmptyCommandName,
    /// A command name lacked the leading dot; holds the offending name.
    MissingDotPrefix(String),
    /// A definition was rejected; holds the explanation.
    Registration(String),
    /// A command failed while being processed.
    Execution(ErrorData),
    /// A YAML document could not be read; holds the parser's message.
    Yaml(String),
    /// A JSON document could not be read; holds the parser's message.
    Json(String),
    /// A required field of a definition was absent; holds the field's name.
    MissingField(String),
}

} // verus!
