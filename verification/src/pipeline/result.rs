//! The result of running one command through the pipeline.

use vstd::prelude::*;
use crate::data::output::OutputData;

verus! {

/// What running one command gave: the command text, its outputs, whether it
/// succeeded, and the error message when it did not.
#[derive(Debug, Clone)]
pub struct CommandResult {
    /// The command as given.
    pub command: String,
    /// The outputs it produced.
    pub outputs: Vec<OutputData>,
    /// Whether it succeeded.
    pub success: bool,
    /// Why it failed, when it did.
    pub error: Option<String>,
}

} // verus!
