//! Helpers of the command pipeline: reading error messages and
//! summarising batches of command results.

pub mod error_parsing;
pub mod batch;
pub mod result;
