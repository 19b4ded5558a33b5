//! Assembling one command set from several modules: the CLI builder and
//! the multi-manifest aggregator.

pub mod types;
pub mod builder;
pub mod codegen;
pub mod aggregator;
