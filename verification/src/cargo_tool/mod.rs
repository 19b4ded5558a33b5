//! The project scaffolding and health-check tool: parameter parsing, the
//! checks run on a project, report rendering and file templates.

pub mod commands;
pub mod checks;
pub mod templates;
pub mod dispatch;
