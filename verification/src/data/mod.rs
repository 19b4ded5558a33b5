//! Core data structures: validated names, statuses, kinds and command definitions.

pub mod output;
pub mod command_name;
pub mod version_type;
pub mod namespace_type;
pub mod command_status;

pub use output::{ ErrorCode, ErrorData, OutputData };
pub use command_name::CommandName;
pub use version_type::VersionType;
pub use namespace_type::NamespaceType;
pub use command_status::{ CommandStatus, StatusView, construct_full_command_name };
pub mod kind;
pub use kind::Kind;
pub mod argument;
pub use argument::{ ArgumentAttributes, ArgumentDefinition };
pub mod command_definition;
pub use command_definition::{ CommandDefinition, CommandView };
