//! A small command-line toolkit: a registry of self-describing subcommands,
//! a conditional recursive file-deletion engine with a confirmation gate,
//! and timestamp/date-string conversion.

pub mod confirm;
pub mod errors;
pub mod file_cmd;
pub mod fs_tree;
pub mod registry;
pub mod text;
pub mod time_cmd;
