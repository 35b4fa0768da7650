//! Decisions of the command line.

pub mod argument_laws;
pub mod arguments;
pub mod binding_inspect;
pub mod binding_laws;
pub mod binding_text;
pub mod cargo_policy;
pub mod collection;
pub mod command_laws;
pub mod commands;
pub mod imports;
pub mod places;
pub mod prelude;
pub mod test_runner_interfaces;
