//! The package-state model of a front-end to a command-line package manager.
//!
//! A package is either installed or not installed. The library decides which
//! from the manager's JSON metadata, builds the argument lists of the manager's
//! commands, and turns the outcome of a command into the package's next state.
//! Running the manager is left to the caller, who hands each command's exit
//! status and captured text back as a `ToolOutput`.

pub mod install;
pub mod json;
pub mod listing;
pub mod package;
pub mod tool;
