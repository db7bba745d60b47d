//! The logic of a Fossil source-control backend, verified.

use vstd::prelude::*;

pub mod blame;
pub mod branch;
pub mod changes;
pub mod check_in;
pub mod commands;
pub mod commit;
pub mod details;
pub mod diff;
pub mod digits;
pub mod error;
pub mod fossil_actions;
pub mod git;
pub mod git_actions;
pub mod index;
pub mod info;
pub mod laws;
pub mod numstat;
pub mod oid;
pub mod operations;
pub mod parents;
pub mod path;
pub mod remote;
pub mod repository;
pub mod setup;
pub mod stash;
pub mod status;
pub mod text;
pub mod timeline;
pub mod timestamp;
pub mod unique_map;
pub mod worktree;

verus! {

/// The name of the executable.
pub const FOSSIL_BINARY_NAME: &'static str = "fossil";

/// What is told when the executable cannot be found.
pub const FOSSIL_BINARY_NOT_FOUND_MESSAGE: &'static str = "Fossil executable not found. Install Fossil and make sure the `fossil` command is available on PATH.";

} // verus!
