//! What the operations are for, stated on the texts that go in and the results
//! that come out.

pub mod changes;
pub mod check_in;
pub mod details;
pub mod diff;
pub mod files;
pub mod info;
pub mod numbers;
pub mod path;
pub mod remote;
pub mod setup;
pub mod text;
pub mod timeline;
pub mod worktree;
