//! Names and actions that both kinds of repositories share.

use crate::commands::one_arg;
use crate::info::copy_text;
use vstd::prelude::*;
use vstd::string::*;

verus! {

pub const DOT_GIT: &'static str = ".git";

pub const DOT_FOSSIL: &'static str = ".fslckout";

pub const FOSSIL_CHECKOUT: &'static str = "_FOSSIL_";

pub const GITIGNORE: &'static str = ".gitignore";

pub const FSMONITOR_DAEMON: &'static str = "fsmonitor--daemon";

pub const LFS_DIR: &'static str = "lfs";

pub const COMMIT_MESSAGE: &'static str = "COMMIT_EDITMSG";

pub const INDEX_LOCK: &'static str = "index.lock";

pub const REPO_EXCLUDE: &'static str = "info/exclude";

/// A hook that a check-in runs.
#[derive(Clone, Copy, Debug, PartialEq, Eq, Structural)]
pub enum RunHook {
    PreCommit,
}

/// The number of a hook in messages.
pub open spec fn hook_number(hook: RunHook) -> i32 {
    match hook {
        RunHook::PreCommit => 0,
    }
}

impl RunHook {
    /// The name of the hook.
    pub fn as_str(&self) -> (r: &str)
        ensures
            r@ == (match *self {
                RunHook::PreCommit => "pre-commit"@,
            }),
    {
        match self {
            RunHook::PreCommit => "pre-commit",
        }
    }

    /// The number of the hook in messages.
    pub fn to_proto(&self) -> (r: i32)
        ensures
            r == hook_number(*self),
    {
        match self {
            RunHook::PreCommit => 0,
        }
    }

    /// The hook with a number, if there is one.
    pub fn from_proto(value: i32) -> (r: Option<RunHook>)
        ensures
            r == (if value == 0 {
                Some(RunHook::PreCommit)
            } else {
                None
            }),
            forall|hook: RunHook| r == Some(hook) <==> value == #[trigger] hook_number(hook),
    {
        if value == 0 {
            Some(RunHook::PreCommit)
        } else {
            None
        }
    }
}

/// Renames a branch.
#[derive(Debug, PartialEq, Eq)]
pub struct RenameBranch {
    /// The branch to rename; the current one if there is none.
    pub branch: Option<String>,
}

impl RenameBranch {
    /// The name of the action.
    pub fn name_for_type() -> (r: &'static str)
        ensures
            r@ == "git::RenameBranch"@,
    {
        "git::RenameBranch"
    }
}

impl Default for RenameBranch {
    fn default() -> (r: RenameBranch)
        ensures
            r.branch is None,
    {
        RenameBranch { branch: None }
    }
}

impl Clone for RenameBranch {
    fn clone(&self) -> (r: RenameBranch)
        ensures
            r.branch.deep_view() == self.branch.deep_view(),
    {
        RenameBranch { branch: copy_text(&self.branch) }
    }
}

/// Puts a file back to the check-in and discards local changes.
#[derive(Clone, Copy, Debug, PartialEq, Eq, Structural)]
pub struct RestoreFile {
    pub skip_prompt: bool,
}

impl RestoreFile {
    /// The name of the action.
    pub fn name_for_type() -> (r: &'static str)
        ensures
            r@ == "git::RestoreFile"@,
    {
        "git::RestoreFile"
    }

    /// The names that the action had before.
    pub fn deprecated_aliases() -> (r: Vec<String>)
        ensures
            r.deep_view() == seq!["editor::RevertFile"@],
    {
        one_arg("editor::RevertFile")
    }
}

impl Default for RestoreFile {
    fn default() -> (r: RestoreFile)
        ensures
            !r.skip_prompt,
    {
        RestoreFile { skip_prompt: false }
    }
}

} // verus!
