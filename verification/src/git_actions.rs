//! The actions on Git repositories.

use crate::commands::one_arg;
use vstd::prelude::*;

verus! {

/// Toggles the staged state of the hunk or status entry at cursor.
#[derive(Debug)]
pub struct ToggleStaged;

impl ToggleStaged {
    /// The name of the action.
    pub fn name_for_type() -> (r: &'static str)
        ensures
            r@ == "git::ToggleStaged"@,
    {
        "git::ToggleStaged"
    }
}

/// Stage status entries between an anchor entry and the cursor.
#[derive(Debug)]
pub struct StageRange;

impl StageRange {
    /// The name of the action.
    pub fn name_for_type() -> (r: &'static str)
        ensures
            r@ == "git::StageRange"@,
    {
        "git::StageRange"
    }
}

/// Stages the current hunk and moves to the next one.
#[derive(Debug)]
pub struct StageAndNext;

impl StageAndNext {
    /// The name of the action.
    pub fn name_for_type() -> (r: &'static str)
        ensures
            r@ == "git::StageAndNext"@,
    {
        "git::StageAndNext"
    }
}

/// Unstages the current hunk and moves to the next one.
#[derive(Debug)]
pub struct UnstageAndNext;

impl UnstageAndNext {
    /// The name of the action.
    pub fn name_for_type() -> (r: &'static str)
        ensures
            r@ == "git::UnstageAndNext"@,
    {
        "git::UnstageAndNext"
    }
}

/// Restores the selected hunks to their original state.
#[derive(Debug)]
pub struct Restore;

impl Restore {
    /// The name of the action.
    pub fn name_for_type() -> (r: &'static str)
        ensures
            r@ == "git::Restore"@,
    {
        "git::Restore"
    }

    /// The names that the action had before.
    pub fn deprecated_aliases() -> (r: Vec<String>)
        ensures
            r.deep_view() == seq!["editor::RevertSelectedHunks"@],
    {
        one_arg("editor::RevertSelectedHunks")
    }
}

/// Restores the selected hunks to their original state and moves to the next
/// one.
#[derive(Debug)]
pub struct RestoreAndNext;

impl RestoreAndNext {
    /// The name of the action.
    pub fn name_for_type() -> (r: &'static str)
        ensures
            r@ == "git::RestoreAndNext"@,
    {
        "git::RestoreAndNext"
    }
}

/// Shows git blame information for the current file.
#[derive(Debug)]
pub struct Blame;

impl Blame {
    /// The name of the action.
    pub fn name_for_type() -> (r: &'static str)
        ensures
            r@ == "git::Blame"@,
    {
        "git::Blame"
    }

    /// The names that the action had before.
    pub fn deprecated_aliases() -> (r: Vec<String>)
        ensures
            r.deep_view() == seq!["editor::ToggleGitBlame"@],
    {
        one_arg("editor::ToggleGitBlame")
    }
}

/// Shows the git history for the selected file, folder, or project.
#[derive(Debug)]
pub struct FileHistory;

impl FileHistory {
    /// The name of the action.
    pub fn name_for_type() -> (r: &'static str)
        ensures
            r@ == "git::FileHistory"@,
    {
        "git::FileHistory"
    }
}

/// Stages the current file.
#[derive(Debug)]
pub struct StageFile;

impl StageFile {
    /// The name of the action.
    pub fn name_for_type() -> (r: &'static str)
        ensures
            r@ == "git::StageFile"@,
    {
        "git::StageFile"
    }
}

/// Unstages the current file.
#[derive(Debug)]
pub struct UnstageFile;

impl UnstageFile {
    /// The name of the action.
    pub fn name_for_type() -> (r: &'static str)
        ensures
            r@ == "git::UnstageFile"@,
    {
        "git::UnstageFile"
    }
}

/// Stages all changes in the repository.
#[derive(Debug)]
pub struct StageAll;

impl StageAll {
    /// The name of the action.
    pub fn name_for_type() -> (r: &'static str)
        ensures
            r@ == "git::StageAll"@,
    {
        "git::StageAll"
    }
}

/// Unstages all changes in the repository.
#[derive(Debug)]
pub struct UnstageAll;

impl UnstageAll {
    /// The name of the action.
    pub fn name_for_type() -> (r: &'static str)
        ensures
            r@ == "git::UnstageAll"@,
    {
        "git::UnstageAll"
    }
}

/// Stashes all changes in the repository, including untracked files.
#[derive(Debug)]
pub struct StashAll;

impl StashAll {
    /// The name of the action.
    pub fn name_for_type() -> (r: &'static str)
        ensures
            r@ == "git::StashAll"@,
    {
        "git::StashAll"
    }
}

/// Pops the most recent stash.
#[derive(Debug)]
pub struct StashPop;

impl StashPop {
    /// The name of the action.
    pub fn name_for_type() -> (r: &'static str)
        ensures
            r@ == "git::StashPop"@,
    {
        "git::StashPop"
    }
}

/// Apply the most recent stash.
#[derive(Debug)]
pub struct StashApply;

impl StashApply {
    /// The name of the action.
    pub fn name_for_type() -> (r: &'static str)
        ensures
            r@ == "git::StashApply"@,
    {
        "git::StashApply"
    }
}

/// Restores all tracked files to their last committed state.
#[derive(Debug)]
pub struct RestoreTrackedFiles;

impl RestoreTrackedFiles {
    /// The name of the action.
    pub fn name_for_type() -> (r: &'static str)
        ensures
            r@ == "git::RestoreTrackedFiles"@,
    {
        "git::RestoreTrackedFiles"
    }
}

/// Moves all untracked files to trash.
#[derive(Debug)]
pub struct TrashUntrackedFiles;

impl TrashUntrackedFiles {
    /// The name of the action.
    pub fn name_for_type() -> (r: &'static str)
        ensures
            r@ == "git::TrashUntrackedFiles"@,
    {
        "git::TrashUntrackedFiles"
    }
}

/// Undoes the last commit, keeping changes in the working directory.
#[derive(Debug)]
pub struct Uncommit;

impl Uncommit {
    /// The name of the action.
    pub fn name_for_type() -> (r: &'static str)
        ensures
            r@ == "git::Uncommit"@,
    {
        "git::Uncommit"
    }
}

/// Pushes commits to the remote repository.
#[derive(Debug)]
pub struct Push;

impl Push {
    /// The name of the action.
    pub fn name_for_type() -> (r: &'static str)
        ensures
            r@ == "git::Push"@,
    {
        "git::Push"
    }
}

/// Pushes commits to a specific remote branch.
#[derive(Debug)]
pub struct PushTo;

impl PushTo {
    /// The name of the action.
    pub fn name_for_type() -> (r: &'static str)
        ensures
            r@ == "git::PushTo"@,
    {
        "git::PushTo"
    }
}

/// Force pushes commits to the remote repository.
#[derive(Debug)]
pub struct ForcePush;

impl ForcePush {
    /// The name of the action.
    pub fn name_for_type() -> (r: &'static str)
        ensures
            r@ == "git::ForcePush"@,
    {
        "git::ForcePush"
    }
}

/// Pulls changes from the remote repository.
#[derive(Debug)]
pub struct Pull;

impl Pull {
    /// The name of the action.
    pub fn name_for_type() -> (r: &'static str)
        ensures
            r@ == "git::Pull"@,
    {
        "git::Pull"
    }
}

/// Pulls changes from the remote repository with rebase.
#[derive(Debug)]
pub struct PullRebase;

impl PullRebase {
    /// The name of the action.
    pub fn name_for_type() -> (r: &'static str)
        ensures
            r@ == "git::PullRebase"@,
    {
        "git::PullRebase"
    }
}

/// Fetches changes from the remote repository.
#[derive(Debug)]
pub struct Fetch;

impl Fetch {
    /// The name of the action.
    pub fn name_for_type() -> (r: &'static str)
        ensures
            r@ == "git::Fetch"@,
    {
        "git::Fetch"
    }
}

/// Fetches changes from a specific remote.
#[derive(Debug)]
pub struct FetchFrom;

impl FetchFrom {
    /// The name of the action.
    pub fn name_for_type() -> (r: &'static str)
        ensures
            r@ == "git::FetchFrom"@,
    {
        "git::FetchFrom"
    }
}

/// Creates a new commit with staged changes.
#[derive(Debug)]
pub struct Commit;

impl Commit {
    /// The name of the action.
    pub fn name_for_type() -> (r: &'static str)
        ensures
            r@ == "git::Commit"@,
    {
        "git::Commit"
    }
}

/// Amends the last commit with staged changes.
#[derive(Debug)]
pub struct Amend;

impl Amend {
    /// The name of the action.
    pub fn name_for_type() -> (r: &'static str)
        ensures
            r@ == "git::Amend"@,
    {
        "git::Amend"
    }
}

/// Enable the --signoff option.
#[derive(Debug)]
pub struct Signoff;

impl Signoff {
    /// The name of the action.
    pub fn name_for_type() -> (r: &'static str)
        ensures
            r@ == "git::Signoff"@,
    {
        "git::Signoff"
    }
}

/// Cancels the current git operation.
#[derive(Debug)]
pub struct Cancel;

impl Cancel {
    /// The name of the action.
    pub fn name_for_type() -> (r: &'static str)
        ensures
            r@ == "git::Cancel"@,
    {
        "git::Cancel"
    }
}

/// Expands the commit message editor.
#[derive(Debug)]
pub struct ExpandCommitEditor;

impl ExpandCommitEditor {
    /// The name of the action.
    pub fn name_for_type() -> (r: &'static str)
        ensures
            r@ == "git::ExpandCommitEditor"@,
    {
        "git::ExpandCommitEditor"
    }
}

/// Toggles whether the commit message editor fills all the available vertical
/// space within the git panel.
#[derive(Debug)]
pub struct ToggleFillCommitEditor;

impl ToggleFillCommitEditor {
    /// The name of the action.
    pub fn name_for_type() -> (r: &'static str)
        ensures
            r@ == "git::ToggleFillCommitEditor"@,
    {
        "git::ToggleFillCommitEditor"
    }
}

/// Generates a commit message using AI.
#[derive(Debug)]
pub struct GenerateCommitMessage;

impl GenerateCommitMessage {
    /// The name of the action.
    pub fn name_for_type() -> (r: &'static str)
        ensures
            r@ == "git::GenerateCommitMessage"@,
    {
        "git::GenerateCommitMessage"
    }
}

/// Initializes a new git repository.
#[derive(Debug)]
pub struct Init;

impl Init {
    /// The name of the action.
    pub fn name_for_type() -> (r: &'static str)
        ensures
            r@ == "git::Init"@,
    {
        "git::Init"
    }
}

/// Opens all modified files in the editor.
#[derive(Debug)]
pub struct OpenModifiedFiles;

impl OpenModifiedFiles {
    /// The name of the action.
    pub fn name_for_type() -> (r: &'static str)
        ensures
            r@ == "git::OpenModifiedFiles"@,
    {
        "git::OpenModifiedFiles"
    }
}

/// Clones a repository.
#[derive(Debug)]
pub struct Clone;

impl Clone {
    /// The name of the action.
    pub fn name_for_type() -> (r: &'static str)
        ensures
            r@ == "git::Clone"@,
    {
        "git::Clone"
    }
}

/// Shows a commit.
#[derive(Debug)]
pub struct ViewCommit;

impl ViewCommit {
    /// The name of the action.
    pub fn name_for_type() -> (r: &'static str)
        ensures
            r@ == "git::ViewCommit"@,
    {
        "git::ViewCommit"
    }
}

/// Adds a file to .gitignore.
#[derive(Debug)]
pub struct AddToGitignore;

impl AddToGitignore {
    /// The name of the action.
    pub fn name_for_type() -> (r: &'static str)
        ensures
            r@ == "git::AddToGitignore"@,
    {
        "git::AddToGitignore"
    }
}

/// Copies the current branch name to the clipboard.
#[derive(Debug)]
pub struct CopyBranchName;

impl CopyBranchName {
    /// The name of the action.
    pub fn name_for_type() -> (r: &'static str)
        ensures
            r@ == "git::CopyBranchName"@,
    {
        "git::CopyBranchName"
    }
}

} // verus!
