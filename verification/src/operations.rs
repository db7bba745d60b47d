//! The remaining operations on a checkout, as commands of `fossil`.

use crate::commands::{one_arg, push_paths, three_args, two_args};
use crate::digits::decimal_text;
use crate::error::{FossilError, FossilErrorView};
use crate::index::push_item;
use crate::path::RepoPath;
use crate::text::{is_text, to_chars, to_text, trimmed};
use vstd::prelude::*;
use vstd::slice::slice_subrange;
use vstd::string::*;

verus! {

// ---------------------------------------------------------------------------
// Running commands
// ---------------------------------------------------------------------------

/// An output without the line feed at its end.
pub open spec fn without_final_newline(output: Seq<char>) -> Seq<char> {
    if output.len() > 0 && output.last() == '\n' {
        output.drop_last()
    } else {
        output
    }
}

/// Drops the line feed at the end of an output.
pub fn trim_final_newline(output: &str) -> (r: String)
    ensures
        r@ == without_final_newline(output@),
{
    let chars = to_chars(output);
    let n = chars.len();
    if n > 0 && chars[n - 1] == '\n' {
        let head = slice_subrange(chars.as_slice(), 0, n - 1);
        assert(head@ =~= output@.drop_last());
        to_text(head)
    } else {
        output.to_owned()
    }
}

/// How often a command is tried while its executable file is busy.
pub const EXECUTABLE_FILE_BUSY_RETRY_ATTEMPTS: usize = 3;

/// The number of the error `ETXTBSY`.
pub const EXECUTABLE_FILE_BUSY: i32 = 26;

/// Whether an error says that an executable file is busy: it is told by its
/// number where the machine has such numbers.
pub fn executable_file_is_busy(raw_os_error: Option<i32>, unix: bool) -> (r: bool)
    ensures
        r == (unix && raw_os_error == Some(EXECUTABLE_FILE_BUSY)),
{
    match raw_os_error {
        Some(code) => unix && code == EXECUTABLE_FILE_BUSY,
        None => false,
    }
}

/// Whether a command that could not be started is to be tried once more.
/// `attempts` counts the tries so far.
pub fn retries_when_busy(attempts: usize, raw_os_error: Option<i32>, unix: bool) -> (r: bool)
    ensures
        r == (unix && raw_os_error == Some(EXECUTABLE_FILE_BUSY) && attempts
            < EXECUTABLE_FILE_BUSY_RETRY_ATTEMPTS),
{
    executable_file_is_busy(raw_os_error, unix) && attempts < EXECUTABLE_FILE_BUSY_RETRY_ATTEMPTS
}

/// What a command printed.
#[derive(Debug)]
pub struct RemoteCommandOutput {
    pub stdout: String,
    pub stderr: String,
}

impl DeepView for RemoteCommandOutput {
    type V = (Seq<char>, Seq<char>);

    open spec fn deep_view(&self) -> (Seq<char>, Seq<char>) {
        (self.stdout@, self.stderr@)
    }
}

/// What a command printed, or that it failed.
pub fn command_output(success: bool, stdout: String, stderr: String) -> (r: Result<
    RemoteCommandOutput,
    FossilError,
>)
    ensures
        crate::error::result_view(r) == (if success {
            Ok::<(Seq<char>, Seq<char>), FossilErrorView>((stdout@, stderr@))
        } else {
            Err(FossilErrorView::Command { stdout: stdout@, stderr: stderr@ })
        }),
{
    if success {
        Ok(RemoteCommandOutput { stdout, stderr })
    } else {
        Err(FossilError::Command { stdout, stderr })
    }
}

// ---------------------------------------------------------------------------
// Files
// ---------------------------------------------------------------------------

/// The arguments that print the text of a file at the check-in.
pub fn fossil_cat_args(path: &RepoPath) -> (r: Vec<String>)
    ensures
        r.deep_view() == seq!["cat"@, path@],
{
    two_args("cat", path.as_unix_str())
}

/// The arguments that print who wrote the lines of a file.
pub fn fossil_blame_args(path: &RepoPath) -> (r: Vec<String>)
    ensures
        r.deep_view() == seq!["blame"@, path@],
{
    two_args("blame", path.as_unix_str())
}

/// The arguments that print what is known of a check-in.
pub fn fossil_info_args(commit: &str) -> (r: Vec<String>)
    ensures
        r.deep_view() == seq!["info"@, commit@],
{
    two_args("info", commit)
}

/// The arguments that put files back to a check-in; there is nothing to do
/// without files.
pub open spec fn checkout_files_plan(commit: Seq<char>, paths: Seq<Seq<char>>) -> Option<
    Seq<Seq<char>>,
> {
    if paths.len() == 0 {
        None
    } else if commit == "HEAD"@ {
        Some(seq!["revert"@] + paths)
    } else {
        Some(seq!["revert"@, "--revision"@, commit] + paths)
    }
}

/// Plans to put files back to a check-in.
pub fn checkout_files(commit: &str, paths: &Vec<RepoPath>) -> (r: Option<Vec<String>>)
    ensures
        r.deep_view() == checkout_files_plan(commit@, paths.deep_view()),
{
    assert(paths.deep_view().len() == paths@.len());
    if paths.len() == 0 {
        return None;
    }
    let chars = to_chars(commit);
    let mut args = if is_text(chars.as_slice(), "HEAD") {
        one_arg("revert")
    } else {
        three_args("revert", "--revision", commit)
    };
    push_paths(&mut args, paths);
    Some(args)
}

// ---------------------------------------------------------------------------
// Stashes
// ---------------------------------------------------------------------------

/// The message of a stash that is given none.
pub const DEFAULT_STASH_MESSAGE: &'static str = "fzed stash";

/// The message of a stash: a blank one counts as none.
pub open spec fn stash_message(message: Option<Seq<char>>) -> Seq<char> {
    match message {
        Some(message) => if crate::text::trim(message).len() > 0 {
            message
        } else {
            DEFAULT_STASH_MESSAGE@
        },
        None => DEFAULT_STASH_MESSAGE@,
    }
}

/// The arguments that stash the given files, all of them if there are none.
pub open spec fn stash_save_args(message: Option<Seq<char>>, paths: Seq<Seq<char>>) -> Seq<
    Seq<char>,
> {
    seq!["stash"@, "save"@, "--comment"@, stash_message(message)] + paths
}

/// The arguments that stash the given files.
pub fn stash_paths(paths: &Vec<RepoPath>, message: Option<&str>) -> (r: Vec<String>)
    ensures
        r.deep_view() == stash_save_args(crate::remote::opt_output(message), paths.deep_view()),
{
    let text = match message {
        Some(message) => {
            let chars = to_chars(message);
            if trimmed(chars.as_slice()).len() > 0 {
                message
            } else {
                DEFAULT_STASH_MESSAGE
            }
        },
        None => DEFAULT_STASH_MESSAGE,
    };
    let mut args = crate::commands::four_args("stash", "save", "--comment", text);
    push_paths(&mut args, paths);
    args
}

/// The arguments of a stash command, for a certain stash or for the last one.
pub open spec fn stash_args(command: Seq<char>, index: Option<nat>) -> Seq<Seq<char>> {
    match index {
        Some(index) => seq!["stash"@, command, crate::digits::decimal(index)],
        None => seq!["stash"@, command],
    }
}

/// The arguments of a stash command.
fn fossil_stash_args(command: &str, index: Option<usize>) -> (r: Vec<String>)
    ensures
        r.deep_view() == stash_args(command@, crate::oid::opt_nat(index)),
{
    match index {
        Some(index) => three_args("stash", command, decimal_text(index as u64).as_str()),
        None => two_args("stash", command),
    }
}

/// The commands that take a stash back and drop it, in this order. Only the last
/// stash can be popped, so a certain one is applied and then dropped.
pub open spec fn stash_pop_plan(index: Option<nat>) -> Seq<Seq<Seq<char>>> {
    match index {
        Some(_) => seq![stash_args("apply"@, index), stash_args("drop"@, index)],
        None => seq![stash_args("pop"@, None)],
    }
}

/// Plans to take a stash back and drop it.
pub fn stash_pop(index: Option<usize>) -> (r: Vec<Vec<String>>)
    ensures
        r.deep_view() == stash_pop_plan(crate::oid::opt_nat(index)),
{
    let mut plan: Vec<Vec<String>> = Vec::new();
    if index.is_some() {
        push_item(&mut plan, fossil_stash_args("apply", index));
        push_item(&mut plan, fossil_stash_args("drop", index));
    } else {
        push_item(&mut plan, fossil_stash_args("pop", None));
    }
    assert(plan.deep_view() =~= stash_pop_plan(crate::oid::opt_nat(index)));
    plan
}

/// The arguments that take a stash back and keep it.
pub fn stash_apply(index: Option<usize>) -> (r: Vec<String>)
    ensures
        r.deep_view() == stash_args("apply"@, crate::oid::opt_nat(index)),
{
    fossil_stash_args("apply", index)
}

/// The arguments that drop a stash.
pub fn stash_drop(index: Option<usize>) -> (r: Vec<String>)
    ensures
        r.deep_view() == stash_args("drop"@, crate::oid::opt_nat(index)),
{
    fossil_stash_args("drop", index)
}

// ---------------------------------------------------------------------------
// Diffs
// ---------------------------------------------------------------------------

/// Which diff is asked for.
#[derive(Debug)]
pub enum DiffType {
    HeadToIndex,
    HeadToWorktree,
    MergeBase { base_ref: String },
}

/// What is to be done for a diff.
#[derive(Debug)]
pub enum DiffStep {
    /// Nothing more: this is the diff.
    Done(String),
    /// Run `fossil` with these arguments; its output is the diff.
    Run(Vec<String>),
}

/// What is to be done for a diff: there is no index, so nothing differs from it,
/// and there is no merge base.
pub fn diff(diff_type: &DiffType) -> (r: Result<DiffStep, FossilError>)
    ensures
        match *diff_type {
            DiffType::HeadToWorktree => match r {
                Ok(DiffStep::Run(args)) => args.deep_view() == seq![
                    "diff"@,
                    "--internal"@,
                    "--unified"@,
                ],
                _ => false,
            },
            DiffType::HeadToIndex => match r {
                Ok(DiffStep::Done(text)) => text@.len() == 0,
                _ => false,
            },
            DiffType::MergeBase { .. } => r is Err && r->Err_0.deep_view()
                == FossilErrorView::MergeBaseDiffUnsupported,
        },
{
    match diff_type {
        DiffType::HeadToWorktree => Ok(
            DiffStep::Run(three_args("diff", "--internal", "--unified")),
        ),
        DiffType::HeadToIndex => Ok(DiffStep::Done(String::new())),
        DiffType::MergeBase { .. } => Err(FossilError::MergeBaseDiffUnsupported),
    }
}

// ---------------------------------------------------------------------------
// What the backend does not do
// ---------------------------------------------------------------------------

/// An operation that `fossil` has no counterpart for.
#[derive(Clone, Copy, Debug, PartialEq, Eq, Structural)]
pub enum UnsupportedOperation {
    LoadBlobContent,
    SetIndexText,
    RenameBranch,
    DeleteBranch,
    RenameWorktree,
    Reset,
    StagePaths,
    UnstagePaths,
    RemoveRemote,
    CreateRemote,
    Checkpoint,
    RestoreCheckpoint,
    CreateArchiveCheckpoint,
    RestoreArchiveCheckpoint,
    CompareCheckpoints,
    DiffCheckpoints,
    FileHistoryChangedFiles,
    UpdateRef,
    DeleteRef,
    RepairWorktrees,
}

/// The words for an operation.
pub open spec fn operation_name(operation: UnsupportedOperation) -> Seq<char> {
    match operation {
        UnsupportedOperation::LoadBlobContent => "loading blobs by Git object ID"@,
        UnsupportedOperation::SetIndexText => "writing index entries"@,
        UnsupportedOperation::RenameBranch => "renaming branches"@,
        UnsupportedOperation::DeleteBranch => "deleting branches"@,
        UnsupportedOperation::RenameWorktree => "renaming worktrees"@,
        UnsupportedOperation::Reset => "reset"@,
        UnsupportedOperation::StagePaths => "Git-style staging"@,
        UnsupportedOperation::UnstagePaths => "Git-style unstaging"@,
        UnsupportedOperation::RemoveRemote => "removing remotes"@,
        UnsupportedOperation::CreateRemote => "creating remotes"@,
        UnsupportedOperation::Checkpoint => "checkpoints"@,
        UnsupportedOperation::RestoreCheckpoint => "restoring checkpoints"@,
        UnsupportedOperation::CreateArchiveCheckpoint => "archive checkpoints"@,
        UnsupportedOperation::RestoreArchiveCheckpoint => "restoring archive checkpoints"@,
        UnsupportedOperation::CompareCheckpoints => "comparing checkpoints"@,
        UnsupportedOperation::DiffCheckpoints => "diffing checkpoints"@,
        UnsupportedOperation::FileHistoryChangedFiles => "file history changed files"@,
        UnsupportedOperation::UpdateRef => "updating refs"@,
        UnsupportedOperation::DeleteRef => "deleting refs"@,
        UnsupportedOperation::RepairWorktrees => "repairing worktrees"@,
    }
}

impl UnsupportedOperation {
    /// The words for the operation.
    pub fn name(self) -> (r: &'static str)
        ensures
            r@ == operation_name(self),
    {
        match self {
            UnsupportedOperation::LoadBlobContent => "loading blobs by Git object ID",
            UnsupportedOperation::SetIndexText => "writing index entries",
            UnsupportedOperation::RenameBranch => "renaming branches",
            UnsupportedOperation::DeleteBranch => "deleting branches",
            UnsupportedOperation::RenameWorktree => "renaming worktrees",
            UnsupportedOperation::Reset => "reset",
            UnsupportedOperation::StagePaths => "Git-style staging",
            UnsupportedOperation::UnstagePaths => "Git-style unstaging",
            UnsupportedOperation::RemoveRemote => "removing remotes",
            UnsupportedOperation::CreateRemote => "creating remotes",
            UnsupportedOperation::Checkpoint => "checkpoints",
            UnsupportedOperation::RestoreCheckpoint => "restoring checkpoints",
            UnsupportedOperation::CreateArchiveCheckpoint => "archive checkpoints",
            UnsupportedOperation::RestoreArchiveCheckpoint => "restoring archive checkpoints",
            UnsupportedOperation::CompareCheckpoints => "comparing checkpoints",
            UnsupportedOperation::DiffCheckpoints => "diffing checkpoints",
            UnsupportedOperation::FileHistoryChangedFiles => "file history changed files",
            UnsupportedOperation::UpdateRef => "updating refs",
            UnsupportedOperation::DeleteRef => "deleting refs",
            UnsupportedOperation::RepairWorktrees => "repairing worktrees",
        }
    }
}

/// The error for an operation that is not supported.
pub fn unsupported(operation: UnsupportedOperation) -> (r: FossilError)
    ensures
        r.deep_view() == FossilErrorView::Unsupported(operation_name(operation)),
        crate::error::error_message(r.deep_view()) == "Fossil backend does not support "@
            + operation_name(operation) + " yet"@,
{
    FossilError::Unsupported(operation.name().to_owned())
}

} // verus!
