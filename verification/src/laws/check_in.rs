//! Laws of check-ins and of the other commands on a checkout.

use crate::changes::{FossilChangeKind, FossilChangeView};
use crate::check_in::{
    author_name, check_in_plan, commit_retry, options_error, paths_of_kind, reports_unsupported,
    without_flag, CheckInPlanView, CommitOptions,
};
use crate::commands::{changes_args, named_paths, numstat_args};
use crate::error::FossilErrorView;
use crate::operations::{
    checkout_files_plan, operation_name, stash_args, stash_pop_plan, stash_save_args,
    without_final_newline, UnsupportedOperation,
};
use crate::text::{contains, trim};
use vstd::prelude::*;

verus! {

// ---------------------------------------------------------------------------
// Checking in
// ---------------------------------------------------------------------------

/// The paths of the changes of one kind, in order.
pub open spec fn paths_with(all: Seq<FossilChangeView>, kind: FossilChangeKind) -> Seq<Seq<char>> {
    all.filter(|c: FossilChangeView| c.kind == kind).map_values(|c: FossilChangeView| c.repo_path)
}

proof fn lemma_paths_with(all: Seq<FossilChangeView>, kind: FossilChangeKind)
    ensures
        paths_of_kind(all, kind) == paths_with(all, kind),
    decreases all.len(),
{
    reveal(Seq::filter);
    if all.len() > 0 {
        lemma_paths_with(all.drop_last(), kind);
        let f = |c: FossilChangeView| c.kind == kind;
        let before = all.drop_last().filter(f);
        if all.last().kind == kind {
            assert(all.filter(f) == before.push(all.last()));
            assert(paths_with(all, kind) =~= paths_with(all.drop_last(), kind).push(
                all.last().repo_path,
            ));
        } else {
            assert(all.filter(f) == before);
        }
    } else {
        assert(paths_with(all, kind) =~= Seq::<Seq<char>>::empty());
    }
}

/// Law: a check-in takes in the extra files, if paths were chosen, and drops the
/// missing ones; then it is made with the message, the user, and the chosen paths.
/// Nothing is taken in or dropped where there is nothing of the kind.
pub proof fn law_commands_of_a_check_in(
    all: Seq<FossilChangeView>,
    message: Seq<char>,
    author: Option<Seq<char>>,
    options: CommitOptions,
    paths: Seq<Seq<char>>,
)
    requires
        !options.amend,
        !options.signoff,
        paths_with(all, FossilChangeKind::Conflict).len() == 0,
    ensures
        ({
            let extras = paths_with(all, FossilChangeKind::Extra);
            let missing = paths_with(all, FossilChangeKind::Missing);
            check_in_plan(all, message, author, options, paths) == Ok::<
                CheckInPlanView,
                FossilErrorView,
            >(
                CheckInPlanView {
                    add: if paths.len() > 0 && extras.len() > 0 {
                        Some(seq!["add"@, "--force"@, "--dotfiles"@] + extras)
                    } else {
                        None
                    },
                    remove: if missing.len() > 0 {
                        Some(seq!["rm"@, "--soft"@] + missing)
                    } else {
                        None
                    },
                    commit: seq![
                        "commit"@,
                        "--comment"@,
                        message,
                        "--no-prompt"@,
                        "--no-warnings"@,
                        "--no-verify-comment"@,
                    ] + (if options.allow_empty {
                        seq!["--allow-empty"@]
                    } else {
                        seq![]
                    }) + (if author is Some {
                        seq!["--user-override"@, author->0]
                    } else {
                        seq![]
                    }) + paths,
                },
            )
        }),
{
    lemma_paths_with(all, FossilChangeKind::Conflict);
    lemma_paths_with(all, FossilChangeKind::Extra);
    lemma_paths_with(all, FossilChangeKind::Missing);
}

/// Law: amending is refused before signing off, and both before a conflict; of
/// several conflicts the first is named.
pub proof fn law_refused_check_ins(
    all: Seq<FossilChangeView>,
    message: Seq<char>,
    author: Option<Seq<char>>,
    options: CommitOptions,
    paths: Seq<Seq<char>>,
)
    ensures
        options.amend ==> check_in_plan(all, message, author, options, paths) == Err::<
            CheckInPlanView,
            FossilErrorView,
        >(FossilErrorView::AmendUnsupported),
        !options.amend && options.signoff ==> check_in_plan(all, message, author, options, paths)
            == Err::<CheckInPlanView, FossilErrorView>(FossilErrorView::SignoffUnsupported),
        !options.amend && !options.signoff && paths_with(all, FossilChangeKind::Conflict).len() > 0
            ==> check_in_plan(all, message, author, options, paths) == Err::<
            CheckInPlanView,
            FossilErrorView,
        >(FossilErrorView::UnresolvedConflict(paths_with(all, FossilChangeKind::Conflict)[0])),
        options_error(options) is None <==> !options.amend && !options.signoff,
        options.amend ==> options_error(options) == Some(FossilErrorView::AmendUnsupported),
        !options.amend && options.signoff ==> options_error(options) == Some(
            FossilErrorView::SignoffUnsupported,
        ),
{
    lemma_paths_with(all, FossilChangeKind::Conflict);
}

/// Law: a check-in is made under the name of its author; the address does not
/// count.
pub proof fn law_author(name: Seq<char>, email: Seq<char>)
    ensures
        author_name(Some((name, email))) == Some(name),
        author_name(None) is None,
{
}

/// Law: a check-in is tried again exactly if the command failed and its output
/// says, on either channel, that the option for comments is not known; then it is
/// tried with all its other arguments. Any other error stays as it is.
pub proof fn law_second_try(
    args: Seq<Seq<char>>,
    error: FossilErrorView,
    stdout: Seq<char>,
    stderr: Seq<char>,
)
    requires
        error == (FossilErrorView::Command { stdout, stderr }),
    ensures
        (contains(stdout, "unrecognized command-line option"@) || contains(
            stderr,
            "unrecognized command-line option"@,
        )) && (contains(stdout, "--no-verify-comment"@) || contains(stderr, "--no-verify-comment"@))
            <==> reports_unsupported(stdout, stderr),
        reports_unsupported(stdout, stderr) ==> commit_retry(args, error) == Ok::<
            Seq<Seq<char>>,
            FossilErrorView,
        >(args.filter(|arg: Seq<char>| arg != "--no-verify-comment"@)),
        !reports_unsupported(stdout, stderr) ==> commit_retry(args, error) == Err::<
            Seq<Seq<char>>,
            FossilErrorView,
        >(error),
{
    lemma_without_flag(args);
}

proof fn lemma_without_flag(args: Seq<Seq<char>>)
    ensures
        without_flag(args) == args.filter(|arg: Seq<char>| arg != "--no-verify-comment"@),
    decreases args.len(),
{
    reveal(Seq::filter);
    if args.len() > 0 {
        lemma_without_flag(args.drop_last());
    } else {
        assert(without_flag(args) =~= args.filter(
            |arg: Seq<char>| arg != "--no-verify-comment"@,
        ));
    }
}

/// Law: an error that is no failed command is not tried again.
pub proof fn law_no_second_try(args: Seq<Seq<char>>, error: FossilErrorView)
    requires
        !(error is Command),
    ensures
        commit_retry(args, error) == Err::<Seq<Seq<char>>, FossilErrorView>(error),
{
}

// ---------------------------------------------------------------------------
// Asking for changes
// ---------------------------------------------------------------------------

/// Law: changes and line counts are asked for below every path but the root.
pub proof fn law_asking_for_changes(paths: Seq<Seq<char>>)
    ensures
        changes_args(paths) == seq![
            "changes"@,
            "--classify"@,
            "--differ"@,
            "--no-merge"@,
            "--rel-paths"@,
        ] + paths.filter(|p: Seq<char>| p.len() > 0),
        numstat_args(paths) == seq!["diff"@, "--numstat"@] + paths.filter(
            |p: Seq<char>| p.len() > 0,
        ),
{
    lemma_named_paths(paths);
}

proof fn lemma_named_paths(paths: Seq<Seq<char>>)
    ensures
        named_paths(paths) == paths.filter(|p: Seq<char>| p.len() > 0),
    decreases paths.len(),
{
    reveal(Seq::filter);
    if paths.len() > 0 {
        lemma_named_paths(paths.drop_last());
    } else {
        assert(named_paths(paths) =~= paths.filter(|p: Seq<char>| p.len() > 0));
    }
}

// ---------------------------------------------------------------------------
// Other commands
// ---------------------------------------------------------------------------

/// Law: files are put back to the named check-in, or to the one that is checked
/// out if it is `HEAD`; without files nothing is done.
pub proof fn law_putting_files_back(commit: Seq<char>, paths: Seq<Seq<char>>)
    requires
        paths.len() > 0,
    ensures
        checkout_files_plan("HEAD"@, paths) == Some(seq!["revert"@] + paths),
        commit != "HEAD"@ ==> checkout_files_plan(commit, paths) == Some(
            seq!["revert"@, "--revision"@, commit] + paths,
        ),
        checkout_files_plan(commit, seq![]) is None,
{
}

/// Law: changes are stashed under the given comment, or under a standing one if it
/// is missing or blank.
pub proof fn law_stashing(message: Seq<char>, paths: Seq<Seq<char>>)
    ensures
        trim(message).len() > 0 ==> stash_save_args(Some(message), paths) == seq![
            "stash"@,
            "save"@,
            "--comment"@,
            message,
        ] + paths,
        trim(message).len() == 0 ==> stash_save_args(Some(message), paths) == stash_save_args(
            None,
            paths,
        ),
        stash_save_args(None, paths) == seq!["stash"@, "save"@, "--comment"@, "fzed stash"@]
            + paths,
{
}

/// Law: a stash is taken back by its number, or the last one without a number.
/// Popping one by its number applies it and then drops it.
pub proof fn law_taking_stashes_back(n: nat)
    ensures
        ({
            let number = crate::digits::decimal(n);
            &&& stash_args("apply"@, Some(n)) == seq!["stash"@, "apply"@, number]
            &&& stash_args("drop"@, Some(n)) == seq!["stash"@, "drop"@, number]
            &&& stash_args("apply"@, None) == seq!["stash"@, "apply"@]
            &&& stash_args("drop"@, None) == seq!["stash"@, "drop"@]
            &&& stash_pop_plan(Some(n)) == seq![
                seq!["stash"@, "apply"@, number],
                seq!["stash"@, "drop"@, number],
            ]
            &&& stash_pop_plan(None) == seq![seq!["stash"@, "pop"@]]
        }),
{
}

/// Law: exactly one line feed is dropped from the end of an output.
pub proof fn law_final_newline(output: Seq<char>)
    ensures
        without_final_newline(output.push('\n')) == output,
        output.len() == 0 || output.last() != '\n' ==> without_final_newline(output) == output,
{
    assert(output.push('\n').drop_last() =~= output);
}

/// Law: a busy executable is error 26, and is tried three times.
pub proof fn law_busy_executable()
    ensures
        crate::operations::EXECUTABLE_FILE_BUSY == 26,
        crate::operations::EXECUTABLE_FILE_BUSY_RETRY_ATTEMPTS == 3,
{
}

/// Law: an operation that is not supported is named for what it does.
pub proof fn law_unsupported_operations()
    ensures
        operation_name(UnsupportedOperation::LoadBlobContent) == "loading blobs by Git object ID"@,
        operation_name(UnsupportedOperation::SetIndexText) == "writing index entries"@,
        operation_name(UnsupportedOperation::RenameBranch) == "renaming branches"@,
        operation_name(UnsupportedOperation::DeleteBranch) == "deleting branches"@,
        operation_name(UnsupportedOperation::RenameWorktree) == "renaming worktrees"@,
        operation_name(UnsupportedOperation::Reset) == "reset"@,
        operation_name(UnsupportedOperation::StagePaths) == "Git-style staging"@,
        operation_name(UnsupportedOperation::UnstagePaths) == "Git-style unstaging"@,
        operation_name(UnsupportedOperation::RemoveRemote) == "removing remotes"@,
        operation_name(UnsupportedOperation::CreateRemote) == "creating remotes"@,
        operation_name(UnsupportedOperation::Checkpoint) == "checkpoints"@,
        operation_name(UnsupportedOperation::RestoreCheckpoint) == "restoring checkpoints"@,
        operation_name(UnsupportedOperation::CreateArchiveCheckpoint) == "archive checkpoints"@,
        operation_name(UnsupportedOperation::RestoreArchiveCheckpoint) == "restoring archive checkpoints"@,
        operation_name(UnsupportedOperation::CompareCheckpoints) == "comparing checkpoints"@,
        operation_name(UnsupportedOperation::DiffCheckpoints) == "diffing checkpoints"@,
        operation_name(UnsupportedOperation::FileHistoryChangedFiles) == "file history changed files"@,
        operation_name(UnsupportedOperation::UpdateRef) == "updating refs"@,
        operation_name(UnsupportedOperation::DeleteRef) == "deleting refs"@,
        operation_name(UnsupportedOperation::RepairWorktrees) == "repairing worktrees"@,
{
}

} // verus!
