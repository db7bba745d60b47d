use fossil_git::error::{fossil_binary_not_found_error, FossilError};
use fossil_git::operations::{unsupported, UnsupportedOperation};
use fossil_git::{FOSSIL_BINARY_NAME, FOSSIL_BINARY_NOT_FOUND_MESSAGE};

#[test]
fn a_missing_executable_is_told_clearly() {
    assert_eq!(FOSSIL_BINARY_NAME, "fossil");
    assert_eq!(
        fossil_binary_not_found_error().message(),
        FOSSIL_BINARY_NOT_FOUND_MESSAGE
    );
    assert_eq!(
        FOSSIL_BINARY_NOT_FOUND_MESSAGE,
        "Fossil executable not found. Install Fossil and make sure the `fossil` command is available on PATH."
    );
}

#[test]
fn every_error_has_its_words() {
    let text = || "x".to_string();
    let cases = [
        (FossilError::NoCheckoutParent, "Fossil checkout database has no parent directory"),
        (FossilError::InvalidOidText, "parsing git oid"),
        (FossilError::InvalidOidBytes, "failed to parse bytes into git oid"),
        (FossilError::MissingCheckInHash, "missing Fossil check-in hash"),
        (
            FossilError::CommitInfo(text()),
            "parsing Fossil info for x: missing Fossil check-in hash",
        ),
        (
            FossilError::HashNotOid(text()),
            "Fossil check-in hash cannot be represented as an OID: x",
        ),
        (FossilError::CheckoutHashUnavailable, "Fossil checkout hash is unavailable"),
        (FossilError::RepositoryUnavailable, "Fossil repository path is unavailable"),
        (FossilError::AmendUnsupported, "Fossil check-ins do not support amend yet"),
        (FossilError::SignoffUnsupported, "Fossil check-ins do not support signoff yet"),
        (
            FossilError::UnresolvedConflict(text()),
            "Cannot check in unresolved Fossil conflict at x",
        ),
        (FossilError::NoRecordedRename(text()), "No recorded Fossil rename found for x"),
        (FossilError::ForcePushUnsupported, "Fossil sync does not support force-push"),
        (FossilError::RebaseUnsupported, "Fossil update does not support rebase"),
        (
            FossilError::MergeBaseDiffUnsupported,
            "Fossil backend does not support merge-base diffs yet",
        ),
        (FossilError::NoRemote, "No Fossil remote is configured"),
        (FossilError::UrlRequired, "Fossil repository URL is required"),
        (FossilError::PathExists(text()), "Path already exists: x"),
        (
            FossilError::RepositoryMissing(text()),
            "Fossil repository database does not exist: x",
        ),
        (FossilError::CheckoutMissing(text()), "Checkout directory does not exist: x"),
        (FossilError::NoDirectoryParent, "checkout directory has no parent"),
        (FossilError::SetupCommand(text()), "fossil command failed: x"),
        (FossilError::AbsolutePath(text()), "absolute path not allowed: x"),
        (FossilError::PathNotRelative(text()), "path is not relative: x"),
        (FossilError::Other(text()), "x"),
        (
            FossilError::Command { stdout: "out\n".to_string(), stderr: "err".to_string() },
            "Fossil command failed:\nout\nerr\n",
        ),
    ];
    for (error, message) in cases {
        assert_eq!(error.message(), message);
        assert_eq!(error.clone(), error);
    }
}

#[test]
fn unsupported_operations_are_named() {
    let cases = [
        (UnsupportedOperation::LoadBlobContent, "loading blobs by Git object ID"),
        (UnsupportedOperation::SetIndexText, "writing index entries"),
        (UnsupportedOperation::RenameBranch, "renaming branches"),
        (UnsupportedOperation::DeleteBranch, "deleting branches"),
        (UnsupportedOperation::RenameWorktree, "renaming worktrees"),
        (UnsupportedOperation::Reset, "reset"),
        (UnsupportedOperation::StagePaths, "Git-style staging"),
        (UnsupportedOperation::UnstagePaths, "Git-style unstaging"),
        (UnsupportedOperation::RemoveRemote, "removing remotes"),
        (UnsupportedOperation::CreateRemote, "creating remotes"),
        (UnsupportedOperation::Checkpoint, "checkpoints"),
        (UnsupportedOperation::RestoreCheckpoint, "restoring checkpoints"),
        (UnsupportedOperation::CreateArchiveCheckpoint, "archive checkpoints"),
        (UnsupportedOperation::RestoreArchiveCheckpoint, "restoring archive checkpoints"),
        (UnsupportedOperation::CompareCheckpoints, "comparing checkpoints"),
        (UnsupportedOperation::DiffCheckpoints, "diffing checkpoints"),
        (UnsupportedOperation::FileHistoryChangedFiles, "file history changed files"),
        (UnsupportedOperation::UpdateRef, "updating refs"),
        (UnsupportedOperation::DeleteRef, "deleting refs"),
        (UnsupportedOperation::RepairWorktrees, "repairing worktrees"),
    ];
    for (operation, name) in cases {
        assert_eq!(
            unsupported(operation).message(),
            format!("Fossil backend does not support {name} yet")
        );
    }
}
