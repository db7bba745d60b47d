//! What can go wrong, and how it is told.

use vstd::prelude::*;
use vstd::string::*;

verus! {

/// An error of the Fossil backend.
#[derive(Debug, PartialEq, Eq)]
pub enum FossilError {
    /// No `fossil` executable could be found.
    BinaryNotFound,
    /// The checkout database lies in no directory.
    NoCheckoutParent,
    /// A text is no object id.
    InvalidOidText,
    /// A byte sequence is no object id.
    InvalidOidBytes,
    /// The output of `fossil info` names no check-in.
    MissingCheckInHash,
    /// The output of `fossil info` for this check-in names no check-in.
    CommitInfo(String),
    /// The hash of this check-in is no object id.
    HashNotOid(String),
    /// The checkout has no check-in.
    CheckoutHashUnavailable,
    /// The checkout names no repository database.
    RepositoryUnavailable,
    /// A check-in cannot amend.
    AmendUnsupported,
    /// A check-in cannot be signed off.
    SignoffUnsupported,
    /// This path is in conflict.
    UnresolvedConflict(String),
    /// This path was not renamed.
    NoRecordedRename(String),
    /// A sync cannot be forced.
    ForcePushUnsupported,
    /// An update cannot rebase.
    RebaseUnsupported,
    /// There is no diff against a merge base.
    MergeBaseDiffUnsupported,
    /// Neither a default remote nor a named one exists.
    NoRemote,
    /// The backend does not support this operation.
    Unsupported(String),
    /// A clone needs a URL.
    UrlRequired,
    /// A path that is to be created exists.
    PathExists(String),
    /// There is no repository database at this path.
    RepositoryMissing(String),
    /// There is no checkout directory at this path.
    CheckoutMissing(String),
    /// The checkout directory lies in no directory.
    NoDirectoryParent,
    /// A `fossil` command that sets up a checkout failed.
    SetupCommand(String),
    /// A `fossil` command failed with this standard output and error.
    Command { stdout: String, stderr: String },
    /// A path that begins at a root lies in no checkout.
    AbsolutePath(String),
    /// A path leaves the checkout.
    PathNotRelative(String),
    /// A failure outside the library, in words.
    Other(String),
}

/// An error, with its texts as character sequences.
pub enum FossilErrorView {
    BinaryNotFound,
    NoCheckoutParent,
    InvalidOidText,
    InvalidOidBytes,
    MissingCheckInHash,
    CommitInfo(Seq<char>),
    HashNotOid(Seq<char>),
    CheckoutHashUnavailable,
    RepositoryUnavailable,
    AmendUnsupported,
    SignoffUnsupported,
    UnresolvedConflict(Seq<char>),
    NoRecordedRename(Seq<char>),
    ForcePushUnsupported,
    RebaseUnsupported,
    MergeBaseDiffUnsupported,
    NoRemote,
    Unsupported(Seq<char>),
    UrlRequired,
    PathExists(Seq<char>),
    RepositoryMissing(Seq<char>),
    CheckoutMissing(Seq<char>),
    NoDirectoryParent,
    SetupCommand(Seq<char>),
    Command { stdout: Seq<char>, stderr: Seq<char> },
    AbsolutePath(Seq<char>),
    PathNotRelative(Seq<char>),
    Other(Seq<char>),
}

impl DeepView for FossilError {
    type V = FossilErrorView;

    open spec fn deep_view(&self) -> FossilErrorView {
        match *self {
            FossilError::BinaryNotFound => FossilErrorView::BinaryNotFound,
            FossilError::NoCheckoutParent => FossilErrorView::NoCheckoutParent,
            FossilError::InvalidOidText => FossilErrorView::InvalidOidText,
            FossilError::InvalidOidBytes => FossilErrorView::InvalidOidBytes,
            FossilError::MissingCheckInHash => FossilErrorView::MissingCheckInHash,
            FossilError::CommitInfo(text) => FossilErrorView::CommitInfo(text@),
            FossilError::HashNotOid(text) => FossilErrorView::HashNotOid(text@),
            FossilError::CheckoutHashUnavailable => FossilErrorView::CheckoutHashUnavailable,
            FossilError::RepositoryUnavailable => FossilErrorView::RepositoryUnavailable,
            FossilError::AmendUnsupported => FossilErrorView::AmendUnsupported,
            FossilError::SignoffUnsupported => FossilErrorView::SignoffUnsupported,
            FossilError::UnresolvedConflict(text) => FossilErrorView::UnresolvedConflict(text@),
            FossilError::NoRecordedRename(text) => FossilErrorView::NoRecordedRename(text@),
            FossilError::ForcePushUnsupported => FossilErrorView::ForcePushUnsupported,
            FossilError::RebaseUnsupported => FossilErrorView::RebaseUnsupported,
            FossilError::MergeBaseDiffUnsupported => FossilErrorView::MergeBaseDiffUnsupported,
            FossilError::NoRemote => FossilErrorView::NoRemote,
            FossilError::Unsupported(text) => FossilErrorView::Unsupported(text@),
            FossilError::UrlRequired => FossilErrorView::UrlRequired,
            FossilError::PathExists(text) => FossilErrorView::PathExists(text@),
            FossilError::RepositoryMissing(text) => FossilErrorView::RepositoryMissing(text@),
            FossilError::CheckoutMissing(text) => FossilErrorView::CheckoutMissing(text@),
            FossilError::NoDirectoryParent => FossilErrorView::NoDirectoryParent,
            FossilError::SetupCommand(text) => FossilErrorView::SetupCommand(text@),
            FossilError::Command { stdout, stderr } => FossilErrorView::Command {
                stdout: stdout@,
                stderr: stderr@,
            },
            FossilError::AbsolutePath(text) => FossilErrorView::AbsolutePath(text@),
            FossilError::PathNotRelative(text) => FossilErrorView::PathNotRelative(text@),
            FossilError::Other(text) => FossilErrorView::Other(text@),
        }
    }
}

/// The words for an error.
pub open spec fn error_message(error: FossilErrorView) -> Seq<char> {
    match error {
        FossilErrorView::BinaryNotFound => "Fossil executable not found. Install Fossil and make sure the `fossil` command is available on PATH."@,
        FossilErrorView::NoCheckoutParent => "Fossil checkout database has no parent directory"@,
        FossilErrorView::InvalidOidText => "parsing git oid"@,
        FossilErrorView::InvalidOidBytes => "failed to parse bytes into git oid"@,
        FossilErrorView::MissingCheckInHash => "missing Fossil check-in hash"@,
        FossilErrorView::CommitInfo(text) => "parsing Fossil info for "@ + text + ": missing Fossil check-in hash"@,
        FossilErrorView::HashNotOid(text) => "Fossil check-in hash cannot be represented as an OID: "@ + text,
        FossilErrorView::CheckoutHashUnavailable => "Fossil checkout hash is unavailable"@,
        FossilErrorView::RepositoryUnavailable => "Fossil repository path is unavailable"@,
        FossilErrorView::AmendUnsupported => "Fossil check-ins do not support amend yet"@,
        FossilErrorView::SignoffUnsupported => "Fossil check-ins do not support signoff yet"@,
        FossilErrorView::UnresolvedConflict(text) => "Cannot check in unresolved Fossil conflict at "@ + text,
        FossilErrorView::NoRecordedRename(text) => "No recorded Fossil rename found for "@ + text,
        FossilErrorView::ForcePushUnsupported => "Fossil sync does not support force-push"@,
        FossilErrorView::RebaseUnsupported => "Fossil update does not support rebase"@,
        FossilErrorView::MergeBaseDiffUnsupported => "Fossil backend does not support merge-base diffs yet"@,
        FossilErrorView::NoRemote => "No Fossil remote is configured"@,
        FossilErrorView::Unsupported(text) => "Fossil backend does not support "@ + text + " yet"@,
        FossilErrorView::UrlRequired => "Fossil repository URL is required"@,
        FossilErrorView::PathExists(text) => "Path already exists: "@ + text,
        FossilErrorView::RepositoryMissing(text) => "Fossil repository database does not exist: "@ + text,
        FossilErrorView::CheckoutMissing(text) => "Checkout directory does not exist: "@ + text,
        FossilErrorView::NoDirectoryParent => "checkout directory has no parent"@,
        FossilErrorView::SetupCommand(text) => "fossil command failed: "@ + text,
        FossilErrorView::Command { stdout, stderr } => "Fossil command failed:\n"@ + stdout + stderr + "\n"@,
        FossilErrorView::AbsolutePath(text) => "absolute path not allowed: "@ + text,
        FossilErrorView::PathNotRelative(text) => "path is not relative: "@ + text,
        FossilErrorView::Other(text) => text,
    }
}

/// The value or the error of a result, with texts as character sequences.
pub open spec fn result_view<T: DeepView>(r: Result<T, FossilError>) -> Result<
    T::V,
    FossilErrorView,
> {
    match r {
        Ok(value) => Ok(value.deep_view()),
        Err(error) => Err(error.deep_view()),
    }
}

impl FossilError {
    /// The words for the error.
    pub fn message(&self) -> (r: String)
        ensures
            r@ == error_message(self.deep_view()),
    {
        match self {
            FossilError::BinaryNotFound => "Fossil executable not found. Install Fossil and make sure the `fossil` command is available on PATH.".to_owned(),
            FossilError::NoCheckoutParent => "Fossil checkout database has no parent directory".to_owned(),
            FossilError::InvalidOidText => "parsing git oid".to_owned(),
            FossilError::InvalidOidBytes => "failed to parse bytes into git oid".to_owned(),
            FossilError::MissingCheckInHash => "missing Fossil check-in hash".to_owned(),
            FossilError::CommitInfo(text) => "parsing Fossil info for ".to_owned().concat(text.as_str()).concat(
                ": missing Fossil check-in hash",
            ),
            FossilError::HashNotOid(text) => "Fossil check-in hash cannot be represented as an OID: ".to_owned().concat(text.as_str()),
            FossilError::CheckoutHashUnavailable => "Fossil checkout hash is unavailable".to_owned(),
            FossilError::RepositoryUnavailable => "Fossil repository path is unavailable".to_owned(),
            FossilError::AmendUnsupported => "Fossil check-ins do not support amend yet".to_owned(),
            FossilError::SignoffUnsupported => "Fossil check-ins do not support signoff yet".to_owned(),
            FossilError::UnresolvedConflict(text) => "Cannot check in unresolved Fossil conflict at ".to_owned().concat(text.as_str()),
            FossilError::NoRecordedRename(text) => "No recorded Fossil rename found for ".to_owned().concat(text.as_str()),
            FossilError::ForcePushUnsupported => "Fossil sync does not support force-push".to_owned(),
            FossilError::RebaseUnsupported => "Fossil update does not support rebase".to_owned(),
            FossilError::MergeBaseDiffUnsupported => "Fossil backend does not support merge-base diffs yet".to_owned(),
            FossilError::NoRemote => "No Fossil remote is configured".to_owned(),
            FossilError::Unsupported(text) => "Fossil backend does not support ".to_owned().concat(text.as_str()).concat(
                " yet",
            ),
            FossilError::UrlRequired => "Fossil repository URL is required".to_owned(),
            FossilError::PathExists(text) => "Path already exists: ".to_owned().concat(text.as_str()),
            FossilError::RepositoryMissing(text) => "Fossil repository database does not exist: ".to_owned().concat(text.as_str()),
            FossilError::CheckoutMissing(text) => "Checkout directory does not exist: ".to_owned().concat(text.as_str()),
            FossilError::NoDirectoryParent => "checkout directory has no parent".to_owned(),
            FossilError::SetupCommand(text) => "fossil command failed: ".to_owned().concat(text.as_str()),
            FossilError::Command { stdout, stderr } => "Fossil command failed:\n".to_owned().concat(
                stdout.as_str(),
            ).concat(stderr.as_str()).concat("\n"),
            FossilError::AbsolutePath(text) => "absolute path not allowed: ".to_owned().concat(text.as_str()),
            FossilError::PathNotRelative(text) => "path is not relative: ".to_owned().concat(text.as_str()),
            FossilError::Other(text) => text.clone(),
        }
    }
}

impl Clone for FossilError {
    fn clone(&self) -> (r: FossilError)
        ensures
            r.deep_view() == self.deep_view(),
    {
        match self {
            FossilError::BinaryNotFound => FossilError::BinaryNotFound,
            FossilError::NoCheckoutParent => FossilError::NoCheckoutParent,
            FossilError::InvalidOidText => FossilError::InvalidOidText,
            FossilError::InvalidOidBytes => FossilError::InvalidOidBytes,
            FossilError::MissingCheckInHash => FossilError::MissingCheckInHash,
            FossilError::CommitInfo(text) => FossilError::CommitInfo(text.clone()),
            FossilError::HashNotOid(text) => FossilError::HashNotOid(text.clone()),
            FossilError::CheckoutHashUnavailable => FossilError::CheckoutHashUnavailable,
            FossilError::RepositoryUnavailable => FossilError::RepositoryUnavailable,
            FossilError::AmendUnsupported => FossilError::AmendUnsupported,
            FossilError::SignoffUnsupported => FossilError::SignoffUnsupported,
            FossilError::UnresolvedConflict(text) => FossilError::UnresolvedConflict(text.clone()),
            FossilError::NoRecordedRename(text) => FossilError::NoRecordedRename(text.clone()),
            FossilError::ForcePushUnsupported => FossilError::ForcePushUnsupported,
            FossilError::RebaseUnsupported => FossilError::RebaseUnsupported,
            FossilError::MergeBaseDiffUnsupported => FossilError::MergeBaseDiffUnsupported,
            FossilError::NoRemote => FossilError::NoRemote,
            FossilError::Unsupported(text) => FossilError::Unsupported(text.clone()),
            FossilError::UrlRequired => FossilError::UrlRequired,
            FossilError::PathExists(text) => FossilError::PathExists(text.clone()),
            FossilError::RepositoryMissing(text) => FossilError::RepositoryMissing(text.clone()),
            FossilError::CheckoutMissing(text) => FossilError::CheckoutMissing(text.clone()),
            FossilError::NoDirectoryParent => FossilError::NoDirectoryParent,
            FossilError::SetupCommand(text) => FossilError::SetupCommand(text.clone()),
            FossilError::Command { stdout, stderr } => FossilError::Command {
                stdout: stdout.clone(),
                stderr: stderr.clone(),
            },
            FossilError::AbsolutePath(text) => FossilError::AbsolutePath(text.clone()),
            FossilError::PathNotRelative(text) => FossilError::PathNotRelative(text.clone()),
            FossilError::Other(text) => FossilError::Other(text.clone()),
        }
    }
}

/// The error for a missing executable.
pub fn fossil_binary_not_found_error() -> (r: FossilError)
    ensures
        r.deep_view() == FossilErrorView::BinaryNotFound,
        error_message(r.deep_view()) == crate::FOSSIL_BINARY_NOT_FOUND_MESSAGE@,
{
    FossilError::BinaryNotFound
}

} // verus!
