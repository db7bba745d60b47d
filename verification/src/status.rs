//! The states that a file of a checkout can be in.

use vstd::prelude::*;

verus! {

/// How a file differs from the check-in.
#[derive(Clone, Copy, Debug, PartialEq, Eq, Structural)]
pub enum StatusCode {
    Modified,
    Added,
    Deleted,
    Renamed,
    Unmodified,
}

/// What one side of a conflict did.
#[derive(Clone, Copy, Debug, PartialEq, Eq, Structural)]
pub enum UnmergedStatusCode {
    Added,
    Deleted,
    Updated,
}

/// What the two sides of a conflict did.
#[derive(Clone, Copy, Debug, PartialEq, Eq, Structural)]
pub struct UnmergedStatus {
    pub first_head: UnmergedStatusCode,
    pub second_head: UnmergedStatusCode,
}

/// How a tracked file differs.
#[derive(Clone, Copy, Debug, PartialEq, Eq, Structural)]
pub struct TrackedStatus {
    pub index_status: StatusCode,
    pub worktree_status: StatusCode,
}

/// The state of a file.
#[derive(Clone, Copy, Debug, PartialEq, Eq, Structural)]
pub enum FileStatus {
    Untracked,
    Unmerged(UnmergedStatus),
    Versioned(TrackedStatus),
}

impl DeepView for FileStatus {
    type V = FileStatus;

    open spec fn deep_view(&self) -> FileStatus {
        *self
    }
}

/// The state of a tracked file that differs only in the checkout.
pub open spec fn in_worktree(code: StatusCode) -> FileStatus {
    FileStatus::Versioned(
        TrackedStatus { index_status: StatusCode::Unmodified, worktree_status: code },
    )
}

/// The state of a file that both sides of a merge changed.
pub open spec fn in_conflict() -> FileStatus {
    FileStatus::Unmerged(
        UnmergedStatus {
            first_head: UnmergedStatusCode::Updated,
            second_head: UnmergedStatusCode::Updated,
        },
    )
}

impl StatusCode {
    /// The state of a tracked file that differs only in the checkout.
    pub fn worktree(self) -> (r: FileStatus)
        ensures
            r == in_worktree(self),
    {
        FileStatus::Versioned(
            TrackedStatus { index_status: StatusCode::Unmodified, worktree_status: self },
        )
    }
}

impl FileStatus {
    /// Whether the file is in conflict.
    pub fn is_conflicted(self) -> (r: bool)
        ensures
            r == (self is Unmerged),
    {
        match self {
            FileStatus::Unmerged(_) => true,
            _ => false,
        }
    }
}

} // verus!
