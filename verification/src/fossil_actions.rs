//! The actions on Fossil checkouts.

use vstd::prelude::*;

verus! {

/// Initializes a new Fossil repository and opens a checkout.
#[derive(Debug)]
pub struct Init;

impl Init {
    /// The name of the action.
    pub fn name_for_type() -> (r: &'static str)
        ensures
            r@ == "fossil::Init"@,
    {
        "fossil::Init"
    }
}

/// Clones a remote Fossil repository and opens a checkout.
#[derive(Debug)]
pub struct Clone;

impl Clone {
    /// The name of the action.
    pub fn name_for_type() -> (r: &'static str)
        ensures
            r@ == "fossil::Clone"@,
    {
        "fossil::Clone"
    }
}

/// Opens an existing Fossil repository database into a checkout.
#[derive(Debug)]
pub struct OpenRepository;

impl OpenRepository {
    /// The name of the action.
    pub fn name_for_type() -> (r: &'static str)
        ensures
            r@ == "fossil::OpenRepository"@,
    {
        "fossil::OpenRepository"
    }
}

/// Opens the Fossil check-in modal for the active checkout.
#[derive(Debug)]
pub struct CheckIn;

impl CheckIn {
    /// The name of the action.
    pub fn name_for_type() -> (r: &'static str)
        ensures
            r@ == "fossil::CheckIn"@,
    {
        "fossil::CheckIn"
    }
}

/// Generates a Fossil check-in message using AI.
#[derive(Debug)]
pub struct GenerateCheckInMessage;

impl GenerateCheckInMessage {
    /// The name of the action.
    pub fn name_for_type() -> (r: &'static str)
        ensures
            r@ == "fossil::GenerateCheckInMessage"@,
    {
        "fossil::GenerateCheckInMessage"
    }
}

/// Includes the selected path in the next Fossil check-in.
#[derive(Debug)]
pub struct IncludeFile;

impl IncludeFile {
    /// The name of the action.
    pub fn name_for_type() -> (r: &'static str)
        ensures
            r@ == "fossil::IncludeFile"@,
    {
        "fossil::IncludeFile"
    }
}

/// Excludes the selected path from the next Fossil check-in.
#[derive(Debug)]
pub struct ExcludeFile;

impl ExcludeFile {
    /// The name of the action.
    pub fn name_for_type() -> (r: &'static str)
        ensures
            r@ == "fossil::ExcludeFile"@,
    {
        "fossil::ExcludeFile"
    }
}

/// Toggles whether the selected path is included in the next Fossil check-in.
#[derive(Debug)]
pub struct ToggleIncluded;

impl ToggleIncluded {
    /// The name of the action.
    pub fn name_for_type() -> (r: &'static str)
        ensures
            r@ == "fossil::ToggleIncluded"@,
    {
        "fossil::ToggleIncluded"
    }
}

/// Includes changed paths between the anchor path and the selected path.
#[derive(Debug)]
pub struct IncludeRange;

impl IncludeRange {
    /// The name of the action.
    pub fn name_for_type() -> (r: &'static str)
        ensures
            r@ == "fossil::IncludeRange"@,
    {
        "fossil::IncludeRange"
    }
}

/// Includes all changed paths in the next Fossil check-in.
#[derive(Debug)]
pub struct IncludeAll;

impl IncludeAll {
    /// The name of the action.
    pub fn name_for_type() -> (r: &'static str)
        ensures
            r@ == "fossil::IncludeAll"@,
    {
        "fossil::IncludeAll"
    }
}

/// Excludes all selected paths from the next Fossil check-in.
#[derive(Debug)]
pub struct ExcludeAll;

impl ExcludeAll {
    /// The name of the action.
    pub fn name_for_type() -> (r: &'static str)
        ensures
            r@ == "fossil::ExcludeAll"@,
    {
        "fossil::ExcludeAll"
    }
}

/// Stashes tracked changes in the active Fossil checkout.
#[derive(Debug)]
pub struct StashTracked;

impl StashTracked {
    /// The name of the action.
    pub fn name_for_type() -> (r: &'static str)
        ensures
            r@ == "fossil::StashTracked"@,
    {
        "fossil::StashTracked"
    }
}

/// Pops the most recent Fossil stash.
#[derive(Debug)]
pub struct PopStash;

impl PopStash {
    /// The name of the action.
    pub fn name_for_type() -> (r: &'static str)
        ensures
            r@ == "fossil::PopStash"@,
    {
        "fossil::PopStash"
    }
}

/// Applies the most recent Fossil stash.
#[derive(Debug)]
pub struct ApplyStash;

impl ApplyStash {
    /// The name of the action.
    pub fn name_for_type() -> (r: &'static str)
        ensures
            r@ == "fossil::ApplyStash"@,
    {
        "fossil::ApplyStash"
    }
}

/// Opens the Fossil stash selector.
#[derive(Debug)]
pub struct ViewStash;

impl ViewStash {
    /// The name of the action.
    pub fn name_for_type() -> (r: &'static str)
        ensures
            r@ == "fossil::ViewStash"@,
    {
        "fossil::ViewStash"
    }
}

/// Reverts the selected path in the active Fossil checkout.
#[derive(Debug)]
pub struct RevertFile;

impl RevertFile {
    /// The name of the action.
    pub fn name_for_type() -> (r: &'static str)
        ensures
            r@ == "fossil::RevertFile"@,
    {
        "fossil::RevertFile"
    }
}

/// Reverts tracked checkout changes in the active Fossil checkout.
#[derive(Debug)]
pub struct RevertTrackedFiles;

impl RevertTrackedFiles {
    /// The name of the action.
    pub fn name_for_type() -> (r: &'static str)
        ensures
            r@ == "fossil::RevertTrackedFiles"@,
    {
        "fossil::RevertTrackedFiles"
    }
}

/// Moves Fossil extra files to trash.
#[derive(Debug)]
pub struct CleanExtras;

impl CleanExtras {
    /// The name of the action.
    pub fn name_for_type() -> (r: &'static str)
        ensures
            r@ == "fossil::CleanExtras"@,
    {
        "fossil::CleanExtras"
    }
}

/// Synchronizes the active Fossil checkout with its remote.
#[derive(Debug)]
pub struct Sync;

impl Sync {
    /// The name of the action.
    pub fn name_for_type() -> (r: &'static str)
        ensures
            r@ == "fossil::Sync"@,
    {
        "fossil::Sync"
    }
}

/// Updates the active Fossil checkout.
#[derive(Debug)]
pub struct Update;

impl Update {
    /// The name of the action.
    pub fn name_for_type() -> (r: &'static str)
        ensures
            r@ == "fossil::Update"@,
    {
        "fossil::Update"
    }
}

/// Opens the Fossil timeline for the active checkout.
#[derive(Debug)]
pub struct Timeline;

impl Timeline {
    /// The name of the action.
    pub fn name_for_type() -> (r: &'static str)
        ensures
            r@ == "fossil::Timeline"@,
    {
        "fossil::Timeline"
    }
}

/// Opens the Fossil timeline for the selected path.
#[derive(Debug)]
pub struct FileTimeline;

impl FileTimeline {
    /// The name of the action.
    pub fn name_for_type() -> (r: &'static str)
        ensures
            r@ == "fossil::FileTimeline"@,
    {
        "fossil::FileTimeline"
    }
}

/// Shows Fossil annotation information for the current file.
#[derive(Debug)]
pub struct Annotate;

impl Annotate {
    /// The name of the action.
    pub fn name_for_type() -> (r: &'static str)
        ensures
            r@ == "fossil::Annotate"@,
    {
        "fossil::Annotate"
    }
}

/// Shows Fossil blame information for the current file.
#[derive(Debug)]
pub struct Blame;

impl Blame {
    /// The name of the action.
    pub fn name_for_type() -> (r: &'static str)
        ensures
            r@ == "fossil::Blame"@,
    {
        "fossil::Blame"
    }
}

/// Opens the Fossil branch selector.
#[derive(Debug)]
pub struct Branch;

impl Branch {
    /// The name of the action.
    pub fn name_for_type() -> (r: &'static str)
        ensures
            r@ == "fossil::Branch"@,
    {
        "fossil::Branch"
    }
}

/// Switches the active Fossil checkout to a different branch.
#[derive(Debug)]
pub struct SwitchBranch;

impl SwitchBranch {
    /// The name of the action.
    pub fn name_for_type() -> (r: &'static str)
        ensures
            r@ == "fossil::SwitchBranch"@,
    {
        "fossil::SwitchBranch"
    }
}

/// Opens the Fossil checkout selector.
#[derive(Debug)]
pub struct Checkouts;

impl Checkouts {
    /// The name of the action.
    pub fn name_for_type() -> (r: &'static str)
        ensures
            r@ == "fossil::Checkouts"@,
    {
        "fossil::Checkouts"
    }
}

/// Selects a different repository.
#[derive(Debug)]
pub struct SelectRepo;

impl SelectRepo {
    /// The name of the action.
    pub fn name_for_type() -> (r: &'static str)
        ensures
            r@ == "fossil::SelectRepo"@,
    {
        "fossil::SelectRepo"
    }
}

/// Opens all modified files in the active Fossil checkout.
#[derive(Debug)]
pub struct OpenModifiedFiles;

impl OpenModifiedFiles {
    /// The name of the action.
    pub fn name_for_type() -> (r: &'static str)
        ensures
            r@ == "fossil::OpenModifiedFiles"@,
    {
        "fossil::OpenModifiedFiles"
    }
}

/// Copies the current branch name to the clipboard.
#[derive(Debug)]
pub struct CopyBranchName;

impl CopyBranchName {
    /// The name of the action.
    pub fn name_for_type() -> (r: &'static str)
        ensures
            r@ == "fossil::CopyBranchName"@,
    {
        "fossil::CopyBranchName"
    }
}

/// Opens a Fossil check-in by hash.
#[derive(Debug)]
pub struct ViewCheckIn;

impl ViewCheckIn {
    /// The name of the action.
    pub fn name_for_type() -> (r: &'static str)
        ensures
            r@ == "fossil::ViewCheckIn"@,
    {
        "fossil::ViewCheckIn"
    }
}

} // verus!
