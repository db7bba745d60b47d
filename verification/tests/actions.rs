use fossil_git::fossil_actions;
use fossil_git::git::{RenameBranch, RestoreFile, RunHook};
use fossil_git::git_actions;

#[test]
fn fossil_action_names_are_first_class() {
    assert_eq!(fossil_actions::CheckIn::name_for_type(), "fossil::CheckIn");
    assert_eq!(
        fossil_actions::GenerateCheckInMessage::name_for_type(),
        "fossil::GenerateCheckInMessage"
    );
    assert_eq!(
        fossil_actions::IncludeFile::name_for_type(),
        "fossil::IncludeFile"
    );
    assert_eq!(
        fossil_actions::ExcludeFile::name_for_type(),
        "fossil::ExcludeFile"
    );
    assert_eq!(
        fossil_actions::ToggleIncluded::name_for_type(),
        "fossil::ToggleIncluded"
    );
    assert_eq!(
        fossil_actions::IncludeRange::name_for_type(),
        "fossil::IncludeRange"
    );
    assert_eq!(
        fossil_actions::IncludeAll::name_for_type(),
        "fossil::IncludeAll"
    );
    assert_eq!(
        fossil_actions::ExcludeAll::name_for_type(),
        "fossil::ExcludeAll"
    );
    assert_eq!(
        fossil_actions::StashTracked::name_for_type(),
        "fossil::StashTracked"
    );
    assert_eq!(
        fossil_actions::PopStash::name_for_type(),
        "fossil::PopStash"
    );
    assert_eq!(
        fossil_actions::ApplyStash::name_for_type(),
        "fossil::ApplyStash"
    );
    assert_eq!(
        fossil_actions::ViewStash::name_for_type(),
        "fossil::ViewStash"
    );
    assert_eq!(
        fossil_actions::RevertFile::name_for_type(),
        "fossil::RevertFile"
    );
    assert_eq!(
        fossil_actions::RevertTrackedFiles::name_for_type(),
        "fossil::RevertTrackedFiles"
    );
    assert_eq!(
        fossil_actions::CleanExtras::name_for_type(),
        "fossil::CleanExtras"
    );
    assert_eq!(fossil_actions::Init::name_for_type(), "fossil::Init");
    assert_eq!(fossil_actions::Clone::name_for_type(), "fossil::Clone");
    assert_eq!(
        fossil_actions::OpenRepository::name_for_type(),
        "fossil::OpenRepository"
    );
    assert_eq!(fossil_actions::Sync::name_for_type(), "fossil::Sync");
    assert_eq!(fossil_actions::Update::name_for_type(), "fossil::Update");
    assert_eq!(
        fossil_actions::Timeline::name_for_type(),
        "fossil::Timeline"
    );
    assert_eq!(
        fossil_actions::FileTimeline::name_for_type(),
        "fossil::FileTimeline"
    );
    assert_eq!(
        fossil_actions::Annotate::name_for_type(),
        "fossil::Annotate"
    );
    assert_eq!(fossil_actions::Blame::name_for_type(), "fossil::Blame");
    assert_eq!(fossil_actions::Branch::name_for_type(), "fossil::Branch");
    assert_eq!(
        fossil_actions::SwitchBranch::name_for_type(),
        "fossil::SwitchBranch"
    );
    assert_eq!(
        fossil_actions::Checkouts::name_for_type(),
        "fossil::Checkouts"
    );
    assert_eq!(
        fossil_actions::SelectRepo::name_for_type(),
        "fossil::SelectRepo"
    );
    assert_eq!(
        fossil_actions::OpenModifiedFiles::name_for_type(),
        "fossil::OpenModifiedFiles"
    );
    assert_eq!(
        fossil_actions::CopyBranchName::name_for_type(),
        "fossil::CopyBranchName"
    );
    assert_eq!(
        fossil_actions::ViewCheckIn::name_for_type(),
        "fossil::ViewCheckIn"
    );
}

#[test]
fn git_action_names_carry_their_namespace() {
    assert_eq!(git_actions::ToggleStaged::name_for_type(), "git::ToggleStaged");
    assert_eq!(git_actions::Clone::name_for_type(), "git::Clone");
    assert_eq!(git_actions::CopyBranchName::name_for_type(), "git::CopyBranchName");
    assert_eq!(RenameBranch::name_for_type(), "git::RenameBranch");
    assert_eq!(RestoreFile::name_for_type(), "git::RestoreFile");
}

#[test]
fn renamed_actions_keep_their_old_names() {
    assert_eq!(git_actions::Restore::deprecated_aliases(), ["editor::RevertSelectedHunks"]);
    assert_eq!(git_actions::Blame::deprecated_aliases(), ["editor::ToggleGitBlame"]);
    assert_eq!(RestoreFile::deprecated_aliases(), ["editor::RevertFile"]);
}

#[test]
fn hooks_are_found_by_their_number() {
    assert_eq!(RunHook::PreCommit.as_str(), "pre-commit");
    assert_eq!(RunHook::PreCommit.to_proto(), 0);
    assert_eq!(RunHook::from_proto(0), Some(RunHook::PreCommit));
    assert_eq!(RunHook::from_proto(1), None);
    assert_eq!(RunHook::from_proto(-1), None);
}

#[test]
fn action_defaults_are_empty() {
    assert_eq!(RenameBranch::default().branch, None);
    assert!(!RestoreFile::default().skip_prompt);
    let rename = RenameBranch { branch: Some("topic".to_string()) };
    assert_eq!(rename.clone(), rename);
}
