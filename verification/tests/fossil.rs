use fossil_git::blame::parse_fossil_blame_line;
use fossil_git::branch::{fossil_branches, parse_fossil_branch_list_line};
use fossil_git::changes::{
    filter_scoped_fossil_extras, fossil_changes_to_status, parse_fossil_changes_with_kind,
    GitStatus, StatusRename,
};
use fossil_git::check_in::{
    fossil_output_reports_unsupported_no_verify_comment,
    run_fossil_commit_with_legacy_comment_verification_fallback,
};
use fossil_git::commit::fossil_commit_info;
use fossil_git::diff::parse_fossil_unified_diff;
use fossil_git::error::FossilError;
use fossil_git::info::{parse_fossil_commit_info, parse_fossil_info};
use fossil_git::numstat::{parse_fossil_numstat, DiffStat};
use fossil_git::oid::fossil_stash_id_from_oid;
use fossil_git::path::{PathStyle, RepoPath};
use fossil_git::remote::{
    fossil_sync_args, parse_fossil_default_remote, parse_fossil_remote_list, sync_after_default,
    sync_after_list, SyncStep,
};
use fossil_git::setup::{checkout_name_from_url, repository_db_for_checkout};
use fossil_git::stash::parse_fossil_stash_list;
use fossil_git::status::{FileStatus, StatusCode};
use fossil_git::timeline::parse_fossil_timeline_entries;
use fossil_git::worktree::parse_fossil_verbose_checkouts;
use std::path::{Path, PathBuf};

fn lookup(status: &GitStatus, path: &str) -> Option<FileStatus> {
    status
        .entries
        .iter()
        .find(|(repo_path, _)| repo_path == &RepoPath::new(path).unwrap())
        .map(|(_, status)| *status)
}

#[test]
fn parses_fossil_info_checkout() {
    let info = parse_fossil_info(
        "project-name: demo\nrepository:   /tmp/repo.fossil\nlocal-root:   /tmp/checkout/\ncheckout:     abc123 2026-05-12 10:00:00 UTC\n",
        PathStyle::Posix,
    );
    assert_eq!(info.checkout.as_deref(), Some("abc123"));
    assert_eq!(
        info.repository.as_deref().map(Path::new),
        Some(Path::new("/tmp/repo.fossil"))
    );
    assert_eq!(
        info.local_root.as_deref().map(Path::new),
        Some(Path::new("/tmp/checkout"))
    );
}

#[test]
fn parses_fossil_changes() {
    let status = fossil_changes_to_status(parse_fossil_changes_with_kind(
        "EDITED src/main.rs\nADDED new file.txt\nDELETED old.rs\nEXTRA scratch.txt\nCONFLICT both.rs\n",
        PathStyle::Posix,
    ));

    assert_eq!(lookup(&status, "src/main.rs"), Some(StatusCode::Modified.worktree()));
    assert_eq!(lookup(&status, "new file.txt"), Some(StatusCode::Added.worktree()));
    assert_eq!(lookup(&status, "old.rs"), Some(StatusCode::Deleted.worktree()));
    assert_eq!(lookup(&status, "scratch.txt"), Some(FileStatus::Untracked));
    assert!(lookup(&status, "both.rs").unwrap().is_conflicted());
}

#[test]
fn parses_fossil_renamed_changes_with_target_path() {
    let status = fossil_changes_to_status(parse_fossil_changes_with_kind(
        "RENAMED old.rs  ->  new.rs\nEDITED src/old name.rs  ->  src/new name.rs\n",
        PathStyle::Posix,
    ));

    assert_eq!(lookup(&status, "old.rs"), None);
    assert_eq!(lookup(&status, "new.rs"), Some(StatusCode::Renamed.worktree()));
    assert_eq!(
        lookup(&status, "src/new name.rs"),
        Some(StatusCode::Modified.worktree())
    );
    assert_eq!(
        status.renames,
        [
            StatusRename {
                source: RepoPath::new("old.rs").unwrap(),
                target: RepoPath::new("new.rs").unwrap(),
            },
            StatusRename {
                source: RepoPath::new("src/old name.rs").unwrap(),
                target: RepoPath::new("src/new name.rs").unwrap(),
            },
        ]
    );
}

#[test]
fn filters_ignored_fossil_extras_from_scoped_status() {
    let scoped_changes = parse_fossil_changes_with_kind(
        "EXTRA ignored.txt\nEXTRA scratch.txt\nEDITED tracked.txt\n",
        PathStyle::Posix,
    );
    let unscoped_changes = parse_fossil_changes_with_kind(
        "EXTRA scratch.txt\nEDITED tracked.txt\n",
        PathStyle::Posix,
    );
    let status =
        fossil_changes_to_status(filter_scoped_fossil_extras(scoped_changes, unscoped_changes));

    assert_eq!(lookup(&status, "ignored.txt"), None);
    assert_eq!(lookup(&status, "scratch.txt"), Some(FileStatus::Untracked));
    assert_eq!(lookup(&status, "tracked.txt"), Some(StatusCode::Modified.worktree()));
}

#[test]
fn parses_fossil_numstat() {
    let stats = parse_fossil_numstat(
        "  INSERTED    DELETED\n         1          2 tracked.txt\n         3          4 dir/file with spaces.txt\n         4          6 TOTAL over 2 changed files\n",
        PathStyle::Posix,
    );

    let lookup = |path: &str| -> Option<DiffStat> {
        stats
            .entries
            .iter()
            .find(|(repo_path, _)| repo_path == &RepoPath::new(path).unwrap())
            .map(|(_, stat)| *stat)
    };

    assert_eq!(lookup("tracked.txt").unwrap().added, 1);
    assert_eq!(lookup("tracked.txt").unwrap().deleted, 2);
    assert_eq!(lookup("dir/file with spaces.txt").unwrap().added, 3);
    assert_eq!(lookup("dir/file with spaces.txt").unwrap().deleted, 4);
    assert_eq!(stats.entries.len(), 2);
}

#[test]
fn parses_fossil_branch_lines() {
    assert_eq!(
        parse_fossil_branch_list_line("* trunk").as_deref(),
        Some("trunk")
    );
    assert_eq!(
        parse_fossil_branch_list_line("  # private").as_deref(),
        Some("private")
    );
    assert_eq!(parse_fossil_branch_list_line("   "), None);
}

#[test]
fn fossil_branches_fall_back_to_checkout_tags() {
    let checkout = "1234567890abcdef1234567890abcdef12345678";
    let info = parse_fossil_info(
        &format!("checkout:     {checkout} 2026-05-13 06:44:31 UTC"),
        PathStyle::Posix,
    );
    assert_eq!(info.checkout.as_deref(), Some(checkout));
    let info = fossil_commit_info(
        checkout,
        &format!(
            "hash:         {checkout} 2026-05-13 06:44:31 UTC\ntags:         sym-trunk, feature\ncomment:      from tags (user: tester)\n"
        ),
    )
    .unwrap();

    let branches = fossil_branches(&Some(info), &None, "").branches;
    assert_eq!(branches.len(), 1);
    assert_eq!(branches[0].name(), "feature");
    assert!(branches[0].is_head);
    let commit = branches[0].most_recent_commit.as_ref().unwrap();
    assert_eq!(commit.sha, "1234567890abcdef1234567890abcdef12345678");
    assert_eq!(commit.subject, "from tags");
    assert_eq!(commit.author_name, "tester");
}

#[test]
fn detects_legacy_fossil_comment_verification_flag_error() {
    assert!(fossil_output_reports_unsupported_no_verify_comment(
        "",
        "unrecognized command-line option or missing argument: --no-verify-comment\n",
    ));
    assert!(!fossil_output_reports_unsupported_no_verify_comment(
        "",
        "unrecognized command-line option or missing argument: --allow-empty\n",
    ));
    assert!(!fossil_output_reports_unsupported_no_verify_comment(
        "",
        "check-in comment rejected by policy\n",
    ));
}

#[test]
fn fossil_commit_retries_without_legacy_comment_verification_flag() {
    let args: Vec<String> = ["commit", "--comment", "message", "--no-verify-comment"]
        .iter()
        .map(|arg| arg.to_string())
        .collect();
    let captured_args = run_fossil_commit_with_legacy_comment_verification_fallback(
        &args,
        FossilError::Command {
            stdout: String::new(),
            stderr: "unrecognized command-line option or missing argument: --no-verify-comment\n"
                .to_string(),
        },
    )
    .unwrap();
    assert_eq!(captured_args, ["commit", "--comment", "message"]);

    let error = run_fossil_commit_with_legacy_comment_verification_fallback(
        &args,
        FossilError::Command {
            stdout: String::new(),
            stderr: "nothing has changed\n".to_string(),
        },
    )
    .unwrap_err();
    assert_eq!(error.message(), "Fossil command failed:\nnothing has changed\n\n");
}

#[test]
fn parses_fossil_remote_and_checkout_metadata() {
    let remotes = parse_fossil_remote_list(
        "default            https://example.com/default\norigin             https://example.com/repo\n",
    );
    assert_eq!(remotes[0].name, "default");
    assert_eq!(remotes[0].url, "https://example.com/default");
    assert_eq!(remotes[1].name, "origin");
    assert_eq!(remotes[1].url, "https://example.com/repo");
    assert_eq!(
        parse_fossil_default_remote("https://example.com/default\n").as_deref(),
        Some("https://example.com/default")
    );
    assert_eq!(parse_fossil_default_remote("off\n"), None);

    let checkouts = parse_fossil_verbose_checkouts(
        "check-out:    /tmp/checkout1/           2026-05-13\ncheck-out:    /tmp/checkout2/           2026-05-13\n",
        PathStyle::Posix,
    );
    assert_eq!(
        checkouts.iter().map(PathBuf::from).collect::<Vec<_>>(),
        vec![
            PathBuf::from("/tmp/checkout1"),
            PathBuf::from("/tmp/checkout2")
        ]
    );
    let checkouts = parse_fossil_verbose_checkouts(
        "check-out:    /tmp/Card School/card.school/           2026-05-14\n",
        PathStyle::Posix,
    );
    assert_eq!(
        checkouts.iter().map(PathBuf::from).collect::<Vec<_>>(),
        vec![PathBuf::from("/tmp/Card School/card.school")]
    );
}

/// Runs the steps of a sync against fixed outputs of `fossil remote` and
/// `fossil remote list`.
fn sync(name: Option<&str>, default: &str, list: &str) -> Result<Vec<String>, FossilError> {
    match fossil_sync_args(name) {
        SyncStep::Sync(args) => Ok(args),
        SyncStep::AskDefault => match sync_after_default(default) {
            SyncStep::Sync(args) => Ok(args),
            SyncStep::AskList => sync_after_list(list),
            SyncStep::AskDefault => panic!("asked twice"),
        },
        SyncStep::AskList => panic!("the default comes first"),
    }
}

#[test]
fn fossil_sync_uses_explicit_remote() {
    let list = "origin https://example.com/repo\n";
    assert_eq!(
        sync(None, "https://example.com/default", list).unwrap(),
        vec!["sync".to_string(), "https://example.com/default".to_string()]
    );
    assert_eq!(
        sync(None, "off", list).unwrap(),
        vec!["sync".to_string(), "origin".to_string()]
    );
    assert_eq!(sync(Some("mirror"), "off", list).unwrap(), ["sync", "mirror"]);
    assert_eq!(sync(Some("default"), "off", list).unwrap(), ["sync", "origin"]);
    assert_eq!(sync(None, "off", "").unwrap_err(), FossilError::NoRemote);
}

#[test]
fn parses_fossil_history_stash_and_diff_metadata() {
    let info = parse_fossil_commit_info(
        "hash:         1234567890abcdef1234567890abcdef12345678 2026-05-13 06:44:31 UTC\nparent:       abcdef1234567890abcdef1234567890abcdef12 2026-05-13 06:44:01 UTC\ntags:         trunk, release\ncomment:      second commit (user: tester)\n",
    )
    .unwrap();
    assert_eq!(info.hash, "1234567890abcdef1234567890abcdef12345678");
    assert_eq!(
        info.parents,
        vec!["abcdef1234567890abcdef1234567890abcdef12"]
    );
    assert_eq!(info.comment, "second commit");
    assert_eq!(info.user.as_deref(), Some("tester"));
    assert!(info.timestamp > 0);

    let stash = parse_fossil_stash_list(
        "    2: [1234567890abcd] on 2026-05-13 06:44:06\n       work in progress\n       continued\n",
    )
    .unwrap();
    assert_eq!(stash.entries.len(), 1);
    assert_eq!(stash.entries[0].index, 2);
    assert_eq!(stash.entries[0].message, "work in progress\ncontinued");
    assert_eq!(
        fossil_stash_id_from_oid(&stash.entries[0].oid.to_string()),
        Some(2)
    );

    let diff = parse_fossil_unified_diff(
        "CHANGED a.txt\n--- a.txt\n+++ a.txt\n@@ -1,2 +1,2 @@\n one\n-two\n+three\nADDED b.txt\nIndex: b.txt\n==================================================================\n--- /dev/null\n+++ b.txt\n@@ -0,0 +1,1 @@\n+new\n",
        PathStyle::Posix,
    )
    .unwrap();
    assert_eq!(diff.stats, Some((2, 1)));
    assert_eq!(diff.files.len(), 2);
    assert_eq!(diff.files[0].path, RepoPath::new("a.txt").unwrap());
    assert_eq!(diff.files[0].old_text.as_deref(), Some("one\ntwo\n"));
    assert_eq!(diff.files[0].new_text.as_deref(), Some("one\nthree\n"));
    assert_eq!(diff.files[1].old_text, None);
    assert_eq!(diff.files[1].new_text.as_deref(), Some("new\n"));

    let timeline = parse_fossil_timeline_entries(
        "1234567890abcdef1234567890abcdef12345678\t2026-05-13 06:44:31\ttester\tsecond\ttrunk\ttrunk\n+++ no more data (1) +++\n",
    );
    assert_eq!(timeline.len(), 1);
    assert_eq!(timeline[0].author, "tester");

    let blame_line =
        parse_fossil_blame_line(0, "1234567890 2026-05-13        tester: line text").unwrap();
    assert_eq!(blame_line.hash_prefix, "1234567890");
    assert_eq!(blame_line.author, "tester");
    assert_eq!(blame_line.line_number, 0);
}

#[test]
fn derives_checkout_name_from_fossil_urls() {
    assert_eq!(
        checkout_name_from_url("https://fossil-scm.org/home"),
        "home"
    );
    assert_eq!(
        checkout_name_from_url("https://example.com/repo/project.fossil"),
        "project"
    );
    assert_eq!(
        checkout_name_from_url("https://example.com/repo/my project/"),
        "my-project"
    );
    assert_eq!(checkout_name_from_url(""), "repository");
}

#[test]
fn places_new_repository_database_next_to_checkout() {
    let checkout_dir = Path::new("/tmp/project");
    let (parent, name) = repository_db_for_checkout(
        checkout_dir.file_name().and_then(|name| name.to_str()),
        checkout_dir.parent(),
    )
    .unwrap();
    assert_eq!(parent.join(name), PathBuf::from("/tmp/project.fossil"));
}
