use fossil_git::changes::{
    fossil_changes_to_status, parse_fossil_changes_with_kind, record_fossil_rename_args,
    status_after_scoped, status_after_unscoped, undo_fossil_rename_args, FossilChangeKind,
    StatusStep,
};
use fossil_git::check_in::{check_commit_options, commit_paths, fallback_args, CommitOptions};
use fossil_git::commands::{fossil_changes_args, fossil_numstat_args, repo_paths_to_args};
use fossil_git::error::FossilError;
use fossil_git::info::parse_fossil_info;
use fossil_git::numstat::parse_fossil_numstat;
use fossil_git::path::{PathStyle, RepoPath};
use fossil_git::repository::{
    common_macos_fossil_paths, resolve_fossil_binary, BinaryLookup, FossilRepository,
    RepositoryKind,
};
use fossil_git::git::RunHook;
use fossil_git::status::{FileStatus, StatusCode};
use fossil_git::worktree::{
    checkout_branch_in_worktree, create_branch, fossil_checkout_paths, fossil_checkouts_args,
    fossil_create_worktree, fossil_update_args, fossil_worktrees, parse_fossil_verbose_checkouts,
    remove_worktree, Arg, CheckoutPath, CheckoutPaths, CreateWorktreeTarget, LoadedCheckout,
    PathPart,
};

fn path(text: &str) -> RepoPath {
    RepoPath::new(text).unwrap()
}

fn paths(texts: &[&str]) -> Vec<RepoPath> {
    texts.iter().map(|text| path(text)).collect()
}

const OPTIONS: CommitOptions = CommitOptions { amend: false, signoff: false, allow_empty: false };

#[test]
fn paths_have_one_normal_form() {
    assert_eq!(path("a/b").as_unix_str(), "a/b");
    assert_eq!(path("./a//b/./c/../d/").as_unix_str(), "a/b/d");
    assert_eq!(path("././a").as_unix_str(), "a");
    assert_eq!(path("").as_unix_str(), "");
    assert!(path(".").is_empty());
    assert!(!path("a").is_empty());
    assert_eq!(path("a\\b").as_unix_str(), "a\\b");
    let windows = RepoPath::from_std_path(".\\a\\b/c", PathStyle::Windows).unwrap();
    assert_eq!(windows.as_unix_str(), "a/b/c");
    for text in ["a/b", "a/b/d", "", "src/new name.rs"] {
        assert_eq!(path(path(text).as_unix_str()), path(text));
    }
}

#[test]
fn paths_outside_the_checkout_are_refused() {
    assert_eq!(
        RepoPath::new("/a").unwrap_err(),
        FossilError::AbsolutePath("/a".to_string())
    );
    assert_eq!(
        RepoPath::new(".//a").unwrap_err(),
        FossilError::AbsolutePath("/a".to_string())
    );
    assert_eq!(
        RepoPath::new("a/../../b").unwrap_err(),
        FossilError::PathNotRelative("a/../../b".to_string())
    );
    assert!(RepoPath::from_std_path("C:\\a", PathStyle::Windows).is_err());
    assert!(RepoPath::from_std_path("\\a", PathStyle::Windows).is_err());
    assert!(RepoPath::from_std_path("C:\\a", PathStyle::Posix).is_ok());
    assert!(RepoPath::from_std_path("C:a", PathStyle::Windows).is_ok());
}

#[test]
fn changes_are_sorted_and_unique() {
    let changes = parse_fossil_changes_with_kind(
        "EDITED b.txt\nADDED a/z.txt\nDELETED a.txt\nEXTRA b.txt\nUNKNOWN c.txt\n(none)\n\nEDITED\nEDITED /abs\nMISSING a/b\nMETA  x  \n",
        PathStyle::Posix,
    );
    let found: Vec<(&str, FossilChangeKind)> = changes
        .iter()
        .map(|change| (change.repo_path.as_unix_str(), change.kind))
        .collect();
    assert_eq!(
        found,
        [
            ("a/b", FossilChangeKind::Missing),
            ("a/z.txt", FossilChangeKind::Added),
            ("a.txt", FossilChangeKind::Deleted),
            ("b.txt", FossilChangeKind::Modified),
            ("x", FossilChangeKind::Modified),
        ]
    );
}

#[test]
fn line_counts_are_sorted_and_unique() {
    let stats = parse_fossil_numstat(
        "3 4 b\r\n1 2 a\n5 6 b\n+7 8 c\n-1 2 d\n4294967296 0 e\n1 x f\n1 2\n1 2 TOTAL over\n",
        PathStyle::Posix,
    );
    let found: Vec<(&str, u32, u32)> = stats
        .entries
        .iter()
        .map(|(path, stat)| (path.as_unix_str(), stat.added, stat.deleted))
        .collect();
    assert_eq!(found, [("a", 1, 2), ("b", 3, 4), ("c", 7, 8)]);
}

#[test]
fn a_scoped_status_asks_again_only_for_extras() {
    let scope = paths(&["src"]);
    let root = paths(&[""]);
    match status_after_scoped(&scope, "EXTRA src/a\nEDITED src/b\n", PathStyle::Posix) {
        StatusStep::Unscoped { changes, args } => {
            assert_eq!(
                args,
                ["changes", "--classify", "--differ", "--no-merge", "--rel-paths"]
            );
            let status = status_after_unscoped(changes, "EDITED src/b\n", PathStyle::Posix);
            assert_eq!(status.entries.len(), 1);
            assert_eq!(status.entries[0].0, path("src/b"));
        }
        StatusStep::Done(_) => panic!("an extra file may be ignored"),
    }
    match status_after_scoped(&scope, "EDITED src/b\n", PathStyle::Posix) {
        StatusStep::Done(status) => assert_eq!(status.entries.len(), 1),
        StatusStep::Unscoped { .. } => panic!("there is no extra file"),
    }
    match status_after_scoped(&root, "EXTRA a\n", PathStyle::Posix) {
        StatusStep::Done(status) => {
            assert_eq!(status.entries[0].1, FileStatus::Untracked);
        }
        StatusStep::Unscoped { .. } => panic!("the root is no scope"),
    }
}

#[test]
fn the_root_is_no_path_argument() {
    assert_eq!(
        fossil_changes_args(&paths(&["", "a", "./", "b/c"])),
        ["changes", "--classify", "--differ", "--no-merge", "--rel-paths", "a", "b/c"]
    );
    assert_eq!(fossil_numstat_args(&paths(&["", "a"])), ["diff", "--numstat", "a"]);
    assert_eq!(repo_paths_to_args(&paths(&["", "a"])), ["", "a"]);
}

#[test]
fn renames_are_recorded_and_undone() {
    assert_eq!(
        record_fossil_rename_args(&path("old.txt"), &path("new.txt")),
        ["rename", "old.txt", "new.txt"]
    );
    let output = "RENAMED  old.txt  ->  new.txt\nEDITED other.txt\n";
    assert_eq!(
        undo_fossil_rename_args(output, &path("new.txt"), PathStyle::Posix).unwrap(),
        ["rename", "new.txt", "old.txt"]
    );
    let after = fossil_changes_to_status(parse_fossil_changes_with_kind(
        "MISSING old.txt\nEXTRA new.txt\n",
        PathStyle::Posix,
    ));
    assert!(after.renames.is_empty());
    assert_eq!(after.entries[0], (path("new.txt"), FileStatus::Untracked));
    assert_eq!(after.entries[1], (path("old.txt"), StatusCode::Deleted.worktree()));
    for name in ["old.txt", "other.txt"] {
        assert_eq!(
            undo_fossil_rename_args(output, &path(name), PathStyle::Posix).unwrap_err(),
            FossilError::NoRecordedRename(name.to_string())
        );
    }
}

#[test]
fn a_check_in_takes_in_extras_and_drops_missing_files() {
    let author = Some(("tester".to_string(), "tester@example.com".to_string()));
    let output = "EXTRA extra.txt\nMISSING gone.txt\nEDITED a.txt\n";
    let plan = commit_paths(
        output,
        "selected extra",
        &author,
        &OPTIONS,
        &paths(&["extra.txt", "gone.txt"]),
        PathStyle::Posix,
    )
    .unwrap();
    assert_eq!(plan.add.unwrap(), ["add", "--force", "--dotfiles", "extra.txt"]);
    assert_eq!(plan.remove.unwrap(), ["rm", "--soft", "gone.txt"]);
    assert_eq!(
        plan.commit,
        [
            "commit",
            "--comment",
            "selected extra",
            "--no-prompt",
            "--no-warnings",
            "--no-verify-comment",
            "--user-override",
            "tester",
            "extra.txt",
            "gone.txt",
        ]
    );

    let options = CommitOptions { allow_empty: true, ..OPTIONS };
    let plan =
        commit_paths(output, "all", &None, &options, &Vec::new(), PathStyle::Posix).unwrap();
    assert_eq!(plan.add, None);
    assert_eq!(plan.remove.unwrap(), ["rm", "--soft", "gone.txt"]);
    assert_eq!(
        plan.commit,
        [
            "commit",
            "--comment",
            "all",
            "--no-prompt",
            "--no-warnings",
            "--no-verify-comment",
            "--allow-empty",
        ]
    );
    assert_eq!(
        fallback_args(&plan.commit),
        ["commit", "--comment", "all", "--no-prompt", "--no-warnings", "--allow-empty"]
    );
}

#[test]
fn a_check_in_is_refused() {
    let amend = CommitOptions { amend: true, signoff: true, allow_empty: false };
    let signoff = CommitOptions { amend: false, signoff: true, allow_empty: false };
    let check = |options: &CommitOptions, output: &str| {
        commit_paths(output, "m", &None, options, &Vec::new(), PathStyle::Posix)
    };
    assert_eq!(check_commit_options(&amend).unwrap_err(), FossilError::AmendUnsupported);
    assert_eq!(check_commit_options(&signoff).unwrap_err(), FossilError::SignoffUnsupported);
    assert!(check_commit_options(&OPTIONS).is_ok());
    assert_eq!(check(&amend, "").unwrap_err(), FossilError::AmendUnsupported);
    assert_eq!(check(&signoff, "").unwrap_err(), FossilError::SignoffUnsupported);
    assert_eq!(
        check(&OPTIONS, "CONFLICT z.txt\nMISSING a.txt\nCONFLICT both.rs\n").unwrap_err(),
        FossilError::UnresolvedConflict("both.rs".to_string())
    );
    assert!(check(&OPTIONS, "EDITED a.txt\n").is_ok());
}

#[test]
fn checkouts_are_listed_without_their_dates() {
    let output = "project-name: demo\ncheck-out:    /tmp/a b/   2026-05-13\ncheck-out: /tmp/c/ 2026-5-13\ncheck-out:   \ncheckout: /tmp/d 2026-05-13\ncheck-out: /tmp/e//\n";
    assert_eq!(
        parse_fossil_verbose_checkouts(output, PathStyle::Posix),
        ["/tmp/a b", "/tmp/c/ 2026-5-13", "/tmp/e"]
    );
    assert_eq!(
        parse_fossil_verbose_checkouts("check-out: C:\\a\\ 2026-05-13\n", PathStyle::Windows),
        ["C:\\a"]
    );
    assert!(matches!(
        fossil_checkout_paths("", PathStyle::Posix),
        CheckoutPaths::WorkDirectory
    ));
    match fossil_checkout_paths(output, PathStyle::Posix) {
        CheckoutPaths::Listed(paths) => assert_eq!(paths.len(), 3),
        CheckoutPaths::WorkDirectory => panic!("three are listed"),
    }
}

fn parts(text: &str) -> Vec<PathPart> {
    let mut parts = vec![PathPart::RootDir];
    for name in text.split('/').filter(|name| !name.is_empty()) {
        parts.push(PathPart::Normal(name.as_bytes().to_vec()));
    }
    parts
}

fn loaded(text: &str, info: Option<&str>, branch: Option<&str>) -> LoadedCheckout<String> {
    LoadedCheckout {
        path: CheckoutPath { path: text.to_string(), parts: parts(text) },
        info: info.map(str::to_string),
        branch: branch.map(str::to_string),
    }
}

#[test]
fn worktrees_begin_with_the_main_one() {
    let info = parse_fossil_info("checkout: abc\n", PathStyle::Posix);
    let worktrees = fossil_worktrees(
        &info,
        &parts("/tmp/main"),
        vec![
            loaded("/tmp/z", Some("checkout: def 2026-05-13\n"), Some("topic")),
            loaded("/tmp/a-b", None, None),
            loaded("/tmp/main", None, Some("trunk")),
            loaded("/tmp/a/b", None, None),
            loaded("/tmp/z", None, None),
        ],
        PathStyle::Posix,
    );
    let found: Vec<(&str, &str, Option<&str>, bool)> = worktrees
        .iter()
        .map(|tree| {
            (tree.path.path.as_str(), tree.sha.as_str(), tree.ref_name.as_deref(), tree.is_main)
        })
        .collect();
    assert_eq!(
        found,
        [
            ("/tmp/main", "abc", Some("refs/heads/trunk"), true),
            ("/tmp/a/b", "abc", None, false),
            ("/tmp/a-b", "abc", None, false),
            ("/tmp/z", "def", Some("refs/heads/topic"), false),
        ]
    );
    assert!(worktrees.iter().all(|tree| !tree.is_bare));
}

fn texts(args: Vec<Arg<String>>) -> Vec<String> {
    args.into_iter()
        .map(|arg| match arg {
            Arg::Text(text) => text,
            Arg::Path(path) => format!("<{path}>"),
        })
        .collect()
}

#[test]
fn worktrees_are_opened_and_closed() {
    let info = parse_fossil_info("repository: /tmp/r.fossil\n", PathStyle::Posix);
    let unknown = parse_fossil_info("", PathStyle::Posix);
    assert_eq!(
        fossil_checkouts_args(&info).unwrap(),
        ["info", "--verbose", "/tmp/r.fossil"]
    );
    assert_eq!(fossil_checkouts_args(&unknown), None);

    let existing =
        CreateWorktreeTarget::ExistingBranch { branch_name: "refs/heads/topic".to_string() };
    let plan = fossil_create_worktree(&info, &existing, "p".to_string()).unwrap();
    assert_eq!(plan.new_branch, None);
    assert_eq!(texts(plan.open), ["open", "/tmp/r.fossil", "topic", "--workdir", "<p>"]);

    let new = CreateWorktreeTarget::NewBranch {
        branch_name: "topic".to_string(),
        base_sha: Some("abc".to_string()),
    };
    let plan = fossil_create_worktree(&info, &new, "p".to_string()).unwrap();
    assert_eq!(plan.new_branch.unwrap(), ["branch", "new", "topic", "abc"]);
    assert_eq!(texts(plan.open), ["open", "/tmp/r.fossil", "topic", "--workdir", "<p>"]);

    let detached = CreateWorktreeTarget::Detached { base_sha: None };
    let plan = fossil_create_worktree(&info, &detached, "p".to_string()).unwrap();
    assert_eq!(plan.new_branch, None);
    assert_eq!(texts(plan.open), ["open", "/tmp/r.fossil", "--workdir", "<p>"]);
    assert_eq!(
        fossil_create_worktree(&unknown, &detached, "p".to_string()).unwrap_err(),
        FossilError::RepositoryUnavailable
    );

    assert_eq!(remove_worktree(true, false).unwrap(), ["close"]);
    assert_eq!(remove_worktree(true, true).unwrap(), ["close", "--force"]);
    assert_eq!(remove_worktree(false, false).unwrap(), ["close"]);
    assert_eq!(remove_worktree(false, true), None);
}

#[test]
fn branches_are_made_and_switched() {
    assert_eq!(fossil_update_args("refs/heads/trunk"), ["update", "trunk"]);
    assert_eq!(
        create_branch("topic", None),
        [vec!["branch", "new", "topic", "current"], vec!["update", "topic"]]
    );
    assert_eq!(
        create_branch("topic", Some("refs/heads/trunk")),
        [vec!["branch", "new", "topic", "trunk"], vec!["update", "topic"]]
    );
    assert_eq!(checkout_branch_in_worktree("topic", false), [vec!["update", "topic"]]);
    assert_eq!(
        checkout_branch_in_worktree("refs/heads/topic", true),
        [vec!["branch", "new", "topic", "current"], vec!["update", "topic"]]
    );
}

#[test]
fn the_executable_is_looked_for_in_order() {
    let first = resolve_fossil_binary(Some("/bin"));
    assert!(matches!(first, BinaryLookup::InSearchPaths));
    let second = first.after_miss(true);
    assert!(matches!(second, BinaryLookup::OnPath));
    match second.after_miss(true) {
        BinaryLookup::AtPaths(found) => {
            assert_eq!(
                found,
                [
                    "/opt/homebrew/bin/fossil",
                    "/usr/local/bin/fossil",
                    "/opt/local/bin/fossil",
                    "/sw/bin/fossil",
                ]
            );
            assert_eq!(found, common_macos_fossil_paths());
            assert!(matches!(
                BinaryLookup::AtPaths(found).after_miss(true),
                BinaryLookup::Failed(FossilError::BinaryNotFound)
            ));
        }
        _ => panic!("macOS has common paths"),
    }
    assert!(matches!(resolve_fossil_binary(Some("")), BinaryLookup::OnPath));
    assert!(matches!(resolve_fossil_binary(None), BinaryLookup::OnPath));
    assert!(matches!(
        resolve_fossil_binary(None).after_miss(false),
        BinaryLookup::Failed(FossilError::BinaryNotFound)
    ));
}

#[test]
fn a_repository_remembers_what_it_was_told() {
    let mut repository =
        FossilRepository::new("db", Some("dir"), Ok("/usr/bin/fossil")).unwrap();
    assert_eq!(repository.kind(), RepositoryKind::Fossil);
    assert_eq!(*repository.path(), "db");
    assert_eq!(*repository.main_repository_path(), "db");
    assert_eq!(*repository.work_directory(), "dir");
    assert_eq!(*repository.fossil_binary(), "/usr/bin/fossil");
    assert_eq!(repository.default_branch().as_deref(), Some("trunk"));
    assert!(repository.load_index_text().is_none());
    assert!(repository.merge_message().is_none());
    assert!(repository.load_commit_template().is_none());
    assert!(repository.diff_tree().is_empty());
    assert!(repository.check_for_pushed_commit().is_empty());
    assert!(repository.run_hook(RunHook::PreCommit).is_ok());

    assert!(!repository.is_trusted());
    repository.set_trusted(true);
    assert!(repository.is_trusted());

    assert!(repository.cached_info().is_none());
    repository.info("checkout: abc\n", PathStyle::Posix);
    let info = repository.info("checkout: def\n", PathStyle::Posix);
    assert_eq!(info.checkout.as_deref(), Some("def"));
    let cached = repository.cached_info().clone().unwrap();
    assert_eq!(cached.checkout.as_deref(), Some("def"));
    assert!(repository.is_trusted());

    let orphan = FossilRepository::new("db", None, Ok("fossil"));
    assert_eq!(orphan.err(), Some(FossilError::NoCheckoutParent));
    let lost = FossilRepository::new("db", Some("dir"), Err(FossilError::BinaryNotFound));
    assert_eq!(lost.err(), Some(FossilError::BinaryNotFound));
}
