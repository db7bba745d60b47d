use fossil_git::error::FossilError;
use fossil_git::info::parse_fossil_info;
use fossil_git::operations::{
    checkout_files, command_output, diff, executable_file_is_busy, fossil_blame_args,
    fossil_cat_args, fossil_info_args, retries_when_busy, stash_apply, stash_drop, stash_paths,
    stash_pop, trim_final_newline, DiffStep, DiffType,
};
use fossil_git::path::{PathStyle, RepoPath};
use fossil_git::remote::{
    add_default_remote, autosync_args, default_fossil_remote, first_listed_remote,
    fossil_fetch_args, fossil_pull_args, fossil_push_args, fossil_remote_url,
    fossil_remote_url_args, fossil_sync_state, remote_urls_from_list, remotes_from_default,
    remotes_from_list, FetchOptions, PushOptions, Remote, SyncStep,
};
use fossil_git::setup::{
    clone_after_prompt, clone_remote, ensure_path_available, fossil_clone_to_checkout,
    fossil_init_checkout, fossil_open_repository, init_repository, open_after_checkout_prompt,
    open_after_repository_prompt, open_checkout_after_prompt, open_checkout_after_setup,
    open_checkout_buttons, open_existing_repository, prompt_setup_error,
    repository_db_for_checkout, run_fossil, show_status_toast, checkout_name_from_url, ChosenPath,
    FossilCloneModal, ModalEvent, OpenCheckout, SetupArg, SetupKind, SetupOutcome,
};

fn path(text: &str) -> RepoPath {
    RepoPath::new(text).unwrap()
}

#[test]
fn outputs_lose_one_line_feed() {
    assert_eq!(trim_final_newline("a\n\n"), "a\n");
    assert_eq!(trim_final_newline("a"), "a");
    assert_eq!(trim_final_newline(""), "");
    let output = command_output(true, "o".to_string(), "e".to_string()).unwrap();
    assert_eq!((output.stdout.as_str(), output.stderr.as_str()), ("o", "e"));
    assert_eq!(
        command_output(false, "o".to_string(), "e".to_string()).unwrap_err(),
        FossilError::Command { stdout: "o".to_string(), stderr: "e".to_string() }
    );
}

#[test]
fn busy_executables_are_tried_three_times() {
    assert!(executable_file_is_busy(Some(26), true));
    assert!(!executable_file_is_busy(Some(26), false));
    assert!(!executable_file_is_busy(Some(2), true));
    assert!(!executable_file_is_busy(None, true));
    assert!(retries_when_busy(1, Some(26), true));
    assert!(retries_when_busy(2, Some(26), true));
    assert!(!retries_when_busy(3, Some(26), true));
    assert!(!retries_when_busy(1, Some(13), true));
}

#[test]
fn files_are_put_back() {
    assert_eq!(checkout_files("HEAD", &Vec::new()), None);
    assert_eq!(checkout_files("HEAD", &vec![path("a")]).unwrap(), ["revert", "a"]);
    assert_eq!(
        checkout_files("abc", &vec![path("a"), path("b")]).unwrap(),
        ["revert", "--revision", "abc", "a", "b"]
    );
    assert_eq!(fossil_cat_args(&path("a/b")), ["cat", "a/b"]);
    assert_eq!(fossil_blame_args(&path("a/b")), ["blame", "a/b"]);
    assert_eq!(fossil_info_args("abc"), ["info", "abc"]);
}

#[test]
fn stashes_are_saved_and_taken_back() {
    assert_eq!(
        stash_paths(&vec![path("a")], Some(" note ")),
        ["stash", "save", "--comment", " note ", "a"]
    );
    assert_eq!(
        stash_paths(&Vec::new(), Some(" \n")),
        ["stash", "save", "--comment", "fzed stash"]
    );
    assert_eq!(
        stash_paths(&Vec::new(), None),
        ["stash", "save", "--comment", "fzed stash"]
    );
    assert_eq!(
        stash_pop(Some(10)),
        [vec!["stash", "apply", "10"], vec!["stash", "drop", "10"]]
    );
    assert_eq!(stash_pop(None), [vec!["stash", "pop"]]);
    assert_eq!(stash_apply(Some(0)), ["stash", "apply", "0"]);
    assert_eq!(stash_apply(None), ["stash", "apply"]);
    assert_eq!(stash_drop(Some(7)), ["stash", "drop", "7"]);
    assert_eq!(stash_drop(None), ["stash", "drop"]);
}

#[test]
fn diffs_are_asked_for() {
    match diff(&DiffType::HeadToWorktree).unwrap() {
        DiffStep::Run(args) => assert_eq!(args, ["diff", "--internal", "--unified"]),
        DiffStep::Done(_) => panic!("fossil has to be asked"),
    }
    match diff(&DiffType::HeadToIndex).unwrap() {
        DiffStep::Done(text) => assert_eq!(text, ""),
        DiffStep::Run(_) => panic!("there is no index"),
    }
    assert_eq!(
        diff(&DiffType::MergeBase { base_ref: "x".to_string() }).unwrap_err(),
        FossilError::MergeBaseDiffUnsupported
    );
}

#[test]
fn urls_of_remotes_are_found() {
    let list = "origin  https://a\nbad\norigin https://b\nnourl \n";
    assert_eq!(fossil_remote_url_args("default"), ["remote"]);
    assert_eq!(fossil_remote_url_args("origin"), ["remote", "list"]);
    assert_eq!(fossil_remote_url("origin", list).as_deref(), Some("https://a"));
    assert_eq!(fossil_remote_url("other", list), None);
    assert_eq!(fossil_remote_url("default", "https://d\n").as_deref(), Some("https://d"));
    assert_eq!(fossil_remote_url("default", "off"), None);

    let key = |name: &str| name.to_string();
    let (mut urls, ask) = remote_urls_from_list(Some(list));
    assert!(ask);
    assert_eq!(urls.get(&key("origin")).map(String::as_str), Some("https://b"));
    add_default_remote(&mut urls, Some("https://d\n"));
    assert_eq!(urls.get(&key("default")).map(String::as_str), Some("https://d"));
    assert_eq!(urls.get(&key("origin")).map(String::as_str), Some("https://b"));
    let (urls, ask) = remote_urls_from_list(Some("default https://x\n"));
    assert!(!ask);
    assert_eq!(urls.get(&key("default")).map(String::as_str), Some("https://x"));
    let (mut urls, ask) = remote_urls_from_list(None);
    assert!(ask);
    add_default_remote(&mut urls, Some("off"));
    add_default_remote(&mut urls, None);
    assert!(urls.get(&key("default")).is_none());
}

#[test]
fn remotes_are_listed_by_name() {
    let names = |remotes: Vec<Remote>| -> Vec<String> {
        remotes.into_iter().map(|remote| remote.name).collect()
    };
    assert_eq!(names(remotes_from_list("a https://a\nb https://b\n")), ["a", "b"]);
    assert!(remotes_from_list("").is_empty());
    assert_eq!(names(remotes_from_default("https://d")), ["default"]);
    assert!(remotes_from_default("off").is_empty());
    assert_eq!(default_fossil_remote("https://d").unwrap().name, "default");
    assert!(default_fossil_remote(" off \n").is_none());
    assert_eq!(first_listed_remote("b https://b\na https://a\n").unwrap().name, "b");
    assert!(first_listed_remote("").is_none());
}

#[test]
fn pushing_pulling_and_fetching() {
    assert_eq!(
        fossil_push_args("origin", Some(PushOptions::Force)).unwrap_err(),
        FossilError::ForcePushUnsupported
    );
    match fossil_push_args("origin", Some(PushOptions::SetUpstream)).unwrap() {
        SyncStep::Sync(args) => assert_eq!(args, ["sync", "origin"]),
        _ => panic!("the remote is named"),
    }
    assert!(matches!(fossil_push_args("default", None).unwrap(), SyncStep::AskDefault));
    assert_eq!(fossil_pull_args(None, true).unwrap_err(), FossilError::RebaseUnsupported);
    assert_eq!(fossil_pull_args(None, false).unwrap(), ["update"]);
    assert_eq!(
        fossil_pull_args(Some("refs/heads/trunk"), false).unwrap(),
        ["update", "trunk"]
    );
    assert!(matches!(fossil_fetch_args(&FetchOptions::All), SyncStep::AskDefault));
    let remote = Remote { name: "mirror".to_string() };
    match fossil_fetch_args(&FetchOptions::Remote(remote)) {
        SyncStep::Sync(args) => assert_eq!(args, ["sync", "mirror"]),
        _ => panic!("the remote is named"),
    }
}

#[test]
fn the_sync_state_is_put_together() {
    let info = parse_fossil_info("repository: /r.fossil\n", PathStyle::Posix);
    assert_eq!(autosync_args(), ["settings", "autosync", "--value"]);
    let state = fossil_sync_state(&info, Some(" on \n"), Some("https://example.com/repo"));
    assert_eq!(state.autosync.as_deref(), Some("on"));
    assert_eq!(state.default_remote.as_deref(), Some("https://example.com/repo"));
    assert_eq!(state.repository.as_deref(), Some("/r.fossil"));
    let state = fossil_sync_state(&info, Some(" "), Some("off"));
    assert_eq!((state.autosync, state.default_remote), (None, None));
    let state = fossil_sync_state(&info, None, None);
    assert_eq!((state.autosync, state.default_remote), (None, None));
}

#[test]
fn checkout_names_are_safe() {
    assert_eq!(checkout_name_from_url("  https://x/a.git//  "), "a");
    assert_eq!(checkout_name_from_url("https://x/Ünï_1.2-b"), "-n-_1.2-b");
    assert_eq!(checkout_name_from_url(".fossil"), "repository");
    assert_eq!(checkout_name_from_url("///"), "repository");
    assert_eq!(checkout_name_from_url("a.fossil.git"), "a.fossil");
    assert_eq!(checkout_name_from_url("a.git.fossil"), "a.git");
}

fn text(text: &str) -> SetupArg {
    SetupArg::Text(text.to_string())
}

fn open(force: bool) -> Vec<SetupArg> {
    let mut args = vec![text("open"), SetupArg::Repository, text("--workdir"), SetupArg::Checkout];
    if force {
        args.push(text("--force"));
    }
    args
}

#[test]
fn repositories_are_cloned_opened_and_made() {
    let plan = fossil_clone_to_checkout("https://x/a.fossil").unwrap();
    assert_eq!(plan.checkout_name, "a");
    assert_eq!(plan.repository_name, "a.fossil");
    assert_eq!(plan.clone, [text("clone"), text("https://x/a.fossil"), SetupArg::Repository]);
    assert_eq!(plan.open, open(false));
    assert_eq!(fossil_clone_to_checkout(" \t").unwrap_err(), FossilError::UrlRequired);

    assert_eq!(fossil_open_repository(true, "/r").unwrap(), open(false));
    assert_eq!(
        fossil_open_repository(false, "/r").unwrap_err(),
        FossilError::RepositoryMissing("/r".to_string())
    );

    let plan = fossil_init_checkout(true, "/d/p", Some("p"), Some("/d")).unwrap();
    assert_eq!((plan.repository_dir, plan.repository_name.as_str()), ("/d", "p.fossil"));
    assert_eq!(plan.init, [text("init"), SetupArg::Repository]);
    assert_eq!(plan.open, open(true));
    assert_eq!(
        fossil_init_checkout(false, "/d/p", Some("p"), Some("/d")).unwrap_err(),
        FossilError::CheckoutMissing("/d/p".to_string())
    );
    assert_eq!(
        fossil_init_checkout::<&str>(true, "/", None, None).unwrap_err(),
        FossilError::NoDirectoryParent
    );
    assert_eq!(
        repository_db_for_checkout(Some(""), Some("/d")).unwrap(),
        ("/d", "repository.fossil".to_string())
    );
    assert_eq!(
        ensure_path_available(true, "/x").unwrap_err(),
        FossilError::PathExists("/x".to_string())
    );
    assert!(ensure_path_available(false, "/x").is_ok());
    assert!(run_fossil(true, "", "ignored").is_ok());
    assert_eq!(
        run_fossil(false, " out \n", " \n").unwrap_err(),
        FossilError::SetupCommand("out".to_string())
    );
    assert_eq!(
        run_fossil(false, "out", " err\n").unwrap_err(),
        FossilError::SetupCommand("err".to_string())
    );
}

#[test]
fn the_user_chooses_paths() {
    let prompt = clone_remote();
    assert!(prompt.directories && !prompt.files && !prompt.multiple);
    assert_eq!(prompt.prompt, "Select Parent Directory for Fossil Checkout");
    let job = clone_after_prompt("https://x/a", Some(vec!["/first", "/last"])).unwrap();
    assert_eq!(job.parent_dir, "/last");
    assert_eq!(job.title, "Fossil Clone: a");
    assert_eq!(job.plan.unwrap().checkout_name, "a");
    assert!(clone_after_prompt::<&str>("https://x/a", None).is_none());
    assert!(clone_after_prompt::<&str>("https://x/a", Some(vec![])).is_none());
    let job = clone_after_prompt("", Some(vec!["/d"])).unwrap();
    assert_eq!(job.title, "Fossil Clone: repository");
    assert_eq!(job.plan.unwrap_err(), FossilError::UrlRequired);

    let prompt = open_existing_repository();
    assert!(prompt.files && !prompt.directories && !prompt.multiple);
    assert_eq!(prompt.prompt, "Select Fossil Repository Database");
    let (repository, prompt) = open_after_repository_prompt(Some(vec!["/r.fossil"])).unwrap();
    assert_eq!(repository, "/r.fossil");
    assert_eq!(prompt.prompt, "Select Checkout Directory");
    assert!(open_after_repository_prompt::<&str>(None).is_none());

    assert_eq!(init_repository().prompt, "Select Checkout Directory");
    let named = ChosenPath { path: "/d/p", name: Some("p".to_string()) };
    let job = open_after_checkout_prompt(Some(vec![named])).unwrap();
    assert_eq!((job.checkout_dir, job.title.as_str()), ("/d/p", "Fossil Repository: p"));
    let unnamed = ChosenPath { path: "/", name: None };
    let job = open_after_checkout_prompt(Some(vec![unnamed])).unwrap();
    assert_eq!(job.title, "Fossil Repository: repository");
    assert!(open_after_checkout_prompt::<&str>(Some(vec![])).is_none());
}

#[test]
fn setups_end_with_a_checkout_or_an_error() {
    match prompt_setup_error(SetupKind::Clone, Ok(()), "t".to_string()) {
        SetupOutcome::OpenCheckout { title } => assert_eq!(title, "t"),
        SetupOutcome::ReportError { .. } => panic!("it went well"),
    }
    let titles = [
        (SetupKind::Clone, "Fossil Clone"),
        (SetupKind::OpenRepository, "Fossil Open Repository"),
        (SetupKind::Init, "Fossil Init"),
    ];
    for (kind, expected) in titles {
        match prompt_setup_error(kind, Err(FossilError::UrlRequired), "t".to_string()) {
            SetupOutcome::ReportError { title, detail } => {
                assert_eq!(title, expected);
                assert_eq!(detail, "Fossil repository URL is required");
            }
            SetupOutcome::OpenCheckout { .. } => panic!("it failed"),
        }
    }
}

#[test]
fn checkouts_are_opened_where_the_user_wants() {
    assert_eq!(open_checkout_after_setup(false), OpenCheckout::AddToProject);
    assert_eq!(open_checkout_after_setup(true), OpenCheckout::Ask);
    assert_eq!(
        open_checkout_buttons(),
        ["Add checkout to project", "Open checkout in new project"]
    );
    assert_eq!(open_checkout_after_prompt(None), OpenCheckout::AddToProject);
    assert_eq!(open_checkout_after_prompt(Some(0)), OpenCheckout::AddToProject);
    assert_eq!(open_checkout_after_prompt(Some(1)), OpenCheckout::OpenNewProject);
    assert_eq!(open_checkout_after_prompt(Some(2)), OpenCheckout::Nothing);

    let toast = show_status_toast(OpenCheckout::AddToProject, None, "/d").unwrap();
    assert_eq!(toast.message, "Opened Fossil checkout /d");
    assert!(!toast.is_error);
    for choice in [OpenCheckout::AddToProject, OpenCheckout::OpenNewProject] {
        let toast = show_status_toast(choice, Some("no"), "/d").unwrap();
        assert_eq!(toast.message, "Failed to open Fossil checkout: no");
        assert!(toast.is_error);
    }
    assert!(show_status_toast(OpenCheckout::OpenNewProject, None, "/d").is_none());
    assert!(show_status_toast(OpenCheckout::Nothing, Some("no"), "/d").is_none());
}

#[test]
fn the_dialog_asks_for_a_url() {
    let mut modal = FossilCloneModal::show();
    assert_eq!(modal.repo_input, "");
    modal.repo_input = "https://x/a".to_string();
    let action = modal.handle(ModalEvent::Confirm);
    assert_eq!(action.clone_url.as_deref(), Some("https://x/a"));
    assert!(action.dismiss && action.open_url.is_none());
    let action = modal.handle(ModalEvent::Cancel);
    assert!(action.dismiss && action.clone_url.is_none() && action.open_url.is_none());
    let action = modal.handle(ModalEvent::LearnMore);
    assert_eq!(
        action.open_url.as_deref(),
        Some("https://fossil-scm.org/home/doc/trunk/www/ckout-workflows.md")
    );
    assert!(!action.dismiss && action.clone_url.is_none());
}
