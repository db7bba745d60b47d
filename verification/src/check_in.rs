//! Checking in.

use crate::changes::{
    parse_fossil_changes_with_kind, FossilChangeKind, FossilChangeView,
};
use crate::commands::{push_arg, push_paths, three_args, two_args};
use crate::error::{FossilError, FossilErrorView};
use crate::index::push_item;
use crate::path::{PathStyle, RepoPath};
use crate::text::{contains_text, to_chars};
use vstd::prelude::*;
use vstd::string::*;

verus! {

/// How to check in.
#[derive(Clone, Copy, Debug, PartialEq, Eq, Structural)]
pub struct CommitOptions {
    pub amend: bool,
    pub signoff: bool,
    pub allow_empty: bool,
}

/// What is wrong with the options.
pub open spec fn options_error(options: CommitOptions) -> Option<FossilErrorView> {
    if options.amend {
        Some(FossilErrorView::AmendUnsupported)
    } else if options.signoff {
        Some(FossilErrorView::SignoffUnsupported)
    } else {
        None
    }
}

/// Refuses the options that a check-in does not have.
pub fn check_commit_options(options: &CommitOptions) -> (r: Result<(), FossilError>)
    ensures
        match options_error(*options) {
            Some(error) => r is Err && r->Err_0.deep_view() == error,
            None => r is Ok,
        },
{
    if options.amend {
        Err(FossilError::AmendUnsupported)
    } else if options.signoff {
        Err(FossilError::SignoffUnsupported)
    } else {
        Ok(())
    }
}

// ---------------------------------------------------------------------------
// The plan
// ---------------------------------------------------------------------------

/// The commands that make a check-in, in this order. Each is run only if the one
/// before it succeeded.
#[derive(Debug)]
pub struct CheckInPlan {
    /// Takes extra files in.
    pub add: Option<Vec<String>>,
    /// Drops missing files.
    pub remove: Option<Vec<String>>,
    /// Checks in.
    pub commit: Vec<String>,
}

/// The commands that make a check-in, as texts.
pub struct CheckInPlanView {
    pub add: Option<Seq<Seq<char>>>,
    pub remove: Option<Seq<Seq<char>>>,
    pub commit: Seq<Seq<char>>,
}

impl DeepView for CheckInPlan {
    type V = CheckInPlanView;

    open spec fn deep_view(&self) -> CheckInPlanView {
        CheckInPlanView {
            add: self.add.deep_view(),
            remove: self.remove.deep_view(),
            commit: self.commit.deep_view(),
        }
    }
}

/// The paths to which something happened.
pub open spec fn paths_of_kind(changes: Seq<FossilChangeView>, kind: FossilChangeKind) -> Seq<
    Seq<char>,
>
    decreases changes.len(),
{
    if changes.len() == 0 {
        seq![]
    } else if changes.last().kind == kind {
        paths_of_kind(changes.drop_last(), kind).push(changes.last().repo_path)
    } else {
        paths_of_kind(changes.drop_last(), kind)
    }
}

/// The arguments of `fossil add`.
pub open spec fn add_args(extras: Seq<Seq<char>>) -> Seq<Seq<char>> {
    seq!["add"@, "--force"@, "--dotfiles"@] + extras
}

/// The arguments of `fossil rm`.
pub open spec fn remove_args(missing: Seq<Seq<char>>) -> Seq<Seq<char>> {
    seq!["rm"@, "--soft"@] + missing
}

/// The arguments of `fossil commit`.
pub open spec fn commit_args(
    message: Seq<char>,
    author: Option<Seq<char>>,
    allow_empty: bool,
    paths: Seq<Seq<char>>,
) -> Seq<Seq<char>> {
    let start = seq![
        "commit"@,
        "--comment"@,
        message,
        "--no-prompt"@,
        "--no-warnings"@,
        "--no-verify-comment"@,
    ];
    let empty = if allow_empty {
        seq!["--allow-empty"@]
    } else {
        seq![]
    };
    let user = match author {
        Some(name) => seq!["--user-override"@, name],
        None => seq![],
    };
    start + empty + user + paths
}

/// The commands that make a check-in of the given paths, of everything if there
/// are none; or why there can be none. Extra files are taken in only where paths
/// were chosen.
pub open spec fn check_in_plan(
    changes: Seq<FossilChangeView>,
    message: Seq<char>,
    author: Option<Seq<char>>,
    options: CommitOptions,
    paths: Seq<Seq<char>>,
) -> Result<CheckInPlanView, FossilErrorView> {
    let conflicts = paths_of_kind(changes, FossilChangeKind::Conflict);
    let extras = paths_of_kind(changes, FossilChangeKind::Extra);
    let missing = paths_of_kind(changes, FossilChangeKind::Missing);
    match options_error(options) {
        Some(error) => Err(error),
        None => if conflicts.len() > 0 {
            Err(FossilErrorView::UnresolvedConflict(conflicts[0]))
        } else {
            Ok(
                CheckInPlanView {
                    add: if paths.len() > 0 && extras.len() > 0 {
                        Some(add_args(extras))
                    } else {
                        None
                    },
                    remove: if missing.len() > 0 {
                        Some(remove_args(missing))
                    } else {
                        None
                    },
                    commit: commit_args(message, author, options.allow_empty, paths),
                },
            )
        },
    }
}

/// The arguments of `fossil commit`.
pub fn fossil_commit_args(
    message: &str,
    author: Option<&str>,
    allow_empty: bool,
    paths: &Vec<RepoPath>,
) -> (r: Vec<String>)
    ensures
        r.deep_view() == commit_args(
            message@,
            match author {
                Some(name) => Some(name@),
                None => None,
            },
            allow_empty,
            paths.deep_view(),
        ),
{
    let mut args = three_args("commit", "--comment", message);
    push_arg(&mut args, "--no-prompt");
    push_arg(&mut args, "--no-warnings");
    push_arg(&mut args, "--no-verify-comment");
    if allow_empty {
        push_arg(&mut args, "--allow-empty");
    }
    if let Some(name) = author {
        push_arg(&mut args, "--user-override");
        push_arg(&mut args, name);
    }
    push_paths(&mut args, paths);
    assert(args.deep_view() =~= commit_args(
        message@,
        match author {
            Some(name) => Some(name@),
            None => None,
        },
        allow_empty,
        paths.deep_view(),
    ));
    args
}

/// The name of an author with a mail address.
pub open spec fn author_name(name_and_email: Option<(Seq<char>, Seq<char>)>) -> Option<Seq<char>> {
    match name_and_email {
        Some((name, _)) => Some(name),
        None => None,
    }
}

/// Plans a check-in from the output of `fossil changes` for the same paths.
pub fn commit_paths(
    changes_output: &str,
    message: &str,
    name_and_email: &Option<(String, String)>,
    options: &CommitOptions,
    paths: &Vec<RepoPath>,
    style: PathStyle,
) -> (r: Result<CheckInPlan, FossilError>)
    ensures
        crate::error::result_view(r) == check_in_plan(
            crate::changes::changes(changes_output@, style),
            message@,
            author_name(name_and_email.deep_view()),
            *options,
            paths.deep_view(),
        ),
{
    if let Err(error) = check_commit_options(options) {
        return Err(error);
    }
    let changes = parse_fossil_changes_with_kind(changes_output, style);
    let ghost all = changes.deep_view();
    let selected_subset = paths.len() > 0;
    let mut extras: Vec<RepoPath> = Vec::new();
    let mut missing: Vec<RepoPath> = Vec::new();
    let mut i: usize = 0;
    assert(all.take(0) == Seq::<FossilChangeView>::empty());
    assert(extras.deep_view() == Seq::<Seq<char>>::empty());
    assert(missing.deep_view() == Seq::<Seq<char>>::empty());
    while i < changes.len()
        invariant
            i <= changes@.len(),
            all == changes.deep_view(),
            all == crate::changes::changes(changes_output@, style),
            options_error(*options) is None,
            selected_subset == (paths@.len() > 0),
            paths_of_kind(all.take(i as int), FossilChangeKind::Conflict).len() == 0,
            selected_subset ==> extras.deep_view() == paths_of_kind(
                all.take(i as int),
                FossilChangeKind::Extra,
            ),
            !selected_subset ==> extras@.len() == 0,
            missing.deep_view() == paths_of_kind(all.take(i as int), FossilChangeKind::Missing),
        decreases changes@.len() - i,
    {
        let change = &changes[i];
        assert(all.take(i + 1).drop_last() == all.take(i as int));
        assert(all.take(i + 1).last() == change.deep_view());
        match change.kind {
            FossilChangeKind::Extra => {
                if selected_subset {
                    push_item(&mut extras, change.repo_path.clone());
                }
            },
            FossilChangeKind::Missing => {
                push_item(&mut missing, change.repo_path.clone());
            },
            FossilChangeKind::Conflict => {
                proof {
                    lemma_first_of_kind(all, FossilChangeKind::Conflict, i as int);
                }
                return Err(
                    FossilError::UnresolvedConflict(change.repo_path.as_unix_str().to_owned()),
                );
            },
            _ => {},
        }
        i = i + 1;
    }
    assert(all.take(i as int) == all);
    assert(extras.deep_view().len() == extras@.len());
    assert(missing.deep_view().len() == missing@.len());
    assert(paths.deep_view().len() == paths@.len());
    let add = if extras.len() > 0 {
        let mut args = three_args("add", "--force", "--dotfiles");
        push_paths(&mut args, &extras);
        Some(args)
    } else {
        None
    };
    let remove = if missing.len() > 0 {
        let mut args = two_args("rm", "--soft");
        push_paths(&mut args, &missing);
        Some(args)
    } else {
        None
    };
    let author = match name_and_email {
        Some((name, _)) => Some(name.as_str()),
        None => None,
    };
    let commit = fossil_commit_args(message, author, options.allow_empty, paths);
    Ok(CheckInPlan { add, remove, commit })
}

/// The first path of a kind stays the first when more changes follow.
proof fn lemma_first_of_kind(changes: Seq<FossilChangeView>, kind: FossilChangeKind, i: int)
    requires
        0 <= i < changes.len(),
        changes[i].kind == kind,
        paths_of_kind(changes.take(i), kind).len() == 0,
    ensures
        paths_of_kind(changes, kind).len() > 0,
        paths_of_kind(changes, kind)[0] == changes[i].repo_path,
    decreases changes.len(),
{
    let head = changes.drop_last();
    if i < changes.len() - 1 {
        assert(head.take(i) == changes.take(i));
        assert(head[i] == changes[i]);
        lemma_first_of_kind(head, kind, i);
    } else {
        assert(head == changes.take(i));
    }
}

/// What is in a list of paths of a kind.
pub proof fn lemma_paths_of_kind(changes: Seq<FossilChangeView>, kind: FossilChangeKind, path: Seq<char>)
    ensures
        paths_of_kind(changes, kind).contains(path) <==> exists|i: int|
            0 <= i < changes.len() && (#[trigger] changes[i]).repo_path == path && changes[i].kind
                == kind,
    decreases changes.len(),
{
    let all = paths_of_kind(changes, kind);
    if changes.len() > 0 {
        let head = changes.drop_last();
        let before = paths_of_kind(head, kind);
        lemma_paths_of_kind(head, kind, path);
        if before.contains(path) {
            let k = before.index_of(path);
            assert(all[k] == path);
            let i = choose|i: int|
                0 <= i < head.len() && (#[trigger] head[i]).repo_path == path && head[i].kind
                    == kind;
            assert(changes[i] == head[i]);
        }
        assert(changes[changes.len() - 1] == changes.last());
        if exists|i: int|
            0 <= i < changes.len() && (#[trigger] changes[i]).repo_path == path && changes[i].kind
                == kind {
            let i = choose|i: int|
                0 <= i < changes.len() && (#[trigger] changes[i]).repo_path == path
                    && changes[i].kind == kind;
            if i < head.len() {
                assert(head[i] == changes[i]);
            } else {
                assert(all[before.len() as int] == path);
            }
        }
    }
}

/// Law: a check-in is refused exactly if it is to amend, to be signed off, or if
/// a changed file is in conflict.
pub proof fn law_check_in_is_refused(
    changes: Seq<FossilChangeView>,
    message: Seq<char>,
    author: Option<Seq<char>>,
    options: CommitOptions,
    paths: Seq<Seq<char>>,
)
    ensures
        check_in_plan(changes, message, author, options, paths) is Err <==> options.amend
            || options.signoff || exists|i: int|
            0 <= i < changes.len() && (#[trigger] changes[i]).kind == FossilChangeKind::Conflict,
{
    let conflicts = paths_of_kind(changes, FossilChangeKind::Conflict);
    if conflicts.len() > 0 {
        lemma_paths_of_kind(changes, FossilChangeKind::Conflict, conflicts[0]);
        assert(conflicts.contains(conflicts[0]));
    }
    if exists|i: int|
        0 <= i < changes.len() && (#[trigger] changes[i]).kind == FossilChangeKind::Conflict {
        let i = choose|i: int|
            0 <= i < changes.len() && (#[trigger] changes[i]).kind == FossilChangeKind::Conflict;
        lemma_paths_of_kind(changes, FossilChangeKind::Conflict, changes[i].repo_path);
        assert(conflicts.contains(changes[i].repo_path));
    }
}

/// Law: a check-in names exactly the chosen paths, at the end of its arguments,
/// and none if none were chosen; the message follows `--comment`.
pub proof fn law_check_in_names_the_chosen_paths(
    changes: Seq<FossilChangeView>,
    message: Seq<char>,
    author: Option<Seq<char>>,
    options: CommitOptions,
    paths: Seq<Seq<char>>,
)
    requires
        check_in_plan(changes, message, author, options, paths) is Ok,
    ensures
        ({
            let commit = check_in_plan(changes, message, author, options, paths)->Ok_0.commit;
            let own = commit_args(message, author, options.allow_empty, seq![]);
            &&& commit == own + paths
            &&& commit[1] == "--comment"@ && commit[2] == message
        }),
{
    let commit = check_in_plan(changes, message, author, options, paths)->Ok_0.commit;
    let own = commit_args(message, author, options.allow_empty, seq![]);
    assert(commit =~= own + paths);
}

/// Law: what is taken in before a check-in are exactly the extra files among the
/// changes, and only where paths were chosen; what is dropped are exactly the
/// missing files.
pub proof fn law_check_in_takes_in_and_drops(
    changes: Seq<FossilChangeView>,
    message: Seq<char>,
    author: Option<Seq<char>>,
    options: CommitOptions,
    paths: Seq<Seq<char>>,
    path: Seq<char>,
)
    requires
        check_in_plan(changes, message, author, options, paths) is Ok,
    ensures
        ({
            let plan = check_in_plan(changes, message, author, options, paths)->Ok_0;
            &&& (exists|i: int|
                0 <= i < changes.len() && (#[trigger] changes[i]).repo_path == path
                    && changes[i].kind == FossilChangeKind::Extra) && paths.len() > 0 <==> plan.add
                is Some && plan.add->0.skip(3).contains(path)
            &&& (exists|i: int|
                0 <= i < changes.len() && (#[trigger] changes[i]).repo_path == path
                    && changes[i].kind == FossilChangeKind::Missing) <==> plan.remove is Some
                && plan.remove->0.skip(2).contains(path)
        }),
{
    let extras = paths_of_kind(changes, FossilChangeKind::Extra);
    let missing = paths_of_kind(changes, FossilChangeKind::Missing);
    lemma_paths_of_kind(changes, FossilChangeKind::Extra, path);
    lemma_paths_of_kind(changes, FossilChangeKind::Missing, path);
    assert(add_args(extras).skip(3) =~= extras);
    assert(remove_args(missing).skip(2) =~= missing);
}

// ---------------------------------------------------------------------------
// Older versions of `fossil`
// ---------------------------------------------------------------------------

/// Whether the output of a failed command says that it does not know the option
/// `--no-verify-comment`.
pub open spec fn reports_unsupported(stdout: Seq<char>, stderr: Seq<char>) -> bool {
    &&& crate::text::contains(stdout, "unrecognized command-line option"@) || crate::text::contains(
        stderr,
        "unrecognized command-line option"@,
    )
    &&& crate::text::contains(stdout, "--no-verify-comment"@) || crate::text::contains(
        stderr,
        "--no-verify-comment"@,
    )
}

/// Whether the output of a failed command says that it does not know the option
/// `--no-verify-comment`.
pub fn fossil_output_reports_unsupported_no_verify_comment(stdout: &str, stderr: &str) -> (r: bool)
    ensures
        r == reports_unsupported(stdout@, stderr@),
{
    let out = to_chars(stdout);
    let err = to_chars(stderr);
    let unrecognized = to_chars("unrecognized command-line option");
    let flag = to_chars("--no-verify-comment");
    let reports_unrecognized_option = contains_text(out.as_slice(), unrecognized.as_slice())
        || contains_text(err.as_slice(), unrecognized.as_slice());
    let mentions_no_verify_comment = contains_text(out.as_slice(), flag.as_slice())
        || contains_text(err.as_slice(), flag.as_slice());
    reports_unrecognized_option && mentions_no_verify_comment
}

/// Whether an error says that `fossil` does not know the option.
pub open spec fn is_unsupported_flag(error: FossilErrorView) -> bool {
    match error {
        FossilErrorView::Command { stdout, stderr } => reports_unsupported(stdout, stderr),
        _ => false,
    }
}

/// Whether an error says that `fossil` does not know the option.
pub fn fossil_error_is_unsupported_no_verify_comment(error: &FossilError) -> (r: bool)
    ensures
        r == is_unsupported_flag(error.deep_view()),
{
    match error {
        FossilError::Command { stdout, stderr } => {
            fossil_output_reports_unsupported_no_verify_comment(stdout.as_str(), stderr.as_str())
        },
        _ => false,
    }
}

/// Arguments without the option `--no-verify-comment`.
pub open spec fn without_flag(args: Seq<Seq<char>>) -> Seq<Seq<char>>
    decreases args.len(),
{
    if args.len() == 0 {
        seq![]
    } else if args.last() == "--no-verify-comment"@ {
        without_flag(args.drop_last())
    } else {
        without_flag(args.drop_last()).push(args.last())
    }
}

/// Drops the option `--no-verify-comment`.
pub fn fallback_args(args: &Vec<String>) -> (r: Vec<String>)
    ensures
        r.deep_view() == without_flag(args.deep_view()),
{
    let ghost all = args.deep_view();
    let flag = "--no-verify-comment".to_owned();
    let mut r: Vec<String> = Vec::new();
    let mut i: usize = 0;
    assert(all.take(0) == Seq::<Seq<char>>::empty());
    assert(r.deep_view() == Seq::<Seq<char>>::empty());
    while i < args.len()
        invariant
            i <= args@.len(),
            all == args.deep_view(),
            flag@ == "--no-verify-comment"@,
            r.deep_view() == without_flag(all.take(i as int)),
        decreases args@.len() - i,
    {
        assert(all.take(i + 1).drop_last() == all.take(i as int));
        assert(all.take(i + 1).last() == args@[i as int]@);
        if args[i] != flag {
            push_item(&mut r, args[i].clone());
        }
        i = i + 1;
    }
    assert(all.take(i as int) == all);
    r
}

/// What follows when `fossil commit` fails: the arguments of a second try, or
/// the error as it is.
pub open spec fn commit_retry(args: Seq<Seq<char>>, error: FossilErrorView) -> Result<
    Seq<Seq<char>>,
    FossilErrorView,
> {
    if is_unsupported_flag(error) {
        Ok(without_flag(args))
    } else {
        Err(error)
    }
}

/// Decides what follows when `fossil commit` with `args` fails with `error`: the
/// arguments of a second try, or the error as it is.
pub fn run_fossil_commit_with_legacy_comment_verification_fallback(
    args: &Vec<String>,
    error: FossilError,
) -> (r: Result<Vec<String>, FossilError>)
    ensures
        crate::error::result_view(r) == commit_retry(args.deep_view(), error.deep_view()),
{
    if fossil_error_is_unsupported_no_verify_comment(&error) {
        Ok(fallback_args(args))
    } else {
        Err(error)
    }
}

/// Law: a second try has every argument but the option, and the option nowhere.
pub proof fn law_fallback_drops_only_the_flag(args: Seq<Seq<char>>, arg: Seq<char>)
    ensures
        without_flag(args).contains(arg) <==> args.contains(arg) && arg != "--no-verify-comment"@,
    decreases args.len(),
{
    let all = without_flag(args);
    if args.len() > 0 {
        let head = args.drop_last();
        let before = without_flag(head);
        law_fallback_drops_only_the_flag(head, arg);
        assert(args[args.len() - 1] == args.last());
        if head.contains(arg) {
            let i = head.index_of(arg);
            assert(args[i] == arg);
        }
        if args.contains(arg) && arg != args.last() {
            let i = args.index_of(arg);
            assert(head[i] == arg);
        }
        if before.contains(arg) {
            let i = before.index_of(arg);
            assert(all[i] == arg);
        }
        if all.contains(arg) && !before.contains(arg) {
            let i = all.index_of(arg);
            assert(i == before.len());
        }
        if all.len() > before.len() {
            assert(all[before.len() as int] == args.last());
        }
    }
}

/// Law: dropping the option twice is dropping it once.
pub proof fn law_fallback_is_stable(args: Seq<Seq<char>>)
    ensures
        without_flag(without_flag(args)) == without_flag(args),
    decreases args.len(),
{
    if args.len() > 0 {
        let head = args.drop_last();
        law_fallback_is_stable(head);
        if args.last() != "--no-verify-comment"@ {
            assert(without_flag(head).push(args.last()).drop_last() == without_flag(head));
        }
    }
}

} // verus!
