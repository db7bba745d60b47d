//! Setting up checkouts: cloning a repository, opening one and making a new one.

use crate::error::{FossilError, FossilErrorView};
use crate::index::push_item;
use crate::text::{
    rsplit_once_at, to_chars, to_text, trimmed, trimmed_end_char, without_suffix,
};
use vstd::prelude::*;
use vstd::string::*;

verus! {

// ---------------------------------------------------------------------------
// Names
// ---------------------------------------------------------------------------

/// The name of what has no better one.
pub const DEFAULT_REPOSITORY_NAME: &'static str = "repository";

/// Whether a character may stand in the name of a checkout.
pub open spec fn is_safe(c: char) -> bool {
    ||| 'a' <= c <= 'z'
    ||| 'A' <= c <= 'Z'
    ||| '0' <= c <= '9'
    ||| c == '-'
    ||| c == '_'
    ||| c == '.'
}

/// A name with a hyphen for every character that may not stand in it; never
/// empty.
pub open spec fn sanitized(name: Seq<char>) -> Seq<char> {
    if name.len() == 0 {
        DEFAULT_REPOSITORY_NAME@
    } else {
        Seq::new(
            name.len(),
            |i: int|
                if is_safe(name[i]) {
                    name[i]
                } else {
                    '-'
                },
        )
    }
}

/// The text behind the last slash.
pub open spec fn last_segment(s: Seq<char>) -> Seq<char> {
    match crate::text::rsplit_once(s, "/"@) {
        Some((_, segment)) => segment,
        None => s,
    }
}

/// A name without the ending of a repository.
pub open spec fn without_ending(name: Seq<char>) -> Seq<char> {
    match crate::text::strip_suffix(name, ".fossil"@) {
        Some(rest) => rest,
        None => match crate::text::strip_suffix(name, ".git"@) {
            Some(rest) => rest,
            None => name,
        },
    }
}

/// The name of a checkout of the repository at a URL.
pub open spec fn checkout_name(repo_url: Seq<char>) -> Seq<char> {
    let segment = last_segment(
        crate::text::trim_end_char(crate::text::trim(repo_url), '/'),
    );
    sanitized(
        without_ending(
            if segment.len() > 0 {
                segment
            } else {
                DEFAULT_REPOSITORY_NAME@
            },
        ),
    )
}

/// Whether a character may stand in the name of a checkout.
fn safe(c: char) -> (r: bool)
    ensures
        r == is_safe(c),
{
    ('a' <= c && c <= 'z') || ('A' <= c && c <= 'Z') || ('0' <= c && c <= '9') || c == '-' || c
        == '_' || c == '.'
}

/// Writes a hyphen for every character that may not stand in a name.
pub fn sanitize_checkout_name(name: &[char]) -> (r: String)
    ensures
        r@ == sanitized(name@),
{
    if name.len() == 0 {
        return DEFAULT_REPOSITORY_NAME.to_owned();
    }
    let ghost full = sanitized(name@);
    let mut r = String::new();
    for i in 0..name.len()
        invariant
            name@.len() > 0,
            full == sanitized(name@),
            r@ == full.take(i as int),
    {
        if safe(name[i]) {
            r.push(name[i]);
        } else {
            r.push('-');
        }
        assert(r@ == full.take(i + 1));
    }
    assert(full.take(name@.len() as int) == full);
    r
}

/// The name of a checkout of the repository at a URL.
pub fn checkout_name_from_url(repo_url: &str) -> (r: String)
    ensures
        r@ == checkout_name(repo_url@),
{
    let chars = to_chars(repo_url);
    let url = trimmed_end_char(trimmed(chars.as_slice()), '/');
    let segment = match rsplit_once_at(url, "/") {
        Some((_, segment)) => segment,
        None => url,
    };
    let default = to_chars(DEFAULT_REPOSITORY_NAME);
    let segment = if segment.len() > 0 {
        segment
    } else {
        default.as_slice()
    };
    let name = match without_suffix(segment, ".fossil") {
        Some(rest) => rest,
        None => match without_suffix(segment, ".git") {
            Some(rest) => rest,
            None => segment,
        },
    };
    sanitize_checkout_name(name)
}

/// Law: the name of a checkout is never empty and holds only letters, digits,
/// hyphens, underscores and dots.
pub proof fn law_checkout_name_is_safe(repo_url: Seq<char>)
    ensures
        checkout_name(repo_url).len() > 0,
        forall|i: int|
            0 <= i < checkout_name(repo_url).len() ==> is_safe(#[trigger] checkout_name(repo_url)[i]),
{
    reveal_strlit("repository");
    let name = checkout_name(repo_url);
    assert forall|i: int| 0 <= i < name.len() implies is_safe(#[trigger] name[i]) by {}
}

/// The name of a repository database.
pub open spec fn database_name(name: Seq<char>) -> Seq<char> {
    name + ".fossil"@
}

/// The name of a directory, or the default one.
pub open spec fn name_or_default(name: Option<Seq<char>>) -> Seq<char> {
    match name {
        Some(name) => if name.len() > 0 {
            name
        } else {
            DEFAULT_REPOSITORY_NAME@
        },
        None => DEFAULT_REPOSITORY_NAME@,
    }
}

/// The directory and the name of the database for a new repository: beside its
/// checkout, under the name of the checkout. `name` is the name of the checkout
/// directory, if it is a text, and `parent` the directory that it lies in.
pub fn repository_db_for_checkout<P>(name: Option<&str>, parent: Option<P>) -> (r: Result<
    (P, String),
    FossilError,
>)
    ensures
        match parent {
            Some(parent) => r is Ok && r->Ok_0.0 == parent && r->Ok_0.1@ == database_name(
                name_or_default(crate::remote::opt_output(name)),
            ),
            None => r is Err && r->Err_0.deep_view() == FossilErrorView::NoDirectoryParent,
        },
{
    let name = match name {
        Some(name) => if name.unicode_len() > 0 {
            name
        } else {
            DEFAULT_REPOSITORY_NAME
        },
        None => DEFAULT_REPOSITORY_NAME,
    };
    match parent {
        Some(parent) => Ok((parent, name.to_owned().concat(".fossil"))),
        None => Err(FossilError::NoDirectoryParent),
    }
}

/// Refuses a path that is to be made and exists. `display` shows the path.
pub fn ensure_path_available(exists: bool, display: &str) -> (r: Result<(), FossilError>)
    ensures
        exists <==> r is Err,
        r matches Err(error) ==> error.deep_view() == FossilErrorView::PathExists(display@),
{
    if exists {
        Err(FossilError::PathExists(display.to_owned()))
    } else {
        Ok(())
    }
}

// ---------------------------------------------------------------------------
// Commands
// ---------------------------------------------------------------------------

/// An argument of a command that sets up a checkout.
#[derive(Debug, PartialEq, Eq)]
pub enum SetupArg {
    Text(String),
    /// The path of the repository database.
    Repository,
    /// The path of the checkout.
    Checkout,
}

/// An argument of a command that sets up a checkout, as text.
pub enum SetupArgView {
    Text(Seq<char>),
    Repository,
    Checkout,
}

impl DeepView for SetupArg {
    type V = SetupArgView;

    open spec fn deep_view(&self) -> SetupArgView {
        match *self {
            SetupArg::Text(text) => SetupArgView::Text(text@),
            SetupArg::Repository => SetupArgView::Repository,
            SetupArg::Checkout => SetupArgView::Checkout,
        }
    }
}

/// Appends a text argument.
fn push_text(args: &mut Vec<SetupArg>, text: &str)
    ensures
        final(args).deep_view() == old(args).deep_view().push(SetupArgView::Text(text@)),
{
    push_item(args, SetupArg::Text(text.to_owned()));
}

/// The arguments that clone a repository.
pub open spec fn clone_args(repo_url: Seq<char>) -> Seq<SetupArgView> {
    seq![SetupArgView::Text("clone"@), SetupArgView::Text(repo_url), SetupArgView::Repository]
}

/// The arguments that open a checkout; one in a directory with files in it has
/// to be forced.
pub open spec fn open_args(force: bool) -> Seq<SetupArgView> {
    let args = seq![
        SetupArgView::Text("open"@),
        SetupArgView::Repository,
        SetupArgView::Text("--workdir"@),
        SetupArgView::Checkout,
    ];
    if force {
        args.push(SetupArgView::Text("--force"@))
    } else {
        args
    }
}

/// The arguments that make a repository.
pub open spec fn init_args() -> Seq<SetupArgView> {
    seq![SetupArgView::Text("init"@), SetupArgView::Repository]
}

/// The arguments that open a checkout.
fn fossil_open_args(force: bool) -> (r: Vec<SetupArg>)
    ensures
        r.deep_view() == open_args(force),
{
    let mut args: Vec<SetupArg> = Vec::new();
    push_text(&mut args, "open");
    push_item(&mut args, SetupArg::Repository);
    push_text(&mut args, "--workdir");
    push_item(&mut args, SetupArg::Checkout);
    if force {
        push_text(&mut args, "--force");
    }
    assert(args.deep_view() =~= open_args(force));
    args
}

/// How a repository is cloned: neither name may exist in the directory, the
/// database is looked at first; then the two commands are run there.
#[derive(Debug)]
pub struct ClonePlan {
    /// The name of the repository database.
    pub repository_name: String,
    /// The name of the checkout.
    pub checkout_name: String,
    pub clone: Vec<SetupArg>,
    pub open: Vec<SetupArg>,
}

/// How a repository is cloned, as texts.
pub struct ClonePlanView {
    pub repository_name: Seq<char>,
    pub checkout_name: Seq<char>,
    pub clone: Seq<SetupArgView>,
    pub open: Seq<SetupArgView>,
}

impl DeepView for ClonePlan {
    type V = ClonePlanView;

    open spec fn deep_view(&self) -> ClonePlanView {
        ClonePlanView {
            repository_name: self.repository_name@,
            checkout_name: self.checkout_name@,
            clone: self.clone.deep_view(),
            open: self.open.deep_view(),
        }
    }
}

/// How the repository at a URL is cloned; there must be a URL.
pub open spec fn clone_plan(repo_url: Seq<char>) -> Result<ClonePlanView, FossilErrorView> {
    if crate::text::trim(repo_url).len() == 0 {
        Err(FossilErrorView::UrlRequired)
    } else {
        Ok(
            ClonePlanView {
                repository_name: database_name(checkout_name(repo_url)),
                checkout_name: checkout_name(repo_url),
                clone: clone_args(repo_url),
                open: open_args(false),
            },
        )
    }
}

/// Plans to clone the repository at a URL.
pub fn fossil_clone_to_checkout(repo_url: &str) -> (r: Result<ClonePlan, FossilError>)
    ensures
        crate::error::result_view(r) == clone_plan(repo_url@),
{
    let chars = to_chars(repo_url);
    if trimmed(chars.as_slice()).len() == 0 {
        return Err(FossilError::UrlRequired);
    }
    let checkout_name = checkout_name_from_url(repo_url);
    let repository_name = checkout_name.clone().concat(".fossil");
    let mut clone: Vec<SetupArg> = Vec::new();
    push_text(&mut clone, "clone");
    push_text(&mut clone, repo_url);
    push_item(&mut clone, SetupArg::Repository);
    assert(clone.deep_view() =~= clone_args(repo_url@));
    Ok(ClonePlan { repository_name, checkout_name, clone, open: fossil_open_args(false) })
}

/// The arguments that open a checkout of a repository. `is_file` says whether the
/// database is there, and `display` shows its path.
pub fn fossil_open_repository(is_file: bool, display: &str) -> (r: Result<
    Vec<SetupArg>,
    FossilError,
>)
    ensures
        crate::error::result_view(r) == (if is_file {
            Ok::<Seq<SetupArgView>, FossilErrorView>(open_args(false))
        } else {
            Err(FossilErrorView::RepositoryMissing(display@))
        }),
{
    if !is_file {
        return Err(FossilError::RepositoryMissing(display.to_owned()));
    }
    Ok(fossil_open_args(false))
}

/// How a repository is made: the first command is run beside the database, the
/// second in the checkout. The path of the database must be free.
#[derive(Debug)]
pub struct InitPlan<P> {
    /// The directory of the database.
    pub repository_dir: P,
    /// The name of the database.
    pub repository_name: String,
    pub init: Vec<SetupArg>,
    pub open: Vec<SetupArg>,
}

/// Plans to make a repository for a checkout directory. `is_dir` says whether the
/// directory is there, `display` shows its path, `name` is its name, if it is a
/// text, and `parent` the directory that it lies in.
pub fn fossil_init_checkout<P>(
    is_dir: bool,
    display: &str,
    name: Option<&str>,
    parent: Option<P>,
) -> (r: Result<InitPlan<P>, FossilError>)
    ensures
        match r {
            Ok(plan) => is_dir && parent == Some(plan.repository_dir) && plan.repository_name@
                == database_name(name_or_default(crate::remote::opt_output(name)))
                && plan.init.deep_view() == init_args() && plan.open.deep_view() == open_args(true),
            Err(error) => error.deep_view() == (if !is_dir {
                FossilErrorView::CheckoutMissing(display@)
            } else {
                FossilErrorView::NoDirectoryParent
            }),
        },
        r is Ok <==> is_dir && parent is Some,
{
    if !is_dir {
        return Err(FossilError::CheckoutMissing(display.to_owned()));
    }
    match repository_db_for_checkout(name, parent) {
        Ok((repository_dir, repository_name)) => {
            let mut init: Vec<SetupArg> = Vec::new();
            push_text(&mut init, "init");
            push_item(&mut init, SetupArg::Repository);
            assert(init.deep_view() =~= init_args());
            Ok(InitPlan { repository_dir, repository_name, init, open: fossil_open_args(true) })
        },
        Err(error) => Err(error),
    }
}

/// What a failed command says: what it printed as an error, or if that is blank,
/// what else it printed.
pub open spec fn failure_text(stdout: Seq<char>, stderr: Seq<char>) -> Seq<char> {
    if crate::text::trim(stderr).len() == 0 {
        crate::text::trim(stdout)
    } else {
        crate::text::trim(stderr)
    }
}

/// The result of a command that sets up a checkout.
pub fn run_fossil(success: bool, stdout: &str, stderr: &str) -> (r: Result<(), FossilError>)
    ensures
        success <==> r is Ok,
        r matches Err(error) ==> error.deep_view() == FossilErrorView::SetupCommand(
            failure_text(stdout@, stderr@),
        ),
{
    if success {
        return Ok(());
    }
    let err = to_chars(stderr);
    let out = to_chars(stdout);
    let text = trimmed(err.as_slice());
    let text = if text.len() == 0 {
        trimmed(out.as_slice())
    } else {
        text
    };
    Err(FossilError::SetupCommand(to_text(text)))
}

// ---------------------------------------------------------------------------
// Asking the user
// ---------------------------------------------------------------------------

/// A question for a path.
#[derive(Debug)]
pub struct PathPromptOptions {
    pub files: bool,
    pub directories: bool,
    pub multiple: bool,
    pub prompt: String,
}

impl DeepView for PathPromptOptions {
    type V = (bool, bool, bool, Seq<char>);

    open spec fn deep_view(&self) -> (bool, bool, bool, Seq<char>) {
        (self.files, self.directories, self.multiple, self.prompt@)
    }
}

/// A question for one directory.
pub open spec fn directory_prompt(prompt: Seq<char>) -> (bool, bool, bool, Seq<char>) {
    (false, true, false, prompt)
}

/// A question for one file.
pub open spec fn file_prompt(prompt: Seq<char>) -> (bool, bool, bool, Seq<char>) {
    (true, false, false, prompt)
}

/// Asks for one directory.
fn ask_directory(prompt: &str) -> (r: PathPromptOptions)
    ensures
        r.deep_view() == directory_prompt(prompt@),
{
    PathPromptOptions {
        files: false,
        directories: true,
        multiple: false,
        prompt: prompt.to_owned(),
    }
}

/// What is set up.
#[derive(Clone, Copy, Debug, PartialEq, Eq, Structural)]
pub enum SetupKind {
    Clone,
    OpenRepository,
    Init,
}

/// The title under which a failure is told.
pub open spec fn error_title(kind: SetupKind) -> Seq<char> {
    match kind {
        SetupKind::Clone => "Fossil Clone"@,
        SetupKind::OpenRepository => "Fossil Open Repository"@,
        SetupKind::Init => "Fossil Init"@,
    }
}

/// A path that was chosen, with its name if it is a text.
#[derive(Debug)]
pub struct ChosenPath<P> {
    pub path: P,
    pub name: Option<String>,
}

/// The title of a checkout of a local repository.
pub open spec fn repository_title(name: Option<Seq<char>>) -> Seq<char> {
    "Fossil Repository: "@ + (match name {
        Some(name) => name,
        None => DEFAULT_REPOSITORY_NAME@,
    })
}

/// The title of a checkout of a local repository.
fn repository_title_of(name: &Option<String>) -> (r: String)
    ensures
        r@ == repository_title(name.deep_view()),
{
    let title = "Fossil Repository: ".to_owned();
    match name {
        Some(name) => title.concat(name.as_str()),
        None => title.concat(DEFAULT_REPOSITORY_NAME),
    }
}

/// The path that was chosen: the last one, if the question was answered.
pub open spec fn chosen<T>(paths: Option<Seq<T>>) -> Option<T> {
    match paths {
        Some(paths) => if paths.len() > 0 {
            Some(paths.last())
        } else {
            None
        },
        None => None,
    }
}

/// The paths of an optional answer.
pub open spec fn answer<T>(paths: Option<Vec<T>>) -> Option<Seq<T>> {
    match paths {
        Some(paths) => Some(paths@),
        None => None,
    }
}

/// Takes the path that was chosen.
fn take_chosen<T>(paths: Option<Vec<T>>) -> (r: Option<T>)
    ensures
        r == chosen(answer(paths)),
{
    match paths {
        Some(paths) => {
            let mut paths = paths;
            paths.pop()
        },
        None => None,
    }
}

/// Begins to clone: asks where the checkout is to be. Go on with
/// [`clone_after_prompt`].
pub fn clone_remote() -> (r: PathPromptOptions)
    ensures
        r.deep_view() == directory_prompt("Select Parent Directory for Fossil Checkout"@),
{
    ask_directory("Select Parent Directory for Fossil Checkout")
}

/// A repository that is to be cloned into a directory.
#[derive(Debug)]
pub struct CloneJob<P> {
    pub parent_dir: P,
    pub plan: Result<ClonePlan, FossilError>,
    /// The title under which the checkout is opened.
    pub title: String,
}

/// Goes on to clone with the answer; nothing is done without one.
pub fn clone_after_prompt<P>(repo_url: &str, paths: Option<Vec<P>>) -> (r: Option<CloneJob<P>>)
    ensures
        match r {
            Some(job) => chosen(answer(paths)) == Some(job.parent_dir) && crate::error::result_view(
                job.plan,
            ) == clone_plan(repo_url@) && job.title@ == "Fossil Clone: "@ + checkout_name(repo_url@),
            None => chosen(answer(paths)) is None,
        },
{
    match take_chosen(paths) {
        Some(parent_dir) => Some(
            CloneJob {
                parent_dir,
                plan: fossil_clone_to_checkout(repo_url),
                title: "Fossil Clone: ".to_owned().concat(
                    checkout_name_from_url(repo_url).as_str(),
                ),
            },
        ),
        None => None,
    }
}

/// Begins to open a repository: asks for its database. Go on with
/// [`open_after_repository_prompt`].
pub fn open_existing_repository() -> (r: PathPromptOptions)
    ensures
        r.deep_view() == file_prompt("Select Fossil Repository Database"@),
{
    PathPromptOptions {
        files: true,
        directories: false,
        multiple: false,
        prompt: "Select Fossil Repository Database".to_owned(),
    }
}

/// Goes on to open the chosen repository: asks for the directory of the checkout.
/// Go on with [`open_after_checkout_prompt`].
pub fn open_after_repository_prompt<P>(paths: Option<Vec<P>>) -> (r: Option<(P, PathPromptOptions)>)
    ensures
        match r {
            Some((repository, prompt)) => chosen(answer(paths)) == Some(repository)
                && prompt.deep_view() == directory_prompt("Select Checkout Directory"@),
            None => chosen(answer(paths)) is None,
        },
{
    match take_chosen(paths) {
        Some(repository) => Some((repository, ask_directory("Select Checkout Directory"))),
        None => None,
    }
}

/// A checkout that is to be opened.
#[derive(Debug)]
pub struct OpenJob<P> {
    pub checkout_dir: P,
    /// The title under which the checkout is opened.
    pub title: String,
}

/// Goes on to open a repository with the chosen directory.
pub fn open_after_checkout_prompt<P>(paths: Option<Vec<ChosenPath<P>>>) -> (r: Option<OpenJob<P>>)
    ensures
        match r {
            Some(job) => chosen(answer(paths)) is Some && chosen(answer(paths))->0.path
                == job.checkout_dir && job.title@ == repository_title(
                chosen(answer(paths))->0.name.deep_view(),
            ),
            None => chosen(answer(paths)) is None,
        },
{
    match take_chosen(paths) {
        Some(chosen) => {
            let title = repository_title_of(&chosen.name);
            Some(OpenJob { checkout_dir: chosen.path, title })
        },
        None => None,
    }
}

/// Begins to make a repository: asks for the directory of the checkout. Go on
/// with [`open_after_checkout_prompt`].
pub fn init_repository() -> (r: PathPromptOptions)
    ensures
        r.deep_view() == directory_prompt("Select Checkout Directory"@),
{
    ask_directory("Select Checkout Directory")
}

/// How a setup ends.
#[derive(Debug)]
pub enum SetupOutcome {
    /// Open the checkout under a title, with [`open_checkout_after_setup`].
    OpenCheckout { title: String },
    /// Tell the user what went wrong, with the single button `Ok`.
    ReportError { title: String, detail: String },
}

/// How a setup ends: the checkout is opened, or the error is told.
pub fn prompt_setup_error(kind: SetupKind, result: Result<(), FossilError>, title: String) -> (r:
    SetupOutcome)
    ensures
        match r {
            SetupOutcome::OpenCheckout { title: shown } => result is Ok && shown@ == title@,
            SetupOutcome::ReportError { title: shown, detail } => result is Err && shown@
                == error_title(kind) && detail@ == crate::error::error_message(
                result->Err_0.deep_view(),
            ),
        },
{
    match result {
        Ok(_) => SetupOutcome::OpenCheckout { title },
        Err(error) => {
            let title = match kind {
                SetupKind::Clone => "Fossil Clone".to_owned(),
                SetupKind::OpenRepository => "Fossil Open Repository".to_owned(),
                SetupKind::Init => "Fossil Init".to_owned(),
            };
            SetupOutcome::ReportError { title, detail: error.message() }
        },
    }
}

// ---------------------------------------------------------------------------
// Opening the checkout
// ---------------------------------------------------------------------------

/// What is done with a new checkout.
#[derive(Clone, Copy, Debug, PartialEq, Eq, Structural)]
pub enum OpenCheckout {
    /// Ask which, and go on with [`open_checkout_after_prompt`].
    Ask,
    AddToProject,
    OpenNewProject,
    Nothing,
}

/// The buttons of the question what to do with a new checkout, in their order.
pub fn open_checkout_buttons() -> (r: Vec<String>)
    ensures
        r.deep_view() == seq!["Add checkout to project"@, "Open checkout in new project"@],
{
    crate::commands::two_args("Add checkout to project", "Open checkout in new project")
}

/// What is done with the button that was pressed; the first one stands for no
/// answer.
pub open spec fn answer_choice(answer: Option<usize>) -> OpenCheckout {
    match answer {
        None => OpenCheckout::AddToProject,
        Some(button) => if button == 0 {
            OpenCheckout::AddToProject
        } else if button == 1 {
            OpenCheckout::OpenNewProject
        } else {
            OpenCheckout::Nothing
        },
    }
}

/// What is done with a new checkout: an empty project takes it, any other one
/// asks.
pub fn open_checkout_after_setup(has_worktrees: bool) -> (r: OpenCheckout)
    ensures
        r == (if has_worktrees {
            OpenCheckout::Ask
        } else {
            answer_choice(None)
        }),
{
    if has_worktrees {
        OpenCheckout::Ask
    } else {
        OpenCheckout::AddToProject
    }
}

/// What is done with a new checkout when the question was answered, or could not
/// be asked.
pub fn open_checkout_after_prompt(answer: Option<usize>) -> (r: OpenCheckout)
    ensures
        r == answer_choice(answer),
{
    match answer {
        None => OpenCheckout::AddToProject,
        Some(button) => {
            if button == 0 {
                OpenCheckout::AddToProject
            } else if button == 1 {
                OpenCheckout::OpenNewProject
            } else {
                OpenCheckout::Nothing
            }
        },
    }
}

/// A short message on the screen.
#[derive(Debug)]
pub struct StatusToast {
    pub message: String,
    pub is_error: bool,
}

impl DeepView for StatusToast {
    type V = (Seq<char>, bool);

    open spec fn deep_view(&self) -> (Seq<char>, bool) {
        (self.message@, self.is_error)
    }
}

/// What is told when a new checkout was opened or could not be: a project that
/// was made for it speaks for itself.
pub open spec fn open_toast(choice: OpenCheckout, error: Option<Seq<char>>, display: Seq<char>) -> Option<
    (Seq<char>, bool),
> {
    match choice {
        OpenCheckout::AddToProject => match error {
            None => Some(("Opened Fossil checkout "@ + display, false)),
            Some(error) => Some(("Failed to open Fossil checkout: "@ + error, true)),
        },
        OpenCheckout::OpenNewProject => match error {
            None => None,
            Some(error) => Some(("Failed to open Fossil checkout: "@ + error, true)),
        },
        _ => None,
    }
}

/// What is told when a new checkout was opened, or could not be because of
/// `error`. `display` shows its path.
pub fn show_status_toast(choice: OpenCheckout, error: Option<&str>, display: &str) -> (r: Option<
    StatusToast,
>)
    ensures
        r.deep_view() == open_toast(choice, crate::remote::opt_output(error), display@),
{
    match choice {
        OpenCheckout::AddToProject => match error {
            None => Some(
                StatusToast {
                    message: "Opened Fossil checkout ".to_owned().concat(display),
                    is_error: false,
                },
            ),
            Some(error) => Some(failed_toast(error)),
        },
        OpenCheckout::OpenNewProject => match error {
            None => None,
            Some(error) => Some(failed_toast(error)),
        },
        _ => None,
    }
}

/// That a new checkout could not be opened.
fn failed_toast(error: &str) -> (r: StatusToast)
    ensures
        r.deep_view() == ("Failed to open Fossil checkout: "@ + error@, true),
{
    StatusToast {
        message: "Failed to open Fossil checkout: ".to_owned().concat(error),
        is_error: true,
    }
}

/// Law: a setup that fails is always told with the whole error, and one that
/// succeeds never is.
pub proof fn law_open_toast_tells_every_error(choice: OpenCheckout, error: Seq<char>, display: Seq<char>)
    requires
        choice == OpenCheckout::AddToProject || choice == OpenCheckout::OpenNewProject,
    ensures
        open_toast(choice, Some(error), display) == Some(
            ("Failed to open Fossil checkout: "@ + error, true),
        ),
        open_toast(choice, None, display) matches Some((_, is_error)) ==> !is_error,
{
}

// ---------------------------------------------------------------------------
// The dialog
// ---------------------------------------------------------------------------

/// The dialog that asks for the URL of a repository.
#[derive(Debug)]
pub struct FossilCloneModal {
    pub repo_input: String,
}

/// What the user does in the dialog.
#[derive(Clone, Copy, Debug, PartialEq, Eq, Structural)]
pub enum ModalEvent {
    Cancel,
    Confirm,
    LearnMore,
}

/// What the dialog does.
#[derive(Debug)]
pub struct ModalAction {
    /// Clones this URL.
    pub clone_url: Option<String>,
    /// Shows this page.
    pub open_url: Option<String>,
    pub dismiss: bool,
}

/// What the dialog does, as texts.
pub struct ModalActionView {
    pub clone_url: Option<Seq<char>>,
    pub open_url: Option<Seq<char>>,
    pub dismiss: bool,
}

impl DeepView for ModalAction {
    type V = ModalActionView;

    open spec fn deep_view(&self) -> ModalActionView {
        ModalActionView {
            clone_url: self.clone_url.deep_view(),
            open_url: self.open_url.deep_view(),
            dismiss: self.dismiss,
        }
    }
}

/// What stands in the empty input field.
pub const CLONE_PLACEHOLDER: &'static str = "Enter Fossil repository URL...";

/// What the dialog says of itself.
pub const CLONE_LABEL: &'static str = "Clone a Fossil repository and open a checkout.";

/// Where there is more to read.
pub const LEARN_MORE_URL: &'static str =
    "https://fossil-scm.org/home/doc/trunk/www/ckout-workflows.md";

/// What the dialog does with the given input.
pub open spec fn modal_action(input: Seq<char>, event: ModalEvent) -> ModalActionView {
    match event {
        ModalEvent::Cancel => ModalActionView { clone_url: None, open_url: None, dismiss: true },
        ModalEvent::Confirm => ModalActionView {
            clone_url: Some(input),
            open_url: None,
            dismiss: true,
        },
        ModalEvent::LearnMore => ModalActionView {
            clone_url: None,
            open_url: Some(LEARN_MORE_URL@),
            dismiss: false,
        },
    }
}

impl FossilCloneModal {
    /// The dialog with an empty input field.
    pub fn show() -> (r: FossilCloneModal)
        ensures
            r.repo_input@.len() == 0,
    {
        FossilCloneModal { repo_input: String::new() }
    }

    /// What the dialog does when the user does something.
    pub fn handle(&self, event: ModalEvent) -> (r: ModalAction)
        ensures
            r.deep_view() == modal_action(self.repo_input@, event),
    {
        match event {
            ModalEvent::Cancel => ModalAction { clone_url: None, open_url: None, dismiss: true },
            ModalEvent::Confirm => ModalAction {
                clone_url: Some(self.repo_input.clone()),
                open_url: None,
                dismiss: true,
            },
            ModalEvent::LearnMore => ModalAction {
                clone_url: None,
                open_url: Some(LEARN_MORE_URL.to_owned()),
                dismiss: false,
            },
        }
    }
}

} // verus!
