//! Remotes, and what is synchronised with which of them.

use crate::branch::fossil_branch_name;
use crate::commands::{one_arg, push_arg, two_args};
use crate::error::{FossilError, FossilErrorView};
use crate::index::push_item;
use crate::info::{copy_text, FossilInfo, FossilInfoView};
use crate::text::{is_text, split_lines, split_once_at_white, to_chars, to_text, trimmed};
use crate::unique_map::UniqueMap;
use vstd::prelude::*;
use vstd::string::*;

verus! {

// ---------------------------------------------------------------------------
// The list of remotes
// ---------------------------------------------------------------------------

/// A remote with its URL.
#[derive(Debug)]
pub struct FossilRemote {
    pub name: String,
    pub url: String,
}

impl DeepView for FossilRemote {
    type V = (Seq<char>, Seq<char>);

    open spec fn deep_view(&self) -> (Seq<char>, Seq<char>) {
        (self.name@, self.url@)
    }
}

/// The remote in a line: its name, white space and its URL.
pub open spec fn remote_line(line: Seq<char>) -> Option<(Seq<char>, Seq<char>)> {
    match crate::text::split_once_white(crate::text::trim(line)) {
        Some((name, url)) => if crate::text::trim(url).len() > 0 {
            Some((name, crate::text::trim(url)))
        } else {
            None
        },
        None => None,
    }
}

/// The remotes in the given lines.
pub open spec fn remote_lines(lines: Seq<Seq<char>>) -> Seq<(Seq<char>, Seq<char>)>
    decreases lines.len(),
{
    if lines.len() == 0 {
        seq![]
    } else {
        match remote_line(lines.last()) {
            Some(remote) => remote_lines(lines.drop_last()).push(remote),
            None => remote_lines(lines.drop_last()),
        }
    }
}

/// The remotes in the output of `fossil remote list`, each with its URL.
pub open spec fn remote_list(output: Seq<char>) -> Seq<(Seq<char>, Seq<char>)> {
    remote_lines(crate::text::lines(output))
}

/// Reads one line of `fossil remote list`.
fn remote_of_line(line: &[char]) -> (r: Option<FossilRemote>)
    ensures
        r.deep_view() == remote_line(line@),
{
    match split_once_at_white(trimmed(line)) {
        Some((name, url)) => {
            let url = trimmed(url);
            if url.len() > 0 {
                Some(FossilRemote { name: to_text(name), url: to_text(url) })
            } else {
                None
            }
        },
        None => None,
    }
}

/// Reads the output of `fossil remote list`.
pub fn parse_fossil_remote_list(output: &str) -> (r: Vec<FossilRemote>)
    ensures
        r.deep_view() == remote_list(output@),
{
    let chars = to_chars(output);
    let lines = split_lines(chars.as_slice());
    let ghost all = crate::text::lines(output@);
    let mut r: Vec<FossilRemote> = Vec::new();
    let mut i: usize = 0;
    assert(all.take(0) == Seq::<Seq<char>>::empty());
    assert(r.deep_view() == Seq::<(Seq<char>, Seq<char>)>::empty());
    while i < lines.len()
        invariant
            i <= lines@.len(),
            crate::text::texts(lines@) == all,
            r.deep_view() == remote_lines(all.take(i as int)),
        decreases lines@.len() - i,
    {
        assert(all.take(i + 1).drop_last() == all.take(i as int));
        assert(all.take(i + 1).last() == lines@[i as int]@);
        if let Some(remote) = remote_of_line(lines[i]) {
            push_item(&mut r, remote);
        }
        i = i + 1;
    }
    assert(all.take(i as int) == all);
    r
}

/// The URL in the output of `fossil remote`, unless there is none.
pub open spec fn default_remote(output: Seq<char>) -> Option<Seq<char>> {
    let remote = crate::text::trim(output);
    if remote.len() > 0 && remote != "off"@ {
        Some(remote)
    } else {
        None
    }
}

/// Reads the output of `fossil remote`.
pub fn parse_fossil_default_remote(output: &str) -> (r: Option<String>)
    ensures
        r.deep_view() == default_remote(output@),
{
    let chars = to_chars(output);
    let remote = trimmed(chars.as_slice());
    if remote.len() > 0 && !is_text(remote, "off") {
        Some(to_text(remote))
    } else {
        None
    }
}

// ---------------------------------------------------------------------------
// URLs
// ---------------------------------------------------------------------------

/// The URL of the first remote with a name.
pub open spec fn url_of(remotes: Seq<(Seq<char>, Seq<char>)>, name: Seq<char>) -> Option<Seq<char>>
    decreases remotes.len(),
{
    if remotes.len() == 0 {
        None
    } else if remotes[0].0 == name {
        Some(remotes[0].1)
    } else {
        url_of(remotes.skip(1), name)
    }
}

/// The arguments that ask for the URL of a remote.
pub open spec fn remote_url_args(name: Seq<char>) -> Seq<Seq<char>> {
    if name == "default"@ {
        seq!["remote"@]
    } else {
        seq!["remote"@, "list"@]
    }
}

/// The arguments that ask for the URL of a remote.
pub fn fossil_remote_url_args(name: &str) -> (r: Vec<String>)
    ensures
        r.deep_view() == remote_url_args(name@),
{
    let chars = to_chars(name);
    if is_text(chars.as_slice(), "default") {
        one_arg("remote")
    } else {
        two_args("remote", "list")
    }
}

/// The URL of a remote in the output that was asked for.
pub open spec fn remote_url(name: Seq<char>, output: Seq<char>) -> Option<Seq<char>> {
    if name == "default"@ {
        default_remote(output)
    } else {
        url_of(remote_list(output), name)
    }
}

/// The URL of a remote, from the output of `fossil` with the arguments of
/// [`fossil_remote_url_args`].
pub fn fossil_remote_url(name: &str, output: &str) -> (r: Option<String>)
    ensures
        r.deep_view() == remote_url(name@, output@),
{
    let chars = to_chars(name);
    if is_text(chars.as_slice(), "default") {
        return parse_fossil_default_remote(output);
    }
    let wanted = name.to_owned();
    let remotes = parse_fossil_remote_list(output);
    let ghost all = remotes.deep_view();
    let mut i: usize = 0;
    assert(all.skip(0) == all);
    while i < remotes.len()
        invariant
            i <= remotes@.len(),
            all == remotes.deep_view(),
            all == remote_list(output@),
            wanted@ == name@,
            name@ != "default"@,
            url_of(all, name@) == url_of(all.skip(i as int), name@),
        decreases remotes@.len() - i,
    {
        assert(all.skip(i as int)[0] == remotes@[i as int].deep_view());
        if remotes[i].name == wanted {
            return Some(remotes[i].url.clone());
        }
        assert(all.skip(i as int).skip(1) == all.skip(i + 1));
        i = i + 1;
    }
    None
}

/// The URLs of the given remotes by name; of those with one name, the last.
pub open spec fn urls_by_name(remotes: Seq<(Seq<char>, Seq<char>)>) -> Map<Seq<char>, Seq<char>>
    decreases remotes.len(),
{
    if remotes.len() == 0 {
        Map::empty()
    } else {
        urls_by_name(remotes.drop_last()).insert(remotes.last().0, remotes.last().1)
    }
}

/// The URLs in the output of `fossil remote list`, none if the command failed.
pub open spec fn listed_urls(output: Option<Seq<char>>) -> Map<Seq<char>, Seq<char>> {
    match output {
        Some(output) => urls_by_name(remote_list(output)),
        None => Map::empty(),
    }
}

/// Whether `fossil remote` has to be asked for the default.
pub open spec fn needs_default(urls: Map<Seq<char>, Seq<char>>) -> bool {
    !urls.dom().contains("default"@)
}

/// All URLs: the listed ones, and the default one if it is not among them.
pub open spec fn all_urls(list: Option<Seq<char>>, default: Option<Seq<char>>) -> Map<
    Seq<char>,
    Seq<char>,
> {
    let urls = listed_urls(list);
    if needs_default(urls) {
        with_default(urls, default)
    } else {
        urls
    }
}

/// URLs with the default one from the output of `fossil remote`, if there is one
/// and the command did not fail.
pub open spec fn with_default(urls: Map<Seq<char>, Seq<char>>, output: Option<Seq<char>>) -> Map<
    Seq<char>,
    Seq<char>,
> {
    match output {
        Some(output) => match default_remote(output) {
            Some(url) => urls.insert("default"@, url),
            None => urls,
        },
        None => urls,
    }
}

/// The text of an optional output.
pub open spec fn opt_output(output: Option<&str>) -> Option<Seq<char>> {
    match output {
        Some(output) => Some(output@),
        None => None,
    }
}

/// The URLs in the output of `fossil remote list`, and whether `fossil remote`
/// has to be asked as well.
pub fn remote_urls_from_list(output: Option<&str>) -> (r: (UniqueMap<String, String>, bool))
    ensures
        r.0@ == listed_urls(opt_output(output)),
        r.1 == needs_default(r.0@),
{
    let mut urls: UniqueMap<String, String> = UniqueMap::new();
    if let Some(output) = output {
        let remotes = parse_fossil_remote_list(output);
        let ghost all = remotes.deep_view();
        let mut i: usize = 0;
        assert(all.take(0) == Seq::<(Seq<char>, Seq<char>)>::empty());
        while i < remotes.len()
            invariant
                i <= remotes@.len(),
                all == remotes.deep_view(),
                urls@ == urls_by_name(all.take(i as int)),
            decreases remotes@.len() - i,
        {
            assert(all.take(i + 1).drop_last() == all.take(i as int));
            assert(all.take(i + 1).last() == remotes@[i as int].deep_view());
            urls.insert(remotes[i].name.clone(), remotes[i].url.clone());
            i = i + 1;
        }
        assert(all.take(i as int) == all);
    }
    let key = "default".to_owned();
    let ask = urls.get(&key).is_none();
    (urls, ask)
}

/// Adds the default URL from the output of `fossil remote`.
pub fn add_default_remote(urls: &mut UniqueMap<String, String>, output: Option<&str>)
    ensures
        final(urls)@ == with_default(old(urls)@, opt_output(output)),
{
    if let Some(output) = output {
        if let Some(url) = parse_fossil_default_remote(output) {
            urls.insert("default".to_owned(), url);
        }
    }
}

/// Law: a listed default is never replaced, and every listed name keeps its URL.
pub proof fn law_listed_urls_stay(list: Option<Seq<char>>, default: Option<Seq<char>>, name: Seq<char>)
    requires
        listed_urls(list).dom().contains(name),
    ensures
        all_urls(list, default).dom().contains(name),
        all_urls(list, default)[name] == listed_urls(list)[name],
{
}

// ---------------------------------------------------------------------------
// Names
// ---------------------------------------------------------------------------

/// A remote by name.
#[derive(Debug)]
pub struct Remote {
    pub name: String,
}

impl DeepView for Remote {
    type V = Seq<char>;

    open spec fn deep_view(&self) -> Seq<char> {
        self.name@
    }
}

/// The names of the given remotes.
pub open spec fn names_of(remotes: Seq<(Seq<char>, Seq<char>)>) -> Seq<Seq<char>> {
    Seq::new(remotes.len(), |i: int| remotes[i].0)
}

/// All remotes: the listed ones; if there are none, the default one if it is
/// set.
pub open spec fn all_remotes(list: Seq<char>, default: Seq<char>) -> Seq<Seq<char>> {
    let names = names_of(remote_list(list));
    if names.len() == 0 {
        default_names(default)
    } else {
        names
    }
}

/// The default remote, if the output of `fossil remote` says that it is set.
pub open spec fn default_names(output: Seq<char>) -> Seq<Seq<char>> {
    if default_remote(output) is Some {
        seq!["default"@]
    } else {
        seq![]
    }
}

/// The remotes in the output of `fossil remote list`. If there are none, ask
/// `fossil remote` and take [`remotes_from_default`].
pub fn remotes_from_list(output: &str) -> (r: Vec<Remote>)
    ensures
        r.deep_view() == names_of(remote_list(output@)),
        r@.len() > 0 ==> forall|default: Seq<char>|
            r.deep_view() == #[trigger] all_remotes(output@, default),
        r@.len() == 0 ==> forall|default: Seq<char>| #[trigger]
            all_remotes(output@, default) == default_names(default),
{
    let remotes = parse_fossil_remote_list(output);
    let ghost all = names_of(remotes.deep_view());
    let mut r: Vec<Remote> = Vec::new();
    for i in 0..remotes.len()
        invariant
            all == names_of(remotes.deep_view()),
            r.deep_view() == all.take(i as int),
    {
        push_item(&mut r, Remote { name: remotes[i].name.clone() });
        assert(r.deep_view() == all.take(i + 1));
    }
    assert(all.take(remotes@.len() as int) == all);
    assert(r.deep_view().len() == r@.len());
    r
}

/// The default remote, if the output of `fossil remote` says that it is set.
pub fn remotes_from_default(output: &str) -> (r: Vec<Remote>)
    ensures
        r.deep_view() == default_names(output@),
{
    let mut r: Vec<Remote> = Vec::new();
    assert(r.deep_view() == Seq::<Seq<char>>::empty());
    if parse_fossil_default_remote(output).is_some() {
        push_item(&mut r, Remote { name: "default".to_owned() });
        assert(r.deep_view() == seq!["default"@]);
    }
    r
}

/// The remote of a branch: the default one if it is set, else the first one.
pub open spec fn branch_remote(default: Seq<char>, list: Seq<char>) -> Option<Seq<char>> {
    if default_remote(default) is Some {
        Some("default"@)
    } else {
        first_remote(list)
    }
}

/// The first remote in the output of `fossil remote list`.
pub open spec fn first_remote(list: Seq<char>) -> Option<Seq<char>> {
    if remote_list(list).len() > 0 {
        Some(remote_list(list)[0].0)
    } else {
        None
    }
}

/// The remote of a branch, if the output of `fossil remote` decides it. If not,
/// ask `fossil remote list` and take [`first_listed_remote`].
pub fn default_fossil_remote(output: &str) -> (r: Option<Remote>)
    ensures
        r is Some ==> forall|list: Seq<char>|
            r.deep_view() == #[trigger] branch_remote(output@, list),
        r is None ==> forall|list: Seq<char>| #[trigger]
            branch_remote(output@, list) == first_remote(list),
        r is Some <==> default_remote(output@) is Some,
{
    if parse_fossil_default_remote(output).is_some() {
        Some(Remote { name: "default".to_owned() })
    } else {
        None
    }
}

/// The first remote in the output of `fossil remote list`.
pub fn first_listed_remote(output: &str) -> (r: Option<Remote>)
    ensures
        r.deep_view() == first_remote(output@),
{
    let remotes = parse_fossil_remote_list(output);
    assert(remotes.deep_view().len() == remotes@.len());
    if remotes.len() > 0 {
        assert(remotes.deep_view()[0] == remotes@[0].deep_view());
        Some(Remote { name: remotes[0].name.clone() })
    } else {
        None
    }
}

// ---------------------------------------------------------------------------
// Synchronising
// ---------------------------------------------------------------------------

/// The arguments of `fossil sync`.
pub open spec fn sync_args(remote: Seq<char>) -> Seq<Seq<char>> {
    seq!["sync"@, remote]
}

/// The remote to synchronise with: the one that is named, unless it is the
/// default; else the URL of the default one; else the first one.
pub open spec fn sync_remote(
    name: Option<Seq<char>>,
    default: Seq<char>,
    list: Seq<char>,
) -> Option<Seq<char>> {
    match name {
        Some(name) => if name != "default"@ {
            Some(name)
        } else {
            unnamed_remote(default, list)
        },
        None => unnamed_remote(default, list),
    }
}

/// Whether another remote than the default one is named.
pub open spec fn names_remote(name: Option<Seq<char>>) -> bool {
    name is Some && name != Some("default"@)
}

/// The remote to synchronise with where none is named.
pub open spec fn unnamed_remote(default: Seq<char>, list: Seq<char>) -> Option<Seq<char>> {
    match default_remote(default) {
        Some(url) => Some(url),
        None => first_remote(list),
    }
}

/// The arguments of `fossil sync`, or that there is no remote.
pub open spec fn sync_plan(name: Option<Seq<char>>, default: Seq<char>, list: Seq<char>) -> Result<
    Seq<Seq<char>>,
    FossilErrorView,
> {
    match sync_remote(name, default, list) {
        Some(remote) => Ok(sync_args(remote)),
        None => Err(FossilErrorView::NoRemote),
    }
}

/// What is to be done to synchronise.
#[derive(Debug)]
pub enum SyncStep {
    /// Run `fossil` with these arguments.
    Sync(Vec<String>),
    /// Run `fossil remote` and go on with [`sync_after_default`].
    AskDefault,
    /// Run `fossil remote list` and go on with [`sync_after_list`].
    AskList,
}

/// Begins to synchronise with the remote of the given name.
pub fn fossil_sync_args(remote_name: Option<&str>) -> (r: SyncStep)
    ensures
        match r {
            SyncStep::Sync(args) => names_remote(opt_output(remote_name)) && forall|
                default: Seq<char>,
                list: Seq<char>,
            | #[trigger]
                sync_plan(opt_output(remote_name), default, list) == Ok::<
                    Seq<Seq<char>>,
                    FossilErrorView,
                >(args.deep_view()),
            SyncStep::AskDefault => !names_remote(opt_output(remote_name)),
            SyncStep::AskList => false,
        },
{
    match remote_name {
        Some(name) => {
            let chars = to_chars(name);
            if is_text(chars.as_slice(), "default") {
                SyncStep::AskDefault
            } else {
                SyncStep::Sync(two_args("sync", name))
            }
        },
        None => SyncStep::AskDefault,
    }
}

/// Goes on with the output of `fossil remote`, where no other remote than the
/// default one was named.
pub fn sync_after_default(output: &str) -> (r: SyncStep)
    ensures
        match r {
            SyncStep::Sync(args) => default_remote(output@) is Some && forall|list: Seq<char>|
             #[trigger]
                sync_plan(None, output@, list) == Ok::<Seq<Seq<char>>, FossilErrorView>(
                    args.deep_view(),
                ),
            SyncStep::AskList => default_remote(output@) is None,
            SyncStep::AskDefault => false,
        },
{
    match parse_fossil_default_remote(output) {
        Some(url) => SyncStep::Sync(two_args("sync", url.as_str())),
        None => SyncStep::AskList,
    }
}

/// Goes on with the output of `fossil remote list`, where there is no default
/// remote.
pub fn sync_after_list(output: &str) -> (r: Result<Vec<String>, FossilError>)
    ensures
        forall|default: Seq<char>|
            default_remote(default) is None ==> #[trigger] sync_plan(None, default, output@)
                == crate::error::result_view(r),
        crate::error::result_view(r) == (match first_remote(output@) {
            Some(remote) => Ok::<Seq<Seq<char>>, FossilErrorView>(sync_args(remote)),
            None => Err(FossilErrorView::NoRemote),
        }),
{
    match first_listed_remote(output) {
        Some(remote) => Ok(two_args("sync", remote.name.as_str())),
        None => Err(FossilError::NoRemote),
    }
}

/// Law: naming the default remote is the same as naming none.
pub proof fn law_default_is_unnamed(default: Seq<char>, list: Seq<char>)
    ensures
        sync_plan(Some("default"@), default, list) == sync_plan(None, default, list),
{
}

/// How to push.
#[derive(Clone, Copy, Debug, PartialEq, Eq, Structural)]
pub enum PushOptions {
    SetUpstream,
    Force,
}

/// Begins to push: a sync cannot be forced.
pub fn fossil_push_args(upstream_name: &str, options: Option<PushOptions>) -> (r: Result<
    SyncStep,
    FossilError,
>)
    ensures
        options == Some(PushOptions::Force) <==> r is Err,
        r matches Err(error) ==> error.deep_view() == FossilErrorView::ForcePushUnsupported,
        r matches Ok(step) ==> match step {
            SyncStep::Sync(args) => names_remote(Some(upstream_name@)) && forall|
                default: Seq<char>,
                list: Seq<char>,
            | #[trigger]
                sync_plan(Some(upstream_name@), default, list) == Ok::<
                    Seq<Seq<char>>,
                    FossilErrorView,
                >(args.deep_view()),
            SyncStep::AskDefault => !names_remote(Some(upstream_name@)),
            SyncStep::AskList => false,
        },
{
    match options {
        Some(PushOptions::Force) => Err(FossilError::ForcePushUnsupported),
        _ => Ok(fossil_sync_args(Some(upstream_name))),
    }
}

/// The arguments of `fossil update`, or that it cannot rebase.
pub open spec fn pull_plan(branch_name: Option<Seq<char>>, rebase: bool) -> Result<
    Seq<Seq<char>>,
    FossilErrorView,
> {
    if rebase {
        Err(FossilErrorView::RebaseUnsupported)
    } else {
        Ok(
            match branch_name {
                Some(name) => seq!["update"@, crate::branch::branch_name(name)],
                None => seq!["update"@],
            },
        )
    }
}

/// The arguments of `fossil update`.
pub fn fossil_pull_args(branch_name: Option<&str>, rebase: bool) -> (r: Result<
    Vec<String>,
    FossilError,
>)
    ensures
        crate::error::result_view(r) == pull_plan(opt_output(branch_name), rebase),
{
    if rebase {
        return Err(FossilError::RebaseUnsupported);
    }
    match branch_name {
        Some(name) => Ok(two_args("update", fossil_branch_name(name).as_str())),
        None => Ok(one_arg("update")),
    }
}

/// From where to fetch.
#[derive(Debug)]
pub enum FetchOptions {
    All,
    Remote(Remote),
}

/// The name of the remote to fetch from.
pub open spec fn fetch_name(options: FetchOptions) -> Option<Seq<char>> {
    match options {
        FetchOptions::All => None,
        FetchOptions::Remote(remote) => Some(remote.name@),
    }
}

/// Begins to fetch.
pub fn fossil_fetch_args(options: &FetchOptions) -> (r: SyncStep)
    ensures
        match r {
            SyncStep::Sync(args) => names_remote(fetch_name(*options)) && forall|
                default: Seq<char>,
                list: Seq<char>,
            | #[trigger]
                sync_plan(fetch_name(*options), default, list) == Ok::<
                    Seq<Seq<char>>,
                    FossilErrorView,
                >(args.deep_view()),
            SyncStep::AskDefault => !names_remote(fetch_name(*options)),
            SyncStep::AskList => false,
        },
{
    match options {
        FetchOptions::All => fossil_sync_args(None),
        FetchOptions::Remote(remote) => fossil_sync_args(Some(remote.name.as_str())),
    }
}

/// How a checkout is synchronised.
#[derive(Debug)]
pub struct FossilSyncState {
    pub autosync: Option<String>,
    pub default_remote: Option<String>,
    pub repository: Option<String>,
}

/// How a checkout is synchronised, as texts.
pub struct FossilSyncStateView {
    pub autosync: Option<Seq<char>>,
    pub default_remote: Option<Seq<char>>,
    pub repository: Option<Seq<char>>,
}

impl DeepView for FossilSyncState {
    type V = FossilSyncStateView;

    open spec fn deep_view(&self) -> FossilSyncStateView {
        FossilSyncStateView {
            autosync: self.autosync.deep_view(),
            default_remote: self.default_remote.deep_view(),
            repository: self.repository.deep_view(),
        }
    }
}

/// A setting from the output of `fossil settings`, if it is set.
pub open spec fn setting(output: Seq<char>) -> Option<Seq<char>> {
    if crate::text::trim(output).len() > 0 {
        Some(crate::text::trim(output))
    } else {
        None
    }
}

/// How a checkout is synchronised, from the outputs of `fossil settings autosync`
/// and `fossil remote`; a command that failed says nothing.
pub open spec fn sync_state(
    info: FossilInfoView,
    autosync: Option<Seq<char>>,
    remote: Option<Seq<char>>,
) -> FossilSyncStateView {
    FossilSyncStateView {
        autosync: match autosync {
            Some(output) => setting(output),
            None => None,
        },
        default_remote: match remote {
            Some(output) => default_remote(output),
            None => None,
        },
        repository: info.repository,
    }
}

/// How a checkout is synchronised.
pub fn fossil_sync_state(info: &FossilInfo, autosync: Option<&str>, remote: Option<&str>) -> (r:
    FossilSyncState)
    ensures
        r.deep_view() == sync_state(info.deep_view(), opt_output(autosync), opt_output(remote)),
{
    let autosync = match autosync {
        Some(output) => {
            let chars = to_chars(output);
            let value = trimmed(chars.as_slice());
            if value.len() > 0 {
                Some(to_text(value))
            } else {
                None
            }
        },
        None => None,
    };
    let default_remote = match remote {
        Some(output) => parse_fossil_default_remote(output),
        None => None,
    };
    FossilSyncState { autosync, default_remote, repository: copy_text(&info.repository) }
}

/// The arguments that ask for the setting `autosync`.
pub fn autosync_args() -> (r: Vec<String>)
    ensures
        r.deep_view() == seq!["settings"@, "autosync"@, "--value"@],
{
    let mut args = two_args("settings", "autosync");
    push_arg(&mut args, "--value");
    assert(args.deep_view() =~= seq!["settings"@, "autosync"@, "--value"@]);
    args
}

} // verus!
