//! What changed in a checkout.

use crate::commands::{fossil_changes_args, three_args};
use crate::error::{FossilError, FossilErrorView};
use crate::index::{insert_if_absent, push_item, Indexed};
use crate::path::{PathStyle, RepoPath};
use crate::status::{
    FileStatus, StatusCode, UnmergedStatus, UnmergedStatusCode,
};
use crate::text::{is_text, rsplit_once_at, split_lines, split_once_at_white, to_chars, trimmed};
use vstd::prelude::*;
use vstd::string::*;

verus! {

// ---------------------------------------------------------------------------
// Order of paths
// ---------------------------------------------------------------------------

/// The rank of a character of a path: the end of a name comes before every
/// character of a name.
pub open spec fn rank(c: char) -> u32 {
    if c == '/' {
        0
    } else {
        (c as u32 + 1) as u32
    }
}

/// The key that orders paths name by name.
pub open spec fn path_key(path: Seq<char>) -> Seq<u32> {
    Seq::new(path.len(), |i: int| rank(path[i]))
}

/// The rank of a character of a path.
fn rank_of(c: char) -> (r: u32)
    ensures
        r == rank(c),
{
    if c == '/' {
        0
    } else {
        let n: u32 = c as u32;
        n + 1
    }
}

proof fn lemma_ranks_differ(a: char, b: char)
    requires
        rank(a) == rank(b),
    ensures
        a == b,
{
}

/// The key of a path.
pub fn key_of_path(path: &RepoPath) -> (r: Vec<u32>)
    ensures
        r@ == path_key(path@),
{
    let chars = to_chars(path.as_unix_str());
    let mut r: Vec<u32> = Vec::new();
    for i in 0..chars.len()
        invariant
            chars@ == path@,
            r@ == path_key(path@).take(i as int),
    {
        r.push(rank_of(chars[i]));
        assert(r@ == path_key(path@).take(i + 1));
    }
    assert(path_key(path@).take(path@.len() as int) == path_key(path@));
    r
}

/// Different paths have different keys.
pub proof fn lemma_path_keys_differ(a: Seq<char>, b: Seq<char>)
    requires
        path_key(a) == path_key(b),
    ensures
        a == b,
{
    assert(path_key(a).len() == a.len() && path_key(b).len() == b.len());
    assert forall|i: int| 0 <= i < a.len() implies a[i] == b[i] by {
        assert(path_key(a)[i] == rank(a[i]));
        assert(path_key(b)[i] == rank(b[i]));
        lemma_ranks_differ(a[i], b[i]);
    }
    assert(a =~= b);
}

// ---------------------------------------------------------------------------
// Changes
// ---------------------------------------------------------------------------

/// What happened to a file.
#[derive(Clone, Copy, Debug, PartialEq, Eq, Structural)]
pub enum FossilChangeKind {
    Extra,
    Conflict,
    Added,
    Deleted,
    Missing,
    Renamed,
    Modified,
}

/// The state of a file to which something happened.
pub open spec fn kind_status(kind: FossilChangeKind) -> FileStatus {
    match kind {
        FossilChangeKind::Extra => FileStatus::Untracked,
        FossilChangeKind::Conflict => crate::status::in_conflict(),
        FossilChangeKind::Added => crate::status::in_worktree(StatusCode::Added),
        FossilChangeKind::Deleted => crate::status::in_worktree(StatusCode::Deleted),
        FossilChangeKind::Missing => crate::status::in_worktree(StatusCode::Deleted),
        FossilChangeKind::Renamed => crate::status::in_worktree(StatusCode::Renamed),
        FossilChangeKind::Modified => crate::status::in_worktree(StatusCode::Modified),
    }
}

impl FossilChangeKind {
    /// The state of a file to which this happened.
    pub fn status(self) -> (r: FileStatus)
        ensures
            r == kind_status(self),
    {
        match self {
            FossilChangeKind::Extra => FileStatus::Untracked,
            FossilChangeKind::Conflict => FileStatus::Unmerged(
                UnmergedStatus {
                    first_head: UnmergedStatusCode::Updated,
                    second_head: UnmergedStatusCode::Updated,
                },
            ),
            FossilChangeKind::Added => StatusCode::Added.worktree(),
            FossilChangeKind::Deleted => StatusCode::Deleted.worktree(),
            FossilChangeKind::Missing => StatusCode::Deleted.worktree(),
            FossilChangeKind::Renamed => StatusCode::Renamed.worktree(),
            FossilChangeKind::Modified => StatusCode::Modified.worktree(),
        }
    }
}

/// A changed file.
#[derive(Debug)]
pub struct FossilChange {
    pub repo_path: RepoPath,
    pub kind: FossilChangeKind,
    /// Where the file was before it was renamed.
    pub rename_source: Option<RepoPath>,
}

/// A changed file, as texts.
pub struct FossilChangeView {
    pub repo_path: Seq<char>,
    pub kind: FossilChangeKind,
    pub rename_source: Option<Seq<char>>,
}

impl DeepView for FossilChange {
    type V = FossilChangeView;

    open spec fn deep_view(&self) -> FossilChangeView {
        FossilChangeView {
            repo_path: self.repo_path@,
            kind: self.kind,
            rename_source: self.rename_source.deep_view(),
        }
    }
}

impl Indexed for FossilChange {
    open spec fn order_key(item: FossilChangeView) -> Seq<u32> {
        path_key(item.repo_path)
    }

    fn key(&self) -> (r: Vec<u32>) {
        key_of_path(&self.repo_path)
    }
}

/// A copy of an optional path.
pub fn copy_path(path: &Option<RepoPath>) -> (r: Option<RepoPath>)
    ensures
        r.deep_view() == path.deep_view(),
{
    match path {
        Some(path) => Some(path.clone()),
        None => None,
    }
}

impl Clone for FossilChange {
    fn clone(&self) -> (r: FossilChange)
        ensures
            r.deep_view() == self.deep_view(),
    {
        FossilChange {
            repo_path: self.repo_path.clone(),
            kind: self.kind,
            rename_source: copy_path(&self.rename_source),
        }
    }
}

/// The path that a text names, if it names one.
pub open spec fn named_path(text: Seq<char>, style: PathStyle) -> Option<Seq<char>> {
    match crate::path::repo_path(text, style) {
        Ok(path) => Some(path),
        Err(_) => None,
    }
}

/// The path of a changed file, and where it was before: `<old> -> <new>`.
pub open spec fn change_path(path: Seq<char>, style: PathStyle) -> Option<
    (Option<Seq<char>>, Seq<char>),
> {
    if path.len() == 0 {
        None
    } else {
        match crate::text::rsplit_once(path, " -> "@) {
            Some((source, target)) => match (
                named_path(crate::text::trim(source), style),
                named_path(crate::text::trim(target), style),
            ) {
                (Some(source), Some(target)) => Some((Some(source), target)),
                _ => None,
            },
            None => match named_path(path, style) {
                Some(path) => Some((None, path)),
                None => None,
            },
        }
    }
}

/// The kind that the first word of a line names.
pub open spec fn change_kind(word: Seq<char>) -> Option<FossilChangeKind> {
    if word == "EXTRA"@ {
        Some(FossilChangeKind::Extra)
    } else if word == "CONFLICT"@ {
        Some(FossilChangeKind::Conflict)
    } else if word == "ADDED"@ {
        Some(FossilChangeKind::Added)
    } else if word == "DELETED"@ {
        Some(FossilChangeKind::Deleted)
    } else if word == "MISSING"@ {
        Some(FossilChangeKind::Missing)
    } else if word == "RENAMED"@ {
        Some(FossilChangeKind::Renamed)
    } else if word == "EXECUTABLE"@ || word == "META"@ || word == "EDITED"@ || word == "MERGED"@
        || word == "UPDATED_BY_MERGE"@ || word == "UPDATED_BY_INTEGRATE"@ {
        Some(FossilChangeKind::Modified)
    } else {
        None
    }
}

/// The change in a line.
pub open spec fn change_line(line: Seq<char>, style: PathStyle) -> Option<FossilChangeView> {
    let text = crate::text::trim(line);
    if text.len() == 0 || text == "(none)"@ {
        None
    } else {
        match crate::text::split_once_white(text) {
            None => None,
            Some((word, rest)) => match (
                change_path(crate::text::trim(rest), style),
                change_kind(word),
            ) {
                (Some((rename_source, repo_path)), Some(kind)) => Some(
                    FossilChangeView { repo_path, kind, rename_source },
                ),
                _ => None,
            },
        }
    }
}

/// The changes in the given lines, one after the other.
pub open spec fn change_lines(lines: Seq<Seq<char>>, style: PathStyle) -> Seq<FossilChangeView>
    decreases lines.len(),
{
    if lines.len() == 0 {
        seq![]
    } else {
        match change_line(lines.last(), style) {
            Some(change) => change_lines(lines.drop_last(), style).push(change),
            None => change_lines(lines.drop_last(), style),
        }
    }
}

/// The changes in the output of `fossil changes`, in the order of their paths;
/// of those with one path, the first.
pub open spec fn changes(output: Seq<char>, style: PathStyle) -> Seq<FossilChangeView> {
    crate::index::sorted_first::<FossilChange>(
        change_lines(crate::text::lines(output), style),
    )
}

/// The path that a text names, if it names one.
fn named_path_of(text: &[char], style: PathStyle) -> (r: Option<RepoPath>)
    ensures
        r.deep_view() == named_path(text@, style),
{
    match RepoPath::from_chars(text, style) {
        Ok(path) => Some(path),
        Err(_) => None,
    }
}

/// The two paths of an optional change, as texts.
pub open spec fn change_path_view(r: Option<(Option<RepoPath>, RepoPath)>) -> Option<
    (Option<Seq<char>>, Seq<char>),
> {
    match r {
        Some((source, path)) => Some((source.deep_view(), path@)),
        None => None,
    }
}

/// Reads the path of a changed file.
pub fn parse_fossil_change_path(path: &[char], style: PathStyle) -> (r: Option<
    (Option<RepoPath>, RepoPath),
>)
    ensures
        change_path_view(r) == change_path(path@, style),
{
    if path.len() == 0 {
        return None;
    }
    match rsplit_once_at(path, " -> ") {
        Some((source, target)) => match named_path_of(trimmed(source), style) {
            Some(source) => match named_path_of(trimmed(target), style) {
                Some(target) => Some((Some(source), target)),
                None => None,
            },
            None => None,
        },
        None => match named_path_of(path, style) {
            Some(path) => Some((None, path)),
            None => None,
        },
    }
}

/// The kind that a word names.
fn change_kind_of(word: &[char]) -> (r: Option<FossilChangeKind>)
    ensures
        r == change_kind(word@),
{
    if is_text(word, "EXTRA") {
        Some(FossilChangeKind::Extra)
    } else if is_text(word, "CONFLICT") {
        Some(FossilChangeKind::Conflict)
    } else if is_text(word, "ADDED") {
        Some(FossilChangeKind::Added)
    } else if is_text(word, "DELETED") {
        Some(FossilChangeKind::Deleted)
    } else if is_text(word, "MISSING") {
        Some(FossilChangeKind::Missing)
    } else if is_text(word, "RENAMED") {
        Some(FossilChangeKind::Renamed)
    } else if is_text(word, "EXECUTABLE") || is_text(word, "META") || is_text(word, "EDITED")
        || is_text(word, "MERGED") || is_text(word, "UPDATED_BY_MERGE") || is_text(
        word,
        "UPDATED_BY_INTEGRATE",
    ) {
        Some(FossilChangeKind::Modified)
    } else {
        None
    }
}

/// Reads one line of `fossil changes`.
fn change_of_line(line: &[char], style: PathStyle) -> (r: Option<FossilChange>)
    ensures
        r.deep_view() == change_line(line@, style),
{
    let text = trimmed(line);
    if text.len() == 0 || is_text(text, "(none)") {
        return None;
    }
    match split_once_at_white(text) {
        None => None,
        Some((word, rest)) => match parse_fossil_change_path(trimmed(rest), style) {
            None => None,
            Some((rename_source, repo_path)) => match change_kind_of(word) {
                None => None,
                Some(kind) => Some(FossilChange { repo_path, kind, rename_source }),
            },
        },
    }
}

/// Reads the output of `fossil changes`.
pub fn parse_fossil_changes_with_kind(output: &str, style: PathStyle) -> (r: Vec<FossilChange>)
    ensures
        r.deep_view() == changes(output@, style),
        crate::index::in_order::<FossilChange>(r.deep_view()),
{
    let chars = to_chars(output);
    let lines = split_lines(chars.as_slice());
    let ghost all = crate::text::lines(output@);
    let mut r: Vec<FossilChange> = Vec::new();
    let mut i: usize = 0;
    assert(all.take(0) == Seq::<Seq<char>>::empty());
    assert(r.deep_view() == Seq::<FossilChangeView>::empty());
    while i < lines.len()
        invariant
            i <= lines@.len(),
            crate::text::texts(lines@) == all,
            r.deep_view() == crate::index::sorted_first::<FossilChange>(
                change_lines(all.take(i as int), style),
            ),
            crate::index::in_order::<FossilChange>(r.deep_view()),
        decreases lines@.len() - i,
    {
        assert(all.take(i + 1).drop_last() == all.take(i as int));
        assert(all.take(i + 1).last() == lines@[i as int]@);
        if let Some(change) = change_of_line(lines[i], style) {
            let ghost before = change_lines(all.take(i as int), style);
            let ghost new = change.deep_view();
            insert_if_absent(&mut r, change);
            assert(before.push(new).drop_last() == before);
        }
        i = i + 1;
    }
    assert(all.take(i as int) == all);
    r
}

/// Law: no path occurs twice among the changes, and their keys increase.
pub proof fn law_changes_are_ordered(output: Seq<char>, style: PathStyle, i: int, j: int)
    requires
        0 <= i < j < changes(output, style).len(),
    ensures
        crate::index::lex_less(
            path_key(changes(output, style)[i].repo_path),
            path_key(changes(output, style)[j].repo_path),
        ),
        changes(output, style)[i].repo_path != changes(output, style)[j].repo_path,
{
    let all = changes(output, style);
    crate::index::law_sorted_first::<FossilChange>(
        change_lines(crate::text::lines(output), style),
    );
    assert(FossilChange::order_key(all[i]) == path_key(all[i].repo_path));
    assert(FossilChange::order_key(all[j]) == path_key(all[j].repo_path));
    crate::index::lemma_lex_irreflexive(path_key(all[i].repo_path));
}

/// Law: every path of a changed line is among the changes, with what the first
/// line with that path says of it.
pub proof fn law_changes_are_complete(output: Seq<char>, style: PathStyle, j: int)
    requires
        0 <= j < change_lines(crate::text::lines(output), style).len(),
        forall|k: int|
            0 <= k < j ==> (#[trigger] change_lines(crate::text::lines(output), style)[k]).repo_path
                != change_lines(crate::text::lines(output), style)[j].repo_path,
    ensures
        changes(output, style).contains(change_lines(crate::text::lines(output), style)[j]),
{
    let raw = change_lines(crate::text::lines(output), style);
    crate::index::law_sorted_first::<FossilChange>(raw);
    assert forall|k: int| 0 <= k < j implies FossilChange::order_key(#[trigger] raw[k])
        != FossilChange::order_key(raw[j]) by {
        if path_key(raw[k].repo_path) == path_key(raw[j].repo_path) {
            lemma_path_keys_differ(raw[k].repo_path, raw[j].repo_path);
        }
    }
    assert(crate::index::is_first::<FossilChange>(raw, j) && raw[j] == raw[j]);
}

// ---------------------------------------------------------------------------
// Status
// ---------------------------------------------------------------------------

/// A renamed file.
#[derive(Debug, PartialEq, Eq)]
pub struct StatusRename {
    pub source: RepoPath,
    pub target: RepoPath,
}

impl DeepView for StatusRename {
    type V = (Seq<char>, Seq<char>);

    open spec fn deep_view(&self) -> (Seq<char>, Seq<char>) {
        (self.source@, self.target@)
    }
}

/// The state of a checkout.
#[derive(Debug)]
pub struct GitStatus {
    pub entries: Vec<(RepoPath, FileStatus)>,
    pub renames: Vec<StatusRename>,
}

/// The state of a checkout, as texts.
pub struct GitStatusView {
    pub entries: Seq<(Seq<char>, FileStatus)>,
    pub renames: Seq<(Seq<char>, Seq<char>)>,
}

impl DeepView for GitStatus {
    type V = GitStatusView;

    open spec fn deep_view(&self) -> GitStatusView {
        GitStatusView { entries: self.entries.deep_view(), renames: self.renames.deep_view() }
    }
}

/// The files that were renamed, from where to where.
pub open spec fn renames(changes: Seq<FossilChangeView>) -> Seq<(Seq<char>, Seq<char>)>
    decreases changes.len(),
{
    if changes.len() == 0 {
        seq![]
    } else {
        match changes.last().rename_source {
            Some(source) => renames(changes.drop_last()).push((source, changes.last().repo_path)),
            None => renames(changes.drop_last()),
        }
    }
}

/// The state of a checkout with the given changes.
pub open spec fn changes_status(changes: Seq<FossilChangeView>) -> GitStatusView {
    GitStatusView {
        entries: Seq::new(
            changes.len(),
            |i: int| (changes[i].repo_path, kind_status(changes[i].kind)),
        ),
        renames: renames(changes),
    }
}

/// The state of a checkout with the given changes.
pub fn fossil_changes_to_status(changes: Vec<FossilChange>) -> (r: GitStatus)
    ensures
        r.deep_view() == changes_status(changes.deep_view()),
{
    let ghost all = changes.deep_view();
    let ghost full = changes_status(all);
    let mut entries: Vec<(RepoPath, FileStatus)> = Vec::new();
    let mut renamed: Vec<StatusRename> = Vec::new();
    let mut i: usize = 0;
    assert(all.take(0) == Seq::<FossilChangeView>::empty());
    assert(entries.deep_view() == full.entries.take(0));
    assert(renamed.deep_view() == Seq::<(Seq<char>, Seq<char>)>::empty());
    while i < changes.len()
        invariant
            i <= changes@.len(),
            all == changes.deep_view(),
            full == changes_status(all),
            entries.deep_view() == full.entries.take(i as int),
            renamed.deep_view() == renames(all.take(i as int)),
        decreases changes@.len() - i,
    {
        let change = &changes[i];
        assert(all.take(i + 1).drop_last() == all.take(i as int));
        assert(all.take(i + 1).last() == change.deep_view());
        if let Some(source) = &change.rename_source {
            push_item(
                &mut renamed,
                StatusRename { source: source.clone(), target: change.repo_path.clone() },
            );
        }
        push_item(&mut entries, (change.repo_path.clone(), change.kind.status()));
        assert(entries.deep_view() == full.entries.take(i + 1));
        i = i + 1;
    }
    assert(all.take(i as int) == all);
    assert(full.entries.take(i as int) == full.entries);
    GitStatus { entries, renames: renamed }
}

/// Whether a path is an extra file among the changes.
pub open spec fn is_extra_in(changes: Seq<FossilChangeView>, path: Seq<char>) -> bool {
    exists|i: int|
        0 <= i < changes.len() && (#[trigger] changes[i]).repo_path == path && changes[i].kind
            == FossilChangeKind::Extra
}

/// The changes without the extra files that are ignored: `fossil changes` with
/// paths lists them, without paths it does not.
pub open spec fn visible_changes(
    scoped: Seq<FossilChangeView>,
    unscoped: Seq<FossilChangeView>,
) -> Seq<FossilChangeView>
    decreases scoped.len(),
{
    if scoped.len() == 0 {
        seq![]
    } else {
        let before = visible_changes(scoped.drop_last(), unscoped);
        if scoped.last().kind != FossilChangeKind::Extra || is_extra_in(
            unscoped,
            scoped.last().repo_path,
        ) {
            before.push(scoped.last())
        } else {
            before
        }
    }
}

/// Whether a path is an extra file among the changes.
fn holds_extra(changes: &Vec<FossilChange>, path: &RepoPath) -> (r: bool)
    ensures
        r == is_extra_in(changes.deep_view(), path@),
{
    let ghost all = changes.deep_view();
    for i in 0..changes.len()
        invariant
            all == changes.deep_view(),
            forall|j: int|
                0 <= j < i ==> !((#[trigger] all[j]).repo_path == path@ && all[j].kind
                    == FossilChangeKind::Extra),
    {
        assert(all[i as int] == changes@[i as int].deep_view());
        if changes[i].kind == FossilChangeKind::Extra && changes[i].repo_path == *path {
            return true;
        }
    }
    false
}

/// Drops the extra files that are ignored.
pub fn filter_scoped_fossil_extras(
    scoped_changes: Vec<FossilChange>,
    unscoped_changes: Vec<FossilChange>,
) -> (r: Vec<FossilChange>)
    ensures
        r.deep_view() == visible_changes(scoped_changes.deep_view(), unscoped_changes.deep_view()),
{
    let ghost all = scoped_changes.deep_view();
    let ghost other = unscoped_changes.deep_view();
    let mut r: Vec<FossilChange> = Vec::new();
    let mut i: usize = 0;
    assert(all.take(0) == Seq::<FossilChangeView>::empty());
    assert(r.deep_view() == Seq::<FossilChangeView>::empty());
    while i < scoped_changes.len()
        invariant
            i <= scoped_changes@.len(),
            all == scoped_changes.deep_view(),
            other == unscoped_changes.deep_view(),
            r.deep_view() == visible_changes(all.take(i as int), other),
        decreases scoped_changes@.len() - i,
    {
        let change = &scoped_changes[i];
        assert(all.take(i + 1).drop_last() == all.take(i as int));
        assert(all.take(i + 1).last() == change.deep_view());
        if change.kind != FossilChangeKind::Extra || holds_extra(
            &unscoped_changes,
            &change.repo_path,
        ) {
            push_item(&mut r, change.clone());
        }
        i = i + 1;
    }
    assert(all.take(i as int) == all);
    r
}

/// Law: a change is kept exactly if it is no extra file or an extra file that is
/// not ignored.
pub proof fn law_visible_changes(
    scoped: Seq<FossilChangeView>,
    unscoped: Seq<FossilChangeView>,
    change: FossilChangeView,
)
    ensures
        visible_changes(scoped, unscoped).contains(change) <==> scoped.contains(change) && (
        change.kind != FossilChangeKind::Extra || is_extra_in(unscoped, change.repo_path)),
    decreases scoped.len(),
{
    let all = visible_changes(scoped, unscoped);
    if scoped.len() > 0 {
        let head = scoped.drop_last();
        let before = visible_changes(head, unscoped);
        let last = scoped.last();
        law_visible_changes(head, unscoped, change);
        if scoped.contains(change) && change != last {
            let i = scoped.index_of(change);
            assert(head[i] == change);
            assert(head.contains(change));
        }
        if head.contains(change) {
            let i = head.index_of(change);
            assert(scoped[i] == change);
        }
        assert(scoped[scoped.len() - 1] == last);
        if before.contains(change) {
            let i = before.index_of(change);
            assert(all[i] == change);
        }
        if all.contains(change) && !before.contains(change) {
            let i = all.index_of(change);
            assert(i == before.len());
        }
        if all.len() > before.len() {
            assert(all[before.len() as int] == last);
        }
    }
}

/// Whether some path is not the root.
pub open spec fn has_named_path(paths: Seq<Seq<char>>) -> bool {
    exists|i: int| 0 <= i < paths.len() && (#[trigger] paths[i]).len() > 0
}

/// Whether some change is an extra file.
pub open spec fn has_extra(changes: Seq<FossilChangeView>) -> bool {
    exists|i: int| 0 <= i < changes.len() && (#[trigger] changes[i]).kind == FossilChangeKind::Extra
}

/// What is to be done for the state of a checkout.
pub enum StatusStep {
    /// Nothing more: this is the state.
    Done(GitStatus),
    /// Run `fossil` with `args`, and hand its output to [`status_after_unscoped`]
    /// together with the changes so far.
    Unscoped { changes: Vec<FossilChange>, args: Vec<String> },
}

/// The state of a checkout below the given paths. The second output, of
/// `fossil changes` without paths, counts only if it has to be asked for.
pub open spec fn checkout_status(
    paths: Seq<Seq<char>>,
    scoped: Seq<char>,
    unscoped: Seq<char>,
    style: PathStyle,
) -> GitStatusView {
    if needs_unscoped(paths, scoped, style) {
        changes_status(visible_changes(changes(scoped, style), changes(unscoped, style)))
    } else {
        changes_status(changes(scoped, style))
    }
}

/// Whether `fossil changes` has to be asked again without paths.
pub open spec fn needs_unscoped(paths: Seq<Seq<char>>, scoped: Seq<char>, style: PathStyle) -> bool {
    has_named_path(paths) && has_extra(changes(scoped, style))
}

/// Takes in the output of `fossil changes` below the given paths.
pub fn status_after_scoped(paths: &Vec<RepoPath>, output: &str, style: PathStyle) -> (r: StatusStep)
    ensures
        match r {
            StatusStep::Done(status) => !needs_unscoped(paths.deep_view(), output@, style)
                && forall|unscoped: Seq<char>|
                status.deep_view() == #[trigger] checkout_status(
                    paths.deep_view(),
                    output@,
                    unscoped,
                    style,
                ),
            StatusStep::Unscoped { changes: found, args } => needs_unscoped(
                paths.deep_view(),
                output@,
                style,
            ) && found.deep_view() == changes(output@, style) && args.deep_view()
                == crate::commands::changes_args(seq![]),
        },
{
    let found = parse_fossil_changes_with_kind(output, style);
    if any_named_path(paths) && any_extra(&found) {
        let none: Vec<RepoPath> = Vec::new();
        let args = fossil_changes_args(&none);
        assert(none.deep_view() == Seq::<Seq<char>>::empty());
        StatusStep::Unscoped { changes: found, args }
    } else {
        StatusStep::Done(fossil_changes_to_status(found))
    }
}

/// Takes in the output of `fossil changes` without paths.
pub fn status_after_unscoped(found: Vec<FossilChange>, output: &str, style: PathStyle) -> (r: GitStatus)
    ensures
        r.deep_view() == changes_status(
            visible_changes(found.deep_view(), changes(output@, style)),
        ),
{
    let all = parse_fossil_changes_with_kind(output, style);
    fossil_changes_to_status(filter_scoped_fossil_extras(found, all))
}

/// Whether some path is not the root.
fn any_named_path(paths: &Vec<RepoPath>) -> (r: bool)
    ensures
        r == has_named_path(paths.deep_view()),
{
    let ghost all = paths.deep_view();
    for i in 0..paths.len()
        invariant
            all == paths.deep_view(),
            forall|j: int| 0 <= j < i ==> (#[trigger] all[j]).len() == 0,
    {
        assert(all[i as int] == paths@[i as int]@);
        if !paths[i].is_empty() {
            return true;
        }
    }
    false
}

/// Whether some change is an extra file.
fn any_extra(changes: &Vec<FossilChange>) -> (r: bool)
    ensures
        r == has_extra(changes.deep_view()),
{
    let ghost all = changes.deep_view();
    for i in 0..changes.len()
        invariant
            all == changes.deep_view(),
            forall|j: int| 0 <= j < i ==> (#[trigger] all[j]).kind != FossilChangeKind::Extra,
    {
        assert(all[i as int] == changes@[i as int].deep_view());
        if changes[i].kind == FossilChangeKind::Extra {
            return true;
        }
    }
    false
}

// ---------------------------------------------------------------------------
// Renames
// ---------------------------------------------------------------------------

/// Where the file at a path was before it was renamed.
pub open spec fn rename_source(changes: Seq<FossilChangeView>, path: Seq<char>) -> Option<Seq<char>>
    decreases changes.len(),
{
    if changes.len() == 0 {
        None
    } else if changes[0].repo_path == path && changes[0].rename_source is Some {
        changes[0].rename_source
    } else {
        rename_source(changes.skip(1), path)
    }
}

/// The arguments of `fossil rename`.
pub open spec fn rename_args(from: Seq<char>, to: Seq<char>) -> Seq<Seq<char>> {
    seq!["rename"@, from, to]
}

/// The arguments that record a rename.
pub fn record_fossil_rename_args(old_path: &RepoPath, new_path: &RepoPath) -> (r: Vec<String>)
    ensures
        r.deep_view() == rename_args(old_path@, new_path@),
{
    three_args("rename", old_path.as_unix_str(), new_path.as_unix_str())
}

/// The arguments that undo the rename to a path, or that there is none.
pub open spec fn undo_rename(output: Seq<char>, path: Seq<char>, style: PathStyle) -> Result<
    Seq<Seq<char>>,
    FossilErrorView,
> {
    match rename_source(changes(output, style), path) {
        Some(source) => Ok(rename_args(path, source)),
        None => Err(FossilErrorView::NoRecordedRename(path)),
    }
}

/// The arguments that undo the rename to a path, from the output of
/// `fossil changes`.
pub fn undo_fossil_rename_args(output: &str, new_path: &RepoPath, style: PathStyle) -> (r: Result<
    Vec<String>,
    FossilError,
>)
    ensures
        crate::error::result_view(r) == undo_rename(output@, new_path@, style),
{
    let found = parse_fossil_changes_with_kind(output, style);
    let ghost all = found.deep_view();
    let mut i: usize = 0;
    assert(all.skip(0) == all);
    while i < found.len()
        invariant
            i <= found@.len(),
            all == found.deep_view(),
            all == changes(output@, style),
            rename_source(all, new_path@) == rename_source(all.skip(i as int), new_path@),
        decreases found@.len() - i,
    {
        assert(all.skip(i as int)[0] == found@[i as int].deep_view());
        if found[i].repo_path == *new_path {
            if let Some(old_path) = &found[i].rename_source {
                return Ok(record_fossil_rename_args(new_path, old_path));
            }
        }
        assert(all.skip(i as int).skip(1) == all.skip(i + 1));
        i = i + 1;
    }
    Err(FossilError::NoRecordedRename(new_path.as_unix_str().to_owned()))
}

/// Law: undoing a rename runs `fossil rename` the other way round.
pub proof fn law_undo_reverses_record(output: Seq<char>, style: PathStyle, from: Seq<char>, to: Seq<char>)
    requires
        exists|i: int|
            0 <= i < changes(output, style).len() && (#[trigger] changes(output, style)[i]).repo_path
                == to && changes(output, style)[i].rename_source == Some(from),
    ensures
        undo_rename(output, to, style) == Ok::<Seq<Seq<char>>, FossilErrorView>(
            rename_args(to, from),
        ),
{
    let all = changes(output, style);
    let i = choose|i: int|
        0 <= i < all.len() && (#[trigger] all[i]).repo_path == to && all[i].rename_source == Some(
            from,
        );
    assert forall|k: int| 0 <= k < i implies (#[trigger] all[k]).repo_path != to by {
        law_changes_are_ordered(output, style, k, i);
    }
    lemma_rename_source_at(all, to, i);
}

proof fn lemma_rename_source_at(changes: Seq<FossilChangeView>, path: Seq<char>, i: int)
    requires
        0 <= i < changes.len(),
        changes[i].repo_path == path,
        changes[i].rename_source is Some,
        forall|k: int| 0 <= k < i ==> (#[trigger] changes[k]).repo_path != path,
    ensures
        rename_source(changes, path) == changes[i].rename_source,
    decreases i,
{
    if i > 0 {
        let tail = changes.skip(1);
        assert(changes[0].repo_path != path);
        assert(tail[i - 1] == changes[i]);
        assert forall|k: int| 0 <= k < i - 1 implies (#[trigger] tail[k]).repo_path != path by {
            assert(tail[k] == changes[k + 1]);
        }
        lemma_rename_source_at(tail, path, i - 1);
    }
}

} // verus!
