//! Unified diffs between check-ins.

use crate::error::{FossilError, FossilErrorView};
use crate::index::push_item;
use crate::path::{PathStyle, RepoPath};
use crate::text::{
    begins_with, is_text, push_chars, split_lines, split_once_at_white, to_chars, trimmed,
    without_prefix,
};
use vstd::prelude::*;
use vstd::string::*;

verus! {

/// What happened to a file.
#[derive(Clone, Copy, Debug, PartialEq, Eq, Structural)]
pub enum FossilDiffFileKind {
    Added,
    Deleted,
    Modified,
}

/// A file before and after a check-in.
#[derive(Debug)]
pub struct CommitFile {
    pub path: RepoPath,
    /// The text before, unless there was no file.
    pub old_text: Option<String>,
    /// The text after, unless there is no file.
    pub new_text: Option<String>,
    pub is_binary: bool,
}

/// A file before and after a check-in, as texts.
pub struct CommitFileView {
    pub path: Seq<char>,
    pub old_text: Option<Seq<char>>,
    pub new_text: Option<Seq<char>>,
    pub is_binary: bool,
}

impl DeepView for CommitFile {
    type V = CommitFileView;

    open spec fn deep_view(&self) -> CommitFileView {
        CommitFileView {
            path: self.path@,
            old_text: self.old_text.deep_view(),
            new_text: self.new_text.deep_view(),
            is_binary: self.is_binary,
        }
    }
}

/// The files of a check-in and how many lines were added and removed.
#[derive(Debug)]
pub struct CommitDiff {
    pub files: Vec<CommitFile>,
    pub stats: Option<(usize, usize)>,
}

/// The files of a check-in and how many lines were added and removed.
pub struct CommitDiffView {
    pub files: Seq<CommitFileView>,
    pub stats: Option<(nat, nat)>,
}

impl DeepView for CommitDiff {
    type V = CommitDiffView;

    open spec fn deep_view(&self) -> CommitDiffView {
        CommitDiffView {
            files: self.files.deep_view(),
            stats: match self.stats {
                Some((added, removed)) => Some((added as nat, removed as nat)),
                None => None,
            },
        }
    }
}

/// The diff of a check-in without a parent.
pub open spec fn empty_diff() -> CommitDiffView {
    CommitDiffView { files: seq![], stats: Some((0, 0)) }
}

/// The diff of a check-in without a parent.
pub fn no_diff() -> (r: CommitDiff)
    ensures
        r.deep_view() == empty_diff(),
{
    let r = CommitDiff { files: Vec::new(), stats: Some((0, 0)) };
    assert(r.files.deep_view() == Seq::<CommitFileView>::empty());
    r
}

/// A file while its lines are read.
pub struct FossilDiffFile {
    pub path: Option<RepoPath>,
    pub old_text: String,
    pub new_text: String,
    pub old_is_null: bool,
    pub new_is_null: bool,
    pub in_hunk: bool,
}

/// A file while its lines are read, as texts.
pub struct FossilDiffFileView {
    pub path: Option<Seq<char>>,
    pub old_text: Seq<char>,
    pub new_text: Seq<char>,
    pub old_is_null: bool,
    pub new_is_null: bool,
    pub in_hunk: bool,
}

impl DeepView for FossilDiffFile {
    type V = FossilDiffFileView;

    open spec fn deep_view(&self) -> FossilDiffFileView {
        FossilDiffFileView {
            path: self.path.deep_view(),
            old_text: self.old_text@,
            new_text: self.new_text@,
            old_is_null: self.old_is_null,
            new_is_null: self.new_is_null,
            in_hunk: self.in_hunk,
        }
    }
}

/// A file of which nothing was read.
pub open spec fn blank_file() -> FossilDiffFileView {
    FossilDiffFileView {
        path: None,
        old_text: seq![],
        new_text: seq![],
        old_is_null: false,
        new_is_null: false,
        in_hunk: false,
    }
}

impl Default for FossilDiffFile {
    fn default() -> (r: FossilDiffFile)
        ensures
            r.deep_view() == blank_file(),
    {
        let r = FossilDiffFile {
            path: None,
            old_text: String::new(),
            new_text: String::new(),
            old_is_null: false,
            new_is_null: false,
            in_hunk: false,
        };
        assert(r.old_text@ == Seq::<char>::empty() && r.new_text@ == Seq::<char>::empty());
        r
    }
}

/// The kind that the first word of a file's heading names.
pub open spec fn diff_kind(word: Seq<char>) -> Option<FossilDiffFileKind> {
    if word == "ADDED"@ {
        Some(FossilDiffFileKind::Added)
    } else if word == "DELETED"@ || word == "DELETE"@ {
        Some(FossilDiffFileKind::Deleted)
    } else if word == "CHANGED"@ || word == "EDITED"@ || word == "UPDATED_BY_MERGE"@ || word
        == "UPDATED_BY_INTEGRATE"@ {
        Some(FossilDiffFileKind::Modified)
    } else {
        None
    }
}

/// The path that a text names, if it names one.
pub open spec fn path_in(text: Seq<char>, style: PathStyle) -> Option<Seq<char>> {
    match crate::path::repo_path(crate::text::trim(text), style) {
        Ok(path) => Some(path),
        Err(_) => None,
    }
}

/// The kind and path in a file's heading.
pub open spec fn diff_status(line: Seq<char>, style: PathStyle) -> Option<
    (FossilDiffFileKind, Seq<char>),
> {
    match crate::text::split_once_white(crate::text::trim(line)) {
        None => None,
        Some((word, rest)) => match (diff_kind(word), path_in(rest, style)) {
            (Some(kind), Some(path)) => Some((kind, path)),
            _ => None,
        },
    }
}

/// What was read of a diff.
pub struct DiffState {
    pub files: Seq<CommitFileView>,
    pub current: Option<FossilDiffFileView>,
    pub added: nat,
    pub removed: nat,
}

/// A file whose lines were all read: it counts only if its path is known.
pub open spec fn close_file(files: Seq<CommitFileView>, file: Option<FossilDiffFileView>) -> Seq<
    CommitFileView,
> {
    match file {
        Some(file) => match file.path {
            Some(path) => files.push(
                CommitFileView {
                    path,
                    old_text: if file.old_is_null {
                        None
                    } else {
                        Some(file.old_text)
                    },
                    new_text: if file.new_is_null {
                        None
                    } else {
                        Some(file.new_text)
                    },
                    is_binary: false,
                },
            ),
            None => files,
        },
        None => files,
    }
}

/// What a line inside a hunk adds to a file: its first character says to which
/// of the two texts it belongs.
pub open spec fn hunk_line(state: DiffState, file: FossilDiffFileView, line: Seq<char>) -> DiffState {
    let text = line.skip(1).push('\n');
    if crate::text::starts_with(line, " "@) {
        DiffState {
            current: Some(
                FossilDiffFileView {
                    old_text: file.old_text + text,
                    new_text: file.new_text + text,
                    ..file
                },
            ),
            ..state
        }
    } else if crate::text::starts_with(line, "-"@) {
        DiffState {
            current: Some(FossilDiffFileView { old_text: file.old_text + text, ..file }),
            removed: state.removed + 1,
            ..state
        }
    } else if crate::text::starts_with(line, "+"@) {
        DiffState {
            current: Some(FossilDiffFileView { new_text: file.new_text + text, ..file }),
            added: state.added + 1,
            ..state
        }
    } else {
        state
    }
}

/// What a line that begins no file says of the file it belongs to.
pub open spec fn file_line(state: DiffState, file: FossilDiffFileView, line: Seq<char>) -> DiffState {
    match crate::text::strip_prefix(line, "--- "@) {
        Some(path) => DiffState {
            current: Some(
                FossilDiffFileView {
                    old_is_null: crate::text::trim(path) == "/dev/null"@,
                    ..file
                },
            ),
            ..state
        },
        None => match crate::text::strip_prefix(line, "+++ "@) {
            Some(path) => DiffState {
                current: Some(
                    FossilDiffFileView {
                        new_is_null: crate::text::trim(path) == "/dev/null"@,
                        ..file
                    },
                ),
                ..state
            },
            None => if crate::text::starts_with(line, "@@ "@) {
                DiffState {
                    current: Some(FossilDiffFileView { in_hunk: true, ..file }),
                    ..state
                }
            } else if !file.in_hunk || crate::text::starts_with(line, "\\"@) {
                state
            } else {
                hunk_line(state, file, line)
            },
        },
    }
}

/// What was read after one more line.
pub open spec fn diff_line(state: DiffState, line: Seq<char>, style: PathStyle) -> DiffState {
    match diff_status(line, style) {
        Some((kind, path)) => DiffState {
            files: close_file(state.files, state.current),
            current: Some(
                FossilDiffFileView {
                    path: Some(path),
                    old_is_null: kind == FossilDiffFileKind::Added,
                    new_is_null: kind == FossilDiffFileKind::Deleted,
                    ..blank_file()
                },
            ),
            ..state
        },
        None => match crate::text::strip_prefix(line, "Index: "@) {
            Some(path) => DiffState {
                current: Some(
                    FossilDiffFileView {
                        path: path_in(path, style),
                        ..match state.current {
                            Some(file) => file,
                            None => blank_file(),
                        }
                    },
                ),
                ..state
            },
            None => match state.current {
                Some(file) => file_line(state, file, line),
                None => state,
            },
        },
    }
}

/// What was read after the given lines.
pub open spec fn diff_lines(lines: Seq<Seq<char>>, style: PathStyle) -> DiffState
    decreases lines.len(),
{
    if lines.len() == 0 {
        DiffState { files: seq![], current: None, added: 0, removed: 0 }
    } else {
        diff_line(diff_lines(lines.drop_last(), style), lines.last(), style)
    }
}

/// The files and counts of a unified diff.
pub open spec fn unified_diff(output: Seq<char>, style: PathStyle) -> CommitDiffView {
    let state = diff_lines(crate::text::lines(output), style);
    CommitDiffView {
        files: close_file(state.files, state.current),
        stats: Some((state.added, state.removed)),
    }
}

/// The kind that a word names.
fn diff_kind_of(word: &[char]) -> (r: Option<FossilDiffFileKind>)
    ensures
        r == diff_kind(word@),
{
    if is_text(word, "ADDED") {
        Some(FossilDiffFileKind::Added)
    } else if is_text(word, "DELETED") || is_text(word, "DELETE") {
        Some(FossilDiffFileKind::Deleted)
    } else if is_text(word, "CHANGED") || is_text(word, "EDITED") || is_text(
        word,
        "UPDATED_BY_MERGE",
    ) || is_text(word, "UPDATED_BY_INTEGRATE") {
        Some(FossilDiffFileKind::Modified)
    } else {
        None
    }
}

/// The path that a text names, if it names one.
fn path_of(text: &[char], style: PathStyle) -> (r: Option<RepoPath>)
    ensures
        r.deep_view() == path_in(text@, style),
{
    match RepoPath::from_chars(trimmed(text), style) {
        Ok(path) => Some(path),
        Err(_) => None,
    }
}

/// The kind and path of an optional heading, as text.
pub open spec fn status_view(r: Option<(FossilDiffFileKind, RepoPath)>) -> Option<
    (FossilDiffFileKind, Seq<char>),
> {
    match r {
        Some((kind, path)) => Some((kind, path@)),
        None => None,
    }
}

/// Reads a file's heading.
pub fn parse_fossil_diff_status_line(line: &[char], style: PathStyle) -> (r: Option<
    (FossilDiffFileKind, RepoPath),
>)
    ensures
        status_view(r) == diff_status(line@, style),
{
    match split_once_at_white(trimmed(line)) {
        None => None,
        Some((word, rest)) => match diff_kind_of(word) {
            None => None,
            Some(kind) => match path_of(rest, style) {
                None => None,
                Some(path) => Some((kind, path)),
            },
        },
    }
}

/// Closes a file whose lines were all read.
pub fn push_fossil_diff_file(files: &mut Vec<CommitFile>, file: Option<FossilDiffFile>)
    ensures
        final(files).deep_view() == close_file(old(files).deep_view(), file.deep_view()),
{
    if let Some(file) = file {
        if let Some(path) = file.path {
            let closed = CommitFile {
                path,
                old_text: if file.old_is_null {
                    None
                } else {
                    Some(file.old_text)
                },
                new_text: if file.new_is_null {
                    None
                } else {
                    Some(file.new_text)
                },
                is_binary: false,
            };
            push_item(files, closed);
        }
    }
}

/// How a line of a hunk changes the counts.
#[derive(Clone, Copy, PartialEq, Eq, Structural)]
enum Counted {
    Nothing,
    Added,
    Removed,
}

/// Takes in a line of a hunk.
fn add_hunk_line(file: &mut FossilDiffFile, line: &[char]) -> (r: Counted)
    ensures
        forall|state: DiffState|
            #![trigger hunk_line(state, old(file).deep_view(), line@)]
            state.current == Some(old(file).deep_view()) ==> hunk_line(
                state,
                old(file).deep_view(),
                line@,
            ) == (DiffState {
                files: state.files,
                current: Some(final(file).deep_view()),
                added: state.added + (if r == Counted::Added {
                    1nat
                } else {
                    0nat
                }),
                removed: state.removed + (if r == Counted::Removed {
                    1nat
                } else {
                    0nat
                }),
            }),
{
    proof {
        reveal_strlit(" ");
        reveal_strlit("-");
        reveal_strlit("+");
    }
    let ghost before = file.deep_view();
    let ghost text = line@.skip(1).push('\n');
    if let Some(rest) = without_prefix(line, " ") {
        push_chars(&mut file.old_text, rest);
        file.old_text.push('\n');
        push_chars(&mut file.new_text, rest);
        file.new_text.push('\n');
        assert(file.old_text@ == before.old_text + text);
        assert(file.new_text@ == before.new_text + text);
        Counted::Nothing
    } else if let Some(rest) = without_prefix(line, "-") {
        push_chars(&mut file.old_text, rest);
        file.old_text.push('\n');
        assert(file.old_text@ == before.old_text + text);
        Counted::Removed
    } else if let Some(rest) = without_prefix(line, "+") {
        push_chars(&mut file.new_text, rest);
        file.new_text.push('\n');
        assert(file.new_text@ == before.new_text + text);
        Counted::Added
    } else {
        Counted::Nothing
    }
}

/// Takes in a line that begins no file.
fn add_file_line(file: &mut FossilDiffFile, line: &[char]) -> (r: Counted)
    ensures
        forall|state: DiffState|
            #![trigger file_line(state, old(file).deep_view(), line@)]
            state.current == Some(old(file).deep_view()) ==> file_line(
                state,
                old(file).deep_view(),
                line@,
            ) == (DiffState {
                files: state.files,
                current: Some(final(file).deep_view()),
                added: state.added + (if r == Counted::Added {
                    1nat
                } else {
                    0nat
                }),
                removed: state.removed + (if r == Counted::Removed {
                    1nat
                } else {
                    0nat
                }),
            }),
{
    if let Some(path) = without_prefix(line, "--- ") {
        file.old_is_null = is_text(trimmed(path), "/dev/null");
        Counted::Nothing
    } else if let Some(path) = without_prefix(line, "+++ ") {
        file.new_is_null = is_text(trimmed(path), "/dev/null");
        Counted::Nothing
    } else if begins_with(line, "@@ ") {
        file.in_hunk = true;
        Counted::Nothing
    } else if !file.in_hunk || begins_with(line, "\\") {
        Counted::Nothing
    } else {
        add_hunk_line(file, line)
    }
}

/// Reads a unified diff.
pub fn parse_fossil_unified_diff(output: &str, style: PathStyle) -> (r: Result<
    CommitDiff,
    FossilError,
>)
    ensures
        crate::error::result_view(r) == Ok::<CommitDiffView, FossilErrorView>(
            unified_diff(output@, style),
        ),
{
    let chars = to_chars(output);
    let lines = split_lines(chars.as_slice());
    let ghost all = crate::text::lines(output@);
    let mut files: Vec<CommitFile> = Vec::new();
    let mut current: Option<FossilDiffFile> = None;
    let mut added: usize = 0;
    let mut removed: usize = 0;
    let mut i: usize = 0;
    assert(all.take(0) == Seq::<Seq<char>>::empty());
    assert(files.deep_view() == Seq::<CommitFileView>::empty());
    while i < lines.len()
        invariant
            i <= lines@.len(),
            crate::text::texts(lines@) == all,
            added + removed <= i,
            (DiffState {
                files: files.deep_view(),
                current: current.deep_view(),
                added: added as nat,
                removed: removed as nat,
            }) == diff_lines(all.take(i as int), style),
        decreases lines@.len() - i,
    {
        let line = lines[i];
        let ghost state = diff_lines(all.take(i as int), style);
        assert(all.take(i + 1).drop_last() == all.take(i as int));
        assert(all.take(i + 1).last() == line@);
        if let Some((kind, path)) = parse_fossil_diff_status_line(line, style) {
            push_fossil_diff_file(&mut files, current);
            let mut file = FossilDiffFile::default();
            file.path = Some(path);
            file.old_is_null = kind == FossilDiffFileKind::Added;
            file.new_is_null = kind == FossilDiffFileKind::Deleted;
            current = Some(file);
        } else if let Some(path) = without_prefix(line, "Index: ") {
            let mut file = match current {
                Some(file) => file,
                None => FossilDiffFile::default(),
            };
            file.path = path_of(path, style);
            current = Some(file);
        } else {
            current = match current {
                Some(file) => {
                    let mut file = file;
                    assert(state.current == Some(file.deep_view()));
                    assert(diff_line(state, line@, style) == file_line(
                        state,
                        file.deep_view(),
                        line@,
                    ));
                    match add_file_line(&mut file, line) {
                        Counted::Nothing => {},
                        Counted::Added => {
                            added = added + 1;
                        },
                        Counted::Removed => {
                            removed = removed + 1;
                        },
                    }
                    Some(file)
                },
                None => None,
            };
        }
        i = i + 1;
    }
    assert(all.take(i as int) == all);
    push_fossil_diff_file(&mut files, current);
    Ok(CommitDiff { files, stats: Some((added, removed)) })
}

// ---------------------------------------------------------------------------
// What a diff gives back
// ---------------------------------------------------------------------------

/// What was read after more lines.
pub open spec fn diff_run(state: DiffState, lines: Seq<Seq<char>>, style: PathStyle) -> DiffState
    decreases lines.len(),
{
    if lines.len() == 0 {
        state
    } else {
        diff_line(diff_run(state, lines.drop_last(), style), lines.last(), style)
    }
}

/// Whether a line of a hunk is read as one: it is no heading of another file and
/// begins with none of the marks of a file's own heading.
pub open spec fn is_hunk_line(line: Seq<char>, style: PathStyle) -> bool {
    &&& diff_status(line, style) is None
    &&& !crate::text::starts_with(line, "Index: "@)
    &&& !crate::text::starts_with(line, "--- "@)
    &&& !crate::text::starts_with(line, "+++ "@)
    &&& !crate::text::starts_with(line, "@@ "@)
    &&& line.len() > 0 && (line[0] == ' ' || line[0] == '-' || line[0] == '+')
}

/// The lines of a hunk that do not begin with `mark`, without their first
/// characters.
pub open spec fn side(lines: Seq<Seq<char>>, mark: char) -> Seq<char>
    decreases lines.len(),
{
    if lines.len() == 0 {
        seq![]
    } else if lines.last()[0] == mark {
        side(lines.drop_last(), mark)
    } else {
        side(lines.drop_last(), mark) + lines.last().skip(1).push('\n')
    }
}

/// How many lines begin with `mark`.
pub open spec fn marked(lines: Seq<Seq<char>>, mark: char) -> nat
    decreases lines.len(),
{
    if lines.len() == 0 {
        0
    } else {
        marked(lines.drop_last(), mark) + (if lines.last()[0] == mark {
            1nat
        } else {
            0nat
        })
    }
}

/// Law: the lines of a hunk give back both texts: the old one is made of the
/// lines that were not added, the new one of those that were not removed, and
/// every added and removed line is counted.
pub proof fn law_hunk_gives_both_texts(
    state: DiffState,
    file: FossilDiffFileView,
    lines: Seq<Seq<char>>,
    style: PathStyle,
)
    requires
        state.current == Some(file),
        file.in_hunk,
        forall|i: int| 0 <= i < lines.len() ==> is_hunk_line(#[trigger] lines[i], style),
    ensures
        diff_run(state, lines, style) == (DiffState {
            files: state.files,
            current: Some(
                FossilDiffFileView {
                    old_text: file.old_text + side(lines, '+'),
                    new_text: file.new_text + side(lines, '-'),
                    ..file
                },
            ),
            added: state.added + marked(lines, '+'),
            removed: state.removed + marked(lines, '-'),
        }),
    decreases lines.len(),
{
    if lines.len() == 0 {
        assert(file.old_text + side(lines, '+') == file.old_text);
        assert(file.new_text + side(lines, '-') == file.new_text);
    } else {
        let head = lines.drop_last();
        let line = lines.last();
        assert forall|i: int| 0 <= i < head.len() implies is_hunk_line(
            #[trigger] head[i],
            style,
        ) by {
            assert(head[i] == lines[i]);
        }
        law_hunk_gives_both_texts(state, file, head, style);
        assert(is_hunk_line(lines[lines.len() - 1], style));
        reveal_strlit(" ");
        reveal_strlit("-");
        reveal_strlit("+");
        reveal_strlit("\\");
        assert(line.take(1) =~= seq![line[0]]);
        assert(" "@ =~= seq![' '] && "-"@ =~= seq!['-'] && "+"@ =~= seq!['+'] && "\\"@ =~= seq![
            '\\',
        ]);
        assert(crate::text::starts_with(line, " "@) == (line[0] == ' ')) by {
            assert(line.take(1)[0] == line[0]);
        }
        assert(crate::text::starts_with(line, "-"@) == (line[0] == '-')) by {
            assert(line.take(1)[0] == line[0]);
        }
        assert(crate::text::starts_with(line, "+"@) == (line[0] == '+')) by {
            assert(line.take(1)[0] == line[0]);
        }
        assert(!crate::text::starts_with(line, "\\"@)) by {
            assert(line.take(1)[0] == line[0]);
        }
        let text = line.skip(1).push('\n');
        assert(file.old_text + (side(head, '+') + text) == (file.old_text + side(head, '+'))
            + text);
        assert(file.new_text + (side(head, '-') + text) == (file.new_text + side(head, '-'))
            + text);
    }
}

/// Law: a diff that heads a file, begins a hunk and goes on with its lines gives
/// back that file alone, with both its texts; an added file has no old text and
/// a deleted one no new text.
pub proof fn law_diff_of_one_file(
    heading: Seq<char>,
    kind: FossilDiffFileKind,
    path: Seq<char>,
    hunk: Seq<char>,
    lines: Seq<Seq<char>>,
    style: PathStyle,
)
    requires
        diff_status(heading, style) == Some((kind, path)),
        crate::text::starts_with(hunk, "@@ "@),
        forall|i: int| 0 <= i < lines.len() ==> is_hunk_line(#[trigger] lines[i], style),
    ensures
        ({
            let state = diff_lines(seq![heading, hunk] + lines, style);
            &&& close_file(state.files, state.current) == seq![
                CommitFileView {
                    path,
                    old_text: if kind == FossilDiffFileKind::Added {
                        None
                    } else {
                        Some(side(lines, '+'))
                    },
                    new_text: if kind == FossilDiffFileKind::Deleted {
                        None
                    } else {
                        Some(side(lines, '-'))
                    },
                    is_binary: false,
                },
            ]
            &&& state.added == marked(lines, '+')
            &&& state.removed == marked(lines, '-')
        }),
{
    reveal_strlit("Index: ");
    reveal_strlit("--- ");
    reveal_strlit("+++ ");
    reveal_strlit("@@ ");
    let start = seq![heading, hunk];
    let empty = Seq::<Seq<char>>::empty();
    assert(start.drop_last() =~= seq![heading]);
    assert(seq![heading].drop_last() =~= empty);
    let first = diff_lines(seq![heading], style);
    assert(diff_lines(empty, style).files =~= Seq::<CommitFileView>::empty());
    assert(hunk.take(3)[0] == hunk[0]);
    assert(hunk[0] == '@');
    if hunk.len() >= 7 {
        assert(hunk.take(7)[0] == hunk[0]);
    }
    if hunk.len() >= 4 {
        assert(hunk.take(4)[0] == hunk[0]);
    }
    lemma_hunk_heads_no_file(hunk, style);
    let begun = diff_lines(start, style);
    assert(start.last() == hunk);
    assert(begun == diff_line(first, hunk, style));
    let file = begun.current->0;
    lemma_diff_run(start, lines, style);
    law_hunk_gives_both_texts(begun, file, lines, style);
    assert(file.old_text + side(lines, '+') =~= side(lines, '+'));
    assert(file.new_text + side(lines, '-') =~= side(lines, '-'));
    let state = diff_lines(start + lines, style);
    assert(close_file(state.files, state.current).len() == 1);
    assert(close_file(state.files, state.current) =~= seq![
        close_file(state.files, state.current)[0],
    ]);
}

/// The start of a hunk heads no file.
proof fn lemma_hunk_heads_no_file(hunk: Seq<char>, style: PathStyle)
    requires
        hunk.len() > 0,
        hunk[0] == '@',
    ensures
        diff_status(hunk, style) is None,
{
    reveal_strlit("ADDED");
    reveal_strlit("DELETED");
    reveal_strlit("DELETE");
    reveal_strlit("CHANGED");
    reveal_strlit("EDITED");
    reveal_strlit("UPDATED_BY_MERGE");
    reveal_strlit("UPDATED_BY_INTEGRATE");
    let text = crate::text::trim(hunk);
    assert(crate::text::trim_start(hunk) == hunk);
    crate::text::lemma_trim_end_first(hunk);
    crate::text::lemma_find_white(text);
    let i = crate::text::find_white(text) as int;
    if i < text.len() {
        let word = text.take(i);
        assert(word[0] == '@');
        assert("ADDED"@[0] == 'A');
        assert("DELETED"@[0] == 'D');
        assert("DELETE"@[0] == 'D');
        assert("CHANGED"@[0] == 'C');
        assert("EDITED"@[0] == 'E');
        assert("UPDATED_BY_MERGE"@[0] == 'U');
        assert("UPDATED_BY_INTEGRATE"@[0] == 'U');
    }
}

/// Reading lines after others is reading them all.
pub proof fn lemma_diff_run(a: Seq<Seq<char>>, b: Seq<Seq<char>>, style: PathStyle)
    ensures
        diff_lines(a + b, style) == diff_run(diff_lines(a, style), b, style),
    decreases b.len(),
{
    if b.len() == 0 {
        assert(a + b =~= a);
    } else {
        lemma_diff_run(a, b.drop_last(), style);
        assert((a + b).drop_last() =~= a + b.drop_last());
        assert((a + b).last() == b.last());
    }
}

} // verus!
