//! Laws of unified diffs.

use crate::diff::{
    close_file, diff_kind, diff_line, diff_lines, diff_run, diff_status, is_hunk_line, marked, side,
    unified_diff, CommitDiffView, CommitFileView, DiffState, FossilDiffFileKind,
};
use crate::laws::path::is_plain_path;
use crate::laws::text::{is_blank, is_line, is_tight, is_word, unlines};
use crate::path::PathStyle;
use crate::text::{starts_with, trim};
use vstd::prelude::*;

verus! {

/// Whether a word heads a file that was added.
pub open spec fn heads_added(word: Seq<char>) -> bool {
    word == "ADDED"@
}

/// Whether a word heads a file that was deleted.
pub open spec fn heads_deleted(word: Seq<char>) -> bool {
    word == "DELETED"@ || word == "DELETE"@
}

/// Whether a word heads a file that was changed.
pub open spec fn heads_changed(word: Seq<char>) -> bool {
    word == "CHANGED"@ || word == "EDITED"@ || word == "UPDATED_BY_MERGE"@ || word
        == "UPDATED_BY_INTEGRATE"@
}

/// Whether a word heads a file.
pub open spec fn heads_file(word: Seq<char>) -> bool {
    heads_added(word) || heads_deleted(word) || heads_changed(word)
}

/// Whether a line can stand in a hunk: it is added, removed or unchanged, and an
/// unchanged one does not begin with a word that heads a file.
pub open spec fn is_body_line(line: Seq<char>) -> bool {
    &&& is_line(line)
    &&& line.len() > 0
    &&& line[0] == ' ' || line[0] == '-' || line[0] == '+'
    &&& !starts_with(line, "--- "@)
    &&& !starts_with(line, "+++ "@)
    &&& line[0] == ' ' ==> forall|word: Seq<char>| #[trigger]
        heads_file(word) ==> !starts_with(trim(line), word)
}

/// Whether every line can stand in a hunk.
pub open spec fn is_body(lines: Seq<Seq<char>>) -> bool {
    forall|i: int| 0 <= i < lines.len() ==> is_body_line(#[trigger] lines[i])
}

/// Whether a line is a row of equals signs.
pub open spec fn is_rule(line: Seq<char>) -> bool {
    line.len() > 0 && forall|i: int| 0 <= i < line.len() ==> #[trigger] line[i] == '='
}

proof fn lemma_head_words(word: Seq<char>)
    requires
        heads_file(word),
    ensures
        is_word(word),
        word[0] == 'A' || word[0] == 'D' || word[0] == 'C' || word[0] == 'E' || word[0] == 'U',
        heads_added(word) ==> diff_kind(word) == Some(FossilDiffFileKind::Added),
        heads_deleted(word) ==> diff_kind(word) == Some(FossilDiffFileKind::Deleted),
        heads_changed(word) ==> diff_kind(word) == Some(FossilDiffFileKind::Modified),
{
    reveal_strlit("ADDED");
    assert("ADDED"@ =~= seq!['A', 'D', 'D', 'E', 'D']);
    reveal_strlit("DELETED");
    assert("DELETED"@ =~= seq!['D', 'E', 'L', 'E', 'T', 'E', 'D']);
    reveal_strlit("DELETE");
    assert("DELETE"@ =~= seq!['D', 'E', 'L', 'E', 'T', 'E']);
    reveal_strlit("CHANGED");
    assert("CHANGED"@ =~= seq!['C', 'H', 'A', 'N', 'G', 'E', 'D']);
    reveal_strlit("EDITED");
    assert("EDITED"@ =~= seq!['E', 'D', 'I', 'T', 'E', 'D']);
    reveal_strlit("UPDATED_BY_MERGE");
    assert("UPDATED_BY_MERGE"@ =~= seq!['U', 'P', 'D', 'A', 'T', 'E', 'D', '_', 'B', 'Y', '_', 'M', 'E', 'R', 'G', 'E']);
    reveal_strlit("UPDATED_BY_INTEGRATE");
    assert("UPDATED_BY_INTEGRATE"@ =~= seq!['U', 'P', 'D', 'A', 'T', 'E', 'D', '_', 'B', 'Y', '_', 'I', 'N', 'T', 'E', 'G', 'R', 'A', 'T', 'E']);
    assert forall|i: int| 0 <= i < word.len() implies !crate::text::is_white(#[trigger] word[i]) by {
        lemma_letters(word[i]);
    }
    assert("ADDED"@[0] == 'A');
    assert("DELETED"@.len() == 7 && "DELETE"@.len() == 6 && "DELETED"@[0] == 'D' && "DELETE"@[0]
        == 'D');
    assert("CHANGED"@[0] == 'C' && "EDITED"@[0] == 'E' && "UPDATED_BY_MERGE"@[0] == 'U'
        && "UPDATED_BY_INTEGRATE"@[0] == 'U');
}

proof fn lemma_letters(c: char)
    ensures
        'A' <= c <= 'Z' || c == '_' ==> !crate::text::is_white(c),
{
}

/// A heading names its kind and path.
proof fn lemma_heading(word: Seq<char>, p: Seq<char>, names: Seq<Seq<char>>, style: PathStyle)
    requires
        heads_file(word),
        is_plain_path(p, names, style),
        is_tight(p),
        p.len() > 0,
    ensures
        diff_status(word + seq![' '] + p, style) is Some,
        (diff_status(word + seq![' '] + p, style)->0).1 == p,
        (diff_status(word + seq![' '] + p, style)->0).0 == FossilDiffFileKind::Added <==> heads_added(
            word,
        ),
        (diff_status(word + seq![' '] + p, style)->0).0 == FossilDiffFileKind::Deleted
            <==> heads_deleted(word),
{
    lemma_head_words(word);
    let s = word + seq![' '] + p;
    assert(s[0] == word[0]);
    assert(s.last() == p.last());
    let none = Seq::<char>::empty();
    crate::laws::text::law_trim(none, s, none);
    crate::laws::text::law_first_word_is_cut_off(word, ' ', p);
    crate::laws::text::law_trim(none, p, none);
    crate::laws::path::law_plain_path_is_kept(p, names, style);
}

/// A line that begins with another character heads no file.
proof fn lemma_heads_nothing(line: Seq<char>, style: PathStyle)
    requires
        line.len() > 0,
        !crate::text::is_white(line[0]),
        line[0] != 'A' && line[0] != 'D' && line[0] != 'C' && line[0] != 'E' && line[0] != 'U',
    ensures
        diff_status(line, style) is None,
{
    let text = trim(line);
    assert(crate::text::trim_start(line) == line);
    crate::text::lemma_trim_end_first(line);
    crate::text::lemma_find_white(text);
    let i = crate::text::find_white(text) as int;
    if i < text.len() {
        let word = text.take(i);
        if diff_kind(word) is Some {
            lemma_head_words(word);
            assert(word[0] == text[0]);
        }
    }
}

/// A line of a hunk is read as one.
proof fn lemma_body_line(line: Seq<char>, style: PathStyle)
    requires
        is_body_line(line),
    ensures
        is_hunk_line(line, style),
{
    reveal_strlit("Index: ");
    reveal_strlit("@@ ");
    assert("Index: "@[0] == 'I');
    assert("@@ "@[0] == '@');
    if starts_with(line, "Index: "@) {
        assert(line.take(7)[0] == line[0]);
    }
    if starts_with(line, "@@ "@) {
        assert(line.take(3)[0] == line[0]);
    }
    if line[0] == ' ' {
        let text = trim(line);
        crate::text::lemma_find_white(text);
        let i = crate::text::find_white(text) as int;
        if i < text.len() {
            let word = text.take(i);
            if diff_kind(word) is Some {
                assert(heads_file(word));
                assert(starts_with(text, word));
            }
        }
    } else {
        lemma_heads_nothing(line, style);
    }
}

/// The file that is read after the lines that head it.
pub open spec fn begun(p: Seq<char>, old_null: bool, new_null: bool) -> DiffState {
    DiffState {
        files: seq![],
        current: Some(
            crate::diff::FossilDiffFileView {
                path: Some(p),
                old_text: seq![],
                new_text: seq![],
                old_is_null: old_null,
                new_is_null: new_null,
                in_hunk: false,
            },
        ),
        added: 0,
        removed: 0,
    }
}

/// A hunk behind the lines that head a file completes it.
proof fn lemma_hunk_completes(
    start: Seq<Seq<char>>,
    p: Seq<char>,
    old_null: bool,
    new_null: bool,
    hunk: Seq<char>,
    body: Seq<Seq<char>>,
    style: PathStyle,
)
    requires
        diff_lines(start, style) == begun(p, old_null, new_null),
        forall|i: int| 0 <= i < start.len() ==> is_line(#[trigger] start[i]),
        starts_with(hunk, "@@ "@),
        is_line(hunk),
        is_body(body),
    ensures
        unified_diff(unlines(start + seq![hunk] + body), style) == one_file(
            p,
            old_null,
            new_null,
            body,
        ),
{
    let all = start + seq![hunk] + body;
    assert forall|i: int| 0 <= i < all.len() implies is_line(#[trigger] all[i]) by {
        if i < start.len() {
            assert(all[i] == start[i]);
        } else if i == start.len() {
            assert(all[i] == hunk);
        } else {
            assert(is_body_line(body[i - start.len() - 1]));
        }
    }
    crate::laws::text::law_lines_are_read_back(all);
    reveal_strlit("Index: ");
    reveal_strlit("--- ");
    reveal_strlit("+++ ");
    reveal_strlit("@@ ");
    assert(hunk.take(3)[0] == hunk[0]);
    assert(hunk[0] == '@');
    if hunk.len() >= 7 {
        assert(hunk.take(7)[0] == hunk[0]);
    }
    if hunk.len() >= 4 {
        assert(hunk.take(4)[0] == hunk[0]);
    }
    lemma_heads_nothing(hunk, style);
    let front = start + seq![hunk];
    assert(front.drop_last() =~= start);
    assert(front.last() == hunk);
    let state = diff_lines(front, style);
    assert(state == diff_line(diff_lines(start, style), hunk, style));
    let file = state.current->0;
    assert(file.in_hunk && file.path == Some(p));
    assert forall|i: int| 0 <= i < body.len() implies is_hunk_line(#[trigger] body[i], style) by {
        assert(is_body_line(body[i]));
        lemma_body_line(body[i], style);
    }
    crate::diff::law_hunk_gives_both_texts(state, file, body, style);
    crate::diff::lemma_diff_run(front, body, style);
    assert(front + body =~= all);
    assert(file.old_text + side(body, '+') =~= side(body, '+'));
    assert(file.new_text + side(body, '-') =~= side(body, '-'));
    let result = unified_diff(unlines(all), style);
    assert(result.files.len() == 1);
    assert(result.files =~= one_file(p, old_null, new_null, body).files);
}

/// The diff of one file with the given hunk lines.
pub open spec fn one_file(p: Seq<char>, old_null: bool, new_null: bool, body: Seq<Seq<char>>) -> CommitDiffView {
    CommitDiffView {
        files: seq![
            CommitFileView {
                path: p,
                old_text: if old_null {
                    None
                } else {
                    Some(side(body, '+'))
                },
                new_text: if new_null {
                    None
                } else {
                    Some(side(body, '-'))
                },
                is_binary: false,
            },
        ],
        stats: Some((marked(body, '+'), marked(body, '-'))),
    }
}

/// A heading begins a file.
proof fn lemma_begun(word: Seq<char>, p: Seq<char>, names: Seq<Seq<char>>, style: PathStyle)
    requires
        heads_file(word),
        is_plain_path(p, names, style),
        is_tight(p),
        p.len() > 0,
    ensures
        diff_lines(seq![word + seq![' '] + p], style) == begun(
            p,
            heads_added(word),
            heads_deleted(word),
        ),
{
    let start = seq![word + seq![' '] + p];
    lemma_heading(word, p, names, style);
    reveal_with_fuel(diff_lines, 2);
    assert(start.drop_last() =~= Seq::<Seq<char>>::empty());
    assert(diff_lines(start, style).files =~= Seq::<CommitFileView>::empty());
}

/// Law: a diff that heads a file, begins a hunk and goes on with its lines gives
/// back that file at its whole path. Its old text is made of the lines that were
/// not added, its new text of those that were not removed; a file that was added
/// has no old text and one that was deleted no new text.
pub proof fn law_diff_of_headed_file(
    word: Seq<char>,
    p: Seq<char>,
    names: Seq<Seq<char>>,
    hunk: Seq<char>,
    body: Seq<Seq<char>>,
    style: PathStyle,
)
    requires
        heads_file(word),
        is_plain_path(p, names, style),
        is_tight(p),
        is_line(p),
        p.len() > 0,
        starts_with(hunk, "@@ "@),
        is_line(hunk),
        is_body(body),
    ensures
        unified_diff(unlines(seq![word + seq![' '] + p, hunk] + body), style) == one_file(
            p,
            heads_added(word),
            heads_deleted(word),
            body,
        ),
{
    let heading = word + seq![' '] + p;
    let start = seq![heading];
    lemma_heading(word, p, names, style);
    lemma_heading_is_line(word, p);
    lemma_begun(word, p, names, style);
    assert(diff_lines(start, style) == begun(p, heads_added(word), heads_deleted(word)));
    lemma_hunk_completes(start, p, heads_added(word), heads_deleted(word), hunk, body, style);
    assert(start + seq![hunk] + body =~= seq![heading, hunk] + body);
}

proof fn lemma_heading_is_line(word: Seq<char>, p: Seq<char>)
    requires
        heads_file(word),
        is_line(p),
        p.len() > 0,
    ensures
        is_line(word + seq![' '] + p),
{
    lemma_head_words(word);
    let s = word + seq![' '] + p;
    assert(s.last() == p.last());
    if s.contains('\n') {
        let i = s.index_of('\n');
        if i < word.len() {
            assert(crate::text::is_white(word[i]));
        } else if i > word.len() {
            assert(p[i - word.len() - 1] == '\n');
            assert(p.contains('\n'));
        }
    }
}

proof fn lemma_prefixed_is_line(mark: Seq<char>, p: Seq<char>)
    requires
        is_line(mark),
        is_line(p),
        p.len() > 0,
    ensures
        is_line(mark + p),
{
    let s = mark + p;
    assert(s.last() == p.last());
    if s.contains('\n') {
        let i = s.index_of('\n');
        if i < mark.len() {
            assert(mark.contains(mark[i]));
        } else {
            assert(p.contains(p[i - mark.len()]));
        }
    }
}

/// Law: an `Index: ` line gives the file that is being read, or a new one, the
/// whole path behind it, whatever was read before.
pub proof fn law_index_line_names_the_file(
    before: Seq<Seq<char>>,
    p: Seq<char>,
    names: Seq<Seq<char>>,
    style: PathStyle,
)
    requires
        is_plain_path(p, names, style),
        is_tight(p),
        p.len() > 0,
    ensures
        diff_lines(before.push("Index: "@ + p), style).current is Some,
        diff_lines(before.push("Index: "@ + p), style).current->0.path == Some(p),
        diff_lines(before.push("Index: "@ + p), style).files == diff_lines(before, style).files,
{
    reveal_strlit("Index: ");
    let line = "Index: "@ + p;
    assert(line[0] == 'I');
    lemma_heads_nothing(line, style);
    assert(before.push(line).drop_last() =~= before);
    crate::laws::text::law_prefix_and_suffix("Index: "@, p, line);
    let none = Seq::<char>::empty();
    crate::laws::text::law_trim(none, p, none);
    crate::laws::path::law_plain_path_is_kept(p, names, style);
}

/// The lines that fossil prints above the hunks of a file.
pub open spec fn file_heading(
    word: Seq<char>,
    p: Seq<char>,
    rule: Seq<char>,
    old_name: Seq<char>,
    new_name: Seq<char>,
) -> Seq<Seq<char>> {
    seq![word + seq![' '] + p, "Index: "@ + p, rule, "--- "@ + old_name, "+++ "@ + new_name]
}

/// Law: a diff with all the lines that fossil prints above the hunks of a file
/// gives back that file alone, at the whole path that its heading and its
/// `Index: ` line name. It has no old text exactly if its `--- ` line names
/// `/dev/null`, and no new text exactly if its `+++ ` line does.
pub proof fn law_diff_of_listed_file(
    word: Seq<char>,
    p: Seq<char>,
    names: Seq<Seq<char>>,
    rule: Seq<char>,
    old_name: Seq<char>,
    new_name: Seq<char>,
    hunk: Seq<char>,
    body: Seq<Seq<char>>,
    style: PathStyle,
)
    requires
        heads_file(word),
        is_plain_path(p, names, style),
        is_tight(p),
        is_line(p),
        p.len() > 0,
        is_rule(rule),
        is_tight(old_name) && is_line(old_name) && old_name.len() > 0,
        is_tight(new_name) && is_line(new_name) && new_name.len() > 0,
        starts_with(hunk, "@@ "@),
        is_line(hunk),
        is_body(body),
    ensures
        unified_diff(
            unlines(file_heading(word, p, rule, old_name, new_name) + seq![hunk] + body),
            style,
        ) == one_file(p, old_name == "/dev/null"@, new_name == "/dev/null"@, body),
{
    reveal_strlit("Index: ");
    reveal_strlit("--- ");
    reveal_strlit("+++ ");
    reveal_strlit("@@ ");
    let none = Seq::<char>::empty();
    let l0 = word + seq![' '] + p;
    let l1 = "Index: "@ + p;
    let l3 = "--- "@ + old_name;
    let l4 = "+++ "@ + new_name;
    let s1 = seq![l0];
    let s2 = seq![l0, l1];
    let s3 = seq![l0, l1, rule];
    let s4 = seq![l0, l1, rule, l3];
    let s5 = file_heading(word, p, rule, old_name, new_name);
    lemma_heading(word, p, names, style);
    lemma_begun(word, p, names, style);
    let b1 = begun(p, heads_added(word), heads_deleted(word));
    assert(diff_lines(s1, style) == b1);
    assert(s1.push(l1) =~= s2);
    assert(s2.drop_last() =~= s1);
    law_index_line_names_the_file(s1, p, names, style);
    assert(l1[0] == 'I');
    lemma_heads_nothing(l1, style);
    crate::laws::text::law_prefix_and_suffix("Index: "@, p, l1);
    assert(diff_lines(s2, style) == b1);
    assert(s3.drop_last() =~= s2);
    assert(rule[0] == '=');
    lemma_heads_nothing(rule, style);
    if rule.len() >= 7 {
        assert(rule.take(7)[0] == rule[0]);
    }
    if rule.len() >= 4 {
        assert(rule.take(4)[0] == rule[0]);
    }
    if rule.len() >= 3 {
        assert(rule.take(3)[0] == rule[0]);
    }
    assert(diff_lines(s3, style) == b1);
    assert(s4.drop_last() =~= s3);
    assert(l3[0] == '-');
    lemma_heads_nothing(l3, style);
    if l3.len() >= 7 {
        assert(l3.take(7)[0] == l3[0]);
    }
    crate::laws::text::law_prefix_and_suffix("--- "@, old_name, l3);
    crate::laws::text::law_trim(none, old_name, none);
    let b2 = begun(p, old_name == "/dev/null"@, heads_deleted(word));
    assert(diff_lines(s4, style) == b2);
    assert(s5.drop_last() =~= s4);
    assert(l4[0] == '+');
    lemma_heads_nothing(l4, style);
    if l4.len() >= 7 {
        assert(l4.take(7)[0] == l4[0]);
    }
    assert(l4.take(4)[0] == l4[0]);
    crate::laws::text::law_prefix_and_suffix("+++ "@, new_name, l4);
    crate::laws::text::law_trim(none, new_name, none);
    let b3 = begun(p, old_name == "/dev/null"@, new_name == "/dev/null"@);
    assert(diff_lines(s5, style) == b3);
    lemma_heading_is_line(word, p);
    assert("Index: "@ =~= seq!['I', 'n', 'd', 'e', 'x', ':', ' ']);
    assert("--- "@ =~= seq!['-', '-', '-', ' ']);
    assert("+++ "@ =~= seq!['+', '+', '+', ' ']);
    lemma_prefixed_is_line("Index: "@, p);
    lemma_prefixed_is_line("--- "@, old_name);
    lemma_prefixed_is_line("+++ "@, new_name);
    assert(is_line(rule)) by {
        if rule.contains('\n') {
            let i = rule.index_of('\n');
            assert(rule[i] == '=');
        }
        assert(rule[rule.len() - 1] == '=');
    }
    lemma_hunk_completes(
        s5,
        p,
        old_name == "/dev/null"@,
        new_name == "/dev/null"@,
        hunk,
        body,
        style,
    );
}

/// Reading on from a state with files before it only puts those files in front.
proof fn lemma_run_adds(
    files: Seq<CommitFileView>,
    added: nat,
    removed: nat,
    state: DiffState,
    lines: Seq<Seq<char>>,
    style: PathStyle,
)
    ensures
        ({
            let run = diff_run(state, lines, style);
            diff_run(
                DiffState {
                    files: files + state.files,
                    added: added + state.added,
                    removed: removed + state.removed,
                    ..state
                },
                lines,
                style,
            ) == (DiffState {
                files: files + run.files,
                added: added + run.added,
                removed: removed + run.removed,
                ..run
            })
        }),
    decreases lines.len(),
{
    if lines.len() > 0 {
        lemma_run_adds(files, added, removed, state, lines.drop_last(), style);
        let run = diff_run(state, lines.drop_last(), style);
        lemma_line_adds(files, added, removed, run, lines.last(), style);
    }
}

proof fn lemma_line_adds(
    files: Seq<CommitFileView>,
    added: nat,
    removed: nat,
    state: DiffState,
    line: Seq<char>,
    style: PathStyle,
)
    ensures
        ({
            let next = diff_line(state, line, style);
            diff_line(
                DiffState {
                    files: files + state.files,
                    added: added + state.added,
                    removed: removed + state.removed,
                    ..state
                },
                line,
                style,
            ) == (DiffState {
                files: files + next.files,
                added: added + next.added,
                removed: removed + next.removed,
                ..next
            })
        }),
{
    assert(close_file(files + state.files, state.current) =~= files + close_file(
        state.files,
        state.current,
    ));
}

/// Law: diffs that stand one behind the other give the files of the first and then
/// those of the second, and their lines are counted together.
pub proof fn law_diffs_add_up(
    first: Seq<Seq<char>>,
    word: Seq<char>,
    p: Seq<char>,
    names: Seq<Seq<char>>,
    rest: Seq<Seq<char>>,
    style: PathStyle,
)
    requires
        heads_file(word),
        is_plain_path(p, names, style),
        is_tight(p),
        is_line(p),
        p.len() > 0,
        forall|i: int| 0 <= i < first.len() ==> is_line(#[trigger] first[i]),
        forall|i: int| 0 <= i < rest.len() ==> is_line(#[trigger] rest[i]),
    ensures
        ({
            let second = seq![word + seq![' '] + p] + rest;
            let one = unified_diff(unlines(first), style);
            let two = unified_diff(unlines(second), style);
            let both = unified_diff(unlines(first + second), style);
            &&& both.files == one.files + two.files
            &&& (both.stats->0).0 == (one.stats->0).0 + (two.stats->0).0
            &&& (both.stats->0).1 == (one.stats->0).1 + (two.stats->0).1
            &&& both.stats is Some && one.stats is Some && two.stats is Some
        }),
{
    let heading = word + seq![' '] + p;
    let second = seq![heading] + rest;
    lemma_heading(word, p, names, style);
    lemma_heading_is_line(word, p);
    assert forall|i: int| 0 <= i < second.len() implies is_line(#[trigger] second[i]) by {
        if i > 0 {
            assert(second[i] == rest[i - 1]);
        }
    }
    let all = first + second;
    assert forall|i: int| 0 <= i < all.len() implies is_line(#[trigger] all[i]) by {
        if i < first.len() {
            assert(all[i] == first[i]);
        } else {
            assert(all[i] == second[i - first.len()]);
        }
    }
    crate::laws::text::law_lines_are_read_back(first);
    crate::laws::text::law_lines_are_read_back(second);
    crate::laws::text::law_lines_are_read_back(all);
    lemma_begun(word, p, names, style);
    let a = diff_lines(first, style);
    let head = seq![heading];
    let h = diff_lines(head, style);
    crate::diff::lemma_diff_run(head, rest, style);
    let joined = first + head;
    assert(joined.drop_last() =~= first);
    assert(joined.last() == heading);
    let j = diff_lines(joined, style);
    crate::diff::lemma_diff_run(joined, rest, style);
    assert(joined + rest =~= all);
    let files = close_file(a.files, a.current);
    assert(h.files =~= Seq::<CommitFileView>::empty());
    assert(j.files =~= files + h.files);
    assert(j == (DiffState {
        files: files + h.files,
        added: a.added + h.added,
        removed: a.removed + h.removed,
        ..h
    }));
    lemma_run_adds(files, a.added, a.removed, h, rest, style);
    let run = diff_run(h, rest, style);
    assert(close_file(files + run.files, run.current) =~= files + close_file(
        run.files,
        run.current,
    ));
}

/// Law: a line that begins with a backslash says nothing.
pub proof fn law_marks_say_nothing(before: Seq<Seq<char>>, line: Seq<char>, style: PathStyle)
    requires
        line.len() > 0,
        line[0] == '\\',
    ensures
        diff_lines(before.push(line), style) == diff_lines(before, style),
{
    reveal_strlit("Index: ");
    reveal_strlit("--- ");
    reveal_strlit("+++ ");
    reveal_strlit("@@ ");
    reveal_strlit("\\");
    assert(before.push(line).drop_last() =~= before);
    lemma_heads_nothing(line, style);
    assert(line.take(1) =~= "\\"@);
    if line.len() >= 7 {
        assert(line.take(7)[0] == line[0]);
    }
    if line.len() >= 4 {
        assert(line.take(4)[0] == line[0]);
    }
    if line.len() >= 3 {
        assert(line.take(3)[0] == line[0]);
    }
}

/// Law: without a heading or an `Index: ` line there is no file and nothing is
/// counted.
pub proof fn law_no_file_without_a_heading(ls: Seq<Seq<char>>, style: PathStyle)
    requires
        forall|i: int|
            0 <= i < ls.len() ==> is_line(#[trigger] ls[i]) && !starts_with(ls[i], "Index: "@)
                && forall|word: Seq<char>| #[trigger]
                heads_file(word) ==> !starts_with(trim(ls[i]), word),
    ensures
        unified_diff(unlines(ls), style) == (CommitDiffView { files: seq![], stats: Some((0, 0)) }),
{
    crate::laws::text::law_lines_are_read_back(ls);
    lemma_no_file(ls, style);
}

proof fn lemma_no_file(ls: Seq<Seq<char>>, style: PathStyle)
    requires
        forall|i: int|
            0 <= i < ls.len() ==> is_line(#[trigger] ls[i]) && !starts_with(ls[i], "Index: "@)
                && forall|word: Seq<char>| #[trigger]
                heads_file(word) ==> !starts_with(trim(ls[i]), word),
    ensures
        diff_lines(ls, style) == (DiffState { files: seq![], current: None, added: 0, removed: 0 }),
    decreases ls.len(),
{
    if ls.len() > 0 {
        let head = ls.drop_last();
        assert forall|i: int| 0 <= i < head.len() implies is_line(#[trigger] head[i])
            && !starts_with(head[i], "Index: "@) && forall|word: Seq<char>| #[trigger]
            heads_file(word) ==> !starts_with(trim(head[i]), word) by {
            assert(head[i] == ls[i]);
        }
        lemma_no_file(head, style);
        let line = ls[ls.len() - 1];
        assert(is_line(line));
        let text = trim(line);
        crate::text::lemma_find_white(text);
        let i = crate::text::find_white(text) as int;
        if i < text.len() {
            let word = text.take(i);
            if diff_kind(word) is Some {
                assert(heads_file(word));
                assert(starts_with(text, word));
            }
        }
    }
}

/// Law: blanks around the path of a heading or of an `Index: ` line say nothing,
/// nor do those in front of a heading.
pub proof fn law_blanks_around_paths(
    before: Seq<Seq<char>>,
    a: Seq<char>,
    word: Seq<char>,
    gap: Seq<char>,
    p: Seq<char>,
    b: Seq<char>,
    names: Seq<Seq<char>>,
    style: PathStyle,
)
    requires
        heads_file(word),
        is_plain_path(p, names, style),
        is_tight(p) && p.len() > 0,
        is_blank(a) && is_blank(gap) && is_blank(b),
    ensures
        diff_lines(before.push(a + (word + seq![' '] + gap + p) + b), style) == diff_lines(
            before.push(word + seq![' '] + p),
            style,
        ),
        diff_lines(before.push("Index: "@ + (gap + p + b)), style) == diff_lines(
            before.push("Index: "@ + p),
            style,
        ),
{
    lemma_head_words(word);
    lemma_heading(word, p, names, style);
    let none = Seq::<char>::empty();
    let near = word + seq![' '] + p;
    let far = word + seq![' '] + gap + p;
    let wide = a + far + b;
    assert(near[0] == word[0] && near.last() == p.last());
    assert(far[0] == word[0] && far.last() == p.last());
    crate::laws::text::law_trim(none, near, none);
    crate::laws::text::law_trim(a, far, b);
    crate::laws::text::law_first_word_is_cut_off(word, ' ', p);
    crate::laws::text::law_first_word_is_cut_off(word, ' ', gap + p);
    assert(far =~= word + seq![' '] + (gap + p));
    crate::laws::text::law_trim(none, p, none);
    crate::laws::text::law_trim(gap, p, none);
    assert(gap + p + none =~= gap + p);
    assert(diff_status(wide, style) == diff_status(near, style));
    assert(before.push(wide).drop_last() =~= before);
    assert(before.push(near).drop_last() =~= before);

    reveal_strlit("Index: ");
    let index = "Index: "@ + p;
    let wide_index = "Index: "@ + (gap + p + b);
    assert(index[0] == 'I' && wide_index[0] == 'I');
    lemma_heads_nothing(index, style);
    lemma_heads_nothing(wide_index, style);
    crate::laws::text::law_prefix_and_suffix("Index: "@, p, index);
    crate::laws::text::law_prefix_and_suffix("Index: "@, gap + p + b, wide_index);
    crate::laws::text::law_trim(gap, p, b);
    assert(before.push(index).drop_last() =~= before);
    assert(before.push(wide_index).drop_last() =~= before);
}

} // verus!
