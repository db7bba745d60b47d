//! Laws of the changes in a checkout.

use crate::changes::{
    change_kind, change_line, change_lines, changes, changes_status, checkout_status, kind_status,
    path_key, renames, undo_rename, visible_changes, FossilChange, FossilChangeKind,
    FossilChangeView, GitStatusView,
};
use crate::error::FossilErrorView;
use crate::index::{lex_less, Indexed};
use crate::laws::path::is_plain_path;
use crate::laws::text::{is_blank, is_line, is_tight, is_word, unlines};
use crate::path::PathStyle;
use crate::status::{FileStatus, StatusCode, TrackedStatus, UnmergedStatus, UnmergedStatusCode};
use crate::text::contains;
use vstd::prelude::*;

verus! {

/// Whether a word says that a file was changed in place.
pub open spec fn says_modified(w: Seq<char>) -> bool {
    w == "EXECUTABLE"@ || w == "META"@ || w == "EDITED"@ || w == "MERGED"@ || w
        == "UPDATED_BY_MERGE"@ || w == "UPDATED_BY_INTEGRATE"@
}

/// Whether a word says what happened to a file.
pub open spec fn says_change(w: Seq<char>) -> bool {
    says_modified(w) || w == "EXTRA"@ || w == "CONFLICT"@ || w == "ADDED"@ || w == "DELETED"@ || w
        == "MISSING"@ || w == "RENAMED"@
}

/// What was changed, with its kind.
pub open spec fn one_change(p: Seq<char>, kind: FossilChangeKind) -> Seq<FossilChangeView> {
    seq![FossilChangeView { repo_path: p, kind, rename_source: None }]
}

proof fn lemma_kinds(w: Seq<char>)
    ensures
        change_kind(w) == Some(FossilChangeKind::Extra) <==> w == "EXTRA"@,
        change_kind(w) == Some(FossilChangeKind::Conflict) <==> w == "CONFLICT"@,
        change_kind(w) == Some(FossilChangeKind::Added) <==> w == "ADDED"@,
        change_kind(w) == Some(FossilChangeKind::Deleted) <==> w == "DELETED"@,
        change_kind(w) == Some(FossilChangeKind::Missing) <==> w == "MISSING"@,
        change_kind(w) == Some(FossilChangeKind::Renamed) <==> w == "RENAMED"@,
        change_kind(w) == Some(FossilChangeKind::Modified) <==> says_modified(w),
        change_kind(w) is Some <==> says_change(w),
{
    reveal_strlit("EXTRA");
    reveal_strlit("CONFLICT");
    reveal_strlit("ADDED");
    reveal_strlit("DELETED");
    reveal_strlit("MISSING");
    reveal_strlit("RENAMED");
    reveal_strlit("EXECUTABLE");
    reveal_strlit("META");
    reveal_strlit("EDITED");
    reveal_strlit("MERGED");
    reveal_strlit("UPDATED_BY_MERGE");
    reveal_strlit("UPDATED_BY_INTEGRATE");
    assert("EXTRA"@.len() == 5 && "EXTRA"@[0] == 'E' && "EXTRA"@[1] == 'X');
    assert("CONFLICT"@.len() == 8 && "CONFLICT"@[0] == 'C' && "CONFLICT"@[1] == 'O');
    assert("ADDED"@.len() == 5 && "ADDED"@[0] == 'A' && "ADDED"@[1] == 'D');
    assert("DELETED"@.len() == 7 && "DELETED"@[0] == 'D' && "DELETED"@[1] == 'E');
    assert("MISSING"@.len() == 7 && "MISSING"@[0] == 'M' && "MISSING"@[1] == 'I');
    assert("RENAMED"@.len() == 7 && "RENAMED"@[0] == 'R' && "RENAMED"@[1] == 'E');
    assert("EXECUTABLE"@.len() == 10 && "EXECUTABLE"@[0] == 'E' && "EXECUTABLE"@[1] == 'X');
    assert("META"@.len() == 4 && "META"@[0] == 'M' && "META"@[1] == 'E');
    assert("EDITED"@.len() == 6 && "EDITED"@[0] == 'E' && "EDITED"@[1] == 'D');
    assert("MERGED"@.len() == 6 && "MERGED"@[0] == 'M' && "MERGED"@[1] == 'E');
    assert("UPDATED_BY_MERGE"@.len() == 16 && "UPDATED_BY_MERGE"@[0] == 'U' && "UPDATED_BY_MERGE"@[1] == 'P');
    assert("UPDATED_BY_INTEGRATE"@.len() == 20 && "UPDATED_BY_INTEGRATE"@[0] == 'U' && "UPDATED_BY_INTEGRATE"@[1] == 'P');
}

/// A line with a word and a path is a change of that file.
proof fn lemma_plain_line(w: Seq<char>, p: Seq<char>, names: Seq<Seq<char>>, style: PathStyle)
    requires
        is_word(w),
        is_plain_path(p, names, style),
        is_tight(p),
        p.len() > 0,
        !contains(p, " -> "@),
    ensures
        change_line(w + seq![' '] + p, style) == (match change_kind(w) {
            Some(kind) => Some(FossilChangeView { repo_path: p, kind, rename_source: None }),
            None => None,
        }),
{
    let s = w + seq![' '] + p;
    let none = Seq::<char>::empty();
    assert(s[0] == w[0] && s.last() == p.last());
    crate::laws::text::law_trim(none, s, none);
    crate::laws::text::law_first_word_is_cut_off(w, ' ', p);
    crate::laws::text::law_trim(none, p, none);
    crate::laws::path::law_plain_path_is_kept(p, names, style);
    reveal_strlit(" -> ");
    reveal_strlit("(none)");
    crate::laws::text::lemma_rfind_none(p, " -> "@);
    if s == "(none)"@ {
        assert(s[w.len() as int] == ' ');
        assert("(none)"@ =~= seq!['(', 'n', 'o', 'n', 'e', ')']);
        assert(seq!['(', 'n', 'o', 'n', 'e', ')'][w.len() as int] == ' ');
    }
}

proof fn lemma_word_line(w: Seq<char>, p: Seq<char>)
    requires
        is_word(w),
        is_line(p),
        p.len() > 0,
    ensures
        is_line(w + seq![' '] + p),
{
    let s = w + seq![' '] + p;
    assert(s.last() == p.last());
    if s.contains('\n') {
        let i = s.index_of('\n');
        if i < w.len() {
            assert(crate::text::is_white(w[i]));
        } else if i > w.len() {
            assert(p.contains(p[i - w.len() - 1]));
        }
    }
}

/// The changes of one line.
proof fn lemma_one_line(line: Seq<char>, style: PathStyle)
    requires
        is_line(line),
    ensures
        changes(unlines(seq![line]), style) == (match change_line(line, style) {
            Some(change) => seq![change],
            None => seq![],
        }),
{
    let ls = seq![line];
    crate::laws::text::law_lines_are_read_back(ls);
    reveal_with_fuel(change_lines, 2);
    assert(ls.drop_last() =~= Seq::<Seq<char>>::empty());
    match change_line(line, style) {
        Some(change) => {
            let raw = Seq::<FossilChangeView>::empty().push(change);
            assert(change_lines(ls, style) == raw);
            reveal_with_fuel(crate::index::sorted_first, 2);
            assert(raw.drop_last() =~= Seq::<FossilChangeView>::empty());
            assert(crate::index::sorted_first::<FossilChange>(raw) =~= seq![change]);
        },
        None => {
            assert(change_lines(ls, style) =~= Seq::<FossilChangeView>::empty());
            assert(crate::index::sorted_first::<FossilChange>(change_lines(ls, style)) =~= Seq::<
                FossilChangeView,
            >::empty());
        },
    }
}

/// Law: the first word of a line alone says what happened to the file behind it.
/// A file is in conflict exactly if the line begins with `CONFLICT`, and it was
/// changed in place exactly if the line begins with one of the six words for that;
/// with any other word the line says nothing.
pub proof fn law_kinds_of_changes(w: Seq<char>, p: Seq<char>, names: Seq<Seq<char>>, style: PathStyle)
    requires
        is_word(w),
        is_plain_path(p, names, style),
        is_tight(p),
        is_line(p),
        p.len() > 0,
        !contains(p, " -> "@),
    ensures
        changes(unlines(seq![w + seq![' '] + p]), style) == one_change(
            p,
            FossilChangeKind::Extra,
        ) <==> w == "EXTRA"@,
        changes(unlines(seq![w + seq![' '] + p]), style) == one_change(
            p,
            FossilChangeKind::Conflict,
        ) <==> w == "CONFLICT"@,
        changes(unlines(seq![w + seq![' '] + p]), style) == one_change(
            p,
            FossilChangeKind::Added,
        ) <==> w == "ADDED"@,
        changes(unlines(seq![w + seq![' '] + p]), style) == one_change(
            p,
            FossilChangeKind::Deleted,
        ) <==> w == "DELETED"@,
        changes(unlines(seq![w + seq![' '] + p]), style) == one_change(
            p,
            FossilChangeKind::Missing,
        ) <==> w == "MISSING"@,
        changes(unlines(seq![w + seq![' '] + p]), style) == one_change(
            p,
            FossilChangeKind::Renamed,
        ) <==> w == "RENAMED"@,
        changes(unlines(seq![w + seq![' '] + p]), style) == one_change(
            p,
            FossilChangeKind::Modified,
        ) <==> says_modified(w),
        changes(unlines(seq![w + seq![' '] + p]), style) == Seq::<FossilChangeView>::empty()
            <==> !says_change(w),
{
    lemma_kinds(w);
    lemma_plain_line(w, p, names, style);
    lemma_word_line(w, p);
    lemma_one_line(w + seq![' '] + p, style);
    let r = changes(unlines(seq![w + seq![' '] + p]), style);
    match change_kind(w) {
        Some(kind) => {
            assert(r =~= one_change(p, kind));
            assert(r[0].kind == kind);
            assert(one_change(p, FossilChangeKind::Extra)[0].kind == FossilChangeKind::Extra);
            assert(one_change(p, FossilChangeKind::Conflict)[0].kind == FossilChangeKind::Conflict);
            assert(one_change(p, FossilChangeKind::Added)[0].kind == FossilChangeKind::Added);
            assert(one_change(p, FossilChangeKind::Deleted)[0].kind == FossilChangeKind::Deleted);
            assert(one_change(p, FossilChangeKind::Missing)[0].kind == FossilChangeKind::Missing);
            assert(one_change(p, FossilChangeKind::Renamed)[0].kind == FossilChangeKind::Renamed);
            assert(one_change(p, FossilChangeKind::Modified)[0].kind == FossilChangeKind::Modified);
            assert(r.len() == 1);
        },
        None => {
            assert(r.len() == 0);
            assert(one_change(p, FossilChangeKind::Extra).len() == 1);
            assert(one_change(p, FossilChangeKind::Conflict).len() == 1);
            assert(one_change(p, FossilChangeKind::Added).len() == 1);
            assert(one_change(p, FossilChangeKind::Deleted).len() == 1);
            assert(one_change(p, FossilChangeKind::Missing).len() == 1);
            assert(one_change(p, FossilChangeKind::Renamed).len() == 1);
            assert(one_change(p, FossilChangeKind::Modified).len() == 1);
        },
    }
}

/// A tracked file that differs only in the checkout.
pub open spec fn differs(code: StatusCode) -> FileStatus {
    FileStatus::Versioned(
        TrackedStatus { index_status: StatusCode::Unmodified, worktree_status: code },
    )
}

/// Law: a listed file is shown as untracked if it is extra, as changed by both
/// sides if it is in conflict, as deleted if it was deleted or is missing, and
/// else as added, renamed or modified in the checkout.
pub proof fn law_status_of_listed_file(
    w: Seq<char>,
    p: Seq<char>,
    names: Seq<Seq<char>>,
    style: PathStyle,
)
    requires
        is_word(w),
        is_plain_path(p, names, style),
        is_tight(p),
        is_line(p),
        p.len() > 0,
        !contains(p, " -> "@),
    ensures
        ({
            let status = changes_status(changes(unlines(seq![w + seq![' '] + p]), style));
            &&& status.renames == Seq::<(Seq<char>, Seq<char>)>::empty()
            &&& w == "EXTRA"@ ==> status.entries == seq![(p, FileStatus::Untracked)]
            &&& w == "CONFLICT"@ ==> status.entries == seq![
                (
                    p,
                    FileStatus::Unmerged(
                        UnmergedStatus {
                            first_head: UnmergedStatusCode::Updated,
                            second_head: UnmergedStatusCode::Updated,
                        },
                    ),
                ),
            ]
            &&& w == "ADDED"@ ==> status.entries == seq![(p, differs(StatusCode::Added))]
            &&& w == "DELETED"@ || w == "MISSING"@ ==> status.entries == seq![
                (p, differs(StatusCode::Deleted)),
            ]
            &&& w == "RENAMED"@ ==> status.entries == seq![(p, differs(StatusCode::Renamed))]
            &&& says_modified(w) ==> status.entries == seq![(p, differs(StatusCode::Modified))]
            &&& !says_change(w) ==> status.entries == Seq::<(Seq<char>, FileStatus)>::empty()
        }),
{
    law_kinds_of_changes(w, p, names, style);
    let all = changes(unlines(seq![w + seq![' '] + p]), style);
    let status = changes_status(all);
    reveal_with_fuel(renames, 2);
    lemma_kinds(w);
    match change_kind(w) {
        Some(kind) => {
            assert(all == one_change(p, kind));
            assert(all.drop_last() =~= Seq::<FossilChangeView>::empty());
            assert(status.entries =~= seq![(p, kind_status(kind))]);
            assert(status.renames =~= Seq::<(Seq<char>, Seq<char>)>::empty());
        },
        None => {
            assert(all.len() == 0);
            assert(status.entries =~= Seq::<(Seq<char>, FileStatus)>::empty());
            assert(status.renames =~= Seq::<(Seq<char>, Seq<char>)>::empty());
        },
    }
}

/// Law: behind `<old> -> <new>`, the file is at its new path and was at its old
/// one; the status shows the rename, and undoing it renames the new path back.
pub proof fn law_renamed_file(
    w: Seq<char>,
    old: Seq<char>,
    old_names: Seq<Seq<char>>,
    new: Seq<char>,
    new_names: Seq<Seq<char>>,
    style: PathStyle,
)
    requires
        is_word(w),
        says_change(w),
        is_plain_path(old, old_names, style),
        is_plain_path(new, new_names, style),
        is_tight(old) && is_line(old) && old.len() > 0,
        is_tight(new) && is_line(new) && new.len() > 0,
        !contains("-> "@ + new, " -> "@),
    ensures
        ({
            let output = unlines(seq![w + seq![' '] + old + " -> "@ + new]);
            let all = changes(output, style);
            &&& all.len() == 1
            &&& all[0].repo_path == new
            &&& all[0].rename_source == Some(old)
            &&& w == "RENAMED"@ <==> all[0].kind == FossilChangeKind::Renamed
            &&& says_modified(w) <==> all[0].kind == FossilChangeKind::Modified
            &&& changes_status(all).renames == seq![(old, new)]
            &&& undo_rename(output, new, style) == Ok::<Seq<Seq<char>>, FossilErrorView>(
                seq!["rename"@, new, old],
            )
        }),
{
    lemma_kinds(w);
    reveal_strlit(" -> ");
    reveal_strlit("-> ");
    reveal_strlit("(none)");
    let arrow = " -> "@;
    let rest = old + arrow + new;
    let s = w + seq![' '] + rest;
    let line = w + seq![' '] + old + arrow + new;
    assert(line =~= s);
    let none = Seq::<char>::empty();
    assert(s[0] == w[0] && s.last() == new.last());
    crate::laws::text::law_trim(none, s, none);
    crate::laws::text::law_first_word_is_cut_off(w, ' ', rest);
    assert(rest[0] == old[0] && rest.last() == new.last());
    crate::laws::text::law_trim(none, rest, none);
    assert(arrow =~= seq![' ', '-', '>', ' ']);
    assert("-> "@ =~= seq!['-', '>', ' ']);
    assert(arrow.skip(1) =~= "-> "@);
    crate::laws::text::law_rsplit_once(old, arrow, new);
    crate::laws::text::law_trim(none, old, none);
    crate::laws::text::law_trim(none, new, none);
    crate::laws::path::law_plain_path_is_kept(old, old_names, style);
    crate::laws::path::law_plain_path_is_kept(new, new_names, style);
    if s == "(none)"@ {
        assert(s[w.len() as int] == ' ');
        assert("(none)"@ =~= seq!['(', 'n', 'o', 'n', 'e', ')']);
        assert(seq!['(', 'n', 'o', 'n', 'e', ')'][w.len() as int] == ' ');
    }
    assert(is_line(rest)) by {
        if rest.contains('\n') {
            let i = rest.index_of('\n');
            if i < old.len() {
                assert(old.contains(old[i]));
            } else if i >= old.len() + 4 {
                assert(new.contains(new[i - old.len() - 4]));
            } else {
                assert(arrow[i - old.len()] == '\n');
            }
        }
    }
    lemma_word_line(w, rest);
    lemma_one_line(s, style);
    let output = unlines(seq![line]);
    let all = changes(output, style);
    let kind = change_kind(w)->0;
    let change = FossilChangeView { repo_path: new, kind, rename_source: Some(old) };
    assert(all == seq![change]);
    reveal_with_fuel(renames, 2);
    assert(all.drop_last() =~= Seq::<FossilChangeView>::empty());
    assert(renames(all) =~= seq![(old, new)]);
    assert(all[0] == change);
    crate::changes::law_undo_reverses_record(output, style, old, new);
}

/// The changes of more lines.
proof fn lemma_change_lines_add(a: Seq<Seq<char>>, b: Seq<Seq<char>>, style: PathStyle)
    ensures
        change_lines(a + b, style) == change_lines(a, style) + change_lines(b, style),
    decreases b.len(),
{
    if b.len() == 0 {
        assert(a + b =~= a);
        assert(change_lines(a, style) + change_lines(b, style) =~= change_lines(a, style));
    } else {
        lemma_change_lines_add(a, b.drop_last(), style);
        assert((a + b).drop_last() =~= a + b.drop_last());
        assert((a + b).last() == b.last());
        match change_line(b.last(), style) {
            Some(change) => {
                assert(change_lines(a, style) + change_lines(b.drop_last(), style).push(change)
                    =~= (change_lines(a, style) + change_lines(b.drop_last(), style)).push(change));
            },
            None => {},
        }
    }
}

/// Law: the changes are those of the single lines: every change that a line gives
/// on its own is among them, unless an earlier line has the same path, and there
/// are no others.
pub proof fn law_changes_are_those_of_the_lines(ls: Seq<Seq<char>>, change: FossilChangeView, style: PathStyle)
    requires
        forall|i: int| 0 <= i < ls.len() ==> is_line(#[trigger] ls[i]),
    ensures
        changes(unlines(ls), style).contains(change) <==> exists|i: int| #[trigger]
            first_with(ls, change, style, i),
{
    crate::laws::text::law_lines_are_read_back(ls);
    let raw = change_lines(ls, style);
    crate::index::law_sorted_first::<FossilChange>(raw);
    if changes(unlines(ls), style).contains(change) {
        let j = choose|j: int| #[trigger]
            crate::index::is_first::<FossilChange>(raw, j) && raw[j] == change;
        let i = lemma_line_of_change(ls, style, j);
        lemma_one_line(ls[i], style);
        assert forall|k: int| 0 <= k < i implies !gives_path(
            #[trigger] ls[k],
            change.repo_path,
            style,
        ) by {
            if gives_path(ls[k], change.repo_path, style) {
                lemma_one_line(ls[k], style);
                lemma_earlier_change(ls, style, k, i);
                let x = change_lines(ls.take(k), style).len() as int;
                assert(raw[x].repo_path == change.repo_path);
                assert(FossilChange::order_key(raw[x]) == FossilChange::order_key(raw[j]));
            }
        }
        assert(first_with(ls, change, style, i));
    }
    if exists|i: int| #[trigger] first_with(ls, change, style, i) {
        let i = choose|i: int| #[trigger] first_with(ls, change, style, i);
        lemma_one_line(ls[i], style);
        assert(seq![change][0] == change);
        let j = change_lines(ls.take(i), style).len() as int;
        lemma_change_at(ls, style, i);
        assert(raw[j] == change);
        assert forall|k: int| 0 <= k < j implies FossilChange::order_key(#[trigger] raw[k])
            != FossilChange::order_key(raw[j]) by {
            let x = lemma_line_of_change(ls, style, k);
            lemma_change_at(ls, style, x);
            if x >= i {
                lemma_prefix_len(ls, style, i, x);
            }
            lemma_one_line(ls[x], style);
            if path_key(raw[k].repo_path) == path_key(change.repo_path) {
                crate::changes::lemma_path_keys_differ(raw[k].repo_path, change.repo_path);
                assert(gives_path(ls[x], change.repo_path, style)) by {
                    assert(changes(unlines(seq![ls[x]]), style)[0] == raw[k]);
                }
            }
        }
        assert(crate::index::is_first::<FossilChange>(raw, j));
    }
}

/// Whether a line on its own names the given path.
pub open spec fn gives_path(line: Seq<char>, p: Seq<char>, style: PathStyle) -> bool {
    changes(unlines(seq![line]), style).len() > 0 && changes(unlines(seq![line]), style)[0].repo_path
        == p
}

/// Whether a line is the first that names the path of a change, and gives it.
pub open spec fn first_with(
    ls: Seq<Seq<char>>,
    change: FossilChangeView,
    style: PathStyle,
    i: int,
) -> bool {
    &&& 0 <= i < ls.len()
    &&& changes(unlines(seq![ls[i]]), style) == seq![change]
    &&& forall|k: int| 0 <= k < i ==> !gives_path(#[trigger] ls[k], change.repo_path, style)
}

proof fn lemma_change_at(ls: Seq<Seq<char>>, style: PathStyle, i: int)
    requires
        0 <= i < ls.len(),
        change_line(ls[i], style) is Some,
    ensures
        ({
            let j = change_lines(ls.take(i), style).len() as int;
            j < change_lines(ls, style).len() && Some(change_lines(ls, style)[j]) == change_line(
                ls[i],
                style,
            )
        }),
{
    let a = ls.take(i);
    let m = ls.take(i + 1);
    let b = ls.skip(i + 1);
    assert(m + b =~= ls);
    lemma_change_lines_add(m, b, style);
    assert(m.drop_last() =~= a);
    assert(m.last() == ls[i]);
}

proof fn lemma_earlier_change(ls: Seq<Seq<char>>, style: PathStyle, k: int, i: int)
    requires
        0 <= k < i < ls.len(),
        change_line(ls[k], style) is Some,
        change_line(ls[i], style) is Some,
    ensures
        change_lines(ls.take(k), style).len() < change_lines(ls.take(i), style).len(),
        ({
            let x = change_lines(ls.take(k), style).len() as int;
            x < change_lines(ls, style).len() && Some(change_lines(ls, style)[x]) == change_line(
                ls[k],
                style,
            )
        }),
{
    lemma_change_at(ls, style, k);
    let head = ls.take(i);
    lemma_change_at(head, style, k);
    assert(head.take(k) =~= ls.take(k));
}

proof fn lemma_prefix_len(ls: Seq<Seq<char>>, style: PathStyle, i: int, x: int)
    requires
        0 <= i <= x <= ls.len(),
    ensures
        change_lines(ls.take(i), style).len() <= change_lines(ls.take(x), style).len(),
{
    let head = ls.take(x);
    assert(head.take(i) + head.skip(i) =~= head);
    lemma_change_lines_add(head.take(i), head.skip(i), style);
    assert(head.take(i) =~= ls.take(i));
}

/// The line that a change was read from.
proof fn lemma_line_of_change(ls: Seq<Seq<char>>, style: PathStyle, j: int) -> (i: int)
    requires
        0 <= j < change_lines(ls, style).len(),
    ensures
        0 <= i < ls.len(),
        change_line(ls[i], style) == Some(change_lines(ls, style)[j]),
        change_lines(ls.take(i), style).len() == j,
    decreases ls.len(),
{
    let head = ls.drop_last();
    let n = change_lines(head, style).len() as int;
    if j < n {
        let i = lemma_line_of_change(head, style, j);
        assert(ls[i] == head[i]);
        assert(head.take(i) =~= ls.take(i));
        i
    } else {
        assert(ls.take(ls.len() - 1) =~= head);
        ls.len() - 1
    }
}

/// Law: paths are ordered name by name: behind a common beginning, the end of a
/// path comes first, then the end of a name, then the characters in their order.
pub proof fn law_order_of_paths(
    common: Seq<char>,
    a: char,
    b: char,
    ra: Seq<char>,
    rb: Seq<char>,
)
    requires
        a != b,
    ensures
        lex_less(path_key(common), path_key(common.push(a) + ra)),
        a == '/' ==> lex_less(path_key(common.push(a) + ra), path_key(common.push(b) + rb)),
        a != '/' && b != '/' && a < b ==> lex_less(
            path_key(common.push(a) + ra),
            path_key(common.push(b) + rb),
        ),
    decreases common.len(),
{
    reveal(lex_less);
    let p = common.push(a) + ra;
    let q = common.push(b) + rb;
    lemma_ranks(a, b);
    if common.len() > 0 {
        let rest = common.skip(1);
        law_order_of_paths(rest, a, b, ra, rb);
        assert(path_key(common).skip(1) =~= path_key(rest));
        assert(path_key(p).skip(1) =~= path_key(rest.push(a) + ra));
        assert(path_key(q).skip(1) =~= path_key(rest.push(b) + rb));
        assert(path_key(p)[0] == path_key(common)[0] && path_key(q)[0] == path_key(common)[0]);
    } else {
        assert(path_key(p)[0] == crate::changes::rank(a));
        assert(path_key(q)[0] == crate::changes::rank(b));
        assert(path_key(common).len() == 0);
    }
}

proof fn lemma_ranks(a: char, b: char)
    requires
        a != b,
    ensures
        a == '/' ==> crate::changes::rank(a) < crate::changes::rank(b),
        a != '/' && b != '/' && a < b ==> crate::changes::rank(a) < crate::changes::rank(b),
{
}

/// Whether some entry of a status is the given one.
pub open spec fn shows(status: GitStatusView, p: Seq<char>, state: FileStatus) -> bool {
    status.entries.contains((p, state))
}

/// Whether a file is listed as extra.
pub open spec fn lists_extra(all: Seq<FossilChangeView>, p: Seq<char>) -> bool {
    exists|i: int|
        0 <= i < all.len() && (#[trigger] all[i]).repo_path == p && all[i].kind
            == FossilChangeKind::Extra
}

/// Law: below named paths, an extra file is shown only if it is listed as extra
/// without paths too; every other listed file is shown as it is listed.
pub proof fn law_scoped_status(
    paths: Seq<Seq<char>>,
    scoped: Seq<char>,
    unscoped: Seq<char>,
    style: PathStyle,
    k: int,
)
    requires
        exists|i: int| 0 <= i < paths.len() && (#[trigger] paths[i]).len() > 0,
        0 <= k < changes(scoped, style).len(),
    ensures
        changes(scoped, style)[k].kind != FossilChangeKind::Extra || lists_extra(
            changes(unscoped, style),
            changes(scoped, style)[k].repo_path,
        ) ==> shows(
            checkout_status(paths, scoped, unscoped, style),
            changes(scoped, style)[k].repo_path,
            kind_status(changes(scoped, style)[k].kind),
        ),
        changes(scoped, style)[k].kind == FossilChangeKind::Extra && !lists_extra(
            changes(unscoped, style),
            changes(scoped, style)[k].repo_path,
        ) ==> forall|state: FileStatus|
            !#[trigger] shows(
                checkout_status(paths, scoped, unscoped, style),
                changes(scoped, style)[k].repo_path,
                state,
            ),
{
    let all = changes(scoped, style);
    let other = changes(unscoped, style);
    let change = all[k];
    let p = change.repo_path;
    let kept = visible_changes(all, other);
    let status = checkout_status(paths, scoped, unscoped, style);
    assert(all.contains(change));
    crate::changes::law_visible_changes(all, other, change);
    if crate::changes::needs_unscoped(paths, scoped, style) {
        if kept.contains(change) {
            let x = kept.index_of(change);
            assert(status.entries[x] == (p, kind_status(change.kind)));
        } else {
            assert forall|state: FileStatus| !#[trigger] shows(status, p, state) by {
                if shows(status, p, state) {
                    let x = status.entries.index_of((p, state));
                    let found = kept[x];
                    assert(kept.contains(found));
                    crate::changes::law_visible_changes(all, other, found);
                    let y = all.index_of(found);
                    if y < k {
                        crate::changes::law_changes_are_ordered(scoped, style, y, k);
                    } else if k < y {
                        crate::changes::law_changes_are_ordered(scoped, style, k, y);
                    }
                }
            }
        }
    } else {
        assert(crate::changes::has_named_path(paths));
        assert(status.entries[k] == (p, kind_status(change.kind)));
    }
}

/// Law: without a named path the files are shown as they are listed, extra ones
/// too.
pub proof fn law_unscoped_status(
    paths: Seq<Seq<char>>,
    listed: Seq<char>,
    other: Seq<char>,
    style: PathStyle,
    k: int,
)
    requires
        forall|i: int| 0 <= i < paths.len() ==> (#[trigger] paths[i]).len() == 0,
        0 <= k < changes(listed, style).len(),
    ensures
        checkout_status(paths, listed, other, style).entries.len() == changes(listed, style).len(),
        checkout_status(paths, listed, other, style).entries[k] == (
            changes(listed, style)[k].repo_path,
            kind_status(changes(listed, style)[k].kind),
        ),
{
}

/// Law: there is nothing to undo for a path to which no file was renamed.
pub proof fn law_no_rename_to_undo(output: Seq<char>, p: Seq<char>, style: PathStyle)
    requires
        forall|i: int|
            0 <= i < changes(output, style).len() ==> (#[trigger] changes(
                output,
                style,
            )[i]).repo_path != p || changes(output, style)[i].rename_source is None,
    ensures
        undo_rename(output, p, style) == Err::<Seq<Seq<char>>, FossilErrorView>(
            FossilErrorView::NoRecordedRename(p),
        ),
{
    lemma_no_source(changes(output, style), p);
}

proof fn lemma_no_source(all: Seq<FossilChangeView>, p: Seq<char>)
    requires
        forall|i: int|
            0 <= i < all.len() ==> (#[trigger] all[i]).repo_path != p || all[i].rename_source
                is None,
    ensures
        crate::changes::rename_source(all, p) is None,
    decreases all.len(),
{
    if all.len() > 0 {
        let tail = all.skip(1);
        assert forall|i: int| 0 <= i < tail.len() implies (#[trigger] tail[i]).repo_path != p
            || tail[i].rename_source is None by {
            assert(tail[i] == all[i + 1]);
        }
        lemma_no_source(tail, p);
        assert(all[0].repo_path != p || all[0].rename_source is None);
    }
}

/// Law: blanks around the word and the path of a line say nothing.
pub proof fn law_blanks_around_changes(
    before: Seq<Seq<char>>,
    a: Seq<char>,
    w: Seq<char>,
    gap: Seq<char>,
    p: Seq<char>,
    b: Seq<char>,
    style: PathStyle,
)
    requires
        is_word(w),
        is_tight(p) && p.len() > 0,
        is_blank(a) && is_blank(gap) && is_blank(b),
    ensures
        change_lines(before.push(a + (w + seq![' '] + gap + p) + b), style) == change_lines(
            before.push(w + seq![' '] + p),
            style,
        ),
{
    let none = Seq::<char>::empty();
    let near = w + seq![' '] + p;
    let far = w + seq![' '] + gap + p;
    let wide = a + far + b;
    assert(near[0] == w[0] && near.last() == p.last());
    assert(far[0] == w[0] && far.last() == p.last());
    crate::laws::text::law_trim(none, near, none);
    crate::laws::text::law_trim(a, far, b);
    crate::laws::text::law_first_word_is_cut_off(w, ' ', p);
    crate::laws::text::law_first_word_is_cut_off(w, ' ', gap + p);
    assert(far =~= w + seq![' '] + (gap + p));
    crate::laws::text::law_trim(none, p, none);
    crate::laws::text::law_trim(gap, p, none);
    assert(gap + p + none =~= gap + p);
    lemma_not_none(near, w.len() as int);
    lemma_not_none(far, w.len() as int);
    assert(before.push(wide).drop_last() =~= before);
    assert(before.push(near).drop_last() =~= before);
}

/// A text with a blank in it is not `(none)`.
proof fn lemma_not_none(s: Seq<char>, i: int)
    requires
        0 <= i < s.len(),
        s[i] == ' ',
    ensures
        s != "(none)"@,
{
    reveal_strlit("(none)");
    assert("(none)"@ =~= seq!['(', 'n', 'o', 'n', 'e', ')']);
    if s == "(none)"@ {
        assert(seq!['(', 'n', 'o', 'n', 'e', ')'][i] == ' ');
    }
}

/// Law: blanks around the arrow of a rename say nothing.
pub proof fn law_blanks_around_arrows(
    before: Seq<Seq<char>>,
    w: Seq<char>,
    old: Seq<char>,
    a: Seq<char>,
    b: Seq<char>,
    new: Seq<char>,
    style: PathStyle,
)
    requires
        is_word(w),
        is_tight(old) && old.len() > 0,
        is_tight(new) && new.len() > 0,
        is_blank(a) && is_blank(b),
        !contains("-> "@ + new, " -> "@),
        !contains("-> "@ + (b + new), " -> "@),
    ensures
        change_lines(before.push(w + seq![' '] + (old + a + " -> "@ + (b + new))), style)
            == change_lines(before.push(w + seq![' '] + (old + " -> "@ + new)), style),
{
    reveal_strlit(" -> ");
    reveal_strlit("-> ");
    let arrow = " -> "@;
    assert(arrow =~= seq![' ', '-', '>', ' ']);
    assert("-> "@ =~= seq!['-', '>', ' ']);
    assert(arrow.skip(1) =~= "-> "@);
    let none = Seq::<char>::empty();
    let near = old + arrow + new;
    let far = old + a + arrow + (b + new);
    let s = w + seq![' '] + near;
    let t = w + seq![' '] + far;
    assert(near[0] == old[0] && near.last() == new.last());
    assert(far[0] == old[0] && far.last() == new.last());
    assert(s[0] == w[0] && s.last() == new.last());
    assert(t[0] == w[0] && t.last() == new.last());
    crate::laws::text::law_trim(none, s, none);
    crate::laws::text::law_trim(none, t, none);
    crate::laws::text::law_first_word_is_cut_off(w, ' ', near);
    crate::laws::text::law_first_word_is_cut_off(w, ' ', far);
    crate::laws::text::law_trim(none, near, none);
    crate::laws::text::law_trim(none, far, none);
    crate::laws::text::law_rsplit_once(old, arrow, new);
    crate::laws::text::law_rsplit_once(old + a, arrow, b + new);
    crate::laws::text::law_trim(none, old, a);
    assert(none + old + a =~= old + a);
    crate::laws::text::law_trim(b, new, none);
    assert(b + new + none =~= b + new);
    lemma_not_none(s, w.len() as int);
    lemma_not_none(t, w.len() as int);
    assert(before.push(s).drop_last() =~= before);
    assert(before.push(t).drop_last() =~= before);
}

} // verus!
