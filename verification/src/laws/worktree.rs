//! Laws of checkouts and branches.

use crate::error::FossilErrorView;
use crate::index::{lex_less, Indexed};
use crate::info::{checkout_info, FossilInfoView};
use crate::laws::info::field;
use crate::laws::text::{is_blank, is_line, is_tight, unlines};
use crate::path::PathStyle;
use crate::text::starts_with;
use crate::worktree::{
    all_worktrees, bytes_key, checkouts_args, create_branch_plan, create_worktree_plan, part_key,
    parts_key, remove_worktree_plan, switch_branch_plan, update_args, verbose_checkout_lines,
    verbose_checkouts, worktree_key, ArgView, CreateWorktreePlanView, CreateWorktreeTargetView,
    LoadedCheckoutView, PathPartView, Worktree, WorktreeView,
};
use vstd::prelude::*;

verus! {

// ---------------------------------------------------------------------------
// Making and closing checkouts
// ---------------------------------------------------------------------------

/// The arguments that open a checkout at a version.
pub open spec fn opens_at<P>(repository: Seq<char>, version: Seq<char>, path: P) -> Seq<ArgView<P>> {
    seq![
        ArgView::Text("open"@),
        ArgView::Text(repository),
        ArgView::Text(version),
        ArgView::Text("--workdir"@),
        ArgView::Path(path),
    ]
}

/// A branch by its short name or by its full one.
pub open spec fn names_branch(name: Seq<char>, branch: Seq<char>) -> bool {
    !starts_with(branch, "refs/heads/"@) && (name == branch || name == "refs/heads/"@ + branch)
}

proof fn lemma_branch(name: Seq<char>, branch: Seq<char>)
    requires
        names_branch(name, branch),
    ensures
        crate::branch::branch_name(name) == branch,
{
    crate::branch::law_branch_ref_is_undone(branch);
    crate::branch::law_short_branch_name_stays(branch);
}

/// Law: a detached checkout that is made for a check-in is opened at that
/// check-in, one without is opened without a version; no branch is made.
pub proof fn law_detached_checkout<P>(
    info: FossilInfoView,
    repository: Seq<char>,
    base: Seq<char>,
    path: P,
)
    requires
        info.repository == Some(repository),
    ensures
        ({
            let at = create_worktree_plan(
                info,
                CreateWorktreeTargetView::Detached { base_sha: Some(base) },
                path,
            );
            let plain = create_worktree_plan(
                info,
                CreateWorktreeTargetView::Detached { base_sha: None },
                path,
            );
            &&& at == Ok::<CreateWorktreePlanView<P>, FossilErrorView>(
                CreateWorktreePlanView {
                    new_branch: None,
                    open: opens_at(repository, base, path),
                },
            )
            &&& plain == Ok::<CreateWorktreePlanView<P>, FossilErrorView>(
                CreateWorktreePlanView {
                    new_branch: None,
                    open: seq![
                        ArgView::Text("open"@),
                        ArgView::Text(repository),
                        ArgView::Text("--workdir"@),
                        ArgView::Path(path),
                    ],
                },
            )
        }),
{
    assert(crate::worktree::open_args(repository, Some(base), path) =~= opens_at(
        repository,
        base,
        path,
    ));
    assert(crate::worktree::open_args(repository, None, path) =~= seq![
        ArgView::Text("open"@),
        ArgView::Text(repository),
        ArgView::Text("--workdir"@),
        ArgView::Path(path),
    ]);
}

/// Law: a checkout of a branch is opened at the short name of the branch. A new
/// branch is made first, at the given check-in or else at the current one; an
/// existing one is not made.
pub proof fn law_checkout_of_branch<P>(
    info: FossilInfoView,
    repository: Seq<char>,
    name: Seq<char>,
    branch: Seq<char>,
    base: Option<Seq<char>>,
    path: P,
)
    requires
        info.repository == Some(repository),
        names_branch(name, branch),
    ensures
        create_worktree_plan(
            info,
            CreateWorktreeTargetView::ExistingBranch { branch_name: name },
            path,
        ) == Ok::<CreateWorktreePlanView<P>, FossilErrorView>(
            CreateWorktreePlanView { new_branch: None, open: opens_at(repository, branch, path) },
        ),
        create_worktree_plan(
            info,
            CreateWorktreeTargetView::NewBranch { branch_name: name, base_sha: base },
            path,
        ) == Ok::<CreateWorktreePlanView<P>, FossilErrorView>(
            CreateWorktreePlanView {
                new_branch: Some(
                    seq![
                        "branch"@,
                        "new"@,
                        branch,
                        if base is Some {
                            base->0
                        } else {
                            "current"@
                        },
                    ],
                ),
                open: opens_at(repository, branch, path),
            },
        ),
{
    lemma_branch(name, branch);
    assert(crate::worktree::open_args(repository, Some(branch), path) =~= opens_at(
        repository,
        branch,
        path,
    ));
    let start = if base is Some {
        base->0
    } else {
        "current"@
    };
    assert(crate::worktree::new_branch_args(name, base) =~= seq!["branch"@, "new"@, branch, start]);
}

/// Law: without a known repository no checkout is made and none is asked for.
pub proof fn law_no_checkout_without_repository<P>(
    info: FossilInfoView,
    target: CreateWorktreeTargetView,
    path: P,
)
    ensures
        info.repository is None ==> create_worktree_plan(info, target, path) == Err::<
            CreateWorktreePlanView<P>,
            FossilErrorView,
        >(FossilErrorView::RepositoryUnavailable),
        info.repository is None ==> checkouts_args(info) is None,
        info.repository is Some ==> checkouts_args(info) == Some(
            seq!["info"@, "--verbose"@, info.repository->0],
        ),
{
}

/// Law: a checkout is put on a branch by its short name. With `create` the branch
/// is made first, at the current check-in; a branch that is made on its own begins
/// at the branch it is based on, by its short name, or at the current check-in.
pub proof fn law_switching_branches(
    name: Seq<char>,
    branch: Seq<char>,
    base_name: Seq<char>,
    base: Seq<char>,
)
    requires
        names_branch(name, branch),
        names_branch(base_name, base),
    ensures
        update_args(name) == seq!["update"@, branch],
        switch_branch_plan(name, false) == seq![seq!["update"@, branch]],
        switch_branch_plan(name, true) == seq![
            seq!["branch"@, "new"@, branch, "current"@],
            seq!["update"@, branch],
        ],
        create_branch_plan(name, None) == seq![
            seq!["branch"@, "new"@, branch, "current"@],
            seq!["update"@, branch],
        ],
        create_branch_plan(name, Some(base_name)) == seq![
            seq!["branch"@, "new"@, branch, base],
            seq!["update"@, branch],
        ],
{
    lemma_branch(name, branch);
    lemma_branch(base_name, base);
    let new = seq!["branch"@, "new"@, branch, "current"@];
    let based = seq!["branch"@, "new"@, branch, base];
    let update = seq!["update"@, branch];
    assert(crate::worktree::new_branch_args(name, None) =~= new);
    assert(crate::worktree::new_branch_args(name, Some(base)) =~= based);
    assert(update_args(name) =~= update);
    assert(create_branch_plan(name, None) =~= seq![new, update]);
    assert(create_branch_plan(name, Some(base_name)) =~= seq![based, update]);
}

/// Law: a checkout is closed, by force if so asked; only for one that is gone is
/// nothing done when it is forced.
pub proof fn law_closing_checkouts(exists: bool, force: bool)
    ensures
        remove_worktree_plan(exists, force) is None <==> force && !exists,
        !force ==> remove_worktree_plan(exists, force) == Some(seq!["close"@]),
        force && exists ==> remove_worktree_plan(exists, force) == Some(
            seq!["close"@, "--force"@],
        ),
{
}

// ---------------------------------------------------------------------------
// Listing checkouts
// ---------------------------------------------------------------------------

/// Whether a text has the form of a date: four digits, two and two, with hyphens.
pub open spec fn is_date(s: Seq<char>) -> bool {
    &&& s.len() == 10
    &&& s[4] == '-' && s[7] == '-'
    &&& forall|i: int| 0 <= i < 10 && i != 4 && i != 7 ==> '0' <= #[trigger] s[i] <= '9'
}

/// The separator that ends directories.
pub open spec fn separator(style: PathStyle) -> char {
    if style == PathStyle::Windows {
        '\\'
    } else {
        '/'
    }
}

proof fn lemma_date_chars(c: char)
    ensures
        '0' <= c <= '9' || c == '-' ==> !crate::text::is_white(c),
        '0' <= c <= '9' <==> crate::digits::is_decimal(c),
{
}

/// The last white space in a text that ends with a word.
proof fn lemma_rfind_white(a: Seq<char>, gap: char, w: Seq<char>)
    requires
        crate::text::is_white(gap),
        forall|i: int| 0 <= i < w.len() ==> !crate::text::is_white(#[trigger] w[i]),
    ensures
        crate::text::rfind_white(a + seq![gap] + w) == a.len(),
    decreases w.len(),
{
    let s = a + seq![gap] + w;
    if w.len() == 0 {
        assert(s.last() == gap);
    } else {
        assert(s.last() == w[w.len() - 1]);
        let rest = w.drop_last();
        assert forall|i: int| 0 <= i < rest.len() implies !crate::text::is_white(
            #[trigger] rest[i],
        ) by {
            assert(rest[i] == w[i]);
        }
        lemma_rfind_white(a, gap, rest);
        assert(s.drop_last() =~= a + seq![gap] + rest);
    }
}

proof fn lemma_checkout_key()
    ensures
        crate::laws::info::is_key("check-out"@),
{
    reveal_strlit("check-out");
    assert("check-out"@ =~= seq!['c', 'h', 'e', 'c', 'k', '-', 'o', 'u', 't']);
}

proof fn lemma_date_is_word(date: Seq<char>)
    requires
        is_date(date),
    ensures
        is_tight(date),
        forall|i: int| 0 <= i < date.len() ==> !crate::text::is_white(#[trigger] date[i]),
        crate::worktree::is_checkout_date(date),
{
    assert forall|i: int| 0 <= i < date.len() implies !crate::text::is_white(
        #[trigger] date[i],
    ) by {
        lemma_date_chars(date[i]);
        assert(i != 4 && i != 7 ==> '0' <= date[i] <= '9');
    }
    assert(!crate::text::is_white(date[0]) && !crate::text::is_white(date[9]));
    assert forall|i: int| 0 <= i < 10 && i != 4 && i != 7 implies crate::digits::is_decimal(
        #[trigger] date[i],
    ) by {
        lemma_date_chars(date[i]);
    }
}

/// The date behind a path is cut off.
proof fn lemma_dated_path(whole: Seq<char>, inner: Seq<char>, last: char, date: Seq<char>)
    requires
        is_tight(whole) && whole.len() > 0,
        is_blank(inner),
        crate::text::is_white(last),
        is_date(date),
    ensures
        is_tight(whole + inner + seq![last] + date),
        crate::worktree::verbose_checkout_path(whole + inner + seq![last] + date) == Some(whole),
{
    let none = Seq::<char>::empty();
    let front = whole + inner;
    let value = front + seq![last] + date;
    lemma_date_is_word(date);
    assert(value[0] == whole[0] && value.last() == date.last());
    crate::laws::text::law_trim(none, value, none);
    lemma_rfind_white(front, last, date);
    let at = front.len() as int;
    assert(value.skip(at) =~= seq![last] + date + none);
    assert(value.take(at) =~= front);
    assert(is_blank(seq![last]));
    crate::laws::text::law_trim(seq![last], date, none);
    crate::laws::text::lemma_trim_end(whole, inner);
}

/// Law: a `check-out: ` line lists a checkout: the path behind it, with all its
/// spaces, without the date that stands behind the path and without the separators
/// at its end.
pub proof fn law_checkout_with_date(
    before: Seq<Seq<char>>,
    gap: Seq<char>,
    path: Seq<char>,
    n: nat,
    blanks: Seq<char>,
    date: Seq<char>,
    style: PathStyle,
)
    requires
        is_blank(gap),
        is_tight(path) && path.len() > 0,
        path.last() != separator(style),
        is_blank(blanks) && blanks.len() > 0,
        is_date(date),
    ensures
        verbose_checkout_lines(
            before.push(
                field(
                    "check-out"@,
                    gap,
                    path + Seq::new(n, |i: int| separator(style)) + blanks + date,
                ),
            ),
            style,
        ) == verbose_checkout_lines(before, style).push(path),
{
    lemma_checkout_key();
    let c = separator(style);
    let run = Seq::new(n, |i: int| separator(style));
    let whole = path + run;
    let value = whole + blanks + date;
    let line = field("check-out"@, gap, value);
    assert(whole[0] == path[0]);
    assert(!crate::text::is_white(whole.last())) by {
        if n > 0 {
            assert(whole.last() == c);
        } else {
            assert(whole =~= path);
        }
    }
    let inner = blanks.drop_last();
    let last = blanks.last();
    assert(crate::text::is_white(blanks[blanks.len() - 1]));
    assert forall|i: int| 0 <= i < inner.len() implies crate::text::is_white(
        #[trigger] inner[i],
    ) by {
        assert(inner[i] == blanks[i]);
    }
    lemma_dated_path(whole, inner, last, date);
    assert(value =~= whole + inner + seq![last] + date);
    crate::laws::info::lemma_field("check-out"@, gap, value);
    lemma_same_path(gap, value);
    crate::laws::text::law_trim_char(path, c, n);
    assert(run =~= Seq::new(n, |i: int| c));
    assert(before.push(line).drop_last() =~= before);
    assert(before.push(line).last() == line);
}

/// Blanks in front of a path do not count.
proof fn lemma_same_path(gap: Seq<char>, value: Seq<char>)
    requires
        is_blank(gap),
        is_tight(value),
    ensures
        crate::worktree::verbose_checkout_path(gap + value)
            == crate::worktree::verbose_checkout_path(value),
{
    let none = Seq::<char>::empty();
    crate::laws::text::law_trim(gap, value, none);
    assert(gap + value + none =~= gap + value);
}

/// Law: a path without a date behind it is listed whole.
pub proof fn law_checkout_without_date(
    before: Seq<Seq<char>>,
    gap: Seq<char>,
    path: Seq<char>,
    style: PathStyle,
)
    requires
        is_blank(gap),
        is_tight(path) && path.len() > 0,
        path.last() != separator(style),
        forall|i: int| 0 <= i < path.len() ==> !is_date(#[trigger] path.skip(i)),
    ensures
        verbose_checkout_lines(before.push(field("check-out"@, gap, path)), style)
            == verbose_checkout_lines(before, style).push(path),
{
    lemma_checkout_key();
    let c = separator(style);
    let none = Seq::<char>::empty();
    crate::laws::info::lemma_field("check-out"@, gap, path);
    crate::laws::text::law_trim(none, path, none);
    let at = crate::text::rfind_white(path);
    if at >= 0 && crate::worktree::is_checkout_date(crate::text::trim(path.skip(at))) {
        lemma_rfind_white_is_last(path);
        let tail = path.skip(at);
        let date = path.skip(at + 1);
        assert(tail =~= seq![path[at]] + date + none);
        if date.len() > 0 {
            assert(date[0] == path[at + 1]);
            assert(date.last() == path.last());
            crate::laws::text::law_trim(seq![path[at]], date, none);
            assert(is_date(date)) by {
                assert forall|i: int| 0 <= i < 10 && i != 4 && i != 7 implies '0' <= #[trigger] date[i]
                    <= '9' by {
                    lemma_date_chars(date[i]);
                }
            }
            assert(at + 1 < path.len());
            assert(!is_date(path.skip(at + 1)));
        } else {
            assert(path.last() == path[at]);
        }
    }
    crate::laws::text::law_trim_char(path, c, 0);
    assert(path + Seq::new(0, |i: int| c) =~= path);
    assert(before.push(field("check-out"@, gap, path)).drop_last() =~= before);
}

proof fn lemma_rfind_white_is_last(s: Seq<char>)
    requires
        crate::text::rfind_white(s) >= 0,
    ensures
        crate::text::rfind_white(s) < s.len(),
        crate::text::is_white(s[crate::text::rfind_white(s)]),
        forall|i: int|
            crate::text::rfind_white(s) < i < s.len() ==> !crate::text::is_white(#[trigger] s[i]),
    decreases s.len(),
{
    if !crate::text::is_white(s.last()) {
        let head = s.drop_last();
        lemma_rfind_white_is_last(head);
        assert forall|i: int| crate::text::rfind_white(s) < i < s.len()
            implies !crate::text::is_white(#[trigger] s[i]) by {
            if i < head.len() {
                assert(head[i] == s[i]);
            }
        }
    }
}

/// Law: no other line lists a checkout, and the checkouts are those of the lines.
pub proof fn law_other_checkout_line(
    before: Seq<Seq<char>>,
    key: Seq<char>,
    gap: Seq<char>,
    value: Seq<char>,
    style: PathStyle,
)
    requires
        crate::laws::info::is_key(key),
        key != "check-out"@,
        is_blank(gap),
        is_tight(value),
        forall|i: int| 0 <= i < before.len() ==> is_line(#[trigger] before[i]),
    ensures
        verbose_checkout_lines(before.push(field(key, gap, value)), style)
            == verbose_checkout_lines(before, style),
        verbose_checkouts(unlines(before), style) == verbose_checkout_lines(before, style),
        verbose_checkout_lines(seq![], style) == Seq::<Seq<char>>::empty(),
{
    crate::laws::info::lemma_field(key, gap, value);
    crate::laws::text::law_lines_are_read_back(before);
    assert(before.push(field(key, gap, value)).drop_last() =~= before);
}

// ---------------------------------------------------------------------------
// Worktrees
// ---------------------------------------------------------------------------

/// Law: a checkout that was loaded is listed with its path, the branch that it is
/// on, and its check-in: the one that was named there, or else the one of the
/// working directory, or else none. It is the main one exactly if it is the
/// working directory.
pub proof fn law_worktree_of_checkout<P>(
    info: FossilInfoView,
    current: Seq<PathPartView>,
    checkouts: Seq<LoadedCheckoutView<P>>,
    style: PathStyle,
    j: int,
)
    requires
        0 <= j < checkouts.len(),
        forall|k: int|
            0 <= k < j ==> (#[trigger] checkouts[k]).path.parts != checkouts[j].path.parts,
    ensures
        all_worktrees(info, current, checkouts, style).contains(
            WorktreeView {
                path: checkouts[j].path,
                ref_name: if checkouts[j].branch is Some {
                    Some("refs/heads/"@ + checkouts[j].branch->0)
                } else {
                    None
                },
                sha: if checkouts[j].info is Some && checkout_info(
                    checkouts[j].info->0,
                    style,
                ).checkout is Some {
                    checkout_info(checkouts[j].info->0, style).checkout->0
                } else if info.checkout is Some {
                    info.checkout->0
                } else {
                    seq![]
                },
                is_main: checkouts[j].path.parts == current,
                is_bare: false,
            },
        ),
{
    let raw = Seq::new(
        checkouts.len(),
        |i: int| crate::worktree::worktree_of(info, current, checkouts[i], style),
    );
    crate::index::law_sorted_first::<Worktree<P>>(raw);
    let w = raw[j];
    assert forall|k: int| 0 <= k < j implies <Worktree<P>>::order_key(#[trigger] raw[k])
        != <Worktree<P>>::order_key(w) by {
        let ka = worktree_key(raw[k].is_main, raw[k].path.parts);
        let kb = worktree_key(w.is_main, w.path.parts);
        assert(checkouts[k].path.parts != checkouts[j].path.parts);
        if ka == kb {
            assert(ka.skip(1) =~= parts_key(raw[k].path.parts));
            assert(kb.skip(1) =~= parts_key(w.path.parts));
            crate::worktree::lemma_parts_keys_differ(raw[k].path.parts, w.path.parts);
        }
    }
    assert(crate::index::is_first::<Worktree<P>>(raw, j) && raw[j] == w);
    assert(all_worktrees(info, current, checkouts, style).contains(w));
}

/// Law: behind the main one, checkouts are listed in the order of their paths.
pub proof fn law_worktrees_by_path<P>(
    info: FossilInfoView,
    current: Seq<PathPartView>,
    checkouts: Seq<LoadedCheckoutView<P>>,
    style: PathStyle,
    i: int,
    j: int,
)
    requires
        0 <= i < j < all_worktrees(info, current, checkouts, style).len(),
        !all_worktrees(info, current, checkouts, style)[i].is_main,
    ensures
        lex_less(
            parts_key(all_worktrees(info, current, checkouts, style)[i].path.parts),
            parts_key(all_worktrees(info, current, checkouts, style)[j].path.parts),
        ),
{
    let raw = Seq::new(
        checkouts.len(),
        |i: int| crate::worktree::worktree_of(info, current, checkouts[i], style),
    );
    crate::index::law_sorted_first::<Worktree<P>>(raw);
    crate::worktree::law_worktrees_are_ordered(info, current, checkouts, style, i, j);
    let all = all_worktrees(info, current, checkouts, style);
    let ka = <Worktree<P>>::order_key(all[i]);
    let kb = <Worktree<P>>::order_key(all[j]);
    assert(lex_less(ka, kb));
    reveal(lex_less);
    assert(ka[0] == 1 && kb[0] == 1);
    assert(ka.skip(1) =~= parts_key(all[i].path.parts));
    assert(kb.skip(1) =~= parts_key(all[j].path.parts));
}

/// What comes before stays before behind a common beginning.
proof fn lemma_lex_behind(common: Seq<u32>, a: Seq<u32>, b: Seq<u32>)
    requires
        lex_less(a, b),
    ensures
        lex_less(common + a, common + b),
    decreases common.len(),
{
    reveal(lex_less);
    if common.len() == 0 {
        assert(common + a =~= a);
        assert(common + b =~= b);
    } else {
        lemma_lex_behind(common.skip(1), a, b);
        assert((common + a).skip(1) =~= common.skip(1) + a);
        assert((common + b).skip(1) =~= common.skip(1) + b);
    }
}

proof fn lemma_parts_key_add(a: Seq<PathPartView>, b: Seq<PathPartView>)
    ensures
        parts_key(a + b) == parts_key(a) + parts_key(b),
    decreases b.len(),
{
    if b.len() == 0 {
        assert(a + b =~= a);
        assert(parts_key(a) + parts_key(b) =~= parts_key(a));
    } else {
        lemma_parts_key_add(a, b.drop_last());
        assert((a + b).drop_last() =~= a + b.drop_last());
        assert((a + b).last() == b.last());
        assert(parts_key(a + b) =~= parts_key(a) + parts_key(b));
    }
}

/// Law: paths on the machine are ordered part by part: a directory comes before
/// what lies in it, and of two names the one that ends first or whose first other
/// byte is smaller.
pub proof fn law_order_of_checkouts(
    common: Seq<PathPartView>,
    name: Seq<u8>,
    x: u8,
    y: u8,
    nx: Seq<u8>,
    ny: Seq<u8>,
    a: Seq<PathPartView>,
    b: Seq<PathPartView>,
)
    ensures
        a.len() > 0 ==> lex_less(parts_key(common), parts_key(common + a)),
        lex_less(
            parts_key(common + (seq![PathPartView::Normal(name)] + a)),
            parts_key(common + (seq![PathPartView::Normal(name.push(y) + ny)] + b)),
        ),
        x < y ==> lex_less(
            parts_key(common + (seq![PathPartView::Normal(name.push(x) + nx)] + a)),
            parts_key(common + (seq![PathPartView::Normal(name.push(y) + ny)] + b)),
        ),
{
    reveal(lex_less);
    let key = parts_key(common);
    if a.len() > 0 {
        lemma_parts_key_add(common, a);
        crate::worktree::lemma_parts_key_front(a);
        assert(part_key(a[0]).len() > 0);
        assert(lex_less(Seq::<u32>::empty(), parts_key(a)));
        lemma_lex_behind(key, seq![], parts_key(a));
        assert(key + Seq::<u32>::empty() =~= key);
    }
    let px = PathPartView::Normal(name.push(x) + nx);
    let py = PathPartView::Normal(name.push(y) + ny);
    let p = PathPartView::Normal(name);
    let fa = seq![p] + a;
    let fx = seq![px] + a;
    let fy = seq![py] + b;
    crate::worktree::lemma_parts_key_front(fa);
    crate::worktree::lemma_parts_key_front(fx);
    crate::worktree::lemma_parts_key_front(fy);
    assert(fa.skip(1) =~= a && fx.skip(1) =~= a && fy.skip(1) =~= b);
    lemma_parts_key_add(common, fa);
    lemma_parts_key_add(common, fx);
    lemma_parts_key_add(common, fy);
    let start = seq![5u32] + Seq::new(name.len(), |i: int| (name[i] + 1) as u32);
    let ka = seq![0u32] + parts_key(a);
    let kx = seq![(x + 1) as u32] + (bytes_key(nx) + parts_key(a));
    let ky = seq![(y + 1) as u32] + (bytes_key(ny) + parts_key(b));
    assert(parts_key(fa) =~= start + ka);
    assert(parts_key(fx) =~= start + kx);
    assert(parts_key(fy) =~= start + ky);
    assert(ka[0] == 0 && ky[0] > 0);
    assert(lex_less(ka, ky));
    lemma_lex_behind(start, ka, ky);
    lemma_lex_behind(key, parts_key(fa), parts_key(fy));
    if x < y {
        assert(kx[0] < ky[0]);
        assert(lex_less(kx, ky));
        lemma_lex_behind(start, kx, ky);
        lemma_lex_behind(key, parts_key(fx), parts_key(fy));
    }
}

/// Where a kind of part stands among the kinds.
pub open spec fn place(part: PathPartView) -> int {
    match part {
        PathPartView::Prefix { .. } => 0,
        PathPartView::RootDir => 1,
        PathPartView::CurDir => 2,
        PathPartView::ParentDir => 3,
        PathPartView::Normal(_) => 4,
    }
}

/// Law: where two paths first differ in the kind of a part, a prefix comes first,
/// then the root, `.`, `..` and a name.
pub proof fn law_order_of_parts(
    common: Seq<PathPartView>,
    p: PathPartView,
    q: PathPartView,
    a: Seq<PathPartView>,
    b: Seq<PathPartView>,
)
    requires
        place(p) < place(q),
    ensures
        lex_less(parts_key(common + (seq![p] + a)), parts_key(common + (seq![q] + b))),
{
    reveal(lex_less);
    let fa = seq![p] + a;
    let fb = seq![q] + b;
    crate::worktree::lemma_parts_key_front(fa);
    crate::worktree::lemma_parts_key_front(fb);
    lemma_parts_key_add(common, fa);
    lemma_parts_key_add(common, fb);
    assert(part_key(p).len() > 0 && part_key(q).len() > 0);
    assert(parts_key(fa)[0] == part_key(p)[0]);
    assert(parts_key(fb)[0] == part_key(q)[0]);
    assert(lex_less(parts_key(fa), parts_key(fb)));
    lemma_lex_behind(parts_key(common), parts_key(fa), parts_key(fb));
}

} // verus!
