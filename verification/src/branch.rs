//! Branches.

use crate::commit::{fossil_commit_summary_from_info, CommitSummary, CommitSummaryView};
use crate::index::push_item;
use crate::info::{copy_text, FossilCommitInfo, FossilCommitInfoView};
use crate::text::{split_lines, to_chars, to_text, trimmed, trimmed_start_char, without_prefix};
use vstd::prelude::*;
use vstd::string::*;

verus! {

/// What the full name of a branch begins with.
pub const BRANCH_REF_PREFIX: &'static str = "refs/heads/";

/// The name of a branch without the start of its full name.
pub open spec fn branch_name(name: Seq<char>) -> Seq<char> {
    match crate::text::strip_prefix(name, BRANCH_REF_PREFIX@) {
        Some(rest) => rest,
        None => name,
    }
}

/// The name of a branch as `fossil` knows it.
pub fn fossil_branch_name(name: &str) -> (r: String)
    ensures
        r@ == branch_name(name@),
{
    let chars = to_chars(name);
    match without_prefix(chars.as_slice(), BRANCH_REF_PREFIX) {
        Some(rest) => to_text(rest),
        None => name.to_owned(),
    }
}

/// The full name of a branch.
pub open spec fn branch_ref(name: Seq<char>) -> Seq<char> {
    BRANCH_REF_PREFIX@ + name
}

/// The full name of a branch.
pub fn branch_ref_of(name: &str) -> (r: String)
    ensures
        r@ == branch_ref(name@),
{
    BRANCH_REF_PREFIX.to_owned().concat(name)
}

/// The name in a line of `fossil branch list`: the current branch is marked with
/// stars, a private one with number signs.
pub open spec fn branch_list_line(line: Seq<char>) -> Option<Seq<char>> {
    let name = crate::text::trim(
        crate::text::trim_start_char(
            crate::text::trim_start_char(crate::text::trim(line), '*'),
            '#',
        ),
    );
    if name.len() > 0 {
        Some(name)
    } else {
        None
    }
}

/// Reads a line of `fossil branch list`.
pub fn parse_fossil_branch_list_line(line: &str) -> (r: Option<String>)
    ensures
        r.deep_view() == branch_list_line(line@),
{
    let chars = to_chars(line);
    branch_in_line(chars.as_slice())
}

/// Reads the characters of a line of `fossil branch list`.
pub fn branch_in_line(line: &[char]) -> (r: Option<String>)
    ensures
        r.deep_view() == branch_list_line(line@),
{
    let name = trimmed(trimmed_start_char(trimmed_start_char(trimmed(line), '*'), '#'));
    if name.len() > 0 {
        Some(to_text(name))
    } else {
        None
    }
}

// ---------------------------------------------------------------------------
// The list of branches
// ---------------------------------------------------------------------------

/// A branch.
#[derive(Debug)]
pub struct Branch {
    /// Whether the checkout is on this branch.
    pub is_head: bool,
    pub ref_name: String,
    pub upstream: Option<String>,
    pub most_recent_commit: Option<CommitSummary>,
}

/// A branch, as texts.
pub struct BranchView {
    pub is_head: bool,
    pub ref_name: Seq<char>,
    pub upstream: Option<Seq<char>>,
    pub most_recent_commit: Option<CommitSummaryView>,
}

impl DeepView for Branch {
    type V = BranchView;

    open spec fn deep_view(&self) -> BranchView {
        BranchView {
            is_head: self.is_head,
            ref_name: self.ref_name@,
            upstream: self.upstream.deep_view(),
            most_recent_commit: self.most_recent_commit.deep_view(),
        }
    }
}

impl Branch {
    /// The name without the start of the full name.
    pub fn name(&self) -> (r: String)
        ensures
            r@ == branch_name(self.ref_name@),
    {
        fossil_branch_name(self.ref_name.as_str())
    }
}

/// All branches.
#[derive(Debug)]
pub struct BranchesScanResult {
    pub branches: Vec<Branch>,
}

impl DeepView for BranchesScanResult {
    type V = Seq<BranchView>;

    open spec fn deep_view(&self) -> Seq<BranchView> {
        self.branches.deep_view()
    }
}

/// The names in the given lines of `fossil branch list`.
pub open spec fn branch_names(lines: Seq<Seq<char>>) -> Seq<Seq<char>>
    decreases lines.len(),
{
    if lines.len() == 0 {
        seq![]
    } else {
        match branch_list_line(lines.last()) {
            Some(name) => branch_names(lines.drop_last()).push(name),
            None => branch_names(lines.drop_last()),
        }
    }
}

/// The branch of the checkout: what `fossil branch current` says, or if it
/// failed, the branch of the check-in.
pub open spec fn current_branch(
    checkout: Option<FossilCommitInfoView>,
    current: Option<Seq<char>>,
) -> Option<Seq<char>> {
    match current {
        Some(name) => Some(name),
        None => match checkout {
            Some(info) => info.branch,
            None => None,
        },
    }
}

/// A branch with a name; only the current one has a check-in.
pub open spec fn listed_branch(
    name: Seq<char>,
    current: Option<Seq<char>>,
    commit: Option<CommitSummaryView>,
) -> BranchView {
    BranchView {
        is_head: current == Some(name),
        ref_name: branch_ref(name),
        upstream: None,
        most_recent_commit: if current == Some(name) {
            commit
        } else {
            None
        },
    }
}

/// The check-in of the checkout in brief.
pub open spec fn checkout_summary(checkout: Option<FossilCommitInfoView>) -> Option<
    CommitSummaryView,
> {
    match checkout {
        Some(info) => Some(crate::commit::commit_summary(info)),
        None => None,
    }
}

/// All branches: those that are listed, or if there are none, the current one.
pub open spec fn all_branches(
    checkout: Option<FossilCommitInfoView>,
    current: Option<Seq<char>>,
    list: Seq<char>,
) -> Seq<BranchView> {
    let head = current_branch(checkout, current);
    let commit = checkout_summary(checkout);
    let names = branch_names(crate::text::lines(list));
    if names.len() == 0 && head is Some {
        seq![listed_branch(head->0, head, commit)]
    } else {
        Seq::new(names.len(), |i: int| listed_branch(names[i], head, commit))
    }
}

/// A copy of an optional summary.
fn copy_summary(commit: &Option<CommitSummary>) -> (r: Option<CommitSummary>)
    ensures
        r.deep_view() == commit.deep_view(),
{
    match commit {
        Some(commit) => Some(commit.clone()),
        None => None,
    }
}

/// A branch with a name.
fn make_branch(name: &str, current: &Option<String>, commit: &Option<CommitSummary>) -> (r: Branch)
    ensures
        r.deep_view() == listed_branch(name@, current.deep_view(), commit.deep_view()),
{
    let is_head = match current {
        Some(current) => *current == name.to_owned(),
        None => false,
    };
    Branch {
        is_head,
        ref_name: branch_ref_of(name),
        upstream: None,
        most_recent_commit: if is_head {
            copy_summary(commit)
        } else {
            None
        },
    }
}

/// All branches. `checkout` is what is known of the check-in of the checkout,
/// `current` the output of `fossil branch current` unless it failed, and `list`
/// that of `fossil branch list --all`, empty if it failed.
pub fn fossil_branches(
    checkout: &Option<FossilCommitInfo>,
    current: &Option<String>,
    list: &str,
) -> (r: BranchesScanResult)
    ensures
        r.deep_view() == all_branches(checkout.deep_view(), current.deep_view(), list@),
{
    let commit = match checkout {
        Some(info) => Some(fossil_commit_summary_from_info(info)),
        None => None,
    };
    let current = match current {
        Some(name) => Some(name.clone()),
        None => match checkout {
            Some(info) => copy_text(&info.branch),
            None => None,
        },
    };
    let ghost head = current.deep_view();
    let ghost summary = commit.deep_view();
    let chars = to_chars(list);
    let lines = split_lines(chars.as_slice());
    let ghost all = crate::text::lines(list@);
    let mut branches: Vec<Branch> = Vec::new();
    let mut i: usize = 0;
    assert(all.take(0) == Seq::<Seq<char>>::empty());
    assert(branches.deep_view() == Seq::<BranchView>::empty());
    while i < lines.len()
        invariant
            i <= lines@.len(),
            crate::text::texts(lines@) == all,
            head == current.deep_view(),
            summary == commit.deep_view(),
            branches.deep_view() == Seq::new(
                branch_names(all.take(i as int)).len(),
                |k: int| listed_branch(branch_names(all.take(i as int))[k], head, summary),
            ),
        decreases lines@.len() - i,
    {
        assert(all.take(i + 1).drop_last() == all.take(i as int));
        assert(all.take(i + 1).last() == lines@[i as int]@);
        let ghost before = branch_names(all.take(i as int));
        let ghost after = branch_names(all.take(i + 1));
        if let Some(name) = branch_in_line(lines[i]) {
            let branch = make_branch(name.as_str(), &current, &commit);
            push_item(&mut branches, branch);
            assert(after == before.push(name@));
        }
        assert(branches.deep_view() =~= Seq::new(
            after.len(),
            |k: int| listed_branch(after[k], head, summary),
        ));
        i = i + 1;
    }
    assert(all.take(i as int) == all);
    assert(branches.deep_view().len() == branches@.len());
    if branches.len() == 0 {
        if let Some(name) = &current {
            let branch = make_branch(name.as_str(), &current, &commit);
            push_item(&mut branches, branch);
            assert(branches.deep_view() =~= seq![listed_branch(name@, head, summary)]);
        }
    }
    BranchesScanResult { branches }
}

/// Law: of the branches only the current one is marked, and only it has a
/// check-in.
pub proof fn law_only_current_branch_is_head(
    checkout: Option<FossilCommitInfoView>,
    current: Option<Seq<char>>,
    list: Seq<char>,
    i: int,
)
    requires
        0 <= i < all_branches(checkout, current, list).len(),
    ensures
        all_branches(checkout, current, list)[i].is_head <==> current_branch(checkout, current)
            == Some(branch_name(all_branches(checkout, current, list)[i].ref_name)),
        all_branches(checkout, current, list)[i].most_recent_commit is Some ==> all_branches(
            checkout,
            current,
            list,
        )[i].is_head,
{
    let head = current_branch(checkout, current);
    let names = branch_names(crate::text::lines(list));
    if names.len() == 0 && head is Some {
        law_branch_ref_is_undone(head->0);
    } else {
        law_branch_ref_is_undone(names[i]);
    }
}

/// Law: the name of a branch is found again in its full name.
pub proof fn law_branch_ref_is_undone(name: Seq<char>)
    ensures
        branch_name(branch_ref(name)) == name,
{
    let full = branch_ref(name);
    let n = BRANCH_REF_PREFIX@.len() as int;
    assert(full.take(n) == BRANCH_REF_PREFIX@);
    assert(full.skip(n) == name);
}

/// Law: a name that does not begin like a full name stays as it is.
pub proof fn law_short_branch_name_stays(name: Seq<char>)
    requires
        !crate::text::starts_with(name, BRANCH_REF_PREFIX@),
    ensures
        branch_name(name) == name,
{
}

} // verus!
