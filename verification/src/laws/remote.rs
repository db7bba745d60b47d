//! Laws of branches, remotes and syncing.

use crate::branch::{
    all_branches, branch_list_line, branch_name, branch_names, branch_ref, BranchView,
};
use crate::commit::commit_summary;
use crate::error::FossilErrorView;
use crate::info::{FossilCommitInfoView, FossilInfoView};
use crate::laws::text::{is_blank, is_line, is_tight, is_word, unlines};
use crate::remote::{
    all_remotes, all_urls, branch_remote, default_remote, fetch_name, first_remote, listed_urls,
    names_remote, pull_plan, remote_lines, remote_list, remote_url, remote_url_args, sync_plan,
    sync_state, FetchOptions, FossilSyncStateView, Remote,
};
use crate::text::starts_with;
use vstd::prelude::*;

verus! {

// ---------------------------------------------------------------------------
// Branches
// ---------------------------------------------------------------------------

/// Law: the full name of a branch is its short one behind `refs/heads/`, and only
/// that is taken off again.
pub proof fn law_branch_names(name: Seq<char>)
    ensures
        branch_ref(name) == "refs/heads/"@ + name,
        branch_name("refs/heads/"@ + name) == name,
        !starts_with(name, "refs/heads/"@) ==> branch_name(name) == name,
{
    crate::branch::law_branch_ref_is_undone(name);
    if !starts_with(name, "refs/heads/"@) {
        crate::branch::law_short_branch_name_stays(name);
    }
}

/// Law: a line lists the branch that it names, with or without a star or a hash
/// sign in front; the whole name counts. A line with nothing else lists none.
pub proof fn law_listed_branch_name(
    a: Seq<char>,
    stars: nat,
    signs: nat,
    gap: Seq<char>,
    name: Seq<char>,
    b: Seq<char>,
)
    requires
        is_blank(a) && is_blank(gap) && is_blank(b),
        is_tight(name) && name.len() > 0,
        name[0] != '*' && name[0] != '#',
        gap.len() > 0,
    ensures
        branch_list_line(a + name + b) == Some(name),
        branch_list_line(
            a + (Seq::new(stars, |i: int| '*') + Seq::new(signs, |i: int| '#') + gap + name) + b,
        ) == Some(name),
        branch_list_line(a + b) is None,
{
    let star = Seq::new(stars, |i: int| '*');
    let sign = Seq::new(signs, |i: int| '#');
    let none = Seq::<char>::empty();
    crate::laws::text::law_trim(a, name, b);
    crate::laws::text::law_trim(none, name, none);
    crate::laws::text::law_trim_char(name, '*', 0);
    crate::laws::text::law_trim_char(name, '#', 0);
    assert(Seq::new(0, |i: int| '*') + name =~= name);
    assert(Seq::new(0, |i: int| '#') + name =~= name);
    let rest = gap + name;
    assert(crate::text::is_white(gap[0]));
    assert(rest[0] == gap[0]);
    assert(!crate::text::is_white('*') && !crate::text::is_white('#'));
    crate::laws::text::law_trim(gap, name, none);
    assert(gap + name + none =~= rest);
    let m = star + sign + gap + name;
    if stars + signs > 0 {
        assert(m[0] == '*' || m[0] == '#');
        assert(m.last() == name.last());
        crate::laws::text::law_trim(a, m, b);
        let s = sign + rest;
        assert(m =~= star + s);
        assert(s[0] != '*') by {
            if signs > 0 {
                assert(s[0] == '#');
            } else {
                assert(s =~= rest);
            }
        }
        crate::laws::text::law_trim_char(s, '*', stars);
        crate::laws::text::law_trim_char(rest, '#', signs);
    } else {
        assert(m =~= rest);
        let front = a + gap;
        assert(a + m + b =~= front + name + b);
        assert forall|i: int| 0 <= i < front.len() implies crate::text::is_white(
            #[trigger] front[i],
        ) by {
            if i < a.len() {
                assert(front[i] == a[i]);
            } else {
                assert(front[i] == gap[i - a.len()]);
            }
        }
        crate::laws::text::law_trim(front, name, b);
    }
}

/// Law: the branches are those that the lines list, one after the other, under
/// their full names. The current one is the one that is named as such, or else the
/// one of the check-in; it alone is the head, and it alone shows the check-in.
pub proof fn law_branches(
    checkout: Option<FossilCommitInfoView>,
    current: Option<Seq<char>>,
    ls: Seq<Seq<char>>,
    i: int,
)
    requires
        forall|k: int| 0 <= k < ls.len() ==> is_line(#[trigger] ls[k]),
        0 <= i < branch_names(ls).len(),
    ensures
        ({
            let head = if current is Some {
                current
            } else if checkout is Some {
                checkout->0.branch
            } else {
                None
            };
            let name = branch_names(ls)[i];
            let all = all_branches(checkout, current, unlines(ls));
            &&& all.len() == branch_names(ls).len()
            &&& all[i] == (BranchView {
                is_head: head == Some(name),
                ref_name: "refs/heads/"@ + name,
                upstream: None,
                most_recent_commit: if head == Some(name) && checkout is Some {
                    Some(commit_summary(checkout->0))
                } else {
                    None
                },
            })
        }),
{
    crate::laws::text::law_lines_are_read_back(ls);
}

/// Law: where no branch is listed, the current one is shown alone, as the head;
/// without a current one there is none.
pub proof fn law_only_branch(
    checkout: Option<FossilCommitInfoView>,
    current: Option<Seq<char>>,
    ls: Seq<Seq<char>>,
)
    requires
        forall|k: int| 0 <= k < ls.len() ==> is_line(#[trigger] ls[k]),
        branch_names(ls).len() == 0,
    ensures
        ({
            let head = if current is Some {
                current
            } else if checkout is Some {
                checkout->0.branch
            } else {
                None
            };
            all_branches(checkout, current, unlines(ls)) == (if head is Some {
                seq![
                    BranchView {
                        is_head: true,
                        ref_name: "refs/heads/"@ + head->0,
                        upstream: None,
                        most_recent_commit: if checkout is Some {
                            Some(commit_summary(checkout->0))
                        } else {
                            None
                        },
                    },
                ]
            } else {
                seq![]
            })
        }),
{
    crate::laws::text::law_lines_are_read_back(ls);
    let head = crate::branch::current_branch(checkout, current);
    if head is None {
        assert(all_branches(checkout, current, unlines(ls)) =~= Seq::<BranchView>::empty());
    }
}

/// Law: every line that lists a branch adds it behind the others.
pub proof fn law_branch_lines(before: Seq<Seq<char>>, line: Seq<char>)
    ensures
        branch_names(seq![]) == Seq::<Seq<char>>::empty(),
        branch_list_line(line) is Some ==> branch_names(before.push(line)) == branch_names(
            before,
        ).push(branch_list_line(line)->0),
        branch_list_line(line) is None ==> branch_names(before.push(line)) == branch_names(before),
{
    assert(before.push(line).drop_last() =~= before);
}

// ---------------------------------------------------------------------------
// Remotes
// ---------------------------------------------------------------------------

/// Law: a line with a name, blanks and a URL lists that remote behind the others;
/// a line with one word lists none.
pub proof fn law_remote_line(
    before: Seq<Seq<char>>,
    a: Seq<char>,
    name: Seq<char>,
    gap: Seq<char>,
    url: Seq<char>,
    b: Seq<char>,
)
    requires
        is_blank(a) && is_blank(gap) && is_blank(b),
        is_word(name),
        gap.len() > 0,
        is_tight(url) && url.len() > 0,
    ensures
        remote_lines(before.push(a + (name + gap + url) + b)) == remote_lines(before).push(
            (name, url),
        ),
        remote_lines(before.push(a + name + b)) == remote_lines(before),
        remote_lines(before.push(a + b)) == remote_lines(before),
        remote_lines(seq![]) == Seq::<(Seq<char>, Seq<char>)>::empty(),
{
    let none = Seq::<char>::empty();
    let m = name + gap + url;
    assert(m[0] == name[0] && m.last() == url.last());
    crate::laws::text::law_trim(a, m, b);
    let first = gap[0];
    assert(crate::text::is_white(gap[0]));
    let inner = gap.skip(1);
    assert forall|i: int| 0 <= i < inner.len() implies crate::text::is_white(
        #[trigger] inner[i],
    ) by {
        assert(inner[i] == gap[i + 1]);
    }
    let rest = inner + url;
    assert(m =~= name + seq![first] + rest);
    crate::laws::text::law_first_word_is_cut_off(name, first, rest);
    crate::laws::text::law_trim(inner, url, none);
    assert(inner + url + none =~= rest);
    assert(before.push(a + m + b).drop_last() =~= before);
    assert(!crate::text::is_white(name[name.len() - 1]));
    crate::laws::text::law_trim(a, name, b);
    assert(before.push(a + name + b).drop_last() =~= before);
    crate::laws::text::law_trim(a, none, b);
    assert(before.push(a + b).drop_last() =~= before);
    crate::text::lemma_find_white(none);
}

/// Law: the remotes are those that the lines list.
pub proof fn law_remote_list(ls: Seq<Seq<char>>)
    requires
        forall|i: int| 0 <= i < ls.len() ==> is_line(#[trigger] ls[i]),
    ensures
        remote_list(unlines(ls)) == remote_lines(ls),
{
    crate::laws::text::law_lines_are_read_back(ls);
}

/// Law: the default remote is what is printed, without the blanks around it,
/// unless that is nothing or `off`.
pub proof fn law_default_remote(a: Seq<char>, url: Seq<char>, b: Seq<char>)
    requires
        is_blank(a) && is_blank(b),
        is_tight(url),
    ensures
        url.len() > 0 && url != "off"@ ==> default_remote(a + url + b) == Some(url),
        url.len() == 0 || url == "off"@ ==> default_remote(a + url + b) is None,
{
    crate::laws::text::law_trim(a, url, b);
}

/// Law: the URL of `default` is asked of fossil by itself, that of any other name
/// is looked up in the list: the first remote with that name has it, and a name
/// that is not listed has none.
pub proof fn law_url_of_a_remote(name: Seq<char>, output: Seq<char>, i: int)
    requires
        name != "default"@,
        0 <= i <= remote_list(output).len(),
        forall|k: int| 0 <= k < i ==> (#[trigger] remote_list(output)[k]).0 != name,
        i < remote_list(output).len() ==> remote_list(output)[i].0 == name,
    ensures
        remote_url_args("default"@) == seq!["remote"@],
        remote_url_args(name) == seq!["remote"@, "list"@],
        remote_url("default"@, output) == default_remote(output),
        remote_url(name, output) == (if i < remote_list(output).len() {
            Some(remote_list(output)[i].1)
        } else {
            None
        }),
{
    lemma_url_of(remote_list(output), name, i);
}

proof fn lemma_url_of(remotes: Seq<(Seq<char>, Seq<char>)>, name: Seq<char>, i: int)
    requires
        0 <= i <= remotes.len(),
        forall|k: int| 0 <= k < i ==> (#[trigger] remotes[k]).0 != name,
        i < remotes.len() ==> remotes[i].0 == name,
    ensures
        crate::remote::url_of(remotes, name) == (if i < remotes.len() {
            Some(remotes[i].1)
        } else {
            None
        }),
    decreases i,
{
    if i > 0 {
        let rest = remotes.skip(1);
        assert(remotes[0].0 != name);
        assert forall|k: int| 0 <= k < i - 1 implies (#[trigger] rest[k]).0 != name by {
            assert(rest[k] == remotes[k + 1]);
        }
        if i < remotes.len() {
            assert(rest[i - 1] == remotes[i]);
        }
        lemma_url_of(rest, name, i - 1);
    }
}

proof fn lemma_urls(remotes: Seq<(Seq<char>, Seq<char>)>, name: Seq<char>, i: int)
    requires
        -1 <= i < remotes.len(),
        forall|k: int| i < k < remotes.len() ==> (#[trigger] remotes[k]).0 != name,
        i >= 0 ==> remotes[i].0 == name,
    ensures
        crate::remote::urls_by_name(remotes).dom().contains(name) <==> i >= 0,
        i >= 0 ==> crate::remote::urls_by_name(remotes)[name] == remotes[i].1,
    decreases remotes.len(),
{
    if remotes.len() > 0 {
        let head = remotes.drop_last();
        let last = remotes.len() - 1;
        if i < last {
            assert(remotes[last].0 != name);
            assert forall|k: int| i < k < head.len() implies (#[trigger] head[k]).0 != name by {
                assert(head[k] == remotes[k]);
            }
            lemma_urls(head, name, i);
        }
    }
}

/// Law: every listed remote has its URL, the last one where a name is listed
/// twice. Unless `default` is listed, it has the URL that is printed for it, if
/// there is one; no other name has a URL.
pub proof fn law_urls_of_all_remotes(
    list: Seq<char>,
    default: Option<Seq<char>>,
    name: Seq<char>,
    i: int,
)
    requires
        -1 <= i < remote_list(list).len(),
        forall|k: int| i < k < remote_list(list).len() ==> (#[trigger] remote_list(list)[k]).0
            != name,
        i >= 0 ==> remote_list(list)[i].0 == name,
    ensures
        i >= 0 ==> all_urls(Some(list), default).dom().contains(name) && all_urls(
            Some(list),
            default,
        )[name] == remote_list(list)[i].1,
        i < 0 && name != "default"@ ==> !all_urls(Some(list), default).dom().contains(name),
        i < 0 && name == "default"@ ==> (all_urls(Some(list), default).dom().contains(name)
            <==> default is Some && default_remote(default->0) is Some),
        i < 0 && name == "default"@ && default is Some && default_remote(default->0) is Some
            ==> all_urls(Some(list), default)[name] == default_remote(default->0)->0,
        listed_urls(None) == Map::<Seq<char>, Seq<char>>::empty(),
{
    lemma_urls(remote_list(list), name, i);
}

/// Law: the remotes are listed by their names, in order; where none is listed,
/// `default` stands for the one that is printed, if there is one.
pub proof fn law_all_remotes(list: Seq<char>, default: Seq<char>, i: int)
    ensures
        remote_list(list).len() > 0 ==> all_remotes(list, default).len() == remote_list(list).len(),
        0 <= i < remote_list(list).len() ==> all_remotes(list, default)[i] == remote_list(
            list,
        )[i].0,
        remote_list(list).len() == 0 && default_remote(default) is Some ==> all_remotes(
            list,
            default,
        ) == seq!["default"@],
        remote_list(list).len() == 0 && default_remote(default) is None ==> all_remotes(
            list,
            default,
        ) == Seq::<Seq<char>>::empty(),
{
}

/// Law: a branch is synced with the default remote if there is one, or else with
/// the first that is listed.
pub proof fn law_remote_of_a_branch(default: Seq<char>, list: Seq<char>)
    ensures
        default_remote(default) is Some ==> branch_remote(default, list) == Some("default"@),
        default_remote(default) is None && remote_list(list).len() > 0 ==> branch_remote(
            default,
            list,
        ) == Some(remote_list(list)[0].0),
        default_remote(default) is None && remote_list(list).len() == 0 ==> branch_remote(
            default,
            list,
        ) is None,
        remote_list(list).len() > 0 ==> first_remote(list) == Some(remote_list(list)[0].0),
        remote_list(list).len() == 0 ==> first_remote(list) is None,
{
}

// ---------------------------------------------------------------------------
// Syncing
// ---------------------------------------------------------------------------

/// Law: syncing goes to the remote that is named. Without a name, or with
/// `default`, it goes to the URL of the default remote, or else to the first that
/// is listed; without any it fails.
pub proof fn law_syncing(name: Seq<char>, default: Seq<char>, list: Seq<char>)
    ensures
        name != "default"@ ==> sync_plan(Some(name), default, list) == Ok::<
            Seq<Seq<char>>,
            FossilErrorView,
        >(seq!["sync"@, name]),
        sync_plan(Some("default"@), default, list) == sync_plan(None, default, list),
        default_remote(default) is Some ==> sync_plan(None, default, list) == Ok::<
            Seq<Seq<char>>,
            FossilErrorView,
        >(seq!["sync"@, default_remote(default)->0]),
        default_remote(default) is None && remote_list(list).len() > 0 ==> sync_plan(
            None,
            default,
            list,
        ) == Ok::<Seq<Seq<char>>, FossilErrorView>(seq!["sync"@, remote_list(list)[0].0]),
        default_remote(default) is None && remote_list(list).len() == 0 ==> sync_plan(
            None,
            default,
            list,
        ) == Err::<Seq<Seq<char>>, FossilErrorView>(FossilErrorView::NoRemote),
{
}

/// Law: a remote is synchronised with under its name, unless it is the default
/// one; otherwise it makes no difference that it was named.
pub proof fn law_named_remote(name: Option<Seq<char>>, default: Seq<char>, list: Seq<char>)
    ensures
        names_remote(name) ==> name is Some && sync_plan(name, default, list) == Ok::<
            Seq<Seq<char>>,
            FossilErrorView,
        >(seq!["sync"@, name->0]),
        !names_remote(name) ==> sync_plan(name, default, list) == sync_plan(None, default, list),
        name is Some && name->0 != "default"@ ==> names_remote(name),
        !names_remote(None),
{
}

/// Law: fetching from one remote goes by its name, fetching from all by none.
pub proof fn law_fetching(remote: Remote)
    ensures
        fetch_name(FetchOptions::Remote(remote)) == Some(remote.name@),
        fetch_name(FetchOptions::All) is None,
{
}

/// Law: pulling updates the checkout, to a branch under its short name if one is
/// named; rebasing is refused.
pub proof fn law_pulling(name: Seq<char>, branch: Option<Seq<char>>)
    requires
        !starts_with(name, "refs/heads/"@),
    ensures
        pull_plan(None, false) == Ok::<Seq<Seq<char>>, FossilErrorView>(seq!["update"@]),
        pull_plan(Some(name), false) == Ok::<Seq<Seq<char>>, FossilErrorView>(
            seq!["update"@, name],
        ),
        pull_plan(Some("refs/heads/"@ + name), false) == Ok::<Seq<Seq<char>>, FossilErrorView>(
            seq!["update"@, name],
        ),
        pull_plan(branch, true) == Err::<Seq<Seq<char>>, FossilErrorView>(
            FossilErrorView::RebaseUnsupported,
        ),
{
    law_branch_names(name);
}

/// Law: what is known of syncing: whether it is automatic, as it is set; the
/// default remote; and the repository.
pub proof fn law_sync_state(
    info: FossilInfoView,
    a: Seq<char>,
    setting: Seq<char>,
    b: Seq<char>,
    remote: Seq<char>,
)
    requires
        is_blank(a) && is_blank(b),
        is_tight(setting),
    ensures
        sync_state(info, Some(a + setting + b), Some(remote)) == (FossilSyncStateView {
            autosync: if setting.len() > 0 {
                Some(setting)
            } else {
                None
            },
            default_remote: default_remote(remote),
            repository: info.repository,
        }),
        sync_state(info, None, None) == (FossilSyncStateView {
            autosync: None,
            default_remote: None,
            repository: info.repository,
        }),
{
    crate::laws::text::law_trim(a, setting, b);
}

} // verus!
