//! Laws of the details and changes of check-ins, and of stashes.

use crate::commit::CommitDataView;
use crate::details::{
    checkout_hash, diff_source_of_info, load_step, named_hashes, output_details, show_step,
    stash_details, stash_with_index, CommitDetailsView, DiffSourceView, LoadStepView, ShowStepView,
};
use crate::diff::CommitDiffView;
use crate::digits::decimal;
use crate::error::FossilErrorView;
use crate::info::{checkout_info, commit_lines, FossilInfoView};
use crate::laws::text::{is_blank, is_line, is_tight, unlines};
use crate::oid::{oid_of_hash, oid_text, stash_id};
use crate::path::PathStyle;
use crate::stash::{stash_entries, stash_lines, stash_list, StashEntryView};
use crate::timestamp::timestamp;
use vstd::prelude::*;

verus! {

// ---------------------------------------------------------------------------
// Names of the checkout
// ---------------------------------------------------------------------------

/// Law: `HEAD`, `checkout` and `current` name the check-in that is checked out;
/// nothing else is resolved.
pub proof fn law_names_of_the_checkout(names: Seq<Seq<char>>, info: FossilInfoView, i: int)
    requires
        0 <= i < names.len(),
    ensures
        named_hashes(names, info).len() == names.len(),
        names[i] == "HEAD"@ || names[i] == "checkout"@ || names[i] == "current"@ ==> named_hashes(
            names,
            info,
        )[i] == info.checkout,
        names[i] != "HEAD"@ && names[i] != "checkout"@ && names[i] != "current"@ ==> named_hashes(
            names,
            info,
        )[i] is None,
{
}

/// Law: the check-in that is checked out is the one that `fossil info` names; if
/// it names none, that is an error.
pub proof fn law_hash_of_the_checkout(output: Seq<char>, style: PathStyle)
    ensures
        checkout_info(output, style).checkout is Some ==> checkout_hash(output, style) == Ok::<
            Seq<char>,
            FossilErrorView,
        >(checkout_info(output, style).checkout->0),
        checkout_info(output, style).checkout is None ==> checkout_hash(output, style) == Err::<
            Seq<char>,
            FossilErrorView,
        >(FossilErrorView::CheckoutHashUnavailable),
{
}

// ---------------------------------------------------------------------------
// Details
// ---------------------------------------------------------------------------

/// Law: the details of a stash are asked of the list of stashes. Those of a cached
/// check-in are what the cache holds under its id: its id in digits, its whole
/// message, its time and its author. For any other the check-in is asked for, by
/// the name that was given, or by its hash if the name is that of the checkout.
pub proof fn law_showing(
    cache: Map<Seq<u8>, CommitDataView>,
    commit: Seq<char>,
    id: Seq<u8>,
    n: nat,
)
    ensures
        stash_id(commit) == Some(n) ==> show_step(cache, commit) == (ShowStepView::AskStashes {
            stash_id: n,
        }),
        stash_id(commit) is None && oid_of_hash(commit) == Some(id) && cache.dom().contains(id)
            ==> show_step(cache, commit) == ShowStepView::Done(
            CommitDetailsView {
                sha: oid_text(cache[id].sha),
                message: cache[id].message,
                commit_timestamp: cache[id].commit_timestamp,
                author_email: cache[id].author_email,
                author_name: cache[id].author_name,
            },
        ),
        stash_id(commit) is None && (oid_of_hash(commit) is None || (oid_of_hash(commit) == Some(id)
            && !cache.dom().contains(id))) ==> show_step(cache, commit) == (if commit == "HEAD"@
            || commit == "checkout"@ || commit == "current"@ {
            ShowStepView::AskCheckout
        } else {
            ShowStepView::AskCommit(commit)
        }),
{
}

/// Law: the details of a check-in that was asked for are its hash, its whole
/// comment, its time and its user.
pub proof fn law_details_of_output(commit: Seq<char>, ls: Seq<Seq<char>>)
    requires
        forall|i: int| 0 <= i < ls.len() ==> is_line(#[trigger] ls[i]),
    ensures
        commit_lines(ls).hash.len() > 0 ==> output_details(commit, unlines(ls)) == Ok::<
            CommitDetailsView,
            FossilErrorView,
        >(
            CommitDetailsView {
                sha: commit_lines(ls).hash,
                message: commit_lines(ls).comment,
                commit_timestamp: commit_lines(ls).timestamp,
                author_email: seq![],
                author_name: if commit_lines(ls).user is Some {
                    commit_lines(ls).user->0
                } else {
                    seq![]
                },
            },
        ),
        commit_lines(ls).hash.len() == 0 ==> output_details(commit, unlines(ls)) == Err::<
            CommitDetailsView,
            FossilErrorView,
        >(FossilErrorView::CommitInfo(commit)),
{
    crate::laws::text::law_lines_are_read_back(ls);
}

/// Law: a stash is shown with its message and time, under the id that was asked
/// for; one that is not listed is shown by its number.
pub proof fn law_details_of_stash(
    commit: Seq<char>,
    entries: Seq<StashEntryView>,
    n: nat,
    i: int,
)
    requires
        0 <= i <= entries.len(),
        forall|k: int| 0 <= k < i ==> (#[trigger] entries[k]).index != n,
        i < entries.len() ==> entries[i].index == n,
    ensures
        i < entries.len() ==> stash_details(commit, stash_with_index(entries, n), n) == (
        CommitDetailsView {
            sha: commit,
            message: entries[i].message,
            commit_timestamp: entries[i].timestamp,
            author_email: seq![],
            author_name: "Fossil stash"@,
        }),
        i == entries.len() ==> stash_details(commit, stash_with_index(entries, n), n) == (
        CommitDetailsView {
            sha: commit,
            message: "Fossil stash "@ + decimal(n),
            commit_timestamp: 0,
            author_email: seq![],
            author_name: "Fossil stash"@,
        }),
{
    if i < entries.len() {
        crate::details::law_stash_is_found_by_number(entries, i);
    } else {
        lemma_no_stash(entries, n);
    }
}

proof fn lemma_no_stash(entries: Seq<StashEntryView>, n: nat)
    requires
        forall|k: int| 0 <= k < entries.len() ==> (#[trigger] entries[k]).index != n,
    ensures
        stash_with_index(entries, n) is None,
    decreases entries.len(),
{
    if entries.len() > 0 {
        let rest = entries.skip(1);
        assert(entries[0].index != n);
        assert forall|k: int| 0 <= k < rest.len() implies (#[trigger] rest[k]).index != n by {
            assert(rest[k] == entries[k + 1]);
        }
        lemma_no_stash(rest, n);
    }
}

// ---------------------------------------------------------------------------
// Changes
// ---------------------------------------------------------------------------

/// The arguments that print the whole changes from one check-in to another.
pub open spec fn prints_diff(from: Seq<char>, to: Seq<char>) -> Seq<Seq<char>> {
    seq![
        "diff"@,
        "--from"@,
        from,
        "--to"@,
        to,
        "--verbose"@,
        "--context"@,
        "-1"@,
        "--internal"@,
        "--unified"@,
    ]
}

/// Law: the changes of a stash are printed by its number. Those of a cached
/// check-in are the ones from its first parent to it; without a parent there are
/// none.
pub proof fn law_loading_changes(
    cache: Map<Seq<u8>, CommitDataView>,
    commit: Seq<char>,
    id: Seq<u8>,
    n: nat,
)
    ensures
        stash_id(commit) == Some(n) ==> load_step(cache, commit) == LoadStepView::Known(
            DiffSourceView::Diff(
                seq![
                    "stash"@,
                    "show"@,
                    decimal(n),
                    "--verbose"@,
                    "--context"@,
                    "-1"@,
                    "--internal"@,
                    "--unified"@,
                ],
            ),
        ),
        stash_id(commit) is None && oid_of_hash(commit) == Some(id) && cache.dom().contains(id)
            && cache[id].parents.len() > 0 ==> load_step(cache, commit) == LoadStepView::Known(
            DiffSourceView::Diff(
                prints_diff(oid_text(cache[id].parents[0]), oid_text(cache[id].sha)),
            ),
        ),
        stash_id(commit) is None && oid_of_hash(commit) == Some(id) && cache.dom().contains(id)
            && cache[id].parents.len() == 0 ==> load_step(cache, commit) == LoadStepView::Known(
            DiffSourceView::Done(CommitDiffView { files: seq![], stats: Some((0, 0)) }),
        ),
        stash_id(commit) is None && (oid_of_hash(commit) is None || (oid_of_hash(commit) == Some(id)
            && !cache.dom().contains(id))) ==> load_step(cache, commit) == LoadStepView::AskCommit,
{
    assert(crate::details::stash_diff_args(n) =~= seq![
        "stash"@,
        "show"@,
        decimal(n),
        "--verbose"@,
        "--context"@,
        "-1"@,
        "--internal"@,
        "--unified"@,
    ]);
    let from = oid_text(cache[id].parents[0]);
    let to = oid_text(cache[id].sha);
    assert(crate::details::diff_args(from, to) =~= prints_diff(from, to));
}

/// Law: the changes of a check-in that was asked for are those from the first
/// parent that is listed to its hash; without a parent there are none.
pub proof fn law_changes_of_output(commit: Seq<char>, ls: Seq<Seq<char>>)
    requires
        forall|i: int| 0 <= i < ls.len() ==> is_line(#[trigger] ls[i]),
    ensures
        ({
            let info = commit_lines(ls);
            let r = diff_source_of_info(commit, unlines(ls));
            &&& info.hash.len() == 0 ==> r == Err::<DiffSourceView, FossilErrorView>(
                FossilErrorView::CommitInfo(commit),
            )
            &&& info.hash.len() > 0 && info.parents.len() > 0 ==> r == Ok::<
                DiffSourceView,
                FossilErrorView,
            >(DiffSourceView::Diff(prints_diff(info.parents[0], info.hash)))
            &&& info.hash.len() > 0 && info.parents.len() == 0 ==> r == Ok::<
                DiffSourceView,
                FossilErrorView,
            >(DiffSourceView::Done(CommitDiffView { files: seq![], stats: Some((0, 0)) }))
        }),
{
    crate::laws::text::law_lines_are_read_back(ls);
    let info = commit_lines(ls);
    assert(crate::details::diff_args(info.parents[0], info.hash) =~= prints_diff(
        info.parents[0],
        info.hash,
    ));
}

// ---------------------------------------------------------------------------
// Stashes
// ---------------------------------------------------------------------------

/// Whether a text is a message line: it cannot begin a stash, since it begins with
/// no number.
pub open spec fn is_message_line(text: Seq<char>) -> bool {
    &&& text.len() > 0
    &&& is_tight(text)
    &&& text != "empty stash"@
    &&& text[0] != '+' && text[0] != ':' && !('0' <= text[0] <= '9')
}

proof fn lemma_no_header(text: Seq<char>)
    requires
        is_message_line(text),
    ensures
        crate::stash::stash_header(text) is None,
{
    crate::text::lemma_find_char(text, ':');
    let i = crate::text::find_char(text, ':') as int;
    if i < text.len() {
        let id = text.take(i);
        assert(id[0] == text[0]);
        assert(crate::text::trim_start(id) == id);
        crate::text::lemma_trim_end_first(id);
        crate::laws::numbers::law_no_number(crate::text::trim(id), 0, usize::MAX as nat);
    }
}

/// What stands behind the hash of a stash is its time.
proof fn lemma_stash_time(date: Seq<char>)
    requires
        is_tight(date) && date.len() > 0,
    ensures
        crate::stash::stash_time(seq![' ', 'o', 'n', ' '] + date) == (if timestamp(date) is Some {
            timestamp(date)->0
        } else {
            0
        }),
{
    reveal_strlit("on ");
    assert("on "@ =~= seq!['o', 'n', ' ']);
    let none = Seq::<char>::empty();
    let tail = seq![' ', 'o', 'n', ' '] + date;
    let inner = "on "@ + date;
    assert(tail =~= seq![' '] + inner + none);
    assert(inner[0] == 'o' && inner.last() == date.last());
    crate::laws::text::law_trim(seq![' '], inner, none);
    crate::laws::text::law_prefix_and_suffix("on "@, date, inner);
}

/// A header is cut into its number and what stands behind it.
proof fn lemma_stash_number(number: Seq<char>, n: nat, rest: Seq<char>, open: Seq<char>, tail: Seq<char>)
    requires
        number == decimal(n),
        n <= usize::MAX,
        rest == open + seq![']'] + tail,
        !open.contains(']'),
    ensures
        crate::stash::stash_header(number + seq![':'] + rest) == Some(
            StashEntryView {
                index: n,
                oid: crate::oid::oid_bytes(crate::oid::stash_oid_text(n)),
                message: seq![],
                branch: None,
                timestamp: crate::stash::stash_time(tail),
            },
        ),
{
    let none = Seq::<char>::empty();
    crate::laws::numbers::law_decimal_is_read_back(n, usize::MAX as nat);
    assert('0' <= number[0] <= '9');
    assert('0' <= number[number.len() - 1] <= '9');
    lemma_digits_are_tight(number);
    assert(!number.contains(':')) by {
        if number.contains(':') {
            let i = number.index_of(':');
            assert('0' <= number[i] <= '9');
        }
    }
    crate::laws::text::law_split_once(number, ':', rest);
    crate::laws::text::law_trim(none, number, none);
    crate::laws::text::law_split_once(open, ']', tail);
}

/// Law: a line with a number, a hash in brackets and a time lists a stash behind
/// the others, under that number and with that time.
pub proof fn law_stash_header(
    before: Seq<Seq<char>>,
    a: Seq<char>,
    n: nat,
    hash: Seq<char>,
    date: Seq<char>,
    b: Seq<char>,
)
    requires
        is_blank(a) && is_blank(b),
        n <= usize::MAX,
        !hash.contains(']'),
        is_tight(date) && date.len() > 0,
    ensures
        stash_entries(
            stash_lines(before.push(a + (decimal(n) + ": ["@ + hash + "] on "@ + date) + b)),
        ) == stash_entries(stash_lines(before)).push(
            StashEntryView {
                index: n,
                oid: crate::oid::oid_bytes(crate::oid::stash_oid_text(n)),
                message: seq![],
                branch: None,
                timestamp: if timestamp(date) is Some {
                    timestamp(date)->0
                } else {
                    0
                },
            },
        ),
{
    let number = decimal(n);
    let m = number + ": ["@ + hash + "] on "@ + date;
    let open = seq![' ', '['] + hash;
    let tail = seq![' ', 'o', 'n', ' '] + date;
    let rest = open + seq![']'] + tail;
    assert(m == number + seq![':'] + rest) by {
        reveal_strlit(": [");
        reveal_strlit("] on ");
        assert(": ["@ =~= seq![':', ' ', '[']);
        assert("] on "@ =~= seq![']', ' ', 'o', 'n', ' ']);
        assert(m =~= number + seq![':'] + rest);
    }
    assert(!open.contains(']')) by {
        if open.contains(']') {
            let i = open.index_of(']');
            if i >= 2 {
                assert(hash.contains(hash[i - 2]));
            }
        }
    }
    lemma_stash_time(date);
    lemma_stash_number(number, n, rest, open, tail);
    assert(is_tight(m) && m.len() > 0 && m != "empty stash"@) by {
        crate::laws::numbers::law_decimal_is_read_back(n, usize::MAX as nat);
        assert('0' <= number[0] <= '9');
        assert('0' <= number[number.len() - 1] <= '9');
        lemma_digits_are_tight(number);
        assert(m[0] == number[0] && m.last() == date.last());
        reveal_strlit("empty stash");
        assert("empty stash"@[0] == 'e');
    }
    crate::laws::text::law_trim(a, m, b);
    let line = a + m + b;
    assert(before.push(line).drop_last() =~= before);
    assert(before.push(line).last() == line);
}

proof fn lemma_digits_are_tight(number: Seq<char>)
    requires
        number.len() > 0,
        '0' <= number[0] <= '9',
        '0' <= number[number.len() - 1] <= '9',
    ensures
        is_tight(number),
        number[0] != 'e',
{
}

/// Law: a line that begins no stash is a line of the message of the last one,
/// below those before it; before the first stash, and where it is blank or says
/// that there is none, it says nothing.
pub proof fn law_stash_message(
    before: Seq<Seq<char>>,
    a: Seq<char>,
    text: Seq<char>,
    b: Seq<char>,
)
    requires
        is_blank(a) && is_blank(b),
        is_message_line(text),
    ensures
        ({
            let was = stash_entries(stash_lines(before));
            let now = stash_entries(stash_lines(before.push(a + text + b)));
            &&& was.len() == 0 ==> now == was
            &&& was.len() > 0 ==> now == was.drop_last().push(
                StashEntryView {
                    message: if was.last().message.len() == 0 {
                        text
                    } else {
                        was.last().message + seq!['\n'] + text
                    },
                    ..was.last()
                },
            )
            &&& stash_entries(stash_lines(before.push(a + b))) == was
            &&& stash_entries(stash_lines(before.push(a + "empty stash"@ + b))) == was
        }),
{
    reveal_strlit("empty stash");
    assert("empty stash"@[0] == 'e' && "empty stash"@.last() == 'h');
    lemma_no_header(text);
    crate::laws::text::law_trim(a, text, b);
    crate::laws::text::law_trim(a, "empty stash"@, b);
    assert(before.push(a + text + b).drop_last() =~= before);
    assert(before.push(a + b).drop_last() =~= before);
    assert(before.push(a + "empty stash"@ + b).drop_last() =~= before);
    let state = stash_lines(before);
    lemma_done_with_current(before);
    let was = stash_entries(state);
    if state.current is Some {
        assert(was.drop_last() =~= state.done);
        let message = was.last().message;
        assert(message.push('\n') + text =~= message + seq!['\n'] + text);
    }
}

proof fn lemma_done_with_current(ls: Seq<Seq<char>>)
    ensures
        stash_lines(ls).current is None ==> stash_lines(ls).done.len() == 0,
    decreases ls.len(),
{
    if ls.len() > 0 {
        lemma_done_with_current(ls.drop_last());
    }
}

/// Law: the stashes are those of the lines.
pub proof fn law_stash_list(ls: Seq<Seq<char>>)
    requires
        forall|i: int| 0 <= i < ls.len() ==> is_line(#[trigger] ls[i]),
    ensures
        stash_list(unlines(ls)) == stash_entries(stash_lines(ls)),
        stash_entries(stash_lines(seq![])) == Seq::<StashEntryView>::empty(),
{
    crate::laws::text::law_lines_are_read_back(ls);
}

} // verus!
