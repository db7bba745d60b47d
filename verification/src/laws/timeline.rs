//! Laws of check-ins, of the timeline, its graph and its search.

use crate::commit::{
    commit_data, commit_data_for, commit_info_for, commit_summary, hash_ids, CommitDataView,
    CommitSummaryView,
};
use crate::error::FossilErrorView;
use crate::info::{commit_lines, FossilCommitInfoView};
use crate::laws::text::{is_line, unlines};
use crate::oid::oid_of_hash;
use crate::text::{contains, join, split_once, trim, words};
use crate::timeline::{
    entry_line, entry_matches, graph_output, haystack, lowercase, search_entries, timeline_args,
    timeline_entries, timeline_line, timeline_lines, FossilTimelineEntryView, GraphState,
    LogSourceView,
};
use vstd::prelude::*;

verus! {

// ---------------------------------------------------------------------------
// Check-ins
// ---------------------------------------------------------------------------

/// Law: the parents are the ids of the hashes, in order; a hash without an id
/// gives none.
pub proof fn law_parent_ids(hashes: Seq<Seq<char>>, hash: Seq<char>)
    ensures
        hash_ids(seq![]) == Seq::<Seq<u8>>::empty(),
        oid_of_hash(hash) is Some ==> hash_ids(hashes.push(hash)) == hash_ids(hashes).push(
            oid_of_hash(hash)->0,
        ),
        oid_of_hash(hash) is None ==> hash_ids(hashes.push(hash)) == hash_ids(hashes),
{
    assert(hashes.push(hash).drop_last() =~= hashes);
}

/// Law: a check-in is shown with what is known of it: its whole comment is its
/// message and the first line of it its subject, its user is its author. One whose
/// hash has no id is refused.
pub proof fn law_commit_data(
    commit: Seq<char>,
    info: FossilCommitInfoView,
    subject: Seq<char>,
    rest: Seq<char>,
)
    requires
        is_line(subject),
        info.comment == subject || info.comment == subject + seq!['\n'] + rest,
    ensures
        oid_of_hash(info.hash) is None ==> commit_data(commit, info) == Err::<
            CommitDataView,
            FossilErrorView,
        >(FossilErrorView::HashNotOid(commit)),
        oid_of_hash(info.hash) is Some ==> commit_data(commit, info) == Ok::<
            CommitDataView,
            FossilErrorView,
        >(
            CommitDataView {
                sha: oid_of_hash(info.hash)->0,
                parents: hash_ids(info.parents),
                author_name: if info.user is Some {
                    info.user->0
                } else {
                    seq![]
                },
                author_email: seq![],
                commit_timestamp: info.timestamp,
                subject,
                message: info.comment,
            },
        ),
        commit_summary(info) == (CommitSummaryView {
            sha: info.hash,
            subject,
            commit_timestamp: info.timestamp,
            author_name: if info.user is Some {
                info.user->0
            } else {
                seq![]
            },
            has_parent: info.parents.len() != 0,
        }),
{
    lemma_subject(subject, rest);
    lemma_subject(subject, seq![]);
}

proof fn lemma_subject(subject: Seq<char>, rest: Seq<char>)
    requires
        is_line(subject),
    ensures
        crate::commit::first_line(subject) == subject,
        crate::commit::first_line(subject + seq!['\n'] + rest) == subject,
{
    crate::laws::text::law_first_line(subject, rest);
    let ls = seq![subject] + crate::text::lines(rest);
    assert(ls[0] == subject);
    if subject.len() == 0 {
        assert(subject =~= Seq::<char>::empty());
    }
}

/// The hash on a `parent: ` line.
pub open spec fn parent_on(line: Seq<char>) -> Option<Seq<char>> {
    match split_once(line, ':') {
        Some((key, value)) => if trim(key) == "parent"@ && words(trim(value)).len() > 0 {
            Some(words(trim(value))[0])
        } else {
            None
        },
        None => None,
    }
}

/// The ids of the hashes on the `parent: ` lines, in order.
pub open spec fn parent_ids(ls: Seq<Seq<char>>) -> Seq<Seq<u8>>
    decreases ls.len(),
{
    if ls.len() == 0 {
        seq![]
    } else {
        let before = parent_ids(ls.drop_last());
        match parent_on(ls.last()) {
            Some(hash) => match oid_of_hash(hash) {
                Some(id) => before.push(id),
                None => before,
            },
            None => before,
        }
    }
}

proof fn lemma_parent_ids(ls: Seq<Seq<char>>)
    ensures
        hash_ids(commit_lines(ls).parents) == parent_ids(ls),
    decreases ls.len(),
{
    if ls.len() > 0 {
        lemma_parent_ids(ls.drop_last());
        crate::laws::info::lemma_keys();
        let was = commit_lines(ls.drop_last());
        match parent_on(ls.last()) {
            Some(hash) => {
                law_parent_ids(was.parents, hash);
                assert(commit_lines(ls).parents == was.parents.push(hash));
            },
            None => {
                assert(commit_lines(ls).parents == was.parents);
            },
        }
    }
}

/// How a tag is shown in the graph.
pub open spec fn shown_tag(tag: Seq<char>, branch: Option<Seq<char>>) -> Seq<char> {
    if tag == "trunk"@ || branch == Some(tag) {
        "refs/heads/"@ + tag
    } else {
        "tag: "@ + tag
    }
}

/// Law: a check-in that is loaded comes behind the others in the graph, with the
/// id of every parent that is listed, in order, and with every tag shown. The
/// cache holds it under its id, with the same parents.
pub proof fn law_graph_entry(state: GraphState, hash: Seq<char>, ls: Seq<Seq<char>>)
    requires
        forall|i: int| 0 <= i < ls.len() ==> is_line(#[trigger] ls[i]),
        oid_of_hash(commit_lines(ls).hash) is Some,
        commit_lines(ls).hash.len() > 0,
    ensures
        ({
            let info = commit_lines(ls);
            let id = oid_of_hash(info.hash)->0;
            let r = graph_output(state, hash, unlines(ls));
            let after = r->Ok_0;
            let entry = after.commits.last();
            &&& r is Ok
            &&& after.commits.len() == state.commits.len() + 1
            &&& after.commits.drop_last() == state.commits
            &&& entry.sha == id
            &&& entry.parents == parent_ids(ls)
            &&& entry.ref_names.len() == info.tags.len()
            &&& forall|i: int|
                0 <= i < info.tags.len() ==> #[trigger] entry.ref_names[i] == shown_tag(
                    info.tags[i],
                    info.branch,
                )
            &&& after.cache.dom() == state.cache.dom().insert(id)
            &&& after.cache[id].sha == id
            &&& after.cache[id].parents == entry.parents
            &&& after.cache[id].message == info.comment
            &&& forall|other: Seq<u8>|
                other != id && state.cache.dom().contains(other) ==> #[trigger] after.cache[other]
                    == state.cache[other]
        }),
{
    crate::laws::text::law_lines_are_read_back(ls);
    lemma_parent_ids(ls);
    let r = graph_output(state, hash, unlines(ls));
    let after = r->Ok_0;
    assert(after.commits.drop_last() =~= state.commits);
    let id = oid_of_hash(commit_lines(ls).hash)->0;
    assert(after.cache.dom() =~= state.cache.dom().insert(id));
}

/// Law: a check-in whose hash has no id changes neither the graph nor the cache,
/// and an output without a hash is an error.
pub proof fn law_graph_without_id(state: GraphState, hash: Seq<char>, ls: Seq<Seq<char>>)
    requires
        forall|i: int| 0 <= i < ls.len() ==> is_line(#[trigger] ls[i]),
    ensures
        commit_lines(ls).hash.len() > 0 && oid_of_hash(commit_lines(ls).hash) is None
            ==> graph_output(state, hash, unlines(ls)) == Ok::<GraphState, FossilErrorView>(state),
        commit_lines(ls).hash.len() == 0 ==> graph_output(state, hash, unlines(ls)) == Err::<
            GraphState,
            FossilErrorView,
        >(FossilErrorView::CommitInfo(hash)),
{
    crate::laws::text::law_lines_are_read_back(ls);
}

/// Law: what is read of a check-in is what its lines say; its parents are those
/// that are listed.
pub proof fn law_commit_output(commit: Seq<char>, ls: Seq<Seq<char>>)
    requires
        forall|i: int| 0 <= i < ls.len() ==> is_line(#[trigger] ls[i]),
    ensures
        commit_lines(ls).hash.len() > 0 ==> commit_info_for(commit, unlines(ls)) == Ok::<
            FossilCommitInfoView,
            FossilErrorView,
        >(commit_lines(ls)),
        commit_lines(ls).hash.len() > 0 ==> commit_data_for(commit, unlines(ls)) == commit_data(
            commit,
            commit_lines(ls),
        ),
        commit_lines(ls).hash.len() == 0 ==> commit_data_for(commit, unlines(ls)) == Err::<
            CommitDataView,
            FossilErrorView,
        >(FossilErrorView::CommitInfo(commit)),
        commit_lines(ls).hash.len() == 0 ==> commit_info_for(commit, unlines(ls)) == Err::<
            FossilCommitInfoView,
            FossilErrorView,
        >(FossilErrorView::CommitInfo(commit)),
        commit_data_for(commit, unlines(ls)) matches Ok(data) ==> data.parents == parent_ids(ls),
{
    crate::laws::text::law_lines_are_read_back(ls);
    lemma_parent_ids(ls);
}

// ---------------------------------------------------------------------------
// The timeline
// ---------------------------------------------------------------------------

/// Law: a timeline is asked for with its limit and its fields; one of a check-in
/// shows its ancestors, one of a branch that branch under its short name, and one
/// of a file its path.
pub proof fn law_timeline_args(id: Seq<u8>, name: Seq<char>, path: Seq<char>, limit: nat)
    requires
        !crate::text::starts_with(name, "refs/heads/"@),
    ensures
        ({
            let n = crate::digits::decimal(limit);
            let format = "%H\t%d\t%a\t%c\t%b\t%t"@;
            &&& timeline_args(LogSourceView::All, limit) == seq![
                "timeline"@,
                "--type"@,
                "ci"@,
                "--limit"@,
                n,
                "--format"@,
                format,
            ]
            &&& timeline_args(LogSourceView::Sha(id), limit) == seq![
                "timeline"@,
                "ancestors"@,
                crate::oid::oid_text(id),
                "--type"@,
                "ci"@,
                "--limit"@,
                n,
                "--format"@,
                format,
            ]
            &&& timeline_args(LogSourceView::Branch(name), limit) == seq![
                "timeline"@,
                "--type"@,
                "ci"@,
                "--limit"@,
                n,
                "--format"@,
                format,
                "--branch"@,
                name,
            ]
            &&& timeline_args(LogSourceView::Branch("refs/heads/"@ + name), limit)
                == timeline_args(LogSourceView::Branch(name), limit)
            &&& timeline_args(LogSourceView::Path(path), limit) == seq![
                "timeline"@,
                "--type"@,
                "ci"@,
                "--limit"@,
                n,
                "--format"@,
                format,
                "--path"@,
                path,
            ]
        }),
{
    let n = crate::digits::decimal(limit);
    let format = "%H\t%d\t%a\t%c\t%b\t%t"@;
    crate::branch::law_branch_ref_is_undone(name);
    crate::branch::law_short_branch_name_stays(name);
    assert(timeline_args(LogSourceView::All, limit) =~= seq![
        "timeline"@,
        "--type"@,
        "ci"@,
        "--limit"@,
        n,
        "--format"@,
        format,
    ]);
    assert(timeline_args(LogSourceView::Sha(id), limit) =~= seq![
        "timeline"@,
        "ancestors"@,
        crate::oid::oid_text(id),
        "--type"@,
        "ci"@,
        "--limit"@,
        n,
        "--format"@,
        format,
    ]);
    assert(timeline_args(LogSourceView::Branch(name), limit) =~= seq![
        "timeline"@,
        "--type"@,
        "ci"@,
        "--limit"@,
        n,
        "--format"@,
        format,
        "--branch"@,
        name,
    ]);
    assert(timeline_args(LogSourceView::Path(path), limit) =~= seq![
        "timeline"@,
        "--type"@,
        "ci"@,
        "--limit"@,
        n,
        "--format"@,
        format,
        "--path"@,
        path,
    ]);
}

/// Whether a text can be a field of a timeline entry: it holds neither tabs nor
/// ends of lines.
pub open spec fn is_field(s: Seq<char>) -> bool {
    !s.contains('\t') && !s.contains('\n') && !s.contains('\r')
}

/// The fields of an entry.
pub open spec fn fields(e: FossilTimelineEntryView) -> Seq<Seq<char>> {
    seq![e.hash, e.date, e.author, e.comment, e.branch, e.tags]
}

/// Whether every field of an entry can be one.
pub open spec fn has_fields(e: FossilTimelineEntryView) -> bool {
    is_field(e.hash) && is_field(e.date) && is_field(e.author) && is_field(e.comment) && is_field(
        e.branch,
    ) && is_field(e.tags)
}

/// The lines of entries: their fields with tabs between them.
pub open spec fn entry_lines(entries: Seq<FossilTimelineEntryView>) -> Seq<Seq<char>> {
    Seq::new(entries.len(), |i: int| join(fields(entries[i]), seq!['\t']))
}

proof fn lemma_join_holds(parts: Seq<Seq<char>>, c: char, x: char)
    requires
        c != x,
        forall|i: int| 0 <= i < parts.len() ==> !(#[trigger] parts[i]).contains(x),
    ensures
        !join(parts, seq![c]).contains(x),
    decreases parts.len(),
{
    if parts.len() > 0 {
        let head = parts.drop_last();
        assert forall|i: int| 0 <= i < head.len() implies !(#[trigger] head[i]).contains(x) by {
            assert(head[i] == parts[i]);
        }
        lemma_join_holds(head, c, x);
        let s = join(parts, seq![c]);
        if s.contains(x) {
            let k = s.index_of(x);
            let h = join(head, seq![c]);
            if parts.len() == 1 {
                assert(parts[0].contains(x));
            } else if k < h.len() {
                assert(h[k] == x);
                assert(h.contains(x));
            } else if k > h.len() {
                assert(parts.last()[k - h.len() - 1] == x);
                assert(parts[parts.len() - 1].contains(x));
            }
        }
    }
}

/// Law: the entries of a timeline are read back from their lines, all six fields
/// of all of them, in order.
pub proof fn law_timeline_is_read_back(entries: Seq<FossilTimelineEntryView>)
    requires
        forall|i: int| 0 <= i < entries.len() ==> has_fields(#[trigger] entries[i]),
    ensures
        timeline_entries(unlines(entry_lines(entries))) == entries,
{
    let ls = entry_lines(entries);
    assert forall|i: int| 0 <= i < ls.len() implies is_line(#[trigger] ls[i]) by {
        let parts = fields(entries[i]);
        assert(has_fields(entries[i]));
        lemma_join_holds(parts, '\t', '\n');
        lemma_join_holds(parts, '\t', '\r');
        if ls[i].len() > 0 && ls[i].last() == '\r' {
            assert(ls[i].contains('\r'));
        }
    }
    crate::laws::text::law_lines_are_read_back(ls);
    lemma_timeline_lines(entries);
}

proof fn lemma_timeline_lines(entries: Seq<FossilTimelineEntryView>)
    requires
        forall|i: int| 0 <= i < entries.len() ==> has_fields(#[trigger] entries[i]),
    ensures
        timeline_lines(entry_lines(entries)) == entries,
    decreases entries.len(),
{
    let ls = entry_lines(entries);
    if entries.len() > 0 {
        let head = entries.drop_last();
        assert forall|i: int| 0 <= i < head.len() implies has_fields(#[trigger] head[i]) by {
            assert(head[i] == entries[i]);
        }
        lemma_timeline_lines(head);
        assert(ls.drop_last() =~= entry_lines(head));
        let e = entries[entries.len() - 1];
        assert(has_fields(e));
        crate::timeline::law_timeline_entry_is_read_back(e);
        assert(ls.last() == entry_line(e));
        assert(head.push(e) =~= entries);
    } else {
        assert(timeline_lines(ls) =~= entries);
    }
}

/// Law: a line with fewer or more than six fields is no entry.
pub proof fn law_other_timeline_line(parts: Seq<Seq<char>>)
    requires
        parts.len() > 0,
        parts.len() != 6,
        forall|i: int| 0 <= i < parts.len() ==> !(#[trigger] parts[i]).contains('\t'),
    ensures
        timeline_line(join(parts, seq!['\t'])) is None,
{
    crate::text::lemma_split_of_join(parts, '\t');
}

// ---------------------------------------------------------------------------
// Searching
// ---------------------------------------------------------------------------

proof fn lemma_haystack(e: FossilTimelineEntryView)
    ensures
        haystack(e) == join(fields(e), seq![' ']),
{
    reveal_strlit(" ");
    assert(" "@ =~= seq![' ']);
    let f = fields(e);
    let sep = seq![' '];
    let f1 = seq![e.hash];
    let f2 = seq![e.hash, e.date];
    let f3 = seq![e.hash, e.date, e.author];
    let f4 = seq![e.hash, e.date, e.author, e.comment];
    let f5 = seq![e.hash, e.date, e.author, e.comment, e.branch];
    assert(f2.drop_last() =~= f1);
    assert(f3.drop_last() =~= f2);
    assert(f4.drop_last() =~= f3);
    assert(f5.drop_last() =~= f4);
    assert(f.drop_last() =~= f5);
    assert(join(f1, sep) == e.hash);
    assert(join(f2, sep) == e.hash + sep + e.date);
    assert(join(f3, sep) == e.hash + sep + e.date + sep + e.author);
    assert(join(f4, sep) == e.hash + sep + e.date + sep + e.author + sep + e.comment);
    assert(join(f5, sep) == e.hash + sep + e.date + sep + e.author + sep + e.comment + sep
        + e.branch);
}

/// Law: an entry matches a query exactly if the query stands in the six fields of
/// the entry with single spaces between them; unless the case counts, both are
/// compared in lower case.
pub proof fn law_what_is_searched(e: FossilTimelineEntryView, query: Seq<char>)
    ensures
        entry_matches(e, query, true) <==> contains(join(fields(e), seq![' ']), query),
        entry_matches(e, query, false) <==> contains(
            lowercase(join(fields(e), seq![' '])),
            lowercase(query),
        ),
{
    lemma_haystack(e);
}

/// A text that stands in a part stands in the whole.
proof fn lemma_contains_part(a: Seq<char>, m: Seq<char>, b: Seq<char>, q: Seq<char>)
    requires
        contains(m, q),
    ensures
        contains(a + m + b, q),
{
    let i = choose|i: int|
        0 <= i <= m.len() - q.len() && #[trigger] m.subrange(i, i + q.len()) == q;
    let s = a + m + b;
    let k = a.len() + i;
    assert(s.subrange(k, k + q.len()) =~= m.subrange(i, i + q.len()));
}

/// Law: a search in which the case counts looks into every field: an entry whose
/// hash, date, author, comment, branch or tags hold the query is found, if it has
/// an id.
pub proof fn law_search_looks_into_every_field(
    entries: Seq<FossilTimelineEntryView>,
    k: int,
    query: Seq<char>,
)
    requires
        0 <= k < entries.len(),
        oid_of_hash(entries[k].hash) is Some,
        contains(entries[k].hash, query) || contains(entries[k].date, query) || contains(
            entries[k].author,
            query,
        ) || contains(entries[k].comment, query) || contains(entries[k].branch, query) || contains(
            entries[k].tags,
            query,
        ),
    ensures
        search_entries(entries, query, true).contains(oid_of_hash(entries[k].hash)->0),
{
    let e = entries[k];
    let id = oid_of_hash(e.hash)->0;
    reveal_strlit(" ");
    let sep = " "@;
    let none = Seq::<char>::empty();
    let s = haystack(e);
    let a1 = e.hash + sep;
    let a2 = a1 + e.date + sep;
    let a3 = a2 + e.author + sep;
    let a4 = a3 + e.comment + sep;
    let a5 = a4 + e.branch + sep;
    let b5 = none;
    let b4 = sep + e.tags;
    let b3 = sep + e.branch + b4;
    let b2 = sep + e.comment + b3;
    let b1 = sep + e.author + b2;
    let b0 = sep + e.date + b1;
    assert(s =~= none + e.hash + b0);
    assert(s =~= a1 + e.date + b1);
    assert(s =~= a2 + e.author + b2);
    assert(s =~= a3 + e.comment + b3);
    assert(s =~= a4 + e.branch + b4);
    assert(s =~= a5 + e.tags + b5);
    if contains(e.hash, query) {
        lemma_contains_part(none, e.hash, b0, query);
    } else if contains(e.date, query) {
        lemma_contains_part(a1, e.date, b1, query);
    } else if contains(e.author, query) {
        lemma_contains_part(a2, e.author, b2, query);
    } else if contains(e.comment, query) {
        lemma_contains_part(a3, e.comment, b3, query);
    } else if contains(e.branch, query) {
        lemma_contains_part(a4, e.branch, b4, query);
    } else {
        lemma_contains_part(a5, e.tags, b5, query);
    }
    assert(entry_matches(entries[k], query, true));
    crate::timeline::law_search_finds_matches(entries, query, true, id);
}

/// Law: a search gives the ids of the matching entries in the order of the
/// timeline, each entry once.
pub proof fn law_search_goes_entry_by_entry(
    a: Seq<FossilTimelineEntryView>,
    e: FossilTimelineEntryView,
    b: Seq<FossilTimelineEntryView>,
    query: Seq<char>,
    case_sensitive: bool,
)
    ensures
        search_entries(a + b, query, case_sensitive) == search_entries(a, query, case_sensitive)
            + search_entries(b, query, case_sensitive),
        search_entries(seq![e], query, case_sensitive) == (if oid_of_hash(e.hash) is Some
            && entry_matches(e, query, case_sensitive) {
            seq![oid_of_hash(e.hash)->0]
        } else {
            seq![]
        }),
    decreases b.len(),
{
    let found = search_entries(a, query, case_sensitive);
    if b.len() == 0 {
        assert(a + b =~= a);
        assert(found + search_entries(b, query, case_sensitive) =~= found);
    } else {
        law_search_goes_entry_by_entry(a, e, b.drop_last(), query, case_sensitive);
        assert((a + b).drop_last() =~= a + b.drop_last());
        assert((a + b).last() == b.last());
        let before = search_entries(b.drop_last(), query, case_sensitive);
        assert forall|id: Seq<u8>| found + before.push(id) == #[trigger] (found + before).push(
            id,
        ) by {
            assert(found + before.push(id) =~= (found + before).push(id));
        }
    }
    reveal_with_fuel(search_entries, 2);
    assert(seq![e].drop_last() =~= Seq::<FossilTimelineEntryView>::empty());
    assert(search_entries(seq![e], query, case_sensitive) =~= (if oid_of_hash(e.hash) is Some
        && entry_matches(e, query, case_sensitive) {
        seq![oid_of_hash(e.hash)->0]
    } else {
        seq![]
    }));
}

} // verus!
