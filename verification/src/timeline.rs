//! The timeline: what it lists, how it is searched, and the graph of check-ins.

use crate::branch::{branch_ref_of, fossil_branch_name};
use crate::commands::{one_arg, push_arg};
use crate::commit::{
    fossil_commit_data_from_info, CommitCache, CommitDataView,
};
use crate::digits::decimal_text;
use crate::error::{FossilError, FossilErrorView};
use crate::index::push_item;
use crate::info::{FossilCommitInfo, FossilCommitInfoView};
use crate::oid::{fossil_oid_from_hash, Oid};
use crate::parents::Parents;
use crate::path::RepoPath;
use crate::text::{contains_text, split_at_char, split_lines, to_chars, to_text};
use vstd::prelude::*;
use vstd::string::*;

verus! {

// ---------------------------------------------------------------------------
// Asking for a timeline
// ---------------------------------------------------------------------------

/// What a timeline is about.
#[derive(Debug)]
pub enum LogSource {
    All,
    Branch(String),
    Sha(Oid),
    Path(RepoPath),
}

/// What a timeline is about, as text and bytes.
pub enum LogSourceView {
    All,
    Branch(Seq<char>),
    Sha(Seq<u8>),
    Path(Seq<char>),
}

impl DeepView for LogSource {
    type V = LogSourceView;

    open spec fn deep_view(&self) -> LogSourceView {
        match *self {
            LogSource::All => LogSourceView::All,
            LogSource::Branch(name) => LogSourceView::Branch(name@),
            LogSource::Sha(id) => LogSourceView::Sha(id@),
            LogSource::Path(path) => LogSourceView::Path(path@),
        }
    }
}

/// How the fields of a timeline entry are printed.
pub const FOSSIL_TIMELINE_FORMAT: &'static str = "%H\t%d\t%a\t%c\t%b\t%t";

/// The arguments of `fossil timeline` for at most `limit` check-ins, for all of
/// them if it is zero.
pub open spec fn timeline_args(source: LogSourceView, limit: nat) -> Seq<Seq<char>> {
    let start = match source {
        LogSourceView::Sha(id) => seq!["timeline"@, "ancestors"@, crate::oid::oid_text(id)],
        _ => seq!["timeline"@],
    };
    let middle = seq![
        "--type"@,
        "ci"@,
        "--limit"@,
        crate::digits::decimal(limit),
        "--format"@,
        FOSSIL_TIMELINE_FORMAT@,
    ];
    let end = match source {
        LogSourceView::Branch(name) => seq!["--branch"@, crate::branch::branch_name(name)],
        LogSourceView::Path(path) => seq!["--path"@, path],
        _ => seq![],
    };
    start + middle + end
}

/// The arguments of `fossil timeline`.
pub fn fossil_timeline_args(log_source: &LogSource, limit: usize) -> (r: Vec<String>)
    ensures
        r.deep_view() == timeline_args(log_source.deep_view(), limit as nat),
{
    let mut args = one_arg("timeline");
    if let LogSource::Sha(id) = log_source {
        push_arg(&mut args, "ancestors");
        push_arg(&mut args, id.to_string().as_str());
    }
    push_arg(&mut args, "--type");
    push_arg(&mut args, "ci");
    push_arg(&mut args, "--limit");
    push_arg(&mut args, decimal_text(limit as u64).as_str());
    push_arg(&mut args, "--format");
    push_arg(&mut args, FOSSIL_TIMELINE_FORMAT);
    match log_source {
        LogSource::Branch(name) => {
            push_arg(&mut args, "--branch");
            push_arg(&mut args, fossil_branch_name(name.as_str()).as_str());
        },
        LogSource::Path(path) => {
            push_arg(&mut args, "--path");
            push_arg(&mut args, path.as_unix_str());
        },
        _ => {},
    }
    assert(args.deep_view() =~= timeline_args(log_source.deep_view(), limit as nat));
    args
}

// ---------------------------------------------------------------------------
// Reading a timeline
// ---------------------------------------------------------------------------

/// One line of a timeline.
#[derive(Debug)]
pub struct FossilTimelineEntry {
    pub hash: String,
    pub date: String,
    pub author: String,
    pub comment: String,
    pub branch: String,
    pub tags: String,
}

/// One line of a timeline, as texts.
pub struct FossilTimelineEntryView {
    pub hash: Seq<char>,
    pub date: Seq<char>,
    pub author: Seq<char>,
    pub comment: Seq<char>,
    pub branch: Seq<char>,
    pub tags: Seq<char>,
}

impl DeepView for FossilTimelineEntry {
    type V = FossilTimelineEntryView;

    open spec fn deep_view(&self) -> FossilTimelineEntryView {
        FossilTimelineEntryView {
            hash: self.hash@,
            date: self.date@,
            author: self.author@,
            comment: self.comment@,
            branch: self.branch@,
            tags: self.tags@,
        }
    }
}

/// The entry in a line: exactly six fields with tabs between them.
pub open spec fn timeline_line(line: Seq<char>) -> Option<FossilTimelineEntryView> {
    let parts = crate::text::split(line, '\t');
    if parts.len() == 6 {
        Some(
            FossilTimelineEntryView {
                hash: parts[0],
                date: parts[1],
                author: parts[2],
                comment: parts[3],
                branch: parts[4],
                tags: parts[5],
            },
        )
    } else {
        None
    }
}

/// The entries in the given lines.
pub open spec fn timeline_lines(lines: Seq<Seq<char>>) -> Seq<FossilTimelineEntryView>
    decreases lines.len(),
{
    if lines.len() == 0 {
        seq![]
    } else {
        match timeline_line(lines.last()) {
            Some(entry) => timeline_lines(lines.drop_last()).push(entry),
            None => timeline_lines(lines.drop_last()),
        }
    }
}

/// The entries in the output of `fossil timeline`.
pub open spec fn timeline_entries(output: Seq<char>) -> Seq<FossilTimelineEntryView> {
    timeline_lines(crate::text::lines(output))
}

/// Reads one line of a timeline.
fn timeline_entry_of(line: &[char]) -> (r: Option<FossilTimelineEntry>)
    ensures
        r.deep_view() == timeline_line(line@),
{
    let parts = split_at_char(line, '\t');
    let ghost all = crate::text::texts(parts@);
    if parts.len() != 6 {
        return None;
    }
    let entry = FossilTimelineEntry {
        hash: to_text(parts[0]),
        date: to_text(parts[1]),
        author: to_text(parts[2]),
        comment: to_text(parts[3]),
        branch: to_text(parts[4]),
        tags: to_text(parts[5]),
    };
    assert(all[0] == parts@[0]@ && all[1] == parts@[1]@ && all[2] == parts@[2]@);
    assert(all[3] == parts@[3]@ && all[4] == parts@[4]@ && all[5] == parts@[5]@);
    Some(entry)
}

/// Reads the output of `fossil timeline`.
pub fn parse_fossil_timeline_entries(output: &str) -> (r: Vec<FossilTimelineEntry>)
    ensures
        r.deep_view() == timeline_entries(output@),
{
    let chars = to_chars(output);
    let lines = split_lines(chars.as_slice());
    let ghost all = crate::text::lines(output@);
    let mut r: Vec<FossilTimelineEntry> = Vec::new();
    let mut i: usize = 0;
    assert(all.take(0) == Seq::<Seq<char>>::empty());
    assert(r.deep_view() == Seq::<FossilTimelineEntryView>::empty());
    while i < lines.len()
        invariant
            i <= lines@.len(),
            crate::text::texts(lines@) == all,
            r.deep_view() == timeline_lines(all.take(i as int)),
        decreases lines@.len() - i,
    {
        assert(all.take(i + 1).drop_last() == all.take(i as int));
        assert(all.take(i + 1).last() == lines@[i as int]@);
        if let Some(entry) = timeline_entry_of(lines[i]) {
            push_item(&mut r, entry);
        }
        i = i + 1;
    }
    assert(all.take(i as int) == all);
    r
}

/// A line with the fields of an entry and tabs between them.
pub open spec fn entry_line(entry: FossilTimelineEntryView) -> Seq<char> {
    crate::text::join(
        seq![entry.hash, entry.date, entry.author, entry.comment, entry.branch, entry.tags],
        seq!['\t'],
    )
}

/// Law: an entry whose fields hold no tab is read back from its line.
pub proof fn law_timeline_entry_is_read_back(entry: FossilTimelineEntryView)
    requires
        !entry.hash.contains('\t'),
        !entry.date.contains('\t'),
        !entry.author.contains('\t'),
        !entry.comment.contains('\t'),
        !entry.branch.contains('\t'),
        !entry.tags.contains('\t'),
    ensures
        timeline_line(entry_line(entry)) == Some(entry),
{
    let fields = seq![
        entry.hash,
        entry.date,
        entry.author,
        entry.comment,
        entry.branch,
        entry.tags,
    ];
    crate::text::lemma_split_of_join(fields, '\t');
}

// ---------------------------------------------------------------------------
// The graph
// ---------------------------------------------------------------------------

/// A check-in in the graph.
#[derive(Debug)]
pub struct InitialGraphCommitData {
    pub sha: Oid,
    pub parents: Parents,
    pub ref_names: Vec<String>,
}

/// A check-in in the graph, as texts and bytes.
pub struct InitialGraphCommitDataView {
    pub sha: Seq<u8>,
    pub parents: Seq<Seq<u8>>,
    pub ref_names: Seq<Seq<char>>,
}

impl DeepView for InitialGraphCommitData {
    type V = InitialGraphCommitDataView;

    open spec fn deep_view(&self) -> InitialGraphCommitDataView {
        InitialGraphCommitDataView {
            sha: self.sha@,
            parents: self.parents.deep_view(),
            ref_names: self.ref_names.deep_view(),
        }
    }
}

/// How a tag of a check-in is shown: as the branch it names, or as a tag.
pub open spec fn ref_name(tag: Seq<char>, branch: Option<Seq<char>>) -> Seq<char> {
    if tag == "trunk"@ || branch == Some(tag) {
        crate::branch::branch_ref(tag)
    } else {
        "tag: "@ + tag
    }
}

/// How the tags of a check-in are shown.
pub open spec fn ref_names(info: FossilCommitInfoView) -> Seq<Seq<char>> {
    Seq::new(info.tags.len(), |i: int| ref_name(info.tags[i], info.branch))
}

/// How the tags of a check-in are shown.
pub fn fossil_ref_names(info: &FossilCommitInfo) -> (r: Vec<String>)
    ensures
        r.deep_view() == ref_names(info.deep_view()),
{
    let ghost all = ref_names(info.deep_view());
    let trunk = "trunk".to_owned();
    let mut r: Vec<String> = Vec::new();
    for i in 0..info.tags.len()
        invariant
            all == ref_names(info.deep_view()),
            trunk@ == "trunk"@,
            r.deep_view() == all.take(i as int),
    {
        let tag = &info.tags[i];
        assert(info.deep_view().tags[i as int] == tag@);
        let is_branch = match &info.branch {
            Some(branch) => *branch == *tag,
            None => false,
        };
        let name = if *tag == trunk || is_branch {
            branch_ref_of(tag.as_str())
        } else {
            "tag: ".to_owned().concat(tag.as_str())
        };
        push_item(&mut r, name);
        assert(r.deep_view() == all.take(i + 1));
    }
    assert(all.take(info.tags@.len() as int) == all);
    r
}

/// What was loaded of the graph, and the check-ins in the cache.
pub struct GraphState {
    pub commits: Seq<InitialGraphCommitDataView>,
    pub cache: Map<Seq<u8>, CommitDataView>,
}

/// What is loaded after one more check-in; one whose hash has no id is left out.
pub open spec fn graph_step(state: GraphState, hash: Seq<char>, info: FossilCommitInfoView) -> GraphState {
    match crate::commit::commit_data(hash, info) {
        Ok(data) => GraphState {
            commits: state.commits.push(
                InitialGraphCommitDataView {
                    sha: data.sha,
                    parents: data.parents,
                    ref_names: ref_names(info),
                },
            ),
            cache: state.cache.insert(data.sha, data),
        },
        Err(_) => state,
    }
}

/// What is loaded after the output of `fossil info` for one more check-in.
pub open spec fn graph_output(state: GraphState, hash: Seq<char>, output: Seq<char>) -> Result<
    GraphState,
    FossilErrorView,
> {
    match crate::commit::commit_info_for(hash, output) {
        Ok(info) => Ok(graph_step(state, hash, info)),
        Err(error) => Err(error),
    }
}

/// Loads one more check-in of the graph from the output of `fossil info` for it.
pub fn add_graph_commit(
    commits: &mut Vec<InitialGraphCommitData>,
    cache: &mut CommitCache,
    hash: &str,
    output: &str,
) -> (r: Result<(), FossilError>)
    ensures
        match graph_output(
            GraphState { commits: old(commits).deep_view(), cache: old(cache)@ },
            hash@,
            output@,
        ) {
            Ok(after) => r is Ok && final(commits).deep_view() == after.commits && final(cache)@
                == after.cache,
            Err(error) => r is Err && r->Err_0.deep_view() == error && final(commits).deep_view()
                == old(commits).deep_view() && final(cache)@ == old(cache)@,
        },
{
    match crate::commit::fossil_commit_info(hash, output) {
        Ok(info) => {
            let names = fossil_ref_names(&info);
            if let Ok(data) = fossil_commit_data_from_info(hash, info) {
                let commit = InitialGraphCommitData {
                    sha: data.sha,
                    parents: data.parents.clone(),
                    ref_names: names,
                };
                cache.insert(data.sha, data);
                push_item(commits, commit);
            }
            Ok(())
        },
        Err(error) => Err(error),
    }
}

/// What is loaded when every check-in of a timeline was asked for.
pub open spec fn graph_run(
    state: GraphState,
    hashes: Seq<Seq<char>>,
    infos: Seq<FossilCommitInfoView>,
) -> GraphState
    decreases hashes.len(),
{
    if hashes.len() == 0 || infos.len() != hashes.len() {
        state
    } else {
        graph_step(
            graph_run(state, hashes.drop_last(), infos.drop_last()),
            hashes.last(),
            infos.last(),
        )
    }
}

/// Law: every check-in that the graph shows is in the cache.
pub proof fn law_graph_commits_are_cached(
    state: GraphState,
    hashes: Seq<Seq<char>>,
    infos: Seq<FossilCommitInfoView>,
)
    requires
        forall|i: int|
            0 <= i < state.commits.len() ==> state.cache.dom().contains(
                (#[trigger] state.commits[i]).sha,
            ),
    ensures
        forall|i: int|
            0 <= i < graph_run(state, hashes, infos).commits.len() ==> graph_run(
                state,
                hashes,
                infos,
            ).cache.dom().contains((#[trigger] graph_run(state, hashes, infos).commits[i]).sha),
    decreases hashes.len(),
{
    if hashes.len() > 0 && infos.len() == hashes.len() {
        law_graph_commits_are_cached(state, hashes.drop_last(), infos.drop_last());
        let before = graph_run(state, hashes.drop_last(), infos.drop_last());
        let after = graph_run(state, hashes, infos);
        assert forall|i: int| 0 <= i < after.commits.len() implies after.cache.dom().contains(
            (#[trigger] after.commits[i]).sha,
        ) by {
            if i < before.commits.len() {
                assert(after.commits[i] == before.commits[i]);
            }
        }
    }
}

// ---------------------------------------------------------------------------
// Searching
// ---------------------------------------------------------------------------

/// A text in lower case, as Unicode defines it.
pub uninterp spec fn lowercase(s: Seq<char>) -> Seq<char>;

/// `str::to_lowercase` gives the text in lower case, which depends on the text
/// alone.
#[verifier::external_body]
fn to_lowercase(text: &str) -> (r: String)
    ensures
        r@ == lowercase(text@),
{
    text.to_lowercase()
}

/// The text of an entry that is searched: its fields with spaces between them.
pub open spec fn haystack(entry: FossilTimelineEntryView) -> Seq<char> {
    entry.hash + " "@ + entry.date + " "@ + entry.author + " "@ + entry.comment + " "@
        + entry.branch + " "@ + entry.tags
}

/// The text of an entry that is searched.
pub fn fossil_haystack(entry: &FossilTimelineEntry) -> (r: String)
    ensures
        r@ == haystack(entry.deep_view()),
{
    entry.hash.clone().concat(" ").concat(entry.date.as_str()).concat(" ").concat(
        entry.author.as_str(),
    ).concat(" ").concat(entry.comment.as_str()).concat(" ").concat(entry.branch.as_str()).concat(
        " ",
    ).concat(entry.tags.as_str())
}

/// Whether a query stands in a text, both already in the case that counts.
pub fn text_matches(text: &str, query: &str) -> (r: bool)
    ensures
        r == crate::text::contains(text@, query@),
{
    let text = to_chars(text);
    let query = to_chars(query);
    contains_text(text.as_slice(), query.as_slice())
}

/// Whether an entry matches a query.
pub open spec fn entry_matches(
    entry: FossilTimelineEntryView,
    query: Seq<char>,
    case_sensitive: bool,
) -> bool {
    if case_sensitive {
        crate::text::contains(haystack(entry), query)
    } else {
        crate::text::contains(lowercase(haystack(entry)), lowercase(query))
    }
}

/// The ids of the entries that match, in order; one without an id is left out.
pub open spec fn search_entries(
    entries: Seq<FossilTimelineEntryView>,
    query: Seq<char>,
    case_sensitive: bool,
) -> Seq<Seq<u8>>
    decreases entries.len(),
{
    if entries.len() == 0 {
        seq![]
    } else {
        let before = search_entries(entries.drop_last(), query, case_sensitive);
        match crate::oid::oid_of_hash(entries.last().hash) {
            Some(id) => if entry_matches(entries.last(), query, case_sensitive) {
                before.push(id)
            } else {
                before
            },
            None => before,
        }
    }
}

/// Law: a search finds exactly the ids of the entries that match.
pub proof fn law_search_finds_matches(
    entries: Seq<FossilTimelineEntryView>,
    query: Seq<char>,
    case_sensitive: bool,
    id: Seq<u8>,
)
    ensures
        search_entries(entries, query, case_sensitive).contains(id) <==> exists|i: int|
            0 <= i < entries.len() && entry_matches(#[trigger] entries[i], query, case_sensitive)
                && crate::oid::oid_of_hash(entries[i].hash) == Some(id),
    decreases entries.len(),
{
    let found = search_entries(entries, query, case_sensitive);
    if entries.len() > 0 {
        let head = entries.drop_last();
        let before = search_entries(head, query, case_sensitive);
        let last = entries.len() - 1;
        law_search_finds_matches(head, query, case_sensitive, id);
        assert(entries[last] == entries.last());
        if before.contains(id) {
            let k = before.index_of(id);
            assert(found[k] == id);
            let i = choose|i: int|
                0 <= i < head.len() && entry_matches(#[trigger] head[i], query, case_sensitive)
                    && crate::oid::oid_of_hash(head[i].hash) == Some(id);
            assert(entries[i] == head[i]);
        }
        if found.contains(id) && !before.contains(id) {
            let k = found.index_of(id);
            assert(k == before.len());
        }
        if exists|i: int|
            0 <= i < entries.len() && entry_matches(#[trigger] entries[i], query, case_sensitive)
                && crate::oid::oid_of_hash(entries[i].hash) == Some(id) {
            let i = choose|i: int|
                0 <= i < entries.len() && entry_matches(
                    #[trigger] entries[i],
                    query,
                    case_sensitive,
                ) && crate::oid::oid_of_hash(entries[i].hash) == Some(id);
            if i < last {
                assert(head[i] == entries[i]);
            } else {
                assert(found[before.len() as int] == id);
            }
        }
    }
}

/// Searches the output of `fossil timeline` for a query.
pub fn search_timeline(output: &str, query: &str, case_sensitive: bool) -> (r: Vec<Oid>)
    ensures
        r.deep_view() == search_entries(timeline_entries(output@), query@, case_sensitive),
{
    let wanted = if case_sensitive {
        query.to_owned()
    } else {
        to_lowercase(query)
    };
    let entries = parse_fossil_timeline_entries(output);
    let ghost all = entries.deep_view();
    let mut r: Vec<Oid> = Vec::new();
    let mut i: usize = 0;
    assert(all.take(0) == Seq::<FossilTimelineEntryView>::empty());
    assert(r.deep_view() == Seq::<Seq<u8>>::empty());
    while i < entries.len()
        invariant
            i <= entries@.len(),
            all == entries.deep_view(),
            wanted@ == (if case_sensitive {
                query@
            } else {
                lowercase(query@)
            }),
            r.deep_view() == search_entries(all.take(i as int), query@, case_sensitive),
        decreases entries@.len() - i,
    {
        assert(all.take(i + 1).drop_last() == all.take(i as int));
        assert(all.take(i + 1).last() == entries@[i as int].deep_view());
        let text = fossil_haystack(&entries[i]);
        let text = if case_sensitive {
            text
        } else {
            to_lowercase(text.as_str())
        };
        if text_matches(text.as_str(), wanted.as_str()) {
            if let Some(id) = fossil_oid_from_hash(entries[i].hash.as_str()) {
                push_item(&mut r, id);
            }
        }
        i = i + 1;
    }
    assert(all.take(i as int) == all);
    r
}

} // verus!
