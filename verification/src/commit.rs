//! Check-ins as the rest of the program sees them, and the cache of those that
//! were loaded.

use crate::error::{FossilError, FossilErrorView};
use crate::info::{FossilCommitInfo, FossilCommitInfoView};
use crate::oid::{fossil_oid_from_hash, Oid};
use crate::unique_map::UniqueMap;
use crate::parents::Parents;
use crate::text::{split_lines, to_chars, to_text};
use vstd::prelude::*;
use vstd::string::*;

verus! {

/// The first line of a text, empty if it has none.
pub open spec fn first_line(s: Seq<char>) -> Seq<char> {
    if crate::text::lines(s).len() > 0 {
        crate::text::lines(s)[0]
    } else {
        seq![]
    }
}

/// The first line of a text.
pub fn first_line_of(text: &str) -> (r: String)
    ensures
        r@ == first_line(text@),
{
    let chars = to_chars(text);
    let lines = split_lines(chars.as_slice());
    assert(crate::text::texts(lines@).len() == lines@.len());
    if lines.len() > 0 {
        assert(crate::text::texts(lines@)[0] == lines@[0]@);
        to_text(lines[0])
    } else {
        String::new()
    }
}

/// An optional text, or the empty one.
pub open spec fn text_or_empty(text: Option<Seq<char>>) -> Seq<char> {
    match text {
        Some(text) => text,
        None => seq![],
    }
}

/// An optional text, or the empty one.
pub fn or_empty(text: &Option<String>) -> (r: String)
    ensures
        r@ == text_or_empty(text.deep_view()),
{
    match text {
        Some(text) => text.clone(),
        None => String::new(),
    }
}

// ---------------------------------------------------------------------------
// Reading a check-in
// ---------------------------------------------------------------------------

/// What the output of `fossil info` for `commit` says, or that it says nothing
/// of a check-in.
pub open spec fn commit_info_for(commit: Seq<char>, output: Seq<char>) -> Result<
    FossilCommitInfoView,
    FossilErrorView,
> {
    match crate::info::commit_info(output) {
        Ok(info) => Ok(info),
        Err(_) => Err(FossilErrorView::CommitInfo(commit)),
    }
}

/// Reads the output of `fossil info` for `commit`.
pub fn fossil_commit_info(commit: &str, output: &str) -> (r: Result<FossilCommitInfo, FossilError>)
    ensures
        crate::error::result_view(r) == commit_info_for(commit@, output@),
{
    match crate::info::parse_fossil_commit_info(output) {
        Ok(info) => Ok(info),
        Err(_) => Err(FossilError::CommitInfo(commit.to_owned())),
    }
}

// ---------------------------------------------------------------------------
// Summaries
// ---------------------------------------------------------------------------

/// A check-in in brief.
#[derive(Debug)]
pub struct CommitSummary {
    pub sha: String,
    pub subject: String,
    pub commit_timestamp: i64,
    pub author_name: String,
    pub has_parent: bool,
}

/// A check-in in brief, as texts.
pub struct CommitSummaryView {
    pub sha: Seq<char>,
    pub subject: Seq<char>,
    pub commit_timestamp: int,
    pub author_name: Seq<char>,
    pub has_parent: bool,
}

impl DeepView for CommitSummary {
    type V = CommitSummaryView;

    open spec fn deep_view(&self) -> CommitSummaryView {
        CommitSummaryView {
            sha: self.sha@,
            subject: self.subject@,
            commit_timestamp: self.commit_timestamp as int,
            author_name: self.author_name@,
            has_parent: self.has_parent,
        }
    }
}

impl Clone for CommitSummary {
    fn clone(&self) -> (r: CommitSummary)
        ensures
            r.deep_view() == self.deep_view(),
    {
        CommitSummary {
            sha: self.sha.clone(),
            subject: self.subject.clone(),
            commit_timestamp: self.commit_timestamp,
            author_name: self.author_name.clone(),
            has_parent: self.has_parent,
        }
    }
}

/// The brief form of a check-in.
pub open spec fn commit_summary(info: FossilCommitInfoView) -> CommitSummaryView {
    CommitSummaryView {
        sha: info.hash,
        subject: first_line(info.comment),
        commit_timestamp: info.timestamp,
        author_name: text_or_empty(info.user),
        has_parent: info.parents.len() > 0,
    }
}

/// The brief form of a check-in.
pub fn fossil_commit_summary_from_info(info: &FossilCommitInfo) -> (r: CommitSummary)
    ensures
        r.deep_view() == commit_summary(info.deep_view()),
{
    CommitSummary {
        sha: info.hash.clone(),
        subject: first_line_of(info.comment.as_str()),
        commit_timestamp: info.timestamp,
        author_name: or_empty(&info.user),
        has_parent: info.parents.len() > 0,
    }
}

// ---------------------------------------------------------------------------
// Check-ins with ids
// ---------------------------------------------------------------------------

/// A check-in with its id.
#[derive(Debug)]
pub struct CommitData {
    pub sha: Oid,
    pub parents: Parents,
    pub author_name: String,
    pub author_email: String,
    pub commit_timestamp: i64,
    pub subject: String,
    pub message: String,
}

/// A check-in with its id, as texts and bytes.
pub struct CommitDataView {
    pub sha: Seq<u8>,
    pub parents: Seq<Seq<u8>>,
    pub author_name: Seq<char>,
    pub author_email: Seq<char>,
    pub commit_timestamp: int,
    pub subject: Seq<char>,
    pub message: Seq<char>,
}

impl DeepView for CommitData {
    type V = CommitDataView;

    open spec fn deep_view(&self) -> CommitDataView {
        CommitDataView {
            sha: self.sha@,
            parents: self.parents.deep_view(),
            author_name: self.author_name@,
            author_email: self.author_email@,
            commit_timestamp: self.commit_timestamp as int,
            subject: self.subject@,
            message: self.message@,
        }
    }
}

impl Clone for CommitData {
    fn clone(&self) -> (r: CommitData)
        ensures
            r.deep_view() == self.deep_view(),
    {
        CommitData {
            sha: self.sha,
            parents: self.parents.clone(),
            author_name: self.author_name.clone(),
            author_email: self.author_email.clone(),
            commit_timestamp: self.commit_timestamp,
            subject: self.subject.clone(),
            message: self.message.clone(),
        }
    }
}

/// The ids of those hashes that have one.
pub open spec fn hash_ids(hashes: Seq<Seq<char>>) -> Seq<Seq<u8>>
    decreases hashes.len(),
{
    if hashes.len() == 0 {
        seq![]
    } else {
        let before = hash_ids(hashes.drop_last());
        match crate::oid::oid_of_hash(hashes.last()) {
            Some(id) => before.push(id),
            None => before,
        }
    }
}

/// A check-in with its id, asked for as `commit`; its hash must have an id.
pub open spec fn commit_data(commit: Seq<char>, info: FossilCommitInfoView) -> Result<
    CommitDataView,
    FossilErrorView,
> {
    match crate::oid::oid_of_hash(info.hash) {
        None => Err(FossilErrorView::HashNotOid(commit)),
        Some(sha) => Ok(
            CommitDataView {
                sha,
                parents: hash_ids(info.parents),
                author_name: text_or_empty(info.user),
                author_email: seq![],
                commit_timestamp: info.timestamp,
                subject: first_line(info.comment),
                message: info.comment,
            },
        ),
    }
}

/// The ids of those parents that have one.
fn parents_of(hashes: &Vec<String>) -> (r: Parents)
    ensures
        r.deep_view() == hash_ids(hashes.deep_view()),
{
    let ghost all = hashes.deep_view();
    let mut r = Parents::new();
    let mut i: usize = 0;
    assert(all.take(0) == Seq::<Seq<char>>::empty());
    while i < hashes.len()
        invariant
            i <= hashes@.len(),
            all == hashes.deep_view(),
            r.deep_view() == hash_ids(all.take(i as int)),
        decreases hashes@.len() - i,
    {
        assert(all.take(i + 1).drop_last() == all.take(i as int));
        assert(all.take(i + 1).last() == hashes@[i as int]@);
        if let Some(id) = fossil_oid_from_hash(hashes[i].as_str()) {
            r.push(id);
        }
        i = i + 1;
    }
    assert(all.take(i as int) == all);
    r
}

/// The check-in with its id.
pub fn fossil_commit_data_from_info(commit: &str, info: FossilCommitInfo) -> (r: Result<
    CommitData,
    FossilError,
>)
    ensures
        crate::error::result_view(r) == commit_data(commit@, info.deep_view()),
{
    match fossil_oid_from_hash(info.hash.as_str()) {
        None => Err(FossilError::HashNotOid(commit.to_owned())),
        Some(sha) => {
            let r = CommitData {
                sha,
                parents: parents_of(&info.parents),
                author_name: or_empty(&info.user),
                author_email: String::new(),
                commit_timestamp: info.timestamp,
                subject: first_line_of(info.comment.as_str()),
                message: info.comment,
            };
            assert(r.author_email@ == Seq::<char>::empty());
            Ok(r)
        },
    }
}

/// What the output of `fossil info` for `commit` says of a check-in with its id.
pub open spec fn commit_data_for(commit: Seq<char>, output: Seq<char>) -> Result<
    CommitDataView,
    FossilErrorView,
> {
    match commit_info_for(commit, output) {
        Ok(info) => commit_data(commit, info),
        Err(error) => Err(error),
    }
}

/// Reads a check-in with its id from the output of `fossil info` for `commit`.
pub fn fossil_commit_data(commit: &str, output: &str) -> (r: Result<CommitData, FossilError>)
    ensures
        crate::error::result_view(r) == commit_data_for(commit@, output@),
{
    match fossil_commit_info(commit, output) {
        Ok(info) => fossil_commit_data_from_info(commit, info),
        Err(error) => Err(error),
    }
}

// ---------------------------------------------------------------------------
// The cache
// ---------------------------------------------------------------------------

/// The check-ins that were loaded, each under its id.
pub type CommitCache = UniqueMap<Oid, CommitData>;

/// The cached check-in with a hash.
pub open spec fn cached_commit(
    cache: Map<Seq<u8>, CommitDataView>,
    commit: Seq<char>,
) -> Option<CommitDataView> {
    match crate::oid::oid_of_hash(commit) {
        Some(id) => crate::unique_map::lookup(cache, id),
        None => None,
    }
}

/// The cached check-in with a hash.
pub fn cached_fossil_commit_data(cache: &CommitCache, commit: &str) -> (r: Option<CommitData>)
    ensures
        r.deep_view() == cached_commit(cache@, commit@),
{
    match fossil_oid_from_hash(commit) {
        Some(id) => match cache.get(&id) {
            Some(data) => Some(data.clone()),
            None => None,
        },
        None => None,
    }
}

/// Law: what was cached under an id is found under every hash with that id, and
/// nothing else changes.
pub proof fn law_cache_finds_what_was_put_in(
    cache: Map<Seq<u8>, CommitDataView>,
    data: CommitDataView,
    commit: Seq<char>,
)
    ensures
        cached_commit(cache.insert(data.sha, data), commit) == (if crate::oid::oid_of_hash(commit)
            == Some(data.sha) {
            Some(data)
        } else {
            cached_commit(cache, commit)
        }),
{
}

} // verus!
