//! The details and the changes of one check-in or stash.

use crate::commands::{four_args, push_arg, two_args};
use crate::commit::{
    cached_fossil_commit_data, fossil_commit_data, fossil_commit_info, or_empty, CommitCache,
    CommitData, CommitDataView,
};
use crate::diff::{no_diff, CommitDiff, CommitDiffView};
use crate::digits::decimal_text;
use crate::error::{FossilError, FossilErrorView};
use crate::index::push_item;
use crate::info::{copy_text, parse_fossil_info, FossilCommitInfoView, FossilInfo, FossilInfoView};
use crate::oid::{fossil_stash_id_from_oid, Oid};
use crate::path::PathStyle;
use crate::stash::{parse_fossil_stash_list, StashEntryView};
use crate::text::{is_text, to_chars};
use vstd::prelude::*;
use vstd::string::*;

verus! {

// ---------------------------------------------------------------------------
// The checkout by name
// ---------------------------------------------------------------------------

/// Whether a name stands for the check-in of the checkout.
pub open spec fn names_checkout(name: Seq<char>) -> bool {
    name == "HEAD"@ || name == "checkout"@ || name == "current"@
}

/// Whether a name stands for the check-in of the checkout.
pub fn is_checkout_name(name: &str) -> (r: bool)
    ensures
        r == names_checkout(name@),
{
    let chars = to_chars(name);
    is_text(chars.as_slice(), "HEAD") || is_text(chars.as_slice(), "checkout") || is_text(
        chars.as_slice(),
        "current",
    )
}

/// The hashes that names stand for: only the check-in of the checkout has names.
pub open spec fn named_hashes(names: Seq<Seq<char>>, info: FossilInfoView) -> Seq<
    Option<Seq<char>>,
> {
    Seq::new(
        names.len(),
        |i: int|
            if names_checkout(names[i]) {
                info.checkout
            } else {
                None
            },
    )
}

/// The hashes that names stand for.
pub fn revparse_batch(revs: &Vec<String>, info: &FossilInfo) -> (r: Vec<Option<String>>)
    ensures
        r.deep_view() == named_hashes(revs.deep_view(), info.deep_view()),
{
    let ghost all = named_hashes(revs.deep_view(), info.deep_view());
    let mut r: Vec<Option<String>> = Vec::new();
    for i in 0..revs.len()
        invariant
            all == named_hashes(revs.deep_view(), info.deep_view()),
            r.deep_view() == all.take(i as int),
    {
        let hash = if is_checkout_name(revs[i].as_str()) {
            copy_text(&info.checkout)
        } else {
            None
        };
        push_item(&mut r, hash);
        assert(r.deep_view() == all.take(i + 1));
    }
    assert(all.take(revs@.len() as int) == all);
    r
}

// ---------------------------------------------------------------------------
// Details
// ---------------------------------------------------------------------------

/// The details of a check-in.
#[derive(Debug)]
pub struct CommitDetails {
    pub sha: String,
    pub message: String,
    pub commit_timestamp: i64,
    pub author_email: String,
    pub author_name: String,
}

/// The details of a check-in, as texts.
pub struct CommitDetailsView {
    pub sha: Seq<char>,
    pub message: Seq<char>,
    pub commit_timestamp: int,
    pub author_email: Seq<char>,
    pub author_name: Seq<char>,
}

impl DeepView for CommitDetails {
    type V = CommitDetailsView;

    open spec fn deep_view(&self) -> CommitDetailsView {
        CommitDetailsView {
            sha: self.sha@,
            message: self.message@,
            commit_timestamp: self.commit_timestamp as int,
            author_email: self.author_email@,
            author_name: self.author_name@,
        }
    }
}

/// What is to be done for the details of a check-in.
#[derive(Debug)]
pub enum ShowStep {
    /// Nothing more: these are the details.
    Done(CommitDetails),
    /// Run `fossil stash list` and go on with [`show_stash`].
    AskStashes { stash_id: usize },
    /// Run `fossil info`, take the hash that [`show_checkout`] finds, run
    /// `fossil info` for that hash and go on with [`show_commit`].
    AskCheckout,
    /// Run `fossil info` for this check-in and go on with [`show_commit`].
    AskCommit(String),
}

/// What is to be done for the details of a check-in, as texts.
pub enum ShowStepView {
    Done(CommitDetailsView),
    AskStashes { stash_id: nat },
    AskCheckout,
    AskCommit(Seq<char>),
}

impl DeepView for ShowStep {
    type V = ShowStepView;

    open spec fn deep_view(&self) -> ShowStepView {
        match *self {
            ShowStep::Done(details) => ShowStepView::Done(details.deep_view()),
            ShowStep::AskStashes { stash_id } => ShowStepView::AskStashes {
                stash_id: stash_id as nat,
            },
            ShowStep::AskCheckout => ShowStepView::AskCheckout,
            ShowStep::AskCommit(commit) => ShowStepView::AskCommit(commit@),
        }
    }
}

/// The details of a check-in with its id.
pub open spec fn data_details(data: CommitDataView) -> CommitDetailsView {
    CommitDetailsView {
        sha: crate::oid::oid_text(data.sha),
        message: data.message,
        commit_timestamp: data.commit_timestamp,
        author_email: data.author_email,
        author_name: data.author_name,
    }
}

/// How the details of a check-in are found: a stash in the list of stashes, a
/// check-in that is cached in the cache, and any other with `fossil info`.
pub open spec fn show_step(cache: Map<Seq<u8>, CommitDataView>, commit: Seq<char>) -> ShowStepView {
    match crate::oid::stash_id(commit) {
        Some(stash_id) => ShowStepView::AskStashes { stash_id },
        None => match crate::commit::cached_commit(cache, commit) {
            Some(data) => ShowStepView::Done(data_details(data)),
            None => if names_checkout(commit) {
                ShowStepView::AskCheckout
            } else {
                ShowStepView::AskCommit(commit)
            },
        },
    }
}

/// Begins to look for the details of a check-in.
pub fn show(cache: &CommitCache, commit: &str) -> (r: ShowStep)
    ensures
        r.deep_view() == show_step(cache@, commit@),
{
    if let Some(stash_id) = fossil_stash_id_from_oid(commit) {
        return ShowStep::AskStashes { stash_id };
    }
    if let Some(data) = cached_fossil_commit_data(cache, commit) {
        return ShowStep::Done(
            CommitDetails {
                sha: data.sha.to_string(),
                message: data.message,
                commit_timestamp: data.commit_timestamp,
                author_email: data.author_email,
                author_name: data.author_name,
            },
        );
    }
    if is_checkout_name(commit) {
        ShowStep::AskCheckout
    } else {
        ShowStep::AskCommit(commit.to_owned())
    }
}

/// The stash with a number.
pub open spec fn stash_with_index(entries: Seq<StashEntryView>, index: nat) -> Option<StashEntryView>
    decreases entries.len(),
{
    if entries.len() == 0 {
        None
    } else if entries[0].index == index {
        Some(entries[0])
    } else {
        stash_with_index(entries.skip(1), index)
    }
}

/// Law: a stash is found by its number, wherever it stands in the list.
pub proof fn law_stash_is_found_by_number(entries: Seq<StashEntryView>, i: int)
    requires
        0 <= i < entries.len(),
        forall|k: int| 0 <= k < i ==> (#[trigger] entries[k]).index != entries[i].index,
    ensures
        stash_with_index(entries, entries[i].index) == Some(entries[i]),
    decreases i,
{
    if i > 0 {
        let tail = entries.skip(1);
        assert(entries[0].index != entries[i].index);
        assert(tail[i - 1] == entries[i]);
        assert forall|k: int| 0 <= k < i - 1 implies (#[trigger] tail[k]).index
            != tail[i - 1].index by {
            assert(tail[k] == entries[k + 1]);
        }
        law_stash_is_found_by_number(tail, i - 1);
    }
}

/// The details of a stash; one that is not in the list is shown by its number.
pub open spec fn stash_details(commit: Seq<char>, stash: Option<StashEntryView>, stash_id: nat) -> CommitDetailsView {
    CommitDetailsView {
        sha: commit,
        message: match stash {
            Some(entry) => entry.message,
            None => "Fossil stash "@ + crate::digits::decimal(stash_id),
        },
        commit_timestamp: match stash {
            Some(entry) => entry.timestamp,
            None => 0,
        },
        author_email: seq![],
        author_name: "Fossil stash"@,
    }
}

/// The details of a stash, from the output of `fossil stash list`.
pub fn show_stash(commit: &str, stash_id: usize, output: &str) -> (r: Result<
    CommitDetails,
    FossilError,
>)
    ensures
        crate::error::result_view(r) == Ok::<CommitDetailsView, FossilErrorView>(
            stash_details(
                commit@,
                stash_with_index(crate::stash::stash_list(output@), stash_id as nat),
                stash_id as nat,
            ),
        ),
{
    let stash = match parse_fossil_stash_list(output) {
        Ok(stash) => stash,
        Err(error) => return Err(error),
    };
    let ghost all = stash.entries.deep_view();
    let mut found: Option<usize> = None;
    let mut i: usize = 0;
    assert(all.skip(0) == all);
    while i < stash.entries.len() && found.is_none()
        invariant
            i <= stash.entries@.len(),
            all == stash.entries.deep_view(),
            match found {
                Some(k) => k < stash.entries@.len() && stash_with_index(all, stash_id as nat)
                    == Some(all[k as int]),
                None => stash_with_index(all, stash_id as nat) == stash_with_index(
                    all.skip(i as int),
                    stash_id as nat,
                ),
            },
        decreases
                stash.entries@.len() - i + (if found is None {
                    1int
                } else {
                    0
                }),
    {
        assert(all.skip(i as int)[0] == stash.entries@[i as int].deep_view());
        if stash.entries[i].index == stash_id {
            assert(all[i as int] == stash.entries@[i as int].deep_view());
            found = Some(i);
        } else {
            assert(all.skip(i as int).skip(1) == all.skip(i + 1));
            i = i + 1;
        }
    }
    let (message, commit_timestamp) = match found {
        Some(k) => (stash.entries[k].message.clone(), stash.entries[k].timestamp),
        None => (
            "Fossil stash ".to_owned().concat(decimal_text(stash_id as u64).as_str()),
            0,
        ),
    };
    let details = CommitDetails {
        sha: commit.to_owned(),
        message,
        commit_timestamp,
        author_email: String::new(),
        author_name: "Fossil stash".to_owned(),
    };
    assert(details.author_email@ == Seq::<char>::empty());
    Ok(details)
}

/// The check-in of the checkout, which must be known.
pub open spec fn checkout_hash(output: Seq<char>, style: PathStyle) -> Result<
    Seq<char>,
    FossilErrorView,
> {
    match crate::info::checkout_info(output, style).checkout {
        Some(hash) => Ok(hash),
        None => Err(FossilErrorView::CheckoutHashUnavailable),
    }
}

/// The check-in of the checkout, from the output of `fossil info`.
pub fn show_checkout(output: &str, style: PathStyle) -> (r: Result<String, FossilError>)
    ensures
        crate::error::result_view(r) == checkout_hash(output@, style),
{
    match parse_fossil_info(output, style).checkout {
        Some(hash) => Ok(hash),
        None => Err(FossilError::CheckoutHashUnavailable),
    }
}

/// The details of a check-in.
pub open spec fn info_details(info: FossilCommitInfoView) -> CommitDetailsView {
    CommitDetailsView {
        sha: info.hash,
        message: info.comment,
        commit_timestamp: info.timestamp,
        author_email: seq![],
        author_name: crate::commit::text_or_empty(info.user),
    }
}

/// The details in the output of `fossil info` for a check-in.
pub open spec fn output_details(commit: Seq<char>, output: Seq<char>) -> Result<
    CommitDetailsView,
    FossilErrorView,
> {
    match crate::commit::commit_info_for(commit, output) {
        Ok(info) => Ok(info_details(info)),
        Err(error) => Err(error),
    }
}

/// The details of a check-in, from the output of `fossil info` for it.
pub fn show_commit(commit: &str, output: &str) -> (r: Result<CommitDetails, FossilError>)
    ensures
        crate::error::result_view(r) == output_details(commit@, output@),
{
    match fossil_commit_info(commit, output) {
        Ok(info) => {
            let author_name = or_empty(&info.user);
            let details = CommitDetails {
                sha: info.hash,
                message: info.comment,
                commit_timestamp: info.timestamp,
                author_email: String::new(),
                author_name,
            };
            assert(details.author_email@ == Seq::<char>::empty());
            Ok(details)
        },
        Err(error) => Err(error),
    }
}

/// Law: whatever is shown of a cached check-in is what `fossil info` said of it,
/// where its hash has forty digits in lower case.
pub proof fn law_cached_details_agree(
    cache: Map<Seq<u8>, CommitDataView>,
    commit: Seq<char>,
    info: FossilCommitInfoView,
)
    requires
        info.hash.len() == 40,
        forall|i: int| 0 <= i < 40 ==> crate::oid::is_lower_hex(#[trigger] info.hash[i]),
        crate::commit::commit_data(commit, info) is Ok,
        crate::oid::stash_id(info.hash) is None,
    ensures
        show_step(
            cache.insert(
                crate::commit::commit_data(commit, info)->Ok_0.sha,
                crate::commit::commit_data(commit, info)->Ok_0,
            ),
            info.hash,
        ) == ShowStepView::Done(info_details(info)),
{
    let data = crate::commit::commit_data(commit, info)->Ok_0;
    assert(crate::oid::oid_of_hash(info.hash) == Some(data.sha));
    let hash = info.hash;
    assert(crate::oid::is_lower_hex(hash[0]) && crate::oid::is_lower_hex(hash[39]));
    assert(crate::text::trim(hash) == hash);
    assert(hash.take(40) == hash);
    crate::oid::law_oid_text_is_written_back(hash);
}

// ---------------------------------------------------------------------------
// Changes
// ---------------------------------------------------------------------------

/// How every diff is printed: with whole files for context.
pub open spec fn diff_options() -> Seq<Seq<char>> {
    seq!["--verbose"@, "--context"@, "-1"@, "--internal"@, "--unified"@]
}

/// The arguments that print the changes of a stash.
pub open spec fn stash_diff_args(stash_id: nat) -> Seq<Seq<char>> {
    seq!["stash"@, "show"@, crate::digits::decimal(stash_id)] + diff_options()
}

/// The arguments that print the changes from one check-in to another.
pub open spec fn diff_args(from: Seq<char>, to: Seq<char>) -> Seq<Seq<char>> {
    seq!["diff"@, "--from"@, from, "--to"@, to] + diff_options()
}

/// Appends the options of every diff.
fn push_diff_options(args: &mut Vec<String>)
    ensures
        final(args).deep_view() == old(args).deep_view() + diff_options(),
{
    push_arg(args, "--verbose");
    push_arg(args, "--context");
    push_arg(args, "-1");
    push_arg(args, "--internal");
    push_arg(args, "--unified");
    assert(args.deep_view() =~= old(args).deep_view() + diff_options());
}

/// The arguments that print the changes of a stash.
pub fn fossil_stash_diff_args(stash_id: usize) -> (r: Vec<String>)
    ensures
        r.deep_view() == stash_diff_args(stash_id as nat),
{
    let mut args = two_args("stash", "show");
    push_arg(&mut args, decimal_text(stash_id as u64).as_str());
    assert(args.deep_view() =~= seq![
        "stash"@,
        "show"@,
        crate::digits::decimal(stash_id as nat),
    ]);
    push_diff_options(&mut args);
    args
}

/// The arguments that print the changes from one check-in to another.
pub fn fossil_diff_args(from: &str, to: &str) -> (r: Vec<String>)
    ensures
        r.deep_view() == diff_args(from@, to@),
{
    let mut args = four_args("diff", "--from", from, "--to");
    push_arg(&mut args, to);
    assert(args.deep_view() =~= seq!["diff"@, "--from"@, from@, "--to"@, to@]);
    push_diff_options(&mut args);
    args
}

/// Where the changes of a check-in come from.
#[derive(Debug)]
pub enum DiffSource {
    /// These are the changes.
    Done(CommitDiff),
    /// Run `fossil` with these arguments; its output is a unified diff.
    Diff(Vec<String>),
}

/// Where the changes of a check-in come from, as texts.
pub enum DiffSourceView {
    Done(CommitDiffView),
    Diff(Seq<Seq<char>>),
}

impl DeepView for DiffSource {
    type V = DiffSourceView;

    open spec fn deep_view(&self) -> DiffSourceView {
        match *self {
            DiffSource::Done(diff) => DiffSourceView::Done(diff.deep_view()),
            DiffSource::Diff(args) => DiffSourceView::Diff(args.deep_view()),
        }
    }
}

/// What is to be done for the changes of a check-in.
#[derive(Debug)]
pub enum LoadStep {
    /// It is known where the changes come from.
    Known(DiffSource),
    /// Run `fossil info` for the check-in and go on with [`load_after_info`].
    AskCommit,
}

/// What is to be done for the changes of a check-in, as texts.
pub enum LoadStepView {
    Known(DiffSourceView),
    AskCommit,
}

impl DeepView for LoadStep {
    type V = LoadStepView;

    open spec fn deep_view(&self) -> LoadStepView {
        match *self {
            LoadStep::Known(source) => LoadStepView::Known(source.deep_view()),
            LoadStep::AskCommit => LoadStepView::AskCommit,
        }
    }
}

/// How the changes of a check-in are found: they are those from its first parent;
/// a check-in without a parent has none.
pub open spec fn load_step(cache: Map<Seq<u8>, CommitDataView>, commit: Seq<char>) -> LoadStepView {
    match crate::oid::stash_id(commit) {
        Some(stash_id) => LoadStepView::Known(DiffSourceView::Diff(stash_diff_args(stash_id))),
        None => match crate::commit::cached_commit(cache, commit) {
            Some(data) => LoadStepView::Known(
                if data.parents.len() == 0 {
                    DiffSourceView::Done(crate::diff::empty_diff())
                } else {
                    DiffSourceView::Diff(
                        diff_args(
                            crate::oid::oid_text(data.parents[0]),
                            crate::oid::oid_text(data.sha),
                        ),
                    )
                },
            ),
            None => LoadStepView::AskCommit,
        },
    }
}

/// Begins to look for the changes of a check-in.
pub fn load_commit(cache: &CommitCache, commit: &str) -> (r: LoadStep)
    ensures
        r.deep_view() == load_step(cache@, commit@),
{
    if let Some(stash_id) = fossil_stash_id_from_oid(commit) {
        return LoadStep::Known(DiffSource::Diff(fossil_stash_diff_args(stash_id)));
    }
    match cached_fossil_commit_data(cache, commit) {
        Some(data) => match data.parents.get(0) {
            Some(parent) => LoadStep::Known(
                DiffSource::Diff(
                    fossil_diff_args(parent.to_string().as_str(), data.sha.to_string().as_str()),
                ),
            ),
            None => LoadStep::Known(DiffSource::Done(no_diff())),
        },
        None => LoadStep::AskCommit,
    }
}

/// How the changes of a check-in are found when `fossil info` was asked for it.
pub open spec fn diff_source_of_info(commit: Seq<char>, output: Seq<char>) -> Result<
    DiffSourceView,
    FossilErrorView,
> {
    match crate::commit::commit_info_for(commit, output) {
        Ok(info) => Ok(
            if info.parents.len() == 0 {
                DiffSourceView::Done(crate::diff::empty_diff())
            } else {
                DiffSourceView::Diff(diff_args(info.parents[0], info.hash))
            },
        ),
        Err(error) => Err(error),
    }
}

/// Goes on with the output of `fossil info` for the check-in.
pub fn load_after_info(commit: &str, output: &str) -> (r: Result<DiffSource, FossilError>)
    ensures
        crate::error::result_view(r) == diff_source_of_info(commit@, output@),
{
    match fossil_commit_info(commit, output) {
        Ok(info) => {
            assert(info.parents.deep_view().len() == info.parents@.len());
            if info.parents.len() == 0 {
                Ok(DiffSource::Done(no_diff()))
            } else {
                assert(info.parents.deep_view()[0] == info.parents@[0]@);
                Ok(
                    DiffSource::Diff(
                        fossil_diff_args(info.parents[0].as_str(), info.hash.as_str()),
                    ),
                )
            }
        },
        Err(error) => Err(error),
    }
}

// ---------------------------------------------------------------------------
// Reading check-ins through the cache
// ---------------------------------------------------------------------------

/// The cached check-in with an id. If there is none, run `fossil info` for the
/// digits of the id and go on with [`read_commit_output`].
pub fn read_cached_commit(cache: &CommitCache, id: &Oid) -> (r: Option<CommitData>)
    ensures
        r.deep_view() == crate::unique_map::lookup(cache@, id@),
{
    match cache.get(id) {
        Some(data) => Some(data.clone()),
        None => None,
    }
}

/// Reads a check-in from the output of `fossil info` for the digits of an id,
/// and keeps it.
pub fn read_commit_output(cache: &mut CommitCache, id: &Oid, output: &str) -> (r: Result<
    CommitData,
    FossilError,
>)
    ensures
        crate::error::result_view(r) == crate::commit::commit_data_for(
            crate::oid::oid_text(id@),
            output@,
        ),
        match r {
            Ok(data) => final(cache)@ == old(cache)@.insert(data.sha@, data.deep_view()),
            Err(_) => final(cache)@ == old(cache)@,
        },
{
    match fossil_commit_data(id.to_string().as_str(), output) {
        Ok(data) => {
            cache.insert(data.sha, data.clone());
            Ok(data)
        },
        Err(error) => Err(error),
    }
}

} // verus!
