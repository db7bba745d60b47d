//! The list of stashes.

use crate::digits::parse_up_to;
use crate::error::{FossilError, FossilErrorView};
use crate::index::push_item;
use crate::info::copy_text;
use crate::oid::{fossil_stash_oid, Oid};
use crate::text::{
    is_text, push_chars, split_lines, split_once_at, to_chars, trimmed, without_prefix,
};
use crate::timestamp::timestamp_of;
use vstd::prelude::*;
use vstd::string::*;

verus! {

/// One stash.
#[derive(Debug)]
pub struct StashEntry {
    pub index: usize,
    pub oid: Oid,
    pub message: String,
    pub branch: Option<String>,
    pub timestamp: i64,
}

/// One stash, as text and numbers.
pub struct StashEntryView {
    pub index: nat,
    pub oid: Seq<u8>,
    pub message: Seq<char>,
    pub branch: Option<Seq<char>>,
    pub timestamp: int,
}

impl DeepView for StashEntry {
    type V = StashEntryView;

    open spec fn deep_view(&self) -> StashEntryView {
        StashEntryView {
            index: self.index as nat,
            oid: self.oid@,
            message: self.message@,
            branch: self.branch.deep_view(),
            timestamp: self.timestamp as int,
        }
    }
}

impl Clone for StashEntry {
    fn clone(&self) -> (r: StashEntry)
        ensures
            r.deep_view() == self.deep_view(),
    {
        StashEntry {
            index: self.index,
            oid: self.oid,
            message: self.message.clone(),
            branch: copy_text(&self.branch),
            timestamp: self.timestamp,
        }
    }
}

/// All stashes.
#[derive(Debug)]
pub struct GitStash {
    pub entries: Vec<StashEntry>,
}

impl DeepView for GitStash {
    type V = Seq<StashEntryView>;

    open spec fn deep_view(&self) -> Seq<StashEntryView> {
        self.entries.deep_view()
    }
}

/// The time behind the hash in the first line of a stash, zero if there is none.
pub open spec fn stash_time(after_hash: Seq<char>) -> int {
    match crate::text::strip_prefix(crate::text::trim(after_hash), "on "@) {
        Some(date) => match crate::timestamp::timestamp(date) {
            Some(seconds) => seconds,
            None => 0,
        },
        None => 0,
    }
}

/// The stash that a line begins: `<number>: [<hash>] on <time>`.
pub open spec fn stash_header(line: Seq<char>) -> Option<StashEntryView> {
    match crate::text::split_once(line, ':') {
        None => None,
        Some((id, rest)) => match crate::digits::parse_number(
            crate::text::trim(id),
            10,
            usize::MAX as nat,
        ) {
            None => None,
            Some(index) => match crate::text::split_once(rest, ']') {
                None => None,
                Some((_, after_hash)) => Some(
                    StashEntryView {
                        index,
                        oid: crate::oid::oid_bytes(crate::oid::stash_oid_text(index)),
                        message: seq![],
                        branch: None,
                        timestamp: stash_time(after_hash),
                    },
                ),
            },
        },
    }
}

/// The stashes that were read, and the one that is being read.
pub struct StashState {
    pub done: Seq<StashEntryView>,
    pub current: Option<StashEntryView>,
}

/// All stashes of a state.
pub open spec fn stash_entries(state: StashState) -> Seq<StashEntryView> {
    match state.current {
        Some(entry) => state.done.push(entry),
        None => state.done,
    }
}

/// A message with one more line.
pub open spec fn add_message_line(message: Seq<char>, line: Seq<char>) -> Seq<char> {
    if message.len() == 0 {
        line
    } else {
        message.push('\n') + line
    }
}

/// What was read after one more line: a line that begins no stash belongs to the
/// message of the one before it.
pub open spec fn stash_line(state: StashState, line: Seq<char>) -> StashState {
    let text = crate::text::trim(line);
    if text.len() == 0 || text == "empty stash"@ {
        state
    } else {
        match stash_header(text) {
            Some(entry) => StashState { done: stash_entries(state), current: Some(entry) },
            None => match state.current {
                Some(entry) => StashState {
                    current: Some(
                        StashEntryView {
                            message: add_message_line(entry.message, text),
                            ..entry
                        },
                    ),
                    ..state
                },
                None => state,
            },
        }
    }
}

/// What was read after the given lines.
pub open spec fn stash_lines(lines: Seq<Seq<char>>) -> StashState
    decreases lines.len(),
{
    if lines.len() == 0 {
        StashState { done: seq![], current: None }
    } else {
        stash_line(stash_lines(lines.drop_last()), lines.last())
    }
}

/// The stashes in the output of `fossil stash list`.
pub open spec fn stash_list(output: Seq<char>) -> Seq<StashEntryView> {
    stash_entries(stash_lines(crate::text::lines(output)))
}

/// Reads the first line of a stash.
pub fn parse_fossil_stash_header(line: &[char]) -> (r: Result<Option<StashEntry>, FossilError>)
    ensures
        crate::error::result_view(r) == Ok::<Option<StashEntryView>, FossilErrorView>(
            stash_header(line@),
        ),
{
    let (id, rest) = match split_once_at(line, ':') {
        Some(parts) => parts,
        None => return Ok(None),
    };
    let index = match parse_up_to(trimmed(id), 10, usize::MAX as u64) {
        Some(index) => index as usize,
        None => return Ok(None),
    };
    let after_hash = match split_once_at(rest, ']') {
        Some((_, after_hash)) => after_hash,
        None => return Ok(None),
    };
    let timestamp = match without_prefix(trimmed(after_hash), "on ") {
        Some(date) => match timestamp_of(date) {
            Some(seconds) => seconds,
            None => 0,
        },
        None => 0,
    };
    match fossil_stash_oid(index) {
        Ok(oid) => {
            let entry = StashEntry { index, oid, message: String::new(), branch: None, timestamp };
            assert(entry.message@ == Seq::<char>::empty());
            Ok(Some(entry))
        },
        Err(error) => Err(error),
    }
}

/// Closes the stash that is being read.
fn close_entry(entries: &mut Vec<StashEntry>, current: Option<StashEntry>)
    ensures
        final(entries).deep_view() == stash_entries(
            StashState { done: old(entries).deep_view(), current: current.deep_view() },
        ),
{
    if let Some(entry) = current {
        push_item(entries, entry);
    }
}

/// Reads the output of `fossil stash list`.
pub fn parse_fossil_stash_list(output: &str) -> (r: Result<GitStash, FossilError>)
    ensures
        crate::error::result_view(r) == Ok::<Seq<StashEntryView>, FossilErrorView>(
            stash_list(output@),
        ),
{
    let chars = to_chars(output);
    let lines = split_lines(chars.as_slice());
    let ghost all = crate::text::lines(output@);
    let mut entries: Vec<StashEntry> = Vec::new();
    let mut current: Option<StashEntry> = None;
    let mut i: usize = 0;
    assert(all.take(0) == Seq::<Seq<char>>::empty());
    assert(entries.deep_view() == Seq::<StashEntryView>::empty());
    while i < lines.len()
        invariant
            i <= lines@.len(),
            crate::text::texts(lines@) == all,
            all == crate::text::lines(output@),
            (StashState { done: entries.deep_view(), current: current.deep_view() })
                == stash_lines(all.take(i as int)),
        decreases lines@.len() - i,
    {
        assert(all.take(i + 1).drop_last() == all.take(i as int));
        assert(all.take(i + 1).last() == lines@[i as int]@);
        let text = trimmed(lines[i]);
        if text.len() > 0 && !is_text(text, "empty stash") {
            match parse_fossil_stash_header(text) {
                Ok(Some(entry)) => {
                    close_entry(&mut entries, current);
                    current = Some(entry);
                },
                Ok(None) => {
                    current = match current {
                        Some(entry) => {
                            let mut entry = entry;
                            if entry.message.as_str().unicode_len() > 0 {
                                entry.message.push('\n');
                            }
                            let ghost head = entry.message@;
                            push_chars(&mut entry.message, text);
                            assert(head.len() == 0 ==> head + text@ == text@);
                            Some(entry)
                        },
                        None => None,
                    };
                },
                Err(error) => return Err(error),
            }
        }
        i = i + 1;
    }
    assert(all.take(i as int) == all);
    close_entry(&mut entries, current);
    Ok(GitStash { entries })
}

/// Whether every stash has the id that belongs to its number.
pub open spec fn stash_ids_match(entries: Seq<StashEntryView>) -> bool {
    forall|i: int|
        0 <= i < entries.len() ==> (#[trigger] entries[i]).oid == crate::oid::oid_bytes(
            crate::oid::stash_oid_text(entries[i].index),
        ) && entries[i].index <= usize::MAX
}

/// Law: every stash that is read has the id that belongs to its number, so the
/// number is found again in the digits of the id.
pub proof fn law_stash_list_ids(output: Seq<char>, i: int)
    requires
        0 <= i < stash_list(output).len(),
    ensures
        crate::oid::stash_id(crate::oid::oid_text(stash_list(output)[i].oid)) == Some(
            stash_list(output)[i].index,
        ),
{
    lemma_stash_ids(crate::text::lines(output));
    let entry = stash_list(output)[i];
    crate::oid::law_stash_id_is_read_back(entry.index as usize);
}

proof fn lemma_stash_ids(lines: Seq<Seq<char>>)
    ensures
        stash_ids_match(stash_entries(stash_lines(lines))),
    decreases lines.len(),
{
    if lines.len() > 0 {
        lemma_stash_ids(lines.drop_last());
        let before = stash_lines(lines.drop_last());
        let after = stash_lines(lines);
        let a = stash_entries(before);
        let b = stash_entries(after);
        assert forall|i: int| 0 <= i < b.len() implies (#[trigger] b[i]).oid
            == crate::oid::oid_bytes(crate::oid::stash_oid_text(b[i].index)) && b[i].index
            <= usize::MAX by {
            if i < a.len() {
                assert(a[i].oid == b[i].oid && a[i].index == b[i].index);
            }
        }
    }
}

} // verus!
