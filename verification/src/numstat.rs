//! How many lines were added and deleted in each file.

use crate::changes::key_of_path;
use crate::digits::parse_up_to;
use crate::index::{insert_if_absent, Indexed};
use crate::path::{PathStyle, RepoPath};
use crate::text::{begins_with, split_lines, to_chars, take_token, trimmed_start};
use vstd::prelude::*;
use vstd::string::*;

verus! {

/// How many lines were added and deleted.
#[derive(Clone, Copy, Debug, PartialEq, Eq, Structural)]
pub struct DiffStat {
    pub added: u32,
    pub deleted: u32,
}

impl DeepView for DiffStat {
    type V = DiffStat;

    open spec fn deep_view(&self) -> DiffStat {
        *self
    }
}

impl Indexed for (RepoPath, DiffStat) {
    open spec fn order_key(item: (Seq<char>, DiffStat)) -> Seq<u32> {
        crate::changes::path_key(item.0)
    }

    fn key(&self) -> (r: Vec<u32>) {
        key_of_path(&self.0)
    }
}

/// How many lines were added and deleted in each file.
#[derive(Debug)]
pub struct GitDiffStat {
    pub entries: Vec<(RepoPath, DiffStat)>,
}

impl DeepView for GitDiffStat {
    type V = Seq<(Seq<char>, DiffStat)>;

    open spec fn deep_view(&self) -> Seq<(Seq<char>, DiffStat)> {
        self.entries.deep_view()
    }
}

/// What a line says: `<added> <deleted> <path>`. The line with the totals counts
/// for no file.
pub open spec fn numstat_line(line: Seq<char>, style: PathStyle) -> Option<(Seq<char>, DiffStat)> {
    match crate::text::leading_token(crate::text::trim_start(line)) {
        None => None,
        Some((added, rest)) => match crate::text::leading_token(crate::text::trim_start(rest)) {
            None => None,
            Some((deleted, rest)) => {
                let path = crate::text::trim_start(rest);
                match (
                    crate::digits::parse_number(added, 10, u32::MAX as nat),
                    crate::digits::parse_number(deleted, 10, u32::MAX as nat),
                    crate::path::repo_path(path, style),
                ) {
                    (Some(added), Some(deleted), Ok(name)) => if path.len() > 0
                        && !crate::text::starts_with(path, "TOTAL "@) {
                        Some((name, DiffStat { added: added as u32, deleted: deleted as u32 }))
                    } else {
                        None
                    },
                    _ => None,
                }
            },
        },
    }
}

/// What the given lines say, one after the other.
pub open spec fn numstat_lines(lines: Seq<Seq<char>>, style: PathStyle) -> Seq<
    (Seq<char>, DiffStat),
>
    decreases lines.len(),
{
    if lines.len() == 0 {
        seq![]
    } else {
        match numstat_line(lines.last(), style) {
            Some(entry) => numstat_lines(lines.drop_last(), style).push(entry),
            None => numstat_lines(lines.drop_last(), style),
        }
    }
}

/// The files in the output of `fossil diff --numstat`, in the order of their
/// paths; of those with one path, the first.
pub open spec fn numstat(output: Seq<char>, style: PathStyle) -> Seq<(Seq<char>, DiffStat)> {
    crate::index::sorted_first::<(RepoPath, DiffStat)>(
        numstat_lines(crate::text::lines(output), style),
    )
}

/// Reads one line of `fossil diff --numstat`.
fn numstat_of_line(line: &[char], style: PathStyle) -> (r: Option<(RepoPath, DiffStat)>)
    ensures
        r.deep_view() == numstat_line(line@, style),
{
    let (added, rest) = match take_token(trimmed_start(line)) {
        Some(parts) => parts,
        None => return None,
    };
    let (deleted, rest) = match take_token(trimmed_start(rest)) {
        Some(parts) => parts,
        None => return None,
    };
    let added = match parse_up_to(added, 10, u32::MAX as u64) {
        Some(n) => n as u32,
        None => return None,
    };
    let deleted = match parse_up_to(deleted, 10, u32::MAX as u64) {
        Some(n) => n as u32,
        None => return None,
    };
    let path = trimmed_start(rest);
    if path.len() == 0 || begins_with(path, "TOTAL ") {
        return None;
    }
    match RepoPath::from_chars(path, style) {
        Ok(path) => Some((path, DiffStat { added, deleted })),
        Err(_) => None,
    }
}

/// Reads the output of `fossil diff --numstat`.
pub fn parse_fossil_numstat(output: &str, style: PathStyle) -> (r: GitDiffStat)
    ensures
        r.deep_view() == numstat(output@, style),
{
    let chars = to_chars(output);
    let lines = split_lines(chars.as_slice());
    let ghost all = crate::text::lines(output@);
    let mut entries: Vec<(RepoPath, DiffStat)> = Vec::new();
    let mut i: usize = 0;
    assert(all.take(0) == Seq::<Seq<char>>::empty());
    assert(entries.deep_view() == Seq::<(Seq<char>, DiffStat)>::empty());
    while i < lines.len()
        invariant
            i <= lines@.len(),
            crate::text::texts(lines@) == all,
            entries.deep_view() == crate::index::sorted_first::<(RepoPath, DiffStat)>(
                numstat_lines(all.take(i as int), style),
            ),
            crate::index::in_order::<(RepoPath, DiffStat)>(entries.deep_view()),
        decreases lines@.len() - i,
    {
        assert(all.take(i + 1).drop_last() == all.take(i as int));
        assert(all.take(i + 1).last() == lines@[i as int]@);
        if let Some(entry) = numstat_of_line(lines[i], style) {
            let ghost before = numstat_lines(all.take(i as int), style);
            let ghost new = entry.deep_view();
            insert_if_absent(&mut entries, entry);
            assert(before.push(new).drop_last() == before);
        }
        i = i + 1;
    }
    assert(all.take(i as int) == all);
    GitDiffStat { entries }
}

/// Law: no path occurs twice, and the keys of the paths increase.
pub proof fn law_numstat_is_ordered(output: Seq<char>, style: PathStyle, i: int, j: int)
    requires
        0 <= i < j < numstat(output, style).len(),
    ensures
        crate::index::lex_less(
            crate::changes::path_key(numstat(output, style)[i].0),
            crate::changes::path_key(numstat(output, style)[j].0),
        ),
        numstat(output, style)[i].0 != numstat(output, style)[j].0,
{
    let all = numstat(output, style);
    crate::index::law_sorted_first::<(RepoPath, DiffStat)>(
        numstat_lines(crate::text::lines(output), style),
    );
    assert(<(RepoPath, DiffStat)>::order_key(all[i]) == crate::changes::path_key(all[i].0));
    assert(<(RepoPath, DiffStat)>::order_key(all[j]) == crate::changes::path_key(all[j].0));
    crate::index::lemma_lex_irreflexive(crate::changes::path_key(all[i].0));
}

/// Law: every file that a line counts is in the result, with the counts of the
/// first line for it.
pub proof fn law_numstat_is_complete(output: Seq<char>, style: PathStyle, j: int)
    requires
        0 <= j < numstat_lines(crate::text::lines(output), style).len(),
        forall|k: int|
            0 <= k < j ==> (#[trigger] numstat_lines(crate::text::lines(output), style)[k]).0
                != numstat_lines(crate::text::lines(output), style)[j].0,
    ensures
        numstat(output, style).contains(numstat_lines(crate::text::lines(output), style)[j]),
{
    let raw = numstat_lines(crate::text::lines(output), style);
    crate::index::law_sorted_first::<(RepoPath, DiffStat)>(raw);
    assert forall|k: int| 0 <= k < j implies <(RepoPath, DiffStat)>::order_key(#[trigger] raw[k])
        != <(RepoPath, DiffStat)>::order_key(raw[j]) by {
        if crate::changes::path_key(raw[k].0) == crate::changes::path_key(raw[j].0) {
            crate::changes::lemma_path_keys_differ(raw[k].0, raw[j].0);
        }
    }
    assert(crate::index::is_first::<(RepoPath, DiffStat)>(raw, j) && raw[j] == raw[j]);
}

} // verus!
