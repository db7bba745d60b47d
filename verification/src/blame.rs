//! Who wrote which line.

use crate::commit::first_line_of;
use crate::index::push_item;
use crate::info::{copy_text, FossilCommitInfo, FossilCommitInfoView};
use crate::oid::{fossil_oid_from_hash, Oid};
use crate::unique_map::UniqueMap;
use crate::path::RepoPath;
use crate::text::{
    split_lines, split_once_at, to_chars, to_text, take_token, trimmed, trimmed_start,
};
use vstd::prelude::*;
use vstd::string::*;

verus! {

// ---------------------------------------------------------------------------
// The lines of `fossil blame`
// ---------------------------------------------------------------------------

/// A line of a file, with the start of the hash of the check-in it came with.
#[derive(Debug)]
pub struct FossilBlameLine {
    pub hash_prefix: String,
    pub author: String,
    pub line_number: u32,
}

/// A line of a file, as text and number.
pub struct FossilBlameLineView {
    pub hash_prefix: Seq<char>,
    pub author: Seq<char>,
    pub line_number: int,
}

impl DeepView for FossilBlameLine {
    type V = FossilBlameLineView;

    open spec fn deep_view(&self) -> FossilBlameLineView {
        FossilBlameLineView {
            hash_prefix: self.hash_prefix@,
            author: self.author@,
            line_number: self.line_number as int,
        }
    }
}

/// What a line says: `<hash> <date> <author>: <text>`.
pub open spec fn blame_line(line_number: int, line: Seq<char>) -> Option<FossilBlameLineView> {
    match crate::text::leading_token(crate::text::trim_start(line)) {
        None => None,
        Some((hash_prefix, rest)) => match crate::text::leading_token(crate::text::trim_start(rest)) {
            None => None,
            Some((_, rest)) => match crate::text::split_once(rest, ':') {
                None => None,
                Some((author, _)) => Some(
                    FossilBlameLineView {
                        hash_prefix,
                        author: crate::text::trim(author),
                        line_number,
                    },
                ),
            },
        },
    }
}

/// What the given lines say; each line keeps its number.
pub open spec fn blame_lines(lines: Seq<Seq<char>>) -> Seq<FossilBlameLineView>
    decreases lines.len(),
{
    if lines.len() == 0 {
        seq![]
    } else {
        match blame_line(lines.len() - 1, lines.last()) {
            Some(line) => blame_lines(lines.drop_last()).push(line),
            None => blame_lines(lines.drop_last()),
        }
    }
}

/// Reads one line of `fossil blame`.
pub fn parse_fossil_blame_line(line_number: u32, line: &str) -> (r: Option<FossilBlameLine>)
    ensures
        r.deep_view() == blame_line(line_number as int, line@),
{
    let chars = to_chars(line);
    blame_line_of(line_number, chars.as_slice())
}

/// Reads the characters of one line of `fossil blame`.
fn blame_line_of(line_number: u32, line: &[char]) -> (r: Option<FossilBlameLine>)
    ensures
        r.deep_view() == blame_line(line_number as int, line@),
{
    match take_token(trimmed_start(line)) {
        None => None,
        Some((hash_prefix, rest)) => match take_token(trimmed_start(rest)) {
            None => None,
            Some((_, rest)) => match split_once_at(rest, ':') {
                None => None,
                Some((author, _)) => Some(
                    FossilBlameLine {
                        hash_prefix: to_text(hash_prefix),
                        author: to_text(trimmed(author)),
                        line_number,
                    },
                ),
            },
        },
    }
}

/// Reads the output of `fossil blame`.
pub fn parse_fossil_blame_lines(output: &str) -> (r: Vec<FossilBlameLine>)
    requires
        crate::text::lines(output@).len() <= u32::MAX,
    ensures
        r.deep_view() == blame_lines(crate::text::lines(output@)),
        forall|i: int| 0 <= i < r@.len() ==> (#[trigger] r@[i]).line_number < u32::MAX,
{
    let chars = to_chars(output);
    let lines = split_lines(chars.as_slice());
    let ghost all = crate::text::lines(output@);
    let mut r: Vec<FossilBlameLine> = Vec::new();
    let mut i: usize = 0;
    assert(all.take(0) == Seq::<Seq<char>>::empty());
    assert(r.deep_view() == Seq::<FossilBlameLineView>::empty());
    while i < lines.len()
        invariant
            i <= lines@.len(),
            crate::text::texts(lines@) == all,
            all.len() <= u32::MAX,
            r.deep_view() == blame_lines(all.take(i as int)),
        decreases lines@.len() - i,
    {
        assert(all.take(i + 1).drop_last() == all.take(i as int));
        assert(all.take(i + 1).last() == lines@[i as int]@);
        if let Some(line) = blame_line_of(i as u32, lines[i]) {
            push_item(&mut r, line);
        }
        i = i + 1;
    }
    assert(all.take(i as int) == all);
    proof {
        law_blame_lines_increase(all);
        assert forall|k: int| 0 <= k < r@.len() implies (#[trigger] r@[k]).line_number
            < u32::MAX by {
            assert(r.deep_view()[k].line_number == r@[k].line_number);
        }
    }
    r
}

/// Whether the numbers of the lines increase.
pub open spec fn numbers_increase(lines: Seq<FossilBlameLineView>) -> bool {
    forall|i: int, j: int|
        #![trigger lines[i], lines[j]]
        0 <= i < j < lines.len() ==> lines[i].line_number < lines[j].line_number
}

/// Law: the lines that are read keep their order, and each has the number of a
/// line of the output.
pub proof fn law_blame_lines_increase(lines: Seq<Seq<char>>)
    ensures
        numbers_increase(blame_lines(lines)),
        forall|i: int|
            0 <= i < blame_lines(lines).len() ==> 0 <= (#[trigger] blame_lines(
                lines,
            )[i]).line_number < lines.len(),
    decreases lines.len(),
{
    if lines.len() > 0 {
        law_blame_lines_increase(lines.drop_last());
        let before = blame_lines(lines.drop_last());
        let after = blame_lines(lines);
        assert forall|i: int| 0 <= i < after.len() implies 0 <= (#[trigger] after[i]).line_number
            < lines.len() by {
            if i < before.len() {
                assert(after[i] == before[i]);
            }
        }
        assert forall|i: int, j: int|
            #![trigger after[i], after[j]]
            0 <= i < j < after.len() implies after[i].line_number < after[j].line_number by {
            assert(after[i] == before[i]);
            if j < before.len() {
                assert(after[j] == before[j]);
            }
        }
    }
}

/// The starts of hashes in the given lines, each once, in the order in which
/// they first occur.
pub open spec fn blame_prefixes(lines: Seq<FossilBlameLineView>) -> Seq<Seq<char>>
    decreases lines.len(),
{
    if lines.len() == 0 {
        seq![]
    } else {
        let before = blame_prefixes(lines.drop_last());
        if before.contains(lines.last().hash_prefix) {
            before
        } else {
            before.push(lines.last().hash_prefix)
        }
    }
}

/// The check-ins that have to be asked for, each once.
pub fn fossil_blame_prefixes(lines: &Vec<FossilBlameLine>) -> (r: Vec<String>)
    ensures
        r.deep_view() == blame_prefixes(lines.deep_view()),
{
    let ghost all = lines.deep_view();
    let mut r: Vec<String> = Vec::new();
    let mut i: usize = 0;
    assert(all.take(0) == Seq::<FossilBlameLineView>::empty());
    assert(r.deep_view() == Seq::<Seq<char>>::empty());
    while i < lines.len()
        invariant
            i <= lines@.len(),
            all == lines.deep_view(),
            r.deep_view() == blame_prefixes(all.take(i as int)),
        decreases lines@.len() - i,
    {
        assert(all.take(i + 1).drop_last() == all.take(i as int));
        assert(all.take(i + 1).last() == lines@[i as int].deep_view());
        if !holds_text(&r, &lines[i].hash_prefix) {
            push_item(&mut r, lines[i].hash_prefix.clone());
        }
        i = i + 1;
    }
    assert(all.take(i as int) == all);
    r
}

/// Whether a text is in a list.
pub fn holds_text(list: &Vec<String>, text: &String) -> (r: bool)
    ensures
        r == list.deep_view().contains(text@),
{
    let ghost all = list.deep_view();
    for i in 0..list.len()
        invariant
            all == list.deep_view(),
            forall|j: int| 0 <= j < i ==> all[j] != text@,
    {
        if list[i] == *text {
            assert(all[i as int] == text@);
            return true;
        }
    }
    false
}

/// Law: every start of a hash in the lines is asked for, and none twice.
pub proof fn law_blame_prefixes(lines: Seq<FossilBlameLineView>)
    ensures
        blame_prefixes(lines).no_duplicates(),
        forall|prefix: Seq<char>| #[trigger]
            blame_prefixes(lines).contains(prefix) <==> exists|i: int|
                0 <= i < lines.len() && (#[trigger] lines[i]).hash_prefix == prefix,
    decreases lines.len(),
{
    let all = blame_prefixes(lines);
    if lines.len() > 0 {
        let head = lines.drop_last();
        let before = blame_prefixes(head);
        let last = lines.last().hash_prefix;
        law_blame_prefixes(head);
        assert forall|prefix: Seq<char>| #[trigger] all.contains(prefix) <==> exists|i: int|
            0 <= i < lines.len() && (#[trigger] lines[i]).hash_prefix == prefix by {
            if all.contains(prefix) {
                if before.contains(prefix) {
                    let i = choose|i: int|
                        0 <= i < head.len() && (#[trigger] head[i]).hash_prefix == prefix;
                    assert(lines[i].hash_prefix == prefix);
                } else {
                    assert(prefix == last);
                    assert(lines[lines.len() - 1].hash_prefix == prefix);
                }
            }
            if exists|i: int| 0 <= i < lines.len() && (#[trigger] lines[i]).hash_prefix == prefix {
                let i = choose|i: int|
                    0 <= i < lines.len() && (#[trigger] lines[i]).hash_prefix == prefix;
                if i < head.len() {
                    assert(head[i].hash_prefix == prefix);
                    assert(before.contains(prefix));
                    let k = before.index_of(prefix);
                    assert(all[k] == prefix);
                } else if before.contains(last) {
                } else {
                    assert(all[before.len() as int] == prefix);
                }
            }
        }
    }
}

// ---------------------------------------------------------------------------
// Blame
// ---------------------------------------------------------------------------

/// Lines of a file that came with one check-in.
#[derive(Debug)]
pub struct BlameEntry {
    pub sha: Oid,
    /// The numbers of the lines, counted from zero.
    pub range: core::ops::Range<u32>,
    pub original_line_number: u32,
    pub author: Option<String>,
    pub author_mail: Option<String>,
    pub author_time: Option<i64>,
    pub author_tz: Option<String>,
    pub committer_name: Option<String>,
    pub committer_email: Option<String>,
    pub committer_time: Option<i64>,
    pub committer_tz: Option<String>,
    pub summary: Option<String>,
    pub previous: Option<String>,
    pub filename: String,
}

/// Lines of a file that came with one check-in, as texts and numbers.
pub struct BlameEntryView {
    pub sha: Seq<u8>,
    pub start: int,
    pub end: int,
    pub original_line_number: int,
    pub author: Option<Seq<char>>,
    pub author_mail: Option<Seq<char>>,
    pub author_time: Option<int>,
    pub author_tz: Option<Seq<char>>,
    pub committer_name: Option<Seq<char>>,
    pub committer_email: Option<Seq<char>>,
    pub committer_time: Option<int>,
    pub committer_tz: Option<Seq<char>>,
    pub summary: Option<Seq<char>>,
    pub previous: Option<Seq<char>>,
    pub filename: Seq<char>,
}

impl DeepView for BlameEntry {
    type V = BlameEntryView;

    open spec fn deep_view(&self) -> BlameEntryView {
        BlameEntryView {
            sha: self.sha@,
            start: self.range.start as int,
            end: self.range.end as int,
            original_line_number: self.original_line_number as int,
            author: self.author.deep_view(),
            author_mail: self.author_mail.deep_view(),
            author_time: crate::timestamp::opt_int(self.author_time),
            author_tz: self.author_tz.deep_view(),
            committer_name: self.committer_name.deep_view(),
            committer_email: self.committer_email.deep_view(),
            committer_time: crate::timestamp::opt_int(self.committer_time),
            committer_tz: self.committer_tz.deep_view(),
            summary: self.summary.deep_view(),
            previous: self.previous.deep_view(),
            filename: self.filename@,
        }
    }
}

/// The lines of a file by check-in, and the comments of those check-ins.
#[derive(Debug)]
pub struct Blame {
    pub entries: Vec<BlameEntry>,
    pub messages: UniqueMap<Oid, String>,
}

/// The lines of a file by check-in, and the comments of those check-ins.
pub struct BlameView {
    pub entries: Seq<BlameEntryView>,
    pub messages: Map<Seq<u8>, Seq<char>>,
}

impl DeepView for Blame {
    type V = BlameView;

    open spec fn deep_view(&self) -> BlameView {
        BlameView { entries: self.entries.deep_view(), messages: self.messages@ }
    }
}

/// What is known of the check-ins that were asked for, each under the start of
/// its hash.
pub open spec fn info_under(infos: Seq<(Seq<char>, FossilCommitInfoView)>, prefix: Seq<char>) -> Option<
    FossilCommitInfoView,
>
    decreases infos.len(),
{
    if infos.len() == 0 {
        None
    } else if infos[0].0 == prefix {
        Some(infos[0].1)
    } else {
        info_under(infos.skip(1), prefix)
    }
}

/// The id of the check-in that a line came with, if it is known.
pub open spec fn line_sha(
    infos: Seq<(Seq<char>, FossilCommitInfoView)>,
    line: FossilBlameLineView,
) -> Option<Seq<u8>> {
    match info_under(infos, line.hash_prefix) {
        Some(info) => crate::oid::oid_of_hash(info.hash),
        None => None,
    }
}

/// The entry for one line.
pub open spec fn blame_entry(
    sha: Seq<u8>,
    info: FossilCommitInfoView,
    line: FossilBlameLineView,
    path: Seq<char>,
) -> BlameEntryView {
    BlameEntryView {
        sha,
        start: line.line_number,
        end: line.line_number + 1,
        original_line_number: line.line_number + 1,
        author: match info.user {
            Some(user) => Some(user),
            None => Some(line.author),
        },
        author_mail: None,
        author_time: Some(info.timestamp),
        author_tz: Some("+0000"@),
        committer_name: info.user,
        committer_email: None,
        committer_time: Some(info.timestamp),
        committer_tz: Some("+0000"@),
        summary: Some(crate::commit::first_line(info.comment)),
        previous: None,
        filename: path,
    }
}

/// The entries with one more line: it joins the last entry if it follows it and
/// came with the same check-in.
pub open spec fn add_entry(entries: Seq<BlameEntryView>, entry: BlameEntryView) -> Seq<
    BlameEntryView,
> {
    if entries.len() > 0 && entries.last().sha == entry.sha && entries.last().end == entry.start {
        entries.update(
            entries.len() - 1,
            BlameEntryView { end: entries.last().end + 1, ..entries.last() },
        )
    } else {
        entries.push(entry)
    }
}

/// What is known after one more line; a line of an unknown check-in is left out.
pub open spec fn blame_step(
    blame: BlameView,
    infos: Seq<(Seq<char>, FossilCommitInfoView)>,
    line: FossilBlameLineView,
    path: Seq<char>,
) -> BlameView {
    match info_under(infos, line.hash_prefix) {
        Some(info) => match crate::oid::oid_of_hash(info.hash) {
            Some(sha) => BlameView {
                entries: add_entry(blame.entries, blame_entry(sha, info, line, path)),
                messages: blame.messages.insert(sha, info.comment),
            },
            None => blame,
        },
        None => blame,
    }
}

/// The lines of a file by check-in.
pub open spec fn blame_of(
    lines: Seq<FossilBlameLineView>,
    infos: Seq<(Seq<char>, FossilCommitInfoView)>,
    path: Seq<char>,
) -> BlameView
    decreases lines.len(),
{
    if lines.len() == 0 {
        BlameView { entries: seq![], messages: Map::empty() }
    } else {
        blame_step(blame_of(lines.drop_last(), infos, path), infos, lines.last(), path)
    }
}

/// What is known of the check-in with a start of a hash.
fn info_with_prefix<'a>(infos: &'a Vec<(String, FossilCommitInfo)>, prefix: &String) -> (r: Option<
    &'a FossilCommitInfo,
>)
    ensures
        r.deep_view() == info_under(infos.deep_view(), prefix@),
{
    let ghost all = infos.deep_view();
    let mut i: usize = 0;
    assert(all.skip(0) == all);
    while i < infos.len()
        invariant
            i <= infos@.len(),
            all == infos.deep_view(),
            info_under(all, prefix@) == info_under(all.skip(i as int), prefix@),
        decreases infos@.len() - i,
    {
        assert(all.skip(i as int)[0] == all[i as int]);
        if infos[i].0 == *prefix {
            return Some(&infos[i].1);
        }
        assert(all.skip(i as int).skip(1) == all.skip(i + 1));
        i = i + 1;
    }
    None
}

/// Takes in one more entry.
fn add_blame_entry(entries: &mut Vec<BlameEntry>, entry: BlameEntry)
    requires
        entry.range.start < u32::MAX,
    ensures
        final(entries).deep_view() == add_entry(old(entries).deep_view(), entry.deep_view()),
{
    let ghost before = entries.deep_view();
    let ghost new = entry.deep_view();
    match entries.pop() {
        Some(last) => {
            assert(before.last() == last.deep_view());
            assert(entries.deep_view() == before.drop_last());
            if last.sha == entry.sha && last.range.end == entry.range.start {
                let mut longer = last;
                longer.range = longer.range.start..longer.range.end + 1;
                push_item(entries, longer);
                assert(entries.deep_view() == add_entry(before, new));
            } else {
                push_item(entries, last);
                assert(entries.deep_view() == before);
                push_item(entries, entry);
            }
        },
        None => {
            assert(before == Seq::<BlameEntryView>::empty());
            push_item(entries, entry);
        },
    }
}

/// Puts the lines of a file together by check-in. `infos` holds what is known of
/// every check-in, under the start of its hash.
pub fn fossil_blame_from_output(
    path: &RepoPath,
    lines: &Vec<FossilBlameLine>,
    infos: &Vec<(String, FossilCommitInfo)>,
) -> (r: Blame)
    requires
        forall|i: int| 0 <= i < lines@.len() ==> (#[trigger] lines@[i]).line_number < u32::MAX,
    ensures
        r.deep_view() == blame_of(lines.deep_view(), infos.deep_view(), path@),
{
    let ghost all = lines.deep_view();
    let mut entries: Vec<BlameEntry> = Vec::new();
    let mut messages: UniqueMap<Oid, String> = UniqueMap::new();
    let mut i: usize = 0;
    assert(all.take(0) == Seq::<FossilBlameLineView>::empty());
    assert(entries.deep_view() == Seq::<BlameEntryView>::empty());
    while i < lines.len()
        invariant
            i <= lines@.len(),
            all == lines.deep_view(),
            forall|i: int| 0 <= i < lines@.len() ==> (#[trigger] lines@[i]).line_number < u32::MAX,
            (BlameView { entries: entries.deep_view(), messages: messages@ }) == blame_of(
                all.take(i as int),
                infos.deep_view(),
                path@,
            ),
        decreases lines@.len() - i,
    {
        let line = &lines[i];
        assert(all.take(i + 1).drop_last() == all.take(i as int));
        assert(all.take(i + 1).last() == line.deep_view());
        if let Some(info) = info_with_prefix(infos, &line.hash_prefix) {
            if let Some(sha) = fossil_oid_from_hash(info.hash.as_str()) {
                messages.insert(sha, info.comment.clone());
                let entry = BlameEntry {
                    sha,
                    range: line.line_number..line.line_number + 1,
                    original_line_number: line.line_number + 1,
                    author: match &info.user {
                        Some(user) => Some(user.clone()),
                        None => Some(line.author.clone()),
                    },
                    author_mail: None,
                    author_time: Some(info.timestamp),
                    author_tz: Some("+0000".to_owned()),
                    committer_name: copy_text(&info.user),
                    committer_email: None,
                    committer_time: Some(info.timestamp),
                    committer_tz: Some("+0000".to_owned()),
                    summary: Some(first_line_of(info.comment.as_str())),
                    previous: None,
                    filename: path.as_unix_str().to_owned(),
                };
                assert(entry.deep_view() == blame_entry(
                    sha@,
                    info.deep_view(),
                    line.deep_view(),
                    path@,
                ));
                add_blame_entry(&mut entries, entry);
            }
        }
        i = i + 1;
    }
    assert(all.take(i as int) == all);
    Blame { entries, messages }
}

/// Whether a line came with the given check-in.
pub open spec fn came_with(
    lines: Seq<FossilBlameLineView>,
    infos: Seq<(Seq<char>, FossilCommitInfoView)>,
    k: int,
    n: int,
    sha: Seq<u8>,
) -> bool {
    0 <= k < lines.len() && lines[k].line_number == n && line_sha(infos, lines[k]) == Some(sha)
}

/// Whether an entry holds a line of the given check-in.
pub open spec fn entry_holds(entries: Seq<BlameEntryView>, i: int, n: int, sha: Seq<u8>) -> bool {
    0 <= i < entries.len() && entries[i].start <= n < entries[i].end && entries[i].sha == sha
}

/// Whether the entries follow one another without overlap, none is empty, and no
/// two that touch came with the same check-in.
pub open spec fn entries_in_order(entries: Seq<BlameEntryView>) -> bool {
    &&& forall|i: int|
        0 <= i < entries.len() ==> (#[trigger] entries[i]).start < entries[i].end
    &&& forall|i: int, j: int|
        #![trigger entries[i], entries[j]]
        0 <= i < j < entries.len() ==> entries[i].end <= entries[j].start
    &&& forall|i: int, j: int|
        #![trigger entries[i], entries[j]]
        0 <= i < entries.len() && j == i + 1 && j < entries.len() ==> !(entries[i].sha
            == entries[j].sha && entries[i].end == entries[j].start)
}

/// Law: the entries are in order, none can be joined with the next, and they
/// hold exactly the lines whose check-in is known, each under that check-in.
pub proof fn law_blame_entries(
    lines: Seq<FossilBlameLineView>,
    infos: Seq<(Seq<char>, FossilCommitInfoView)>,
    path: Seq<char>,
    n: int,
    sha: Seq<u8>,
)
    requires
        numbers_increase(lines),
    ensures
        entries_in_order(blame_of(lines, infos, path).entries),
        (exists|i: int| #[trigger]
            entry_holds(blame_of(lines, infos, path).entries, i, n, sha)) <==> (exists|k: int|
         #[trigger]
            came_with(lines, infos, k, n, sha)),
{
    lemma_blame_entries(lines, infos, path);
}

proof fn lemma_blame_entries(
    lines: Seq<FossilBlameLineView>,
    infos: Seq<(Seq<char>, FossilCommitInfoView)>,
    path: Seq<char>,
)
    requires
        numbers_increase(lines),
    ensures
        entries_in_order(blame_of(lines, infos, path).entries),
        forall|i: int|
            0 <= i < blame_of(lines, infos, path).entries.len() ==> lines.len() > 0
                && (#[trigger] blame_of(lines, infos, path).entries[i]).end
                <= lines.last().line_number + 1,
        forall|i: int, n: int, sha: Seq<u8>| #[trigger]
            entry_holds(blame_of(lines, infos, path).entries, i, n, sha) ==> exists|k: int|
             #[trigger]
                came_with(lines, infos, k, n, sha),
        forall|k: int, n: int, sha: Seq<u8>| #[trigger]
            came_with(lines, infos, k, n, sha) ==> exists|i: int| #[trigger]
                entry_holds(blame_of(lines, infos, path).entries, i, n, sha),
    decreases lines.len(),
{
    let after = blame_of(lines, infos, path).entries;
    if lines.len() > 0 {
        let head = lines.drop_last();
        let line = lines.last();
        let before = blame_of(head, infos, path).entries;
        let last = lines.len() - 1;
        assert forall|i: int, j: int|
            #![trigger head[i], head[j]]
            0 <= i < j < head.len() implies head[i].line_number < head[j].line_number by {
            assert(head[i] == lines[i] && head[j] == lines[j]);
        }
        lemma_blame_entries(head, infos, path);
        assert forall|i: int| 0 <= i < before.len() implies (#[trigger] before[i]).end
            <= line.line_number by {
            assert(head.last() == lines[last - 1]);
            assert(lines[last - 1].line_number < lines[last].line_number);
        }
        assert forall|k: int, n: int, sha: Seq<u8>| #[trigger]
            came_with(head, infos, k, n, sha) implies came_with(lines, infos, k, n, sha) by {
            assert(head[k] == lines[k]);
        }
        match line_sha(infos, line) {
            None => {
                assert(after == before);
                assert forall|i: int, n: int, sha: Seq<u8>| #[trigger]
                    entry_holds(after, i, n, sha) implies exists|k: int| #[trigger]
                    came_with(lines, infos, k, n, sha) by {
                    let k = choose|k: int| #[trigger] came_with(head, infos, k, n, sha);
                    assert(came_with(lines, infos, k, n, sha));
                }
                assert forall|k: int, n: int, sha: Seq<u8>| #[trigger]
                    came_with(lines, infos, k, n, sha) implies exists|i: int| #[trigger]
                    entry_holds(after, i, n, sha) by {
                    assert(k < last);
                    assert(head[k] == lines[k]);
                    assert(came_with(head, infos, k, n, sha));
                }
            },
            Some(sha) => {
                let info = info_under(infos, line.hash_prefix)->0;
                let entry = blame_entry(sha, info, line, path);
                let number = line.line_number;
                assert(after == add_entry(before, entry));
                let m = before.len() - 1;
                let joins = before.len() > 0 && before.last().sha == sha && before.last().end
                    == number;
                assert forall|i: int, n: int, s: Seq<u8>| #[trigger]
                    entry_holds(before, i, n, s) implies entry_holds(after, i, n, s) by {}
                let place = if joins {
                    m
                } else {
                    before.len() as int
                };
                assert(entry_holds(after, place, number, sha));
                assert(came_with(lines, infos, last, number, sha));
                assert forall|i: int, n: int, s: Seq<u8>| #[trigger]
                    entry_holds(after, i, n, s) implies exists|k: int| #[trigger]
                    came_with(lines, infos, k, n, s) by {
                    if entry_holds(before, i, n, s) {
                        let k = choose|k: int| #[trigger] came_with(head, infos, k, n, s);
                        assert(came_with(lines, infos, k, n, s));
                    } else {
                        assert(n == number && s == sha);
                    }
                }
                assert forall|k: int, n: int, s: Seq<u8>| #[trigger]
                    came_with(lines, infos, k, n, s) implies exists|i: int| #[trigger]
                    entry_holds(after, i, n, s) by {
                    if k < last {
                        assert(head[k] == lines[k]);
                        assert(came_with(head, infos, k, n, s));
                        let i = choose|i: int| #[trigger] entry_holds(before, i, n, s);
                        assert(entry_holds(after, i, n, s));
                    } else {
                        assert(entry_holds(after, place, n, s));
                    }
                }
            },
        }
    }
}

/// Law: exactly the check-ins of known lines have a message, and it is the
/// comment of the check-in that such a line came with.
pub proof fn law_blame_messages(
    lines: Seq<FossilBlameLineView>,
    infos: Seq<(Seq<char>, FossilCommitInfoView)>,
    path: Seq<char>,
    sha: Seq<u8>,
)
    ensures
        blame_of(lines, infos, path).messages.dom().contains(sha) <==> exists|k: int|
            0 <= k < lines.len() && line_sha(infos, #[trigger] lines[k]) == Some(sha),
        blame_of(lines, infos, path).messages.dom().contains(sha) ==> exists|k: int|
            0 <= k < lines.len() && line_sha(infos, #[trigger] lines[k]) == Some(sha) && info_under(
                infos,
                lines[k].hash_prefix,
            )->0.comment == blame_of(lines, infos, path).messages[sha],
    decreases lines.len(),
{
    let after = blame_of(lines, infos, path).messages;
    if lines.len() > 0 {
        let head = lines.drop_last();
        let last = lines.len() - 1;
        let before = blame_of(head, infos, path).messages;
        law_blame_messages(head, infos, path, sha);
        if before.dom().contains(sha) {
            let k = choose|k: int|
                0 <= k < head.len() && line_sha(infos, #[trigger] head[k]) == Some(sha)
                    && info_under(infos, head[k].hash_prefix)->0.comment == before[sha];
            assert(lines[k] == head[k]);
        }
        if exists|k: int| 0 <= k < lines.len() && line_sha(infos, #[trigger] lines[k]) == Some(sha) {
            let k = choose|k: int|
                0 <= k < lines.len() && line_sha(infos, #[trigger] lines[k]) == Some(sha);
            if k < last {
                assert(head[k] == lines[k]);
            }
        }
        assert(lines[last] == lines.last());
    }
}

} // verus!
