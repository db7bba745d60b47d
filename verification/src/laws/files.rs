//! Laws of line counts and of blame.

use crate::blame::{
    blame_line, blame_lines, blame_of, info_under, BlameEntryView, FossilBlameLineView,
};
use crate::digits::decimal;
use crate::info::FossilCommitInfoView;
use crate::laws::path::is_plain_path;
use crate::laws::text::{is_blank, is_line, is_tight, is_word, unlines};
use crate::numstat::{numstat, numstat_line, numstat_lines, DiffStat};
use crate::oid::oid_of_hash;
use crate::path::PathStyle;
use crate::text::{is_white, leading_token, starts_with, trim_start};
use vstd::prelude::*;

verus! {

/// The first word is cut off, blanks before it dropped and those behind it kept.
proof fn lemma_token(a: Seq<char>, w: Seq<char>, gap: Seq<char>, rest: Seq<char>)
    requires
        is_blank(a) && is_blank(gap),
        is_word(w),
        gap.len() > 0,
    ensures
        leading_token(trim_start(a + w + gap + rest)) == Some((w, gap + rest)),
{
    let s = w + gap + rest;
    assert(s[0] == w[0]);
    crate::laws::text::lemma_trim_start(a, s);
    assert(a + s =~= a + w + gap + rest);
    assert(is_white(gap[0]));
    let tail = gap.skip(1) + rest;
    crate::laws::text::law_first_word_is_cut_off(w, gap[0], tail);
    assert(w + seq![gap[0]] + tail =~= s);
    assert(seq![gap[0]] + tail =~= gap + rest);
}

// ---------------------------------------------------------------------------
// Line counts
// ---------------------------------------------------------------------------

proof fn lemma_number_is_word(n: nat)
    ensures
        is_word(decimal(n)),
{
    crate::laws::numbers::law_decimal_is_read_back(n, n);
    let s = decimal(n);
    assert forall|i: int| 0 <= i < s.len() implies !is_white(#[trigger] s[i]) by {
        lemma_digit_is_no_blank(s[i]);
    }
}

proof fn lemma_digit_is_no_blank(c: char)
    requires
        '0' <= c <= '9',
    ensures
        !is_white(c),
{
}

/// A line of counts.
pub open spec fn counts_line(
    a: Seq<char>,
    added: nat,
    gap: Seq<char>,
    deleted: nat,
    gap2: Seq<char>,
    rest: Seq<char>,
) -> Seq<char> {
    a + decimal(added) + gap + decimal(deleted) + gap2 + rest
}

/// Law: a line with two numbers and a path counts the lines that were added to the
/// file at that path and those that were deleted from it, in this order; the line
/// of the totals counts nothing.
pub proof fn law_line_counts(
    before: Seq<Seq<char>>,
    a: Seq<char>,
    added: u32,
    gap: Seq<char>,
    deleted: u32,
    gap2: Seq<char>,
    p: Seq<char>,
    names: Seq<Seq<char>>,
    more: Seq<char>,
    style: PathStyle,
)
    requires
        is_blank(a) && is_blank(gap) && is_blank(gap2),
        gap.len() > 0 && gap2.len() > 0,
        is_plain_path(p, names, style),
        p.len() > 0 && !is_white(p[0]),
        !starts_with(p, "TOTAL "@),
    ensures
        numstat_lines(
            before.push(counts_line(a, added as nat, gap, deleted as nat, gap2, p)),
            style,
        ) == numstat_lines(before, style).push((p, DiffStat { added, deleted })),
        numstat_lines(
            before.push(
                counts_line(a, added as nat, gap, deleted as nat, gap2, "TOTAL "@ + more),
            ),
            style,
        ) == numstat_lines(before, style),
{
    reveal_strlit("TOTAL ");
    let total = "TOTAL "@ + more;
    assert(total[0] == 'T');
    crate::laws::text::law_prefix_and_suffix("TOTAL "@, more, total);
    let line = counts_line(a, added as nat, gap, deleted as nat, gap2, p);
    let sum = counts_line(a, added as nat, gap, deleted as nat, gap2, total);
    lemma_counts(a, added, gap, deleted, gap2, p, style);
    lemma_counts(a, added, gap, deleted, gap2, total, style);
    crate::laws::path::law_plain_path_is_kept(p, names, style);
    assert(before.push(line).drop_last() =~= before);
    assert(before.push(sum).drop_last() =~= before);
}

proof fn lemma_counts(
    a: Seq<char>,
    added: u32,
    gap: Seq<char>,
    deleted: u32,
    gap2: Seq<char>,
    p: Seq<char>,
    style: PathStyle,
)
    requires
        is_blank(a) && is_blank(gap) && is_blank(gap2),
        gap.len() > 0 && gap2.len() > 0,
        p.len() > 0 && !is_white(p[0]),
    ensures
        numstat_line(counts_line(a, added as nat, gap, deleted as nat, gap2, p), style) == (
        match crate::path::repo_path(p, style) {
            Ok(name) => if starts_with(p, "TOTAL "@) {
                None
            } else {
                Some((name, DiffStat { added, deleted }))
            },
            Err(_) => None,
        }),
{
    let x = decimal(added as nat);
    let y = decimal(deleted as nat);
    lemma_number_is_word(added as nat);
    lemma_number_is_word(deleted as nat);
    crate::laws::numbers::law_decimal_is_read_back(added as nat, u32::MAX as nat);
    crate::laws::numbers::law_decimal_is_read_back(deleted as nat, u32::MAX as nat);
    let line = counts_line(a, added as nat, gap, deleted as nat, gap2, p);
    let rest = y + gap2 + p;
    assert(line =~= a + x + gap + rest);
    lemma_token(a, x, gap, rest);
    assert(gap + rest =~= gap + y + gap2 + p);
    lemma_token(gap, y, gap2, p);
    crate::laws::text::lemma_trim_start(gap2, p);
}

/// Law: a line whose first or second word is no number counts nothing.
pub proof fn law_no_line_counts(
    before: Seq<Seq<char>>,
    a: Seq<char>,
    x: Seq<char>,
    gap: Seq<char>,
    y: Seq<char>,
    gap2: Seq<char>,
    rest: Seq<char>,
    i: int,
    style: PathStyle,
)
    requires
        is_blank(a) && is_blank(gap) && is_blank(gap2),
        gap.len() > 0 && gap2.len() > 0,
        is_word(x) && is_word(y),
        (0 < i < x.len() && !('0' <= x[i] <= '9')) || (0 < i < y.len() && !('0' <= y[i] <= '9')),
    ensures
        numstat_lines(before.push(a + x + gap + y + gap2 + rest), style) == numstat_lines(
            before,
            style,
        ),
{
    let line = a + x + gap + y + gap2 + rest;
    let tail = y + gap2 + rest;
    assert(line =~= a + x + gap + tail);
    lemma_token(a, x, gap, tail);
    assert(gap + tail =~= gap + y + gap2 + rest);
    lemma_token(gap, y, gap2, rest);
    if 0 < i < x.len() && !('0' <= x[i] <= '9') {
        crate::laws::numbers::law_no_number(x, i, u32::MAX as nat);
    } else {
        crate::laws::numbers::law_no_number(y, i, u32::MAX as nat);
    }
    assert(before.push(line).drop_last() =~= before);
}

/// Law: the counts are those of the lines, the first where a path is counted
/// twice.
pub proof fn law_counts_are_those_of_the_lines(ls: Seq<Seq<char>>, style: PathStyle, j: int)
    requires
        forall|i: int| 0 <= i < ls.len() ==> is_line(#[trigger] ls[i]),
        0 <= j < numstat_lines(ls, style).len(),
        forall|k: int|
            0 <= k < j ==> (#[trigger] numstat_lines(ls, style)[k]).0 != numstat_lines(
                ls,
                style,
            )[j].0,
    ensures
        numstat(unlines(ls), style).contains(numstat_lines(ls, style)[j]),
        numstat_lines(seq![], style) == Seq::<(Seq<char>, DiffStat)>::empty(),
{
    crate::laws::text::law_lines_are_read_back(ls);
    crate::numstat::law_numstat_is_complete(unlines(ls), style, j);
}

/// Law: nothing is counted but what a line counts.
pub proof fn law_no_other_counts(ls: Seq<Seq<char>>, style: PathStyle, i: int)
    requires
        forall|k: int| 0 <= k < ls.len() ==> is_line(#[trigger] ls[k]),
        0 <= i < numstat(unlines(ls), style).len(),
    ensures
        numstat_lines(ls, style).contains(numstat(unlines(ls), style)[i]),
{
    crate::laws::text::law_lines_are_read_back(ls);
    let raw = numstat_lines(ls, style);
    crate::index::law_sorted_first::<(crate::path::RepoPath, DiffStat)>(raw);
    let all = numstat(unlines(ls), style);
    assert(all.contains(all[i]));
    let j = choose|j: int| #[trigger]
        crate::index::is_first::<(crate::path::RepoPath, DiffStat)>(raw, j) && raw[j] == all[i];
    assert(raw.contains(raw[j]));
}

// ---------------------------------------------------------------------------
// Blame
// ---------------------------------------------------------------------------

/// Law: a line of blame names the check-in that it came with by its first word,
/// and its author behind the date, up to the first colon; whatever the line holds
/// does not count. Lines are numbered from zero.
pub proof fn law_blame_line(
    before: Seq<Seq<char>>,
    n: int,
    a: Seq<char>,
    hash: Seq<char>,
    gap: Seq<char>,
    date: Seq<char>,
    gap2: Seq<char>,
    author: Seq<char>,
    gap3: Seq<char>,
    content: Seq<char>,
)
    requires
        is_blank(a) && is_blank(gap) && is_blank(gap2) && is_blank(gap3),
        gap.len() > 0 && gap2.len() > 0,
        is_word(hash) && is_word(date),
        is_tight(author) && !author.contains(':'),
    ensures
        blame_line(
            n,
            a + hash + gap + date + gap2 + author + gap3 + seq![':'] + content,
        ) == Some(FossilBlameLineView { hash_prefix: hash, author, line_number: n }),
        blame_lines(
            before.push(a + hash + gap + date + gap2 + author + gap3 + seq![':'] + content),
        ) == blame_lines(before).push(
            FossilBlameLineView {
                hash_prefix: hash,
                author,
                line_number: before.len() as int,
            },
        ),
        blame_line(n, a + hash + gap + date + gap2 + author) is None,
{
    let line = a + hash + gap + date + gap2 + author + gap3 + seq![':'] + content;
    let end = author + gap3 + seq![':'] + content;
    lemma_blame_words(a, hash, gap, date, gap2, end);
    lemma_blame_words(a, hash, gap, date, gap2, author);
    assert(line =~= a + hash + gap + date + gap2 + end);
    let named = gap2 + author + gap3;
    assert(gap2 + end =~= named + seq![':'] + content);
    lemma_no_colon(gap2);
    lemma_no_colon(gap3);
    assert(!named.contains(':')) by {
        if named.contains(':') {
            let i = named.index_of(':');
            if i < gap2.len() {
                assert(gap2.contains(gap2[i]));
            } else if i < gap2.len() + author.len() {
                assert(author.contains(author[i - gap2.len()]));
            } else {
                assert(gap3.contains(gap3[i - gap2.len() - author.len()]));
            }
        }
    }
    assert(!(gap2 + author).contains(':')) by {
        if (gap2 + author).contains(':') {
            let i = (gap2 + author).index_of(':');
            assert(named[i] == ':');
            assert(named.contains(named[i]));
        }
    }
    crate::laws::text::law_split_once(named, ':', content);
    crate::laws::text::law_split_once(gap2 + author, ':', content);
    crate::laws::text::law_trim(gap2, author, gap3);
    assert(before.push(line).drop_last() =~= before);
}

proof fn lemma_no_colon(gap: Seq<char>)
    requires
        is_blank(gap),
    ensures
        !gap.contains(':'),
{
    if gap.contains(':') {
        let i = gap.index_of(':');
        assert(is_white(gap[i]));
    }
}

/// The first two words of a line of blame are cut off.
proof fn lemma_blame_words(
    a: Seq<char>,
    hash: Seq<char>,
    gap: Seq<char>,
    date: Seq<char>,
    gap2: Seq<char>,
    end: Seq<char>,
)
    requires
        is_blank(a) && is_blank(gap) && is_blank(gap2),
        gap.len() > 0 && gap2.len() > 0,
        is_word(hash) && is_word(date),
    ensures
        leading_token(trim_start(a + hash + gap + date + gap2 + end)) == Some(
            (hash, gap + date + gap2 + end),
        ),
        leading_token(trim_start(gap + date + gap2 + end)) == Some((date, gap2 + end)),
{
    let rest = date + gap2 + end;
    lemma_token(a, hash, gap, rest);
    assert(a + hash + gap + rest =~= a + hash + gap + date + gap2 + end);
    assert(gap + rest =~= gap + date + gap2 + end);
    lemma_token(gap, date, gap2, end);
}

/// Whether an entry begins at a line and tells what is known of its check-in.
pub open spec fn tells_of(
    entry: BlameEntryView,
    lines: Seq<FossilBlameLineView>,
    infos: Seq<(Seq<char>, FossilCommitInfoView)>,
    path: Seq<char>,
    k: int,
) -> bool {
    &&& 0 <= k < lines.len()
    &&& info_under(infos, lines[k].hash_prefix) is Some
    &&& ({
        let info = info_under(infos, lines[k].hash_prefix)->0;
        &&& oid_of_hash(info.hash) == Some(entry.sha)
        &&& entry.start == lines[k].line_number
        &&& entry.original_line_number == lines[k].line_number + 1
        &&& entry.author == Some(
            if info.user is Some {
                info.user->0
            } else {
                lines[k].author
            },
        )
        &&& entry.committer_name == info.user
        &&& entry.author_time == Some(info.timestamp)
        &&& entry.committer_time == Some(info.timestamp)
        &&& entry.author_tz == Some("+0000"@)
        &&& entry.committer_tz == Some("+0000"@)
        &&& entry.author_mail is None
        &&& entry.committer_email is None
        &&& entry.previous is None
        &&& entry.summary == Some(crate::commit::first_line(info.comment))
        &&& entry.filename == path
    })
}

/// Law: every entry of a blame begins at one of the lines, counted from one for
/// the file, and tells of the check-in of that line: its user, or else the author
/// that the line names, its time, and the first line of its comment.
pub proof fn law_blame_entry_tells(
    lines: Seq<FossilBlameLineView>,
    infos: Seq<(Seq<char>, FossilCommitInfoView)>,
    path: Seq<char>,
    i: int,
)
    requires
        0 <= i < blame_of(lines, infos, path).entries.len(),
    ensures
        exists|k: int| #[trigger]
            tells_of(blame_of(lines, infos, path).entries[i], lines, infos, path, k),
    decreases lines.len(),
{
    let all = blame_of(lines, infos, path).entries;
    let head = lines.drop_last();
    let before = blame_of(head, infos, path).entries;
    if i < before.len() {
        law_blame_entry_tells(head, infos, path, i);
        let k = choose|k: int| #[trigger] tells_of(before[i], head, infos, path, k);
        assert(lines[k] == head[k]);
        assert(tells_of(all[i], lines, infos, path, k));
    } else {
        let k = lines.len() - 1;
        assert(lines[k] == lines.last());
        assert(tells_of(all[i], lines, infos, path, k));
    }
}

/// Law: a check-in is looked up under the prefix that a line names; the first that
/// was loaded under it counts.
pub proof fn law_info_under(
    infos: Seq<(Seq<char>, FossilCommitInfoView)>,
    prefix: Seq<char>,
    i: int,
)
    requires
        0 <= i <= infos.len(),
        forall|k: int| 0 <= k < i ==> (#[trigger] infos[k]).0 != prefix,
        i < infos.len() ==> infos[i].0 == prefix,
    ensures
        info_under(infos, prefix) == (if i < infos.len() {
            Some(infos[i].1)
        } else {
            None
        }),
    decreases i,
{
    if i > 0 {
        let rest = infos.skip(1);
        assert(infos[0].0 != prefix);
        assert forall|k: int| 0 <= k < i - 1 implies (#[trigger] rest[k]).0 != prefix by {
            assert(rest[k] == infos[k + 1]);
        }
        if i < infos.len() {
            assert(rest[i - 1] == infos[i]);
        }
        law_info_under(rest, prefix, i - 1);
    }
}

/// Law: a line without a path counts nothing.
pub proof fn law_no_path_no_counts(
    before: Seq<Seq<char>>,
    a: Seq<char>,
    x: Seq<char>,
    gap: Seq<char>,
    y: Seq<char>,
    gap2: Seq<char>,
    style: PathStyle,
)
    requires
        is_blank(a) && is_blank(gap) && is_blank(gap2),
        gap.len() > 0 && gap2.len() > 0,
        is_word(x) && is_word(y),
    ensures
        numstat_lines(before.push(a + x + gap + y + gap2), style) == numstat_lines(before, style),
        numstat_lines(before.push(a + x + gap + y), style) == numstat_lines(before, style),
{
    let none = Seq::<char>::empty();
    let line = a + x + gap + y + gap2;
    let short = a + x + gap + y;
    lemma_token(a, x, gap, y + gap2);
    assert(line =~= a + x + gap + (y + gap2));
    assert(gap + (y + gap2) =~= gap + y + gap2 + none);
    lemma_token(gap, y, gap2, none);
    assert(gap2 + none =~= gap2);
    crate::laws::text::lemma_trim_start(gap2, none);
    lemma_token(a, x, gap, y);
    crate::laws::text::lemma_trim_start(gap, y);
    crate::laws::text::law_first_word_is_cut_off(y, ' ', none);
    assert(before.push(line).drop_last() =~= before);
    assert(before.push(short).drop_last() =~= before);
}

} // verus!
