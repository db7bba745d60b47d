//! What `fossil info` prints of a checkout and of a check-in.

use crate::error::{FossilError, FossilErrorView};
use crate::index::push_item;
use crate::path::PathStyle;
use crate::text::{
    is_text, joined, rsplit_once_at, split_lines, split_once_at, split_words, to_chars,
    to_text, trimmed, trimmed_end_char, without_suffix,
};
use crate::timestamp::timestamp_of;
use vstd::prelude::*;
use vstd::string::*;

verus! {

// ---------------------------------------------------------------------------
// The checkout
// ---------------------------------------------------------------------------

/// What is known of a checkout.
#[derive(Debug)]
pub struct FossilInfo {
    /// The hash of the check-in.
    pub checkout: Option<String>,
    /// The path of the repository database.
    pub repository: Option<String>,
    /// The root of the checkout.
    pub local_root: Option<String>,
}

/// What is known of a checkout, as texts.
pub struct FossilInfoView {
    pub checkout: Option<Seq<char>>,
    pub repository: Option<Seq<char>>,
    pub local_root: Option<Seq<char>>,
}

impl DeepView for FossilInfo {
    type V = FossilInfoView;

    open spec fn deep_view(&self) -> FossilInfoView {
        FossilInfoView {
            checkout: self.checkout.deep_view(),
            repository: self.repository.deep_view(),
            local_root: self.local_root.deep_view(),
        }
    }
}

impl Default for FossilInfo {
    fn default() -> (r: FossilInfo)
        ensures
            r.deep_view() == no_info(),
    {
        FossilInfo { checkout: None, repository: None, local_root: None }
    }
}

/// A copy of an optional text.
pub fn copy_text(text: &Option<String>) -> (r: Option<String>)
    ensures
        r.deep_view() == text.deep_view(),
{
    match text {
        Some(text) => Some(text.clone()),
        None => None,
    }
}

impl Clone for FossilInfo {
    fn clone(&self) -> (r: FossilInfo)
        ensures
            r.deep_view() == self.deep_view(),
    {
        FossilInfo {
            checkout: copy_text(&self.checkout),
            repository: copy_text(&self.repository),
            local_root: copy_text(&self.local_root),
        }
    }
}

/// A checkout of which nothing is known.
pub open spec fn no_info() -> FossilInfoView {
    FossilInfoView { checkout: None, repository: None, local_root: None }
}

/// The first word of a text.
pub open spec fn first_word(s: Seq<char>) -> Option<Seq<char>> {
    if crate::text::words(s).len() > 0 {
        Some(crate::text::words(s)[0])
    } else {
        None
    }
}

/// What is known after one more line.
pub open spec fn info_line(info: FossilInfoView, line: Seq<char>, style: PathStyle) -> FossilInfoView {
    match crate::text::split_once(line, ':') {
        None => info,
        Some((key, value)) => {
            let key = crate::text::trim(key);
            let text = crate::text::trim(value);
            if key == "checkout"@ {
                FossilInfoView { checkout: first_word(value), ..info }
            } else if key == "repository"@ && text.len() > 0 {
                FossilInfoView { repository: Some(text), ..info }
            } else if key == "local-root"@ && text.len() > 0 {
                FossilInfoView {
                    local_root: Some(
                        crate::text::trim_end_char(text, crate::path::main_separator(style)),
                    ),
                    ..info
                }
            } else {
                info
            }
        },
    }
}

/// What is known after the given lines.
pub open spec fn info_lines(lines: Seq<Seq<char>>, style: PathStyle) -> FossilInfoView
    decreases lines.len(),
{
    if lines.len() == 0 {
        no_info()
    } else {
        info_line(info_lines(lines.drop_last(), style), lines.last(), style)
    }
}

/// What the output of `fossil info` says of a checkout.
pub open spec fn checkout_info(output: Seq<char>, style: PathStyle) -> FossilInfoView {
    info_lines(crate::text::lines(output), style)
}

/// The first word of a text.
pub fn first_word_of<'a>(s: &'a [char]) -> (r: Option<String>)
    ensures
        r.deep_view() == first_word(s@),
{
    let words = split_words(s);
    assert(crate::text::texts(words@).len() == words@.len());
    if words.len() > 0 {
        let first = words[0];
        assert(crate::text::texts(words@)[0] == first@);
        Some(to_text(first))
    } else {
        None
    }
}

/// Takes in one more line.
fn add_info_line(info: &mut FossilInfo, line: &[char], style: PathStyle)
    ensures
        final(info).deep_view() == info_line(old(info).deep_view(), line@, style),
{
    match split_once_at(line, ':') {
        None => {},
        Some((key, value)) => {
            let key = trimmed(key);
            let text = trimmed(value);
            if is_text(key, "checkout") {
                info.checkout = first_word_of(value);
            } else if is_text(key, "repository") && text.len() > 0 {
                info.repository = Some(to_text(text));
            } else if is_text(key, "local-root") && text.len() > 0 {
                let separator = match style {
                    PathStyle::Posix => '/',
                    PathStyle::Windows => '\\',
                };
                info.local_root = Some(to_text(trimmed_end_char(text, separator)));
            }
        },
    }
}

/// Reads the output of `fossil info` for a checkout.
pub fn parse_fossil_info(output: &str, style: PathStyle) -> (r: FossilInfo)
    ensures
        r.deep_view() == checkout_info(output@, style),
{
    let chars = to_chars(output);
    let lines = split_lines(chars.as_slice());
    let ghost all = crate::text::lines(output@);
    let mut info = FossilInfo::default();
    let mut i: usize = 0;
    assert(all.take(0) == Seq::<Seq<char>>::empty());
    while i < lines.len()
        invariant
            i <= lines@.len(),
            crate::text::texts(lines@) == all,
            info.deep_view() == info_lines(all.take(i as int), style),
        decreases lines@.len() - i,
    {
        assert(all.take(i + 1).drop_last() == all.take(i as int));
        assert(all.take(i + 1).last() == lines@[i as int]@);
        add_info_line(&mut info, lines[i], style);
        i = i + 1;
    }
    assert(all.take(i as int) == all);
    info
}

// ---------------------------------------------------------------------------
// A check-in
// ---------------------------------------------------------------------------

/// What is known of a check-in.
#[derive(Debug)]
pub struct FossilCommitInfo {
    pub hash: String,
    pub parents: Vec<String>,
    pub tags: Vec<String>,
    pub branch: Option<String>,
    pub comment: String,
    pub user: Option<String>,
    pub timestamp: i64,
}

/// What is known of a check-in, as texts.
pub struct FossilCommitInfoView {
    pub hash: Seq<char>,
    pub parents: Seq<Seq<char>>,
    pub tags: Seq<Seq<char>>,
    pub branch: Option<Seq<char>>,
    pub comment: Seq<char>,
    pub user: Option<Seq<char>>,
    pub timestamp: int,
}

impl DeepView for FossilCommitInfo {
    type V = FossilCommitInfoView;

    open spec fn deep_view(&self) -> FossilCommitInfoView {
        FossilCommitInfoView {
            hash: self.hash@,
            parents: self.parents.deep_view(),
            tags: self.tags.deep_view(),
            branch: self.branch.deep_view(),
            comment: self.comment@,
            user: self.user.deep_view(),
            timestamp: self.timestamp as int,
        }
    }
}

/// A check-in of which nothing is known.
pub open spec fn no_commit_info() -> FossilCommitInfoView {
    FossilCommitInfoView {
        hash: seq![],
        parents: seq![],
        tags: seq![],
        branch: None,
        comment: seq![],
        user: None,
        timestamp: 0,
    }
}

impl Default for FossilCommitInfo {
    fn default() -> (r: FossilCommitInfo)
        ensures
            r.deep_view() == no_commit_info(),
    {
        let r = FossilCommitInfo {
            hash: String::new(),
            parents: Vec::new(),
            tags: Vec::new(),
            branch: None,
            comment: String::new(),
            user: None,
            timestamp: 0,
        };
        assert(r.hash@ == Seq::<char>::empty() && r.comment@ == Seq::<char>::empty());
        assert(r.parents.deep_view() == Seq::<Seq<char>>::empty());
        assert(r.tags.deep_view() == Seq::<Seq<char>>::empty());
        r
    }
}

/// A copy of a list of texts.
pub fn copy_texts(list: &Vec<String>) -> (r: Vec<String>)
    ensures
        r.deep_view() == list.deep_view(),
{
    let mut r: Vec<String> = Vec::new();
    for i in 0..list.len()
        invariant
            r.deep_view() == list.deep_view().take(i as int),
    {
        push_item(&mut r, list[i].clone());
        assert(r.deep_view() == list.deep_view().take(i + 1));
    }
    assert(list.deep_view().take(list@.len() as int) == list.deep_view());
    r
}

impl Clone for FossilCommitInfo {
    fn clone(&self) -> (r: FossilCommitInfo)
        ensures
            r.deep_view() == self.deep_view(),
    {
        FossilCommitInfo {
            hash: self.hash.clone(),
            parents: copy_texts(&self.parents),
            tags: copy_texts(&self.tags),
            branch: copy_text(&self.branch),
            comment: self.comment.clone(),
            user: copy_text(&self.user),
            timestamp: self.timestamp,
        }
    }
}

/// A comment and the user behind it, where the text ends in `(user: ...)`.
pub open spec fn comment_user(value: Seq<char>) -> (Seq<char>, Option<Seq<char>>) {
    match crate::text::rsplit_once(value, " (user: "@) {
        Some((comment, rest)) => match crate::text::strip_suffix(rest, ")"@) {
            Some(user) => (comment, Some(user)),
            None => (value, None),
        },
        None => (value, None),
    }
}

/// Cuts the user off a comment.
pub fn parse_fossil_comment_user<'a>(value: &'a [char]) -> (r: (&'a [char], Option<&'a [char]>))
    ensures
        (r.0@, crate::text::opt_text(r.1)) == comment_user(value@),
{
    match rsplit_once_at(value, " (user: ") {
        Some((comment, rest)) => match without_suffix(rest, ")") {
            Some(user) => (comment, Some(user)),
            None => (value, None),
        },
        None => (value, None),
    }
}

/// A text with a space for every comma.
pub open spec fn without_commas(s: Seq<char>) -> Seq<char> {
    Seq::new(
        s.len(),
        |i: int|
            if s[i] == ',' {
                ' '
            } else {
                s[i]
            },
    )
}

/// Tags stand between commas and white space.
pub open spec fn tag_list(value: Seq<char>) -> Seq<Seq<char>> {
    crate::text::words(without_commas(value))
}

/// The first tag that can be the name of a branch.
pub open spec fn branch_tag(tags: Seq<Seq<char>>) -> Option<Seq<char>>
    decreases tags.len(),
{
    if tags.len() == 0 {
        None
    } else if tags[0] != "sym-trunk"@ {
        Some(tags[0])
    } else {
        branch_tag(tags.skip(1))
    }
}

/// The words behind the first.
pub open spec fn other_words(s: Seq<char>) -> Seq<char> {
    let ws = crate::text::words(s);
    if ws.len() > 0 {
        crate::text::join(ws.skip(1), " "@)
    } else {
        seq![]
    }
}

/// What is known of a check-in after one more line.
pub open spec fn commit_line(info: FossilCommitInfoView, line: Seq<char>) -> FossilCommitInfoView {
    match crate::text::split_once(line, ':') {
        None => info,
        Some((key, value)) => {
            let key = crate::text::trim(key);
            let value = crate::text::trim(value);
            if key == "hash"@ || key == "checkout"@ {
                FossilCommitInfoView {
                    hash: match first_word(value) {
                        Some(hash) => hash,
                        None => info.hash,
                    },
                    timestamp: match crate::timestamp::timestamp(other_words(value)) {
                        Some(seconds) => seconds,
                        None => info.timestamp,
                    },
                    ..info
                }
            } else if key == "parent"@ {
                match first_word(value) {
                    Some(parent) => FossilCommitInfoView {
                        parents: info.parents.push(parent),
                        ..info
                    },
                    None => info,
                }
            } else if key == "tags"@ {
                FossilCommitInfoView {
                    tags: tag_list(value),
                    branch: branch_tag(tag_list(value)),
                    ..info
                }
            } else if key == "comment"@ {
                FossilCommitInfoView {
                    comment: comment_user(value).0,
                    user: comment_user(value).1,
                    ..info
                }
            } else if key == "user"@ && value.len() > 0 {
                FossilCommitInfoView { user: Some(value), ..info }
            } else {
                info
            }
        },
    }
}

/// What is known of a check-in after the given lines.
pub open spec fn commit_lines(lines: Seq<Seq<char>>) -> FossilCommitInfoView
    decreases lines.len(),
{
    if lines.len() == 0 {
        no_commit_info()
    } else {
        commit_line(commit_lines(lines.drop_last()), lines.last())
    }
}

/// What the output of `fossil info` says of a check-in: it must name one.
pub open spec fn commit_info(output: Seq<char>) -> Result<FossilCommitInfoView, FossilErrorView> {
    let info = commit_lines(crate::text::lines(output));
    if info.hash.len() == 0 {
        Err(FossilErrorView::MissingCheckInHash)
    } else {
        Ok(info)
    }
}

/// The tags of a line.
fn tags_of(value: &[char]) -> (r: Vec<String>)
    ensures
        r.deep_view() == tag_list(value@),
{
    let mut spaced: Vec<char> = Vec::new();
    for i in 0..value.len()
        invariant
            spaced@ == without_commas(value@).take(i as int),
    {
        if value[i] == ',' {
            spaced.push(' ');
        } else {
            spaced.push(value[i]);
        }
        assert(spaced@ == without_commas(value@).take(i + 1));
    }
    assert(spaced@ == without_commas(value@));
    let words = split_words(spaced.as_slice());
    texts_to_strings(&words)
}

/// The strings of a list of slices.
pub fn texts_to_strings(parts: &Vec<&[char]>) -> (r: Vec<String>)
    ensures
        r.deep_view() == crate::text::texts(parts@),
{
    let mut r: Vec<String> = Vec::new();
    let ghost all = crate::text::texts(parts@);
    for i in 0..parts.len()
        invariant
            all == crate::text::texts(parts@),
            r.deep_view() == all.take(i as int),
    {
        push_item(&mut r, to_text(parts[i]));
        assert(r.deep_view() == all.take(i + 1));
    }
    assert(all.take(parts@.len() as int) == all);
    r
}

/// The first tag that can be the name of a branch.
fn branch_tag_of(tags: &Vec<String>) -> (r: Option<String>)
    ensures
        r.deep_view() == branch_tag(tags.deep_view()),
{
    let ghost all = tags.deep_view();
    let trunk = "sym-trunk".to_owned();
    let mut i: usize = 0;
    assert(all.skip(0) == all);
    while i < tags.len()
        invariant
            i <= tags@.len(),
            all == tags.deep_view(),
            trunk@ == "sym-trunk"@,
            branch_tag(all) == branch_tag(all.skip(i as int)),
        decreases tags@.len() - i,
    {
        assert(all.skip(i as int)[0] == tags@[i as int]@);
        if tags[i] != trunk {
            return Some(tags[i].clone());
        }
        assert(all.skip(i as int).skip(1) == all.skip(i + 1));
        i = i + 1;
    }
    None
}

/// Takes in one more line.
fn add_commit_line(info: &mut FossilCommitInfo, line: &[char])
    ensures
        final(info).deep_view() == commit_line(old(info).deep_view(), line@),
{
    match split_once_at(line, ':') {
        None => {},
        Some((key, value)) => {
            let key = trimmed(key);
            let value = trimmed(value);
            if is_text(key, "hash") || is_text(key, "checkout") {
                let words = split_words(value);
                let ghost all = crate::text::words(value@);
                assert(crate::text::texts(words@).len() == words@.len());
                if words.len() > 0 {
                    assert(all[0] == words@[0]@);
                    info.hash = to_text(words[0]);
                    let date = joined(&words, 1, " ");
                    if let Some(seconds) = timestamp_of(date.as_slice()) {
                        info.timestamp = seconds;
                    }
                } else {
                    proof {
                        lemma_no_timestamp();
                    }
                }
            } else if is_text(key, "parent") {
                if let Some(parent) = first_word_of(value) {
                    push_item(&mut info.parents, parent);
                }
            } else if is_text(key, "tags") {
                info.tags = tags_of(value);
                info.branch = branch_tag_of(&info.tags);
            } else if is_text(key, "comment") {
                let (comment, user) = parse_fossil_comment_user(value);
                info.comment = to_text(comment);
                info.user = match user {
                    Some(user) => Some(to_text(user)),
                    None => None,
                };
            } else if is_text(key, "user") && value.len() > 0 {
                info.user = Some(to_text(value));
            }
        },
    }
}

/// An empty text is no time stamp.
pub proof fn lemma_no_timestamp()
    ensures
        crate::timestamp::timestamp(seq![]) is None,
{
    reveal_strlit(" UTC");
    let none = Seq::<char>::empty();
    assert(crate::text::trim(none) == none);
    assert(!crate::text::ends_with(none, " UTC"@));
}

/// Reads the output of `fossil info` for a check-in.
pub fn parse_fossil_commit_info(output: &str) -> (r: Result<FossilCommitInfo, FossilError>)
    ensures
        crate::error::result_view(r) == commit_info(output@),
{
    let chars = to_chars(output);
    let lines = split_lines(chars.as_slice());
    let ghost all = crate::text::lines(output@);
    let mut info = FossilCommitInfo::default();
    let mut i: usize = 0;
    assert(all.take(0) == Seq::<Seq<char>>::empty());
    while i < lines.len()
        invariant
            i <= lines@.len(),
            crate::text::texts(lines@) == all,
            info.deep_view() == commit_lines(all.take(i as int)),
        decreases lines@.len() - i,
    {
        assert(all.take(i + 1).drop_last() == all.take(i as int));
        assert(all.take(i + 1).last() == lines@[i as int]@);
        add_commit_line(&mut info, lines[i]);
        i = i + 1;
    }
    assert(all.take(i as int) == all);
    if info.hash.as_str().unicode_len() == 0 {
        return Err(FossilError::MissingCheckInHash);
    }
    Ok(info)
}

/// Behind the mark of a user no other such mark stands.
proof fn lemma_no_later_mark(s: Seq<char>, n: int, user: Seq<char>, mark: Seq<char>, j: int)
    requires
        mark == seq![' ', '(', 'u', 's', 'e', 'r', ':', ' '],
        0 <= n,
        s.len() == n + 8 + user.len() + 1,
        s.subrange(n, n + 8) == mark,
        s.subrange(n + 8, n + 8 + user.len()) == user,
        s[s.len() - 1] == ')',
        !crate::text::contains(seq![' '] + user, mark),
        n < j <= s.len() - 8,
    ensures
        s.subrange(j, j + 8) != mark,
{
    let window = s.subrange(j, j + 8);
    let tail = seq![' '] + user;
    if window == mark {
        assert(window[0] == ' ' && window[7] == ' ');
        assert(window[0] == s[j] && window[7] == s[j + 7]);
        if j + 8 < s.len() {
            if j < n + 7 {
                assert(s.subrange(n, n + 8)[j - n] == s[j]);
                assert(mark[j - n] == ' ');
            } else {
                let k = j - n - 7;
                assert forall|x: int| 0 <= x < 8 implies tail[k + x] == window[x] by {
                    if k + x == 0 {
                        assert(s.subrange(n, n + 8)[7] == s[n + 7]);
                    } else {
                        assert(s.subrange(n + 8, n + 8 + user.len())[k + x - 1] == s[j + x]);
                    }
                }
                assert(tail.subrange(k, k + 8) =~= window);
                assert(tail.subrange(k, k + mark.len()) == mark);
            }
        }
    }
}

/// Law: a comment and the user behind it are told apart, whatever the comment
/// holds; the user may not hold another `(user: `.
pub proof fn law_comment_and_user_are_read_back(comment: Seq<char>, user: Seq<char>)
    requires
        !crate::text::contains(" "@ + user, " (user: "@),
    ensures
        comment_user(comment + " (user: "@ + user + ")"@) == (comment, Some(user)),
{
    reveal_strlit(" ");
    reveal_strlit(" (user: ");
    reveal_strlit(")");
    let mark = " (user: "@;
    let s = comment + mark + user + ")"@;
    let n = comment.len() as int;
    assert(" "@ =~= seq![' ']);
    assert(mark =~= seq![' ', '(', 'u', 's', 'e', 'r', ':', ' ']);
    assert(s.subrange(n, n + 8) =~= mark);
    assert(s.subrange(n + 8, n + 8 + user.len()) =~= user);
    assert forall|j: int| n < j <= s.len() - mark.len() implies #[trigger] s.subrange(
        j,
        j + mark.len(),
    ) != mark by {
        lemma_no_later_mark(s, n, user, mark, j);
    }
    crate::text::lemma_rfind(s, mark, n);
    assert(s.take(n) =~= comment);
    let rest = s.skip(n + 8);
    assert(rest =~= user + ")"@);
    assert(rest.skip(rest.len() - 1) =~= ")"@);
    assert(rest.take(rest.len() - 1) =~= user);
}

} // verus!
