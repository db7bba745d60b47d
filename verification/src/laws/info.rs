//! Laws of what `fossil info` says of a checkout and of a check-in.

use crate::error::FossilErrorView;
use crate::info::{
    branch_tag, checkout_info, comment_user, commit_info, commit_lines, info_lines, tag_list,
    without_commas, FossilCommitInfoView, FossilInfoView,
};
use crate::laws::text::{is_blank, is_line, is_tight, is_word, unlines};
use crate::path::PathStyle;
use crate::text::{contains, join, split_once, trim, words};
use vstd::prelude::*;

verus! {

/// A line with a key, a colon, blanks and a value.
pub open spec fn field(key: Seq<char>, gap: Seq<char>, value: Seq<char>) -> Seq<char> {
    key + seq![':'] + gap + value
}

/// Whether a text can be a key: tight and without a colon.
pub open spec fn is_key(key: Seq<char>) -> bool {
    is_tight(key) && !key.contains(':')
}

/// A field is read as its key and its value.
pub proof fn lemma_field(key: Seq<char>, gap: Seq<char>, value: Seq<char>)
    requires
        is_key(key),
        is_blank(gap),
        is_tight(value),
    ensures
        split_once(field(key, gap, value), ':') == Some((key, gap + value)),
        trim(key) == key,
        trim(gap + value) == value,
        words(gap + value) == words(value),
{
    let none = Seq::<char>::empty();
    crate::laws::text::law_split_once(key, ':', gap + value);
    assert(field(key, gap, value) =~= key + seq![':'] + (gap + value));
    crate::laws::text::law_trim(none, key, none);
    crate::laws::text::law_trim(gap, value, none);
    assert(gap + value + none =~= gap + value);
    crate::laws::text::lemma_blank_words(gap, value);
}

/// The keys of `fossil info`.
pub proof fn lemma_keys()
    ensures
        is_key("hash"@) && is_key("checkout"@) && is_key("parent"@) && is_key("tags"@) && is_key(
            "comment"@,
        ) && is_key("user"@) && is_key("repository"@) && is_key("local-root"@),
        "hash"@ != "parent"@ && "hash"@ != "tags"@ && "hash"@ != "comment"@ && "hash"@ != "user"@,
        "checkout"@ != "parent"@ && "checkout"@ != "tags"@ && "checkout"@ != "comment"@
            && "checkout"@ != "user"@ && "checkout"@ != "repository"@ && "checkout"@
            != "local-root"@,
        "parent"@ != "tags"@ && "parent"@ != "comment"@ && "parent"@ != "user"@,
        "tags"@ != "comment"@ && "tags"@ != "user"@,
        "comment"@ != "user"@,
        "repository"@ != "local-root"@,
{
    reveal_strlit("hash");
    reveal_strlit("checkout");
    reveal_strlit("parent");
    reveal_strlit("tags");
    reveal_strlit("comment");
    reveal_strlit("user");
    reveal_strlit("repository");
    reveal_strlit("local-root");
    assert("hash"@ =~= seq!['h', 'a', 's', 'h']);
    assert("checkout"@ =~= seq!['c', 'h', 'e', 'c', 'k', 'o', 'u', 't']);
    assert("parent"@ =~= seq!['p', 'a', 'r', 'e', 'n', 't']);
    assert("tags"@ =~= seq!['t', 'a', 'g', 's']);
    assert("comment"@ =~= seq!['c', 'o', 'm', 'm', 'e', 'n', 't']);
    assert("user"@ =~= seq!['u', 's', 'e', 'r']);
    assert("repository"@ =~= seq!['r', 'e', 'p', 'o', 's', 'i', 't', 'o', 'r', 'y']);
    assert("local-root"@ =~= seq!['l', 'o', 'c', 'a', 'l', '-', 'r', 'o', 'o', 't']);
    assert("hash"@[0] == 'h' && "parent"@[0] == 'p' && "tags"@[0] == 't' && "comment"@[0] == 'c'
        && "user"@[0] == 'u' && "repository"@[0] == 'r' && "local-root"@[0] == 'l'
        && "checkout"@[0] == 'c');
    assert("checkout"@.len() == 8 && "comment"@.len() == 7);
}

// ---------------------------------------------------------------------------
// A checkout
// ---------------------------------------------------------------------------

/// Law: a `checkout: ` line says which check-in is checked out: the first word
/// behind it.
pub proof fn law_checkout_line(
    before: Seq<Seq<char>>,
    gap: Seq<char>,
    hash: Seq<char>,
    rest: Seq<char>,
    style: PathStyle,
)
    requires
        is_blank(gap),
        is_word(hash),
        is_tight(rest) && rest.len() > 0,
    ensures
        info_lines(before.push(field("checkout"@, gap, hash + seq![' '] + rest)), style) == (
        FossilInfoView { checkout: Some(hash), ..info_lines(before, style) }),
        info_lines(before.push(field("checkout"@, gap, hash)), style) == (FossilInfoView {
            checkout: Some(hash),
            ..info_lines(before, style)
        }),
{
    lemma_keys();
    let value = hash + seq![' '] + rest;
    assert(value[0] == hash[0] && value.last() == rest.last());
    lemma_field("checkout"@, gap, value);
    lemma_field("checkout"@, gap, hash);
    let none = Seq::<char>::empty();
    crate::laws::text::law_words(none, hash, ' ', rest);
    assert(none + hash + seq![' '] + rest =~= value);
    assert(none + hash =~= hash);
    assert(before.push(field("checkout"@, gap, value)).drop_last() =~= before);
    assert(before.push(field("checkout"@, gap, hash)).drop_last() =~= before);
    assert((seq![hash] + words(rest))[0] == hash);
}

/// Law: a `repository: ` line names the repository database, whatever the path
/// holds.
pub proof fn law_repository_line(
    before: Seq<Seq<char>>,
    gap: Seq<char>,
    path: Seq<char>,
    style: PathStyle,
)
    requires
        is_blank(gap),
        is_tight(path) && path.len() > 0,
    ensures
        info_lines(before.push(field("repository"@, gap, path)), style) == (FossilInfoView {
            repository: Some(path),
            ..info_lines(before, style)
        }),
{
    lemma_keys();
    lemma_field("repository"@, gap, path);
    assert(before.push(field("repository"@, gap, path)).drop_last() =~= before);
}

/// Law: a `local-root: ` line names the root of the checkout, without the
/// separators at its end.
pub proof fn law_local_root_line(
    before: Seq<Seq<char>>,
    gap: Seq<char>,
    path: Seq<char>,
    n: nat,
    style: PathStyle,
)
    requires
        is_blank(gap),
        is_tight(path) && path.len() > 0,
        path.last() != (if style == PathStyle::Windows {
            '\\'
        } else {
            '/'
        }),
    ensures
        info_lines(
            before.push(
                field(
                    "local-root"@,
                    gap,
                    path + Seq::new(
                        n,
                        |i: int|
                            if style == PathStyle::Windows {
                                '\\'
                            } else {
                                '/'
                            },
                    ),
                ),
            ),
            style,
        ) == (FossilInfoView { local_root: Some(path), ..info_lines(before, style) }),
{
    lemma_keys();
    let c = if style == PathStyle::Windows {
        '\\'
    } else {
        '/'
    };
    let run = Seq::new(
        n,
        |i: int|
            if style == PathStyle::Windows {
                '\\'
            } else {
                '/'
            },
    );
    let value = path + run;
    assert(value[0] == path[0]);
    if n > 0 {
        assert(value.last() == c);
    } else {
        assert(value =~= path);
    }
    lemma_field("local-root"@, gap, value);
    crate::laws::text::law_trim_char(path, c, n);
    assert(run =~= Seq::new(n, |i: int| c));
    assert(before.push(field("local-root"@, gap, value)).drop_last() =~= before);
}

/// Law: no other line says anything of a checkout.
pub proof fn law_other_info_line(
    before: Seq<Seq<char>>,
    key: Seq<char>,
    gap: Seq<char>,
    value: Seq<char>,
    plain: Seq<char>,
    style: PathStyle,
)
    requires
        is_key(key),
        is_blank(gap),
        is_tight(value),
        key != "checkout"@ && key != "repository"@ && key != "local-root"@,
        !plain.contains(':'),
    ensures
        info_lines(before.push(field(key, gap, value)), style) == info_lines(before, style),
        info_lines(before.push(plain), style) == info_lines(before, style),
{
    lemma_field(key, gap, value);
    crate::laws::text::law_split_once(plain, ':', plain);
    assert(before.push(field(key, gap, value)).drop_last() =~= before);
    assert(before.push(plain).drop_last() =~= before);
}

/// Law: what is known of a checkout is what the lines say, one after the other,
/// and nothing before the first.
pub proof fn law_checkout_info(ls: Seq<Seq<char>>, style: PathStyle)
    requires
        forall|i: int| 0 <= i < ls.len() ==> is_line(#[trigger] ls[i]),
    ensures
        checkout_info(unlines(ls), style) == info_lines(ls, style),
        info_lines(seq![], style) == (FossilInfoView {
            checkout: None,
            repository: None,
            local_root: None,
        }),
{
    crate::laws::text::law_lines_are_read_back(ls);
}

// ---------------------------------------------------------------------------
// A check-in
// ---------------------------------------------------------------------------

/// Texts that are words.
pub open spec fn are_words(ws: Seq<Seq<char>>) -> bool {
    forall|i: int| 0 <= i < ws.len() ==> is_word(#[trigger] ws[i])
}

/// Words that are joined with spaces are found again.
pub proof fn lemma_words_of_join(ws: Seq<Seq<char>>)
    requires
        are_words(ws),
    ensures
        words(join(ws, seq![' '])) == ws,
        is_tight(join(ws, seq![' '])),
        ws.len() > 0 ==> join(ws, seq![' ']).len() > 0,
    decreases ws.len(),
{
    let sep = seq![' '];
    let none = Seq::<char>::empty();
    if ws.len() == 0 {
        assert(words(join(ws, sep)) =~= ws);
    } else {
        let w = ws[0];
        assert(is_word(w));
        if ws.len() == 1 {
            crate::laws::text::law_words(none, w, ' ', none);
            assert(none + w =~= w);
            assert(ws =~= seq![w]);
            assert(!crate::text::is_white(w[w.len() - 1]));
        } else {
            let rest = ws.skip(1);
            assert(are_words(rest)) by {
                assert forall|i: int| 0 <= i < rest.len() implies is_word(#[trigger] rest[i]) by {
                    assert(rest[i] == ws[i + 1]);
                }
            }
            lemma_words_of_join(rest);
            crate::text::lemma_join_front(ws, sep);
            let tail = join(rest, sep);
            crate::laws::text::law_words(none, w, ' ', tail);
            assert(none + w + sep + tail =~= w + sep + tail);
            assert(seq![w] + rest =~= ws);
            assert((w + sep + tail)[0] == w[0]);
            assert((w + sep + tail).last() == tail.last());
        }
    }
}

/// Law: a `hash: ` or `checkout: ` line names the check-in: the first word is its
/// hash, and the others are its time if they are one.
pub proof fn law_hash_line(
    before: Seq<Seq<char>>,
    key: Seq<char>,
    gap: Seq<char>,
    hash: Seq<char>,
    date: Seq<Seq<char>>,
)
    requires
        key == "hash"@ || key == "checkout"@,
        is_blank(gap),
        is_word(hash),
        are_words(date) && date.len() > 0,
    ensures
        ({
            let was = commit_lines(before);
            let value = hash + seq![' '] + join(date, seq![' ']);
            let now = commit_lines(before.push(field(key, gap, value)));
            &&& now == (FossilCommitInfoView {
                hash,
                timestamp: match crate::timestamp::timestamp(join(date, seq![' '])) {
                    Some(seconds) => seconds,
                    None => was.timestamp,
                },
                ..was
            })
            &&& commit_lines(before.push(field(key, gap, hash))) == (FossilCommitInfoView {
                hash,
                ..was
            })
        }),
{
    lemma_keys();
    lemma_words_of_join(date);
    reveal_strlit(" ");
    assert(" "@ =~= seq![' ']);
    let none = Seq::<char>::empty();
    let tail = join(date, seq![' ']);
    let value = hash + seq![' '] + tail;
    assert(value[0] == hash[0] && value.last() == tail.last());
    lemma_field(key, gap, value);
    lemma_field(key, gap, hash);
    crate::laws::text::law_words(none, hash, ' ', tail);
    assert(none + hash + seq![' '] + tail =~= value);
    assert(none + hash =~= hash);
    let ws = words(value);
    assert(ws == seq![hash] + date);
    assert(ws[0] == hash);
    assert(ws.skip(1) =~= date);
    assert(seq![hash].skip(1) =~= Seq::<Seq<char>>::empty());
    crate::info::lemma_no_timestamp();
    assert(before.push(field(key, gap, value)).drop_last() =~= before);
    assert(before.push(field(key, gap, hash)).drop_last() =~= before);
}

/// Law: every `parent: ` line adds one parent behind the others: the first word
/// behind it.
pub proof fn law_parent_line(
    before: Seq<Seq<char>>,
    gap: Seq<char>,
    hash: Seq<char>,
    rest: Seq<char>,
)
    requires
        is_blank(gap),
        is_word(hash),
        is_tight(rest) && rest.len() > 0,
    ensures
        commit_lines(before.push(field("parent"@, gap, hash + seq![' '] + rest))) == (
        FossilCommitInfoView {
            parents: commit_lines(before).parents.push(hash),
            ..commit_lines(before)
        }),
        commit_lines(before.push(field("parent"@, gap, hash))) == (FossilCommitInfoView {
            parents: commit_lines(before).parents.push(hash),
            ..commit_lines(before)
        }),
{
    lemma_keys();
    let none = Seq::<char>::empty();
    let value = hash + seq![' '] + rest;
    assert(value[0] == hash[0] && value.last() == rest.last());
    lemma_field("parent"@, gap, value);
    lemma_field("parent"@, gap, hash);
    crate::laws::text::law_words(none, hash, ' ', rest);
    assert(none + hash + seq![' '] + rest =~= value);
    assert(none + hash =~= hash);
    assert((seq![hash] + words(rest))[0] == hash);
    assert(before.push(field("parent"@, gap, value)).drop_last() =~= before);
    assert(before.push(field("parent"@, gap, hash)).drop_last() =~= before);
}

/// Texts with a comma and a space between them.
pub open spec fn listed(tags: Seq<Seq<char>>) -> Seq<char> {
    join(tags, seq![',', ' '])
}

/// Whether a text can be a tag: a word without a comma.
pub open spec fn is_tag(tag: Seq<char>) -> bool {
    is_word(tag) && !tag.contains(',')
}

proof fn lemma_tags(tags: Seq<Seq<char>>)
    requires
        forall|i: int| 0 <= i < tags.len() ==> is_tag(#[trigger] tags[i]),
    ensures
        tag_list(listed(tags)) == tags,
        is_tight(listed(tags)),
        tags.len() > 0 ==> listed(tags).len() > 0,
    decreases tags.len(),
{
    let sep = seq![',', ' '];
    let none = Seq::<char>::empty();
    if tags.len() == 0 {
        assert(without_commas(listed(tags)) =~= none);
        assert(tag_list(listed(tags)) =~= tags);
    } else {
        let w = tags[0];
        assert(is_tag(w));
        assert(without_commas(w) =~= w) by {
            assert forall|i: int| 0 <= i < w.len() implies without_commas(w)[i] == w[i] by {
                assert(w.contains(w[i]));
            }
        }
        if tags.len() == 1 {
            crate::laws::text::law_words(none, w, ' ', none);
            assert(none + w =~= w);
            assert(tags =~= seq![w]);
            assert(!crate::text::is_white(w[w.len() - 1]));
        } else {
            let rest = tags.skip(1);
            assert forall|i: int| 0 <= i < rest.len() implies is_tag(#[trigger] rest[i]) by {
                assert(rest[i] == tags[i + 1]);
            }
            lemma_tags(rest);
            crate::text::lemma_join_front(tags, sep);
            let tail = listed(rest);
            let all = w + sep + tail;
            assert(listed(tags) == all);
            assert(all[0] == w[0]);
            assert(all.last() == tail.last());
            assert(without_commas(all) =~= w + seq![' '] + (seq![' '] + without_commas(tail)));
            crate::laws::text::law_words(none, w, ' ', seq![' '] + without_commas(tail));
            assert(none + w + seq![' '] + (seq![' '] + without_commas(tail)) =~= w + seq![' '] + (
            seq![' '] + without_commas(tail)));
            crate::laws::text::lemma_blank_words(seq![' '], without_commas(tail));
            assert(seq![w] + rest =~= tags);
        }
    }
}

proof fn lemma_branch_tag(tags: Seq<Seq<char>>, n: int)
    requires
        0 <= n <= tags.len(),
        forall|i: int| 0 <= i < n ==> #[trigger] tags[i] == "sym-trunk"@,
        n < tags.len() ==> tags[n] != "sym-trunk"@,
    ensures
        branch_tag(tags) == (if n < tags.len() {
            Some(tags[n])
        } else {
            None
        }),
    decreases n,
{
    if n > 0 {
        let rest = tags.skip(1);
        assert(tags[0] == "sym-trunk"@);
        assert forall|i: int| 0 <= i < n - 1 implies #[trigger] rest[i] == "sym-trunk"@ by {
            assert(rest[i] == tags[i + 1]);
        }
        if n < tags.len() {
            assert(rest[n - 1] == tags[n]);
        }
        lemma_branch_tag(rest, n - 1);
    }
}

/// Law: a `tags: ` line lists all the tags; the branch is the first that is not
/// `sym-trunk`.
pub proof fn law_tags_line(before: Seq<Seq<char>>, gap: Seq<char>, tags: Seq<Seq<char>>, n: int)
    requires
        is_blank(gap),
        forall|i: int| 0 <= i < tags.len() ==> is_tag(#[trigger] tags[i]),
        0 <= n <= tags.len(),
        forall|i: int| 0 <= i < n ==> #[trigger] tags[i] == "sym-trunk"@,
        n < tags.len() ==> tags[n] != "sym-trunk"@,
    ensures
        commit_lines(before.push(field("tags"@, gap, listed(tags)))) == (FossilCommitInfoView {
            tags,
            branch: if n < tags.len() {
                Some(tags[n])
            } else {
                None
            },
            ..commit_lines(before)
        }),
{
    lemma_keys();
    lemma_tags(tags);
    lemma_field("tags"@, gap, listed(tags));
    lemma_branch_tag(tags, n);
    assert(before.push(field("tags"@, gap, listed(tags))).drop_last() =~= before);
}

/// Law: a `comment: ` line gives the whole comment. Where it ends with
/// `(user: ...)`, the user is told apart from it; where it names no user, none is
/// known.
pub proof fn law_comment_line(
    before: Seq<Seq<char>>,
    gap: Seq<char>,
    comment: Seq<char>,
    user: Seq<char>,
)
    requires
        is_blank(gap),
        comment.len() > 0 && is_tight(comment),
        !contains(" "@ + user, " (user: "@),
    ensures
        commit_lines(
            before.push(field("comment"@, gap, comment + " (user: "@ + user + ")"@)),
        ) == (FossilCommitInfoView { comment, user: Some(user), ..commit_lines(before) }),
        !contains(comment, " (user: "@) ==> commit_lines(
            before.push(field("comment"@, gap, comment)),
        ) == (FossilCommitInfoView { comment, user: None, ..commit_lines(before) }),
{
    lemma_keys();
    reveal_strlit(" (user: ");
    reveal_strlit(")");
    let value = comment + " (user: "@ + user + ")"@;
    assert(value[0] == comment[0] && value.last() == ')');
    lemma_field("comment"@, gap, value);
    lemma_field("comment"@, gap, comment);
    crate::info::law_comment_and_user_are_read_back(comment, user);
    if !contains(comment, " (user: "@) {
        crate::laws::text::lemma_rfind_none(comment, " (user: "@);
    }
    assert(before.push(field("comment"@, gap, value)).drop_last() =~= before);
    assert(before.push(field("comment"@, gap, comment)).drop_last() =~= before);
}

/// Law: a `user: ` line names the user.
pub proof fn law_user_line(before: Seq<Seq<char>>, gap: Seq<char>, user: Seq<char>)
    requires
        is_blank(gap),
        is_tight(user) && user.len() > 0,
    ensures
        commit_lines(before.push(field("user"@, gap, user))) == (FossilCommitInfoView {
            user: Some(user),
            ..commit_lines(before)
        }),
{
    lemma_keys();
    lemma_field("user"@, gap, user);
    assert(before.push(field("user"@, gap, user)).drop_last() =~= before);
}

/// Law: no other line says anything of a check-in.
pub proof fn law_other_commit_line(
    before: Seq<Seq<char>>,
    key: Seq<char>,
    gap: Seq<char>,
    value: Seq<char>,
    plain: Seq<char>,
)
    requires
        is_key(key),
        is_blank(gap),
        is_tight(value),
        key != "hash"@ && key != "checkout"@ && key != "parent"@ && key != "tags"@ && key
            != "comment"@ && key != "user"@,
        !plain.contains(':'),
    ensures
        commit_lines(before.push(field(key, gap, value))) == commit_lines(before),
        commit_lines(before.push(plain)) == commit_lines(before),
{
    lemma_field(key, gap, value);
    crate::laws::text::law_split_once(plain, ':', plain);
    assert(before.push(field(key, gap, value)).drop_last() =~= before);
    assert(before.push(plain).drop_last() =~= before);
}

/// Law: what is known of a check-in is what the lines say, one after the other,
/// and nothing before the first; without a hash there is no check-in.
pub proof fn law_commit_info(ls: Seq<Seq<char>>)
    requires
        forall|i: int| 0 <= i < ls.len() ==> is_line(#[trigger] ls[i]),
    ensures
        commit_lines(ls).hash.len() > 0 ==> commit_info(unlines(ls)) == Ok::<
            FossilCommitInfoView,
            FossilErrorView,
        >(commit_lines(ls)),
        commit_lines(ls).hash.len() == 0 ==> commit_info(unlines(ls)) == Err::<
            FossilCommitInfoView,
            FossilErrorView,
        >(FossilErrorView::MissingCheckInHash),
        commit_lines(seq![]) == (FossilCommitInfoView {
            hash: seq![],
            parents: seq![],
            tags: seq![],
            branch: None,
            comment: seq![],
            user: None,
            timestamp: 0,
        }),
{
    crate::laws::text::law_lines_are_read_back(ls);
}

/// Law: a line with a key and nothing behind it. Without a hash in its
/// `checkout: ` line no check-in is known to be checked out; an empty comment
/// names no user; all other such lines leave what was said before.
pub proof fn law_empty_lines(before: Seq<Seq<char>>, gap: Seq<char>, style: PathStyle)
    requires
        is_blank(gap),
    ensures
        info_lines(before.push(field("checkout"@, gap, seq![])), style) == (FossilInfoView {
            checkout: None,
            ..info_lines(before, style)
        }),
        info_lines(before.push(field("repository"@, gap, seq![])), style) == info_lines(
            before,
            style,
        ),
        info_lines(before.push(field("local-root"@, gap, seq![])), style) == info_lines(
            before,
            style,
        ),
        commit_lines(before.push(field("hash"@, gap, seq![]))) == commit_lines(before),
        commit_lines(before.push(field("checkout"@, gap, seq![]))) == commit_lines(before),
        commit_lines(before.push(field("parent"@, gap, seq![]))) == commit_lines(before),
        commit_lines(before.push(field("user"@, gap, seq![]))) == commit_lines(before),
        commit_lines(before.push(field("comment"@, gap, seq![]))) == (FossilCommitInfoView {
            comment: seq![],
            user: None,
            ..commit_lines(before)
        }),
{
    lemma_keys();
    let none = Seq::<char>::empty();
    lemma_field("checkout"@, gap, none);
    lemma_field("repository"@, gap, none);
    lemma_field("local-root"@, gap, none);
    lemma_field("hash"@, gap, none);
    lemma_field("parent"@, gap, none);
    lemma_field("user"@, gap, none);
    lemma_field("comment"@, gap, none);
    assert(words(none) =~= seq![]);
    crate::info::lemma_no_timestamp();
    reveal_strlit(" (user: ");
    assert(!contains(none, " (user: "@));
    crate::laws::text::lemma_rfind_none(none, " (user: "@);
    assert(before.push(field("checkout"@, gap, none)).drop_last() =~= before);
    assert(before.push(field("repository"@, gap, none)).drop_last() =~= before);
    assert(before.push(field("local-root"@, gap, none)).drop_last() =~= before);
    assert(before.push(field("hash"@, gap, none)).drop_last() =~= before);
    assert(before.push(field("parent"@, gap, none)).drop_last() =~= before);
    assert(before.push(field("user"@, gap, none)).drop_last() =~= before);
    assert(before.push(field("comment"@, gap, none)).drop_last() =~= before);
}

/// Law: blanks around a key say nothing, nor do those behind a value.
pub proof fn law_blanks_around_fields(
    before: Seq<Seq<char>>,
    a: Seq<char>,
    key: Seq<char>,
    b: Seq<char>,
    gap: Seq<char>,
    value: Seq<char>,
    c: Seq<char>,
    style: PathStyle,
)
    requires
        is_key(key),
        is_blank(a) && is_blank(b) && is_blank(gap) && is_blank(c),
        is_tight(value),
    ensures
        info_lines(before.push(field(a + key + b, gap, value)), style) == info_lines(
            before.push(field(key, gap, value)),
            style,
        ),
        key != "checkout"@ ==> info_lines(
            before.push(field(a + key + b, gap, value + c)),
            style,
        ) == info_lines(before.push(field(key, gap, value)), style),
        commit_lines(before.push(field(a + key + b, gap, value + c))) == commit_lines(
            before.push(field(key, gap, value)),
        ),
{
    lemma_field(key, gap, value);
    let wide = a + key + b;
    assert(!wide.contains(':')) by {
        if wide.contains(':') {
            let i = wide.index_of(':');
            if i < a.len() {
                assert(crate::text::is_white(a[i]));
            } else if i < a.len() + key.len() {
                assert(key.contains(key[i - a.len()]));
            } else {
                assert(crate::text::is_white(b[i - a.len() - key.len()]));
            }
        }
    }
    crate::laws::text::law_trim(a, key, b);
    crate::laws::text::law_trim(gap, value, c);
    crate::laws::text::law_split_once(wide, ':', gap + value);
    crate::laws::text::law_split_once(wide, ':', gap + (value + c));
    assert(gap + (value + c) =~= gap + value + c);
    assert(field(wide, gap, value) =~= wide + seq![':'] + (gap + value));
    assert(field(wide, gap, value + c) =~= wide + seq![':'] + (gap + (value + c)));
    assert(before.push(field(key, gap, value)).drop_last() =~= before);
    assert(before.push(field(wide, gap, value)).drop_last() =~= before);
    assert(before.push(field(wide, gap, value + c)).drop_last() =~= before);
}

/// What is found stands inside the text.
proof fn lemma_rfind_inside(s: Seq<char>, p: Seq<char>)
    ensures
        crate::text::rfind(s, p) matches Some(i) ==> 0 <= i <= s.len() - p.len(),
    decreases s.len(),
{
    if s.len() >= p.len() && s.len() > 0 {
        lemma_rfind_inside(s.drop_last(), p);
    }
}

/// Law: a comment whose `(user: ` is never closed is kept whole, and names no
/// user.
pub proof fn law_unclosed_user(comment: Seq<char>, user: Seq<char>)
    requires
        user.len() > 0 && user.last() != ')',
    ensures
        comment_user(comment + " (user: "@ + user) == (comment + " (user: "@ + user, None::<
            Seq<char>,
        >),
{
    reveal_strlit(")");
    let value = comment + " (user: "@ + user;
    assert(value.last() == user.last());
    lemma_rfind_inside(value, " (user: "@);
    if let Some((_, rest)) = crate::text::rsplit_once(value, " (user: "@) {
        crate::laws::text::law_prefix_and_suffix(")"@, rest, rest);
        if crate::text::ends_with(rest, ")"@) {
            assert(rest.last() == ')');
            assert(rest.last() == value.last());
        }
    }
}

} // verus!
