//! Laws of texts: lines, words, blanks and marks.

use crate::text::{
    contains, ends_with, find_char, find_white, is_white, join, leading_token, lines, rfind,
    rsplit_once, split_once, split_once_white, starts_with, strip_prefix, strip_suffix, trim,
    trim_end, trim_end_char, trim_end_text, trim_start, trim_start_char, words,
};
use vstd::prelude::*;

verus! {

/// The given lines, each with a line feed behind it.
pub open spec fn unlines(ls: Seq<Seq<char>>) -> Seq<char>
    decreases ls.len(),
{
    if ls.len() == 0 {
        seq![]
    } else {
        ls[0] + seq!['\n'] + unlines(ls.skip(1))
    }
}

/// Whether a text can stand as a line: it holds no line feed and ends with no
/// carriage return.
pub open spec fn is_line(s: Seq<char>) -> bool {
    !s.contains('\n') && (s.len() > 0 ==> s.last() != '\r')
}

/// Whether a text is made of white space.
pub open spec fn is_blank(s: Seq<char>) -> bool {
    forall|i: int| 0 <= i < s.len() ==> is_white(#[trigger] s[i])
}

/// Whether a text is a word: not empty and without white space.
pub open spec fn is_word(s: Seq<char>) -> bool {
    s.len() > 0 && forall|i: int| 0 <= i < s.len() ==> !is_white(#[trigger] s[i])
}

/// Whether a text has no white space at its ends.
pub open spec fn is_tight(s: Seq<char>) -> bool {
    s.len() > 0 ==> !is_white(s[0]) && !is_white(s.last())
}

/// Law: of the ASCII characters exactly the space and those from the tab to the
/// carriage return are white space.
pub proof fn law_white_space(c: char)
    requires
        (c as u32) < 128,
    ensures
        is_white(c) <==> c == ' ' || c == '\t' || c == '\n' || c == '\u{b}' || c == '\u{c}' || c
            == '\r',
{
}

proof fn lemma_find(a: Seq<char>, c: char, b: Seq<char>)
    requires
        !a.contains(c),
    ensures
        find_char(a + seq![c] + b, c) == a.len(),
        (a + seq![c] + b).take(a.len() as int) == a,
        (a + seq![c] + b).skip(a.len() as int + 1) == b,
{
    let s = a + seq![c] + b;
    assert forall|i: int| 0 <= i < a.len() implies s[i] != c by {
        assert(a.contains(a[i]));
        assert(s[i] == a[i]);
    }
    assert(s[a.len() as int] == c);
    crate::text::lemma_find_char_unique(s, c, a.len() as int);
    assert(s.take(a.len() as int) =~= a);
    assert(s.skip(a.len() as int + 1) =~= b);
}

/// Law: a line ends at its line feed; a carriage return before it is no part of
/// the line.
pub proof fn law_first_line(a: Seq<char>, b: Seq<char>)
    requires
        is_line(a),
    ensures
        lines(a + seq!['\n'] + b) == seq![a] + lines(b),
        lines(a + seq!['\r', '\n'] + b) == seq![a] + lines(b),
        a.len() > 0 ==> lines(a) == seq![a],
        lines(seq![]) == Seq::<Seq<char>>::empty(),
{
    lemma_find(a, '\n', b);
    let r = a.push('\r');
    assert(!r.contains('\n')) by {
        if r.contains('\n') {
            let i = r.index_of('\n');
            assert(a[i] == '\n');
            assert(a.contains('\n'));
        }
    }
    lemma_find(r, '\n', b);
    assert(r + seq!['\n'] + b =~= a + seq!['\r', '\n'] + b);
    assert(r.drop_last() =~= a);
    if a.len() > 0 {
        assert forall|i: int| 0 <= i < a.len() implies a[i] != '\n' by {
            assert(a.contains(a[i]));
        }
        crate::text::lemma_find_char_unique(a, '\n', a.len() as int);
    }
}

/// Law: lines that are written one below the other are read back.
pub proof fn law_lines_are_read_back(ls: Seq<Seq<char>>)
    requires
        forall|i: int| 0 <= i < ls.len() ==> is_line(#[trigger] ls[i]),
    ensures
        lines(unlines(ls)) == ls,
    decreases ls.len(),
{
    if ls.len() > 0 {
        let rest = ls.skip(1);
        assert forall|i: int| 0 <= i < rest.len() implies is_line(#[trigger] rest[i]) by {
            assert(rest[i] == ls[i + 1]);
        }
        law_lines_are_read_back(rest);
        assert(is_line(ls[0]));
        law_first_line(ls[0], unlines(rest));
        assert(seq![ls[0]] + rest =~= ls);
    } else {
        assert(lines(unlines(ls)) =~= ls);
    }
}

/// White space in front is dropped.
pub proof fn lemma_trim_start(a: Seq<char>, m: Seq<char>)
    requires
        is_blank(a),
        m.len() > 0 ==> !is_white(m[0]),
    ensures
        trim_start(a + m) == m,
    decreases a.len(),
{
    let s = a + m;
    if a.len() > 0 {
        assert(is_white(a[0]));
        assert(s[0] == a[0]);
        let rest = a.skip(1);
        assert forall|i: int| 0 <= i < rest.len() implies is_white(#[trigger] rest[i]) by {
            assert(rest[i] == a[i + 1]);
        }
        lemma_trim_start(rest, m);
        assert(s.skip(1) =~= rest + m);
    } else {
        assert(s =~= m);
    }
}

/// White space behind is dropped.
pub proof fn lemma_trim_end(m: Seq<char>, b: Seq<char>)
    requires
        is_blank(b),
        m.len() > 0 ==> !is_white(m.last()),
    ensures
        trim_end(m + b) == m,
    decreases b.len(),
{
    let s = m + b;
    if b.len() > 0 {
        assert(is_white(b[b.len() - 1]));
        assert(s.last() == b.last());
        let rest = b.drop_last();
        assert forall|i: int| 0 <= i < rest.len() implies is_white(#[trigger] rest[i]) by {
            assert(rest[i] == b[i]);
        }
        lemma_trim_end(m, rest);
        assert(s.drop_last() =~= m + rest);
    } else {
        assert(s =~= m);
    }
}

/// Law: white space around a text is dropped, and nothing else.
pub proof fn law_trim(a: Seq<char>, m: Seq<char>, b: Seq<char>)
    requires
        is_blank(a),
        is_blank(b),
        is_tight(m),
    ensures
        trim(a + m + b) == m,
        trim(m) == m,
        trim(a + b) == Seq::<char>::empty(),
{
    if m.len() > 0 {
        assert((m + b)[0] == m[0]);
        lemma_trim_start(a, m + b);
        assert(a + m + b =~= a + (m + b));
        lemma_trim_end(m, b);
        assert(trim_start(m) == m);
    } else {
        assert(a + m + b =~= a + b);
        assert(m =~= Seq::<char>::empty());
    }
    let ab = a + b;
    assert forall|i: int| 0 <= i < ab.len() implies is_white(#[trigger] ab[i]) by {
        if i < a.len() {
            assert(ab[i] == a[i]);
        } else {
            assert(ab[i] == b[i - a.len()]);
        }
    }
    lemma_trim_start(ab, seq![]);
    assert(ab + Seq::<char>::empty() =~= ab);
}

proof fn lemma_find_white_at(w: Seq<char>, gap: char, rest: Seq<char>)
    requires
        forall|i: int| 0 <= i < w.len() ==> !is_white(#[trigger] w[i]),
        is_white(gap),
    ensures
        find_white(w + seq![gap] + rest) == w.len(),
        (w + seq![gap] + rest).take(w.len() as int) == w,
        (w + seq![gap] + rest).skip(w.len() as int) == seq![gap] + rest,
        (w + seq![gap] + rest).skip(w.len() as int + 1) == rest,
{
    let s = w + seq![gap] + rest;
    crate::text::lemma_find_white(s);
    let n = find_white(s) as int;
    if n < w.len() {
        assert(s[n] == w[n]);
    }
    if n > w.len() {
        assert(s[w.len() as int] == gap);
    }
    assert(s.take(w.len() as int) =~= w);
    assert(s.skip(w.len() as int) =~= seq![gap] + rest);
    assert(s.skip(w.len() as int + 1) =~= rest);
}

/// Law: a text is cut behind its first word, at one white space.
pub proof fn law_first_word_is_cut_off(w: Seq<char>, gap: char, rest: Seq<char>)
    requires
        is_word(w),
        is_white(gap),
    ensures
        split_once_white(w + seq![gap] + rest) == Some((w, rest)),
        leading_token(w + seq![gap] + rest) == Some((w, seq![gap] + rest)),
        split_once_white(w) is None,
        leading_token(w) is None,
{
    lemma_find_white_at(w, gap, rest);
    crate::text::lemma_find_white(w);
}

/// Blanks hold no word.
pub proof fn lemma_blank_words(a: Seq<char>, m: Seq<char>)
    requires
        is_blank(a),
    ensures
        words(a + m) == words(m),
    decreases a.len(),
{
    let s = a + m;
    if a.len() > 0 {
        assert(is_white(a[0]));
        assert(s[0] == a[0]);
        let rest = a.skip(1);
        assert forall|i: int| 0 <= i < rest.len() implies is_white(#[trigger] rest[i]) by {
            assert(rest[i] == a[i + 1]);
        }
        lemma_blank_words(rest, m);
        assert(s.skip(1) =~= rest + m);
    } else {
        assert(s =~= m);
    }
}

/// Law: words are what stands between white space.
pub proof fn law_words(blank: Seq<char>, w: Seq<char>, gap: char, rest: Seq<char>)
    requires
        is_blank(blank),
        is_word(w),
        is_white(gap),
    ensures
        words(blank + w + seq![gap] + rest) == seq![w] + words(rest),
        words(blank + w) == seq![w],
        words(blank) == Seq::<Seq<char>>::empty(),
{
    let s = w + seq![gap] + rest;
    lemma_find_white_at(w, gap, rest);
    assert(s[0] == w[0]);
    lemma_blank_words(seq![gap], rest);
    assert(words(s) == seq![w] + words(seq![gap] + rest));
    lemma_blank_words(blank, s);
    assert(blank + s =~= blank + w + seq![gap] + rest);
    lemma_blank_words(blank, w);
    crate::text::lemma_find_white(w);
    assert(find_white(w) == w.len());
    assert(w.take(w.len() as int) =~= w);
    assert(w.skip(w.len() as int) =~= Seq::<char>::empty());
    assert(seq![w] + Seq::<Seq<char>>::empty() =~= seq![w]);
    lemma_blank_words(blank, seq![]);
    assert(blank + Seq::<char>::empty() =~= blank);
}

/// Law: a text is cut at the first of a character, and nowhere if there is none.
pub proof fn law_split_once(a: Seq<char>, c: char, b: Seq<char>)
    requires
        !a.contains(c),
    ensures
        split_once(a + seq![c] + b, c) == Some((a, b)),
        split_once(a, c) is None,
{
    lemma_find(a, c, b);
    crate::text::lemma_find_char(a, c);
    if find_char(a, c) < a.len() {
        assert(a.contains(a[find_char(a, c) as int]));
    }
}

/// Law: what stands behind a beginning and before an ending is found, and only
/// there.
pub proof fn law_prefix_and_suffix(p: Seq<char>, s: Seq<char>, t: Seq<char>)
    ensures
        strip_prefix(p + s, p) == Some(s),
        strip_suffix(s + p, p) == Some(s),
        starts_with(p + s, p),
        ends_with(s + p, p),
        strip_prefix(t, p) matches Some(rest) ==> t == p + rest,
        strip_suffix(t, p) matches Some(rest) ==> t == rest + p,
        strip_prefix(t, p) is Some <==> starts_with(t, p),
        strip_suffix(t, p) is Some <==> ends_with(t, p),
{
    assert((p + s).take(p.len() as int) =~= p);
    assert((p + s).skip(p.len() as int) =~= s);
    assert((s + p).skip(s.len() as int) =~= p);
    assert((s + p).take(s.len() as int) =~= s);
    if starts_with(t, p) {
        assert(t =~= t.take(p.len() as int) + t.skip(p.len() as int));
    }
    if ends_with(t, p) {
        assert(t =~= t.take(t.len() - p.len()) + t.skip(t.len() - p.len()));
    }
}

/// Whether `s` is some text, then `p`, then some text.
pub open spec fn holds_between(s: Seq<char>, a: Seq<char>, p: Seq<char>, b: Seq<char>) -> bool {
    s == a + p + b
}

/// Law: a text contains another exactly if it is some text, then the other, then
/// some text.
pub proof fn law_contains(s: Seq<char>, p: Seq<char>)
    ensures
        contains(s, p) <==> exists|a: Seq<char>, b: Seq<char>| #[trigger] holds_between(s, a, p, b),
{
    if contains(s, p) {
        let i = choose|i: int|
            0 <= i <= s.len() - p.len() && #[trigger] s.subrange(i, i + p.len()) == p;
        let a = s.take(i);
        let b = s.skip(i + p.len());
        assert(s =~= a + s.subrange(i, i + p.len()) + b);
        assert(holds_between(s, a, p, b));
    }
    if exists|a: Seq<char>, b: Seq<char>| #[trigger] holds_between(s, a, p, b) {
        let (a, b) = choose|a: Seq<char>, b: Seq<char>| #[trigger] holds_between(s, a, p, b);
        lemma_contains(a, p, b);
    }
}

/// What stands between two texts is contained.
pub proof fn lemma_contains(a: Seq<char>, p: Seq<char>, b: Seq<char>)
    ensures
        contains(a + p + b, p),
{
    let s = a + p + b;
    let i = a.len() as int;
    assert(s.subrange(i, i + p.len()) =~= p);
}

/// A text that stands nowhere is not found.
pub proof fn lemma_rfind_none(s: Seq<char>, p: Seq<char>)
    requires
        p.len() > 0,
        !contains(s, p),
    ensures
        rfind(s, p) is None,
    decreases s.len(),
{
    if s.len() >= p.len() {
        let last = s.len() - p.len();
        assert(s.skip(last) =~= s.subrange(last, last + p.len()));
        let head = s.drop_last();
        if contains(head, p) {
            let i = choose|i: int|
                0 <= i <= head.len() - p.len() && #[trigger] head.subrange(i, i + p.len()) == p;
            assert(s.subrange(i, i + p.len()) =~= head.subrange(i, i + p.len()));
        }
        lemma_rfind_none(head, p);
    }
}

/// Law: a text is cut at the last copy of a mark, and nowhere if it holds none.
pub proof fn law_rsplit_once(a: Seq<char>, p: Seq<char>, b: Seq<char>)
    requires
        p.len() > 0,
        !contains(p.skip(1) + b, p),
    ensures
        rsplit_once(a + p + b, p) == Some((a, b)),
        !contains(a, p) ==> rsplit_once(a, p) is None,
{
    let s = a + p + b;
    let n = a.len() as int;
    let tail = p.skip(1) + b;
    assert(s.subrange(n, n + p.len()) =~= p);
    assert forall|j: int| n < j <= s.len() - p.len() implies #[trigger] s.subrange(
        j,
        j + p.len(),
    ) != p by {
        let k = j - n - 1;
        assert(tail.subrange(k, k + p.len()) =~= s.subrange(j, j + p.len()));
    }
    crate::text::lemma_rfind(s, p, n);
    assert(s.take(n) =~= a);
    assert(s.skip(n + p.len()) =~= b);
    if !contains(a, p) {
        lemma_rfind_none(a, p);
    }
}

/// Law: a character is dropped from an end as often as it stands there.
pub proof fn law_trim_char(m: Seq<char>, c: char, n: nat)
    ensures
        (m.len() > 0 ==> m.last() != c) ==> trim_end_char(m + Seq::new(n, |i: int| c), c) == m,
        (m.len() > 0 ==> m[0] != c) ==> trim_start_char(Seq::new(n, |i: int| c) + m, c) == m,
    decreases n,
{
    let run = Seq::new(n, |i: int| c);
    if n > 0 {
        let less = Seq::new((n - 1) as nat, |i: int| c);
        law_trim_char(m, c, (n - 1) as nat);
        assert((m + run).last() == c);
        assert((m + run).drop_last() =~= m + less);
        assert((run + m)[0] == c);
        assert((run + m).skip(1) =~= less + m);
    } else {
        assert(m + run =~= m);
        assert(run + m =~= m);
    }
}

/// Law: an ending is dropped as often as it stands at the end.
pub proof fn law_trim_end_text(m: Seq<char>, p: Seq<char>)
    requires
        p.len() > 0,
    ensures
        trim_end_text(m + p, p) == trim_end_text(m, p),
        !ends_with(m, p) ==> trim_end_text(m, p) == m,
{
    law_prefix_and_suffix(p, m, m);
    assert((m + p).take(m.len() as int) =~= m);
}

/// Law: joined texts stand one behind the other with the separator between them.
pub proof fn law_join(parts: Seq<Seq<char>>, last: Seq<char>, sep: Seq<char>)
    ensures
        join(seq![], sep) == Seq::<char>::empty(),
        join(seq![last], sep) == last,
        parts.len() > 0 ==> join(parts.push(last), sep) == join(parts, sep) + sep + last,
{
    assert(parts.push(last).drop_last() =~= parts);
}

} // verus!
