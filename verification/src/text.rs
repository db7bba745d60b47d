//! Text primitives over sequences of characters.
//!
//! Every executable function works on slices of characters and is tied to the
//! specification function of the same name in [`self`].

use vstd::prelude::*;
use vstd::slice::slice_subrange;

verus! {

/// `String::push` appends one character.
pub assume_specification[ String::push ](s: &mut String, ch: char)
    ensures
        final(s)@ == old(s)@.push(ch),
;

// ---------------------------------------------------------------------------
// Conversions
// ---------------------------------------------------------------------------

/// The texts that a sequence of slices shows.
pub open spec fn texts(parts: Seq<&[char]>) -> Seq<Seq<char>> {
    Seq::new(parts.len(), |i: int| parts[i]@)
}

/// The characters of a string.
pub fn to_chars(s: &str) -> (r: Vec<char>)
    ensures
        r@ == s@,
{
    let mut r: Vec<char> = Vec::new();
    for c in it: s.chars()
        invariant
            it.seq() == s@,
            r@ == s@.take(it.index()),
    {
        r.push(c);
    }
    r
}

/// The string of a sequence of characters.
pub fn to_text(s: &[char]) -> (r: String)
    ensures
        r@ == s@,
{
    let mut r = String::new();
    for i in 0..s.len()
        invariant
            r@ == s@.take(i as int),
    {
        r.push(s[i]);
    }
    r
}

/// Appends every character of `tail` to `text`.
pub fn push_chars(text: &mut String, tail: &[char])
    ensures
        final(text)@ == old(text)@ + tail@,
{
    for i in 0..tail.len()
        invariant
            text@ == old(text)@ + tail@.take(i as int),
    {
        text.push(tail[i]);
    }
}

/// Whether two character sequences are the same text.
pub fn same_chars(a: &[char], b: &[char]) -> (r: bool)
    ensures
        r == (a@ == b@),
{
    if a.len() != b.len() {
        return false;
    }
    for i in 0..a.len()
        invariant
            a@.len() == b@.len(),
            forall|j: int| 0 <= j < i ==> a@[j] == b@[j],
    {
        if a[i] != b[i] {
            return false;
        }
    }
    assert(a@ =~= b@);
    true
}

/// Whether a character sequence spells `word`.
pub fn is_text(s: &[char], word: &str) -> (r: bool)
    ensures
        r == (s@ == word@),
{
    let w = to_chars(word);
    same_chars(s, w.as_slice())
}

// ---------------------------------------------------------------------------
// White space
// ---------------------------------------------------------------------------

/// The characters with the Unicode property `White_Space`.
pub open spec fn is_white(c: char) -> bool {
    let n = c as u32;
    ||| 0x9 <= n <= 0xd
    ||| n == 0x20
    ||| n == 0x85
    ||| n == 0xa0
    ||| n == 0x1680
    ||| 0x2000 <= n <= 0x200a
    ||| n == 0x2028
    ||| n == 0x2029
    ||| n == 0x202f
    ||| n == 0x205f
    ||| n == 0x3000
}

/// Whether `c` is white space.
pub fn is_white_char(c: char) -> (r: bool)
    ensures
        r == is_white(c),
{
    let n: u32 = c as u32;
    (0x9 <= n && n <= 0xd) || n == 0x20 || n == 0x85 || n == 0xa0 || n == 0x1680 || (0x2000 <= n
        && n <= 0x200a) || n == 0x2028 || n == 0x2029 || n == 0x202f || n == 0x205f || n == 0x3000
}

/// `s` without its leading white space.
pub open spec fn trim_start(s: Seq<char>) -> Seq<char>
    decreases s.len(),
{
    if s.len() > 0 && is_white(s[0]) {
        trim_start(s.skip(1))
    } else {
        s
    }
}

/// `s` without its trailing white space.
pub open spec fn trim_end(s: Seq<char>) -> Seq<char>
    decreases s.len(),
{
    if s.len() > 0 && is_white(s.last()) {
        trim_end(s.drop_last())
    } else {
        s
    }
}

/// `s` without white space at either end.
pub open spec fn trim(s: Seq<char>) -> Seq<char> {
    trim_end(trim_start(s))
}

/// Drops leading white space.
pub fn trimmed_start(s: &[char]) -> (r: &[char])
    ensures
        r@ == trim_start(s@),
{
    let mut i: usize = 0;
    assert(s@.skip(0) == s@);
    while i < s.len() && is_white_char(s[i])
        invariant
            i <= s@.len(),
            trim_start(s@) == trim_start(s@.skip(i as int)),
        decreases s@.len() - i,
    {
        assert(s@.skip(i as int).skip(1) == s@.skip(i + 1));
        i = i + 1;
    }
    let r = slice_subrange(s, i, s.len());
    assert(r@ == s@.skip(i as int));
    r
}

/// Drops trailing white space.
pub fn trimmed_end(s: &[char]) -> (r: &[char])
    ensures
        r@ == trim_end(s@),
{
    let mut i: usize = s.len();
    assert(s@.take(i as int) == s@);
    while i > 0 && is_white_char(s[i - 1])
        invariant
            i <= s@.len(),
            trim_end(s@) == trim_end(s@.take(i as int)),
        decreases i,
    {
        assert(s@.take(i as int).drop_last() == s@.take(i - 1));
        i = i - 1;
    }
    let r = slice_subrange(s, 0, i);
    assert(r@ == s@.take(i as int));
    r
}

/// Drops white space at both ends.
pub fn trimmed(s: &[char]) -> (r: &[char])
    ensures
        r@ == trim(s@),
{
    trimmed_end(trimmed_start(s))
}

// ---------------------------------------------------------------------------
// Searching for one character
// ---------------------------------------------------------------------------

/// How many characters precede the first `c`; all of them if there is none.
pub open spec fn find_char(s: Seq<char>, c: char) -> nat
    decreases s.len(),
{
    if s.len() == 0 || s[0] == c {
        0
    } else {
        1 + find_char(s.skip(1), c)
    }
}

/// How many characters precede the first white space; all of them if there is none.
pub open spec fn find_white(s: Seq<char>) -> nat
    decreases s.len(),
{
    if s.len() == 0 || is_white(s[0]) {
        0
    } else {
        1 + find_white(s.skip(1))
    }
}

/// What [`find_char`] says of the characters around the place it finds.
pub proof fn lemma_find_char(s: Seq<char>, c: char)
    ensures
        find_char(s, c) <= s.len(),
        find_char(s, c) < s.len() ==> s[find_char(s, c) as int] == c,
        forall|i: int| 0 <= i < find_char(s, c) ==> s[i] != c,
    decreases s.len(),
{
    if s.len() > 0 && s[0] != c {
        let t = s.skip(1);
        lemma_find_char(t, c);
        assert forall|i: int| 0 <= i < find_char(s, c) implies s[i] != c by {
            if i > 0 {
                assert(t[i - 1] != c);
            }
        }
    }
}

/// A place that meets what [`lemma_find_char`] says is the one that is found.
pub proof fn lemma_find_char_unique(s: Seq<char>, c: char, n: int)
    requires
        0 <= n <= s.len(),
        n < s.len() ==> s[n] == c,
        forall|i: int| 0 <= i < n ==> s[i] != c,
    ensures
        find_char(s, c) == n,
    decreases s.len(),
{
    if s.len() > 0 && n > 0 {
        let t = s.skip(1);
        assert forall|i: int| 0 <= i < n - 1 implies t[i] != c by {
            assert(s[i + 1] != c);
        }
        lemma_find_char_unique(t, c, n - 1);
    }
}

/// What [`find_white`] says of the characters around the place it finds.
pub proof fn lemma_find_white(s: Seq<char>)
    ensures
        find_white(s) <= s.len(),
        find_white(s) < s.len() ==> is_white(s[find_white(s) as int]),
        forall|i: int| 0 <= i < find_white(s) ==> !is_white(s[i]),
    decreases s.len(),
{
    if s.len() > 0 && !is_white(s[0]) {
        let t = s.skip(1);
        lemma_find_white(t);
        assert forall|i: int| 0 <= i < find_white(s) implies !is_white(s[i]) by {
            if i > 0 {
                assert(!is_white(t[i - 1]));
            }
        }
    }
}

/// The place of the first `c`, or the length.
pub fn char_position(s: &[char], c: char) -> (r: usize)
    ensures
        r == find_char(s@, c),
        r <= s@.len(),
{
    let mut i: usize = 0;
    while i < s.len() && s[i] != c
        invariant
            i <= s@.len(),
            forall|j: int| 0 <= j < i ==> s@[j] != c,
        decreases s@.len() - i,
    {
        i = i + 1;
    }
    proof {
        lemma_find_char_unique(s@, c, i as int);
    }
    i
}

/// The place of the first white space, or the length.
pub fn white_position(s: &[char]) -> (r: usize)
    ensures
        r == find_white(s@),
        r <= s@.len(),
{
    let mut i: usize = 0;
    assert(s@.skip(0) == s@);
    while i < s.len() && !is_white_char(s[i])
        invariant
            i <= s@.len(),
            find_white(s@) == i + find_white(s@.skip(i as int)),
        decreases s@.len() - i,
    {
        assert(s@.skip(i as int).skip(1) == s@.skip(i + 1));
        i = i + 1;
    }
    i
}

/// The place of the last white space, or `-1`.
pub open spec fn rfind_white(s: Seq<char>) -> int
    decreases s.len(),
{
    if s.len() == 0 {
        -1
    } else if is_white(s.last()) {
        s.len() - 1
    } else {
        rfind_white(s.drop_last())
    }
}

/// The place of the last white space.
pub fn last_white_position(s: &[char]) -> (r: Option<usize>)
    ensures
        r == (if rfind_white(s@) < 0 {
            None
        } else {
            Some(rfind_white(s@) as usize)
        }),
        r matches Some(i) ==> i < s@.len() && i == rfind_white(s@),
{
    let mut i: usize = s.len();
    assert(s@.take(i as int) == s@);
    while i > 0
        invariant
            i <= s@.len(),
            rfind_white(s@) == rfind_white(s@.take(i as int)),
        decreases i,
    {
        if is_white_char(s[i - 1]) {
            return Some(i - 1);
        }
        assert(s@.take(i as int).drop_last() == s@.take(i - 1));
        i = i - 1;
    }
    None
}

// ---------------------------------------------------------------------------
// Splitting
// ---------------------------------------------------------------------------

/// `s` on either side of its first `c`.
pub open spec fn split_once(s: Seq<char>, c: char) -> Option<(Seq<char>, Seq<char>)> {
    let i = find_char(s, c) as int;
    if i < s.len() {
        Some((s.take(i), s.skip(i + 1)))
    } else {
        None
    }
}

/// `s` on either side of its first white space.
pub open spec fn split_once_white(s: Seq<char>) -> Option<(Seq<char>, Seq<char>)> {
    let i = find_white(s) as int;
    if i < s.len() {
        Some((s.take(i), s.skip(i + 1)))
    } else {
        None
    }
}

/// The two sides of an optional pair of slices, as texts.
pub open spec fn pair_texts(p: Option<(&[char], &[char])>) -> Option<(Seq<char>, Seq<char>)> {
    match p {
        Some((a, b)) => Some((a@, b@)),
        None => None,
    }
}

/// Splits at the first `c`.
pub fn split_once_at<'a>(s: &'a [char], c: char) -> (r: Option<(&'a [char], &'a [char])>)
    ensures
        pair_texts(r) == split_once(s@, c),
{
    let i = char_position(s, c);
    if i < s.len() {
        let a = slice_subrange(s, 0, i);
        let b = slice_subrange(s, i + 1, s.len());
        assert(a@ == s@.take(i as int) && b@ == s@.skip(i + 1));
        Some((a, b))
    } else {
        None
    }
}

/// Splits at the first white space.
pub fn split_once_at_white<'a>(s: &'a [char]) -> (r: Option<(&'a [char], &'a [char])>)
    ensures
        pair_texts(r) == split_once_white(s@),
{
    let i = white_position(s);
    if i < s.len() {
        let a = slice_subrange(s, 0, i);
        let b = slice_subrange(s, i + 1, s.len());
        assert(a@ == s@.take(i as int) && b@ == s@.skip(i + 1));
        Some((a, b))
    } else {
        None
    }
}

/// The text before the first white space, and the rest from there on.
pub open spec fn leading_token(s: Seq<char>) -> Option<(Seq<char>, Seq<char>)> {
    let i = find_white(s) as int;
    if i < s.len() {
        Some((s.take(i), s.skip(i)))
    } else {
        None
    }
}

/// Cuts before the first white space.
pub fn take_token<'a>(s: &'a [char]) -> (r: Option<(&'a [char], &'a [char])>)
    ensures
        pair_texts(r) == leading_token(s@),
{
    let i = white_position(s);
    if i < s.len() {
        let a = slice_subrange(s, 0, i);
        let b = slice_subrange(s, i, s.len());
        assert(a@ == s@.take(i as int) && b@ == s@.skip(i as int));
        Some((a, b))
    } else {
        None
    }
}

/// `s` cut at every `c`.
pub open spec fn split(s: Seq<char>, c: char) -> Seq<Seq<char>>
    decreases s.len(),
{
    let i = find_char(s, c) as int;
    if i < s.len() {
        seq![s.take(i)] + split(s.skip(i + 1), c)
    } else {
        seq![s]
    }
}

/// Cuts at every `c`.
pub fn split_at_char<'a>(s: &'a [char], c: char) -> (r: Vec<&'a [char]>)
    ensures
        texts(r@) == split(s@, c),
{
    let mut r: Vec<&'a [char]> = Vec::new();
    let mut start: usize = 0;
    assert(s@.skip(0) == s@);
    assert(texts(r@) + split(s@, c) == split(s@, c));
    loop
        invariant_except_break
            start <= s@.len(),
            split(s@, c) == texts(r@) + split(s@.skip(start as int), c),
        ensures
            texts(r@) == split(s@, c),
        decreases s@.len() - start,
    {
        let rest = slice_subrange(s, start, s.len());
        assert(rest@ == s@.skip(start as int));
        let i = char_position(rest, c);
        let ghost before = texts(r@);
        if i < rest.len() {
            let part = slice_subrange(rest, 0, i);
            r.push(part);
            assert(part@ == rest@.take(i as int));
            assert(texts(r@) == before.push(part@));
            assert(rest@.skip(i + 1) == s@.skip(start + i + 1));
            assert(before + (seq![part@] + split(s@.skip(start + i + 1), c)) == texts(r@) + split(
                s@.skip(start + i + 1),
                c,
            ));
            start = start + i + 1;
        } else {
            r.push(rest);
            assert(texts(r@) == before + seq![rest@]);
            break;
        }
    }
    r
}

/// A line without the carriage return at its end.
pub open spec fn strip_carriage_return(line: Seq<char>) -> Seq<char> {
    if line.len() > 0 && line.last() == '\r' {
        line.drop_last()
    } else {
        line
    }
}

/// The lines of `s`. A line ends with a line feed, or with a carriage return
/// and a line feed; the last line may end with the text itself.
pub open spec fn lines(s: Seq<char>) -> Seq<Seq<char>>
    decreases s.len(),
{
    let i = find_char(s, '\n') as int;
    if s.len() == 0 {
        seq![]
    } else if i < s.len() {
        seq![strip_carriage_return(s.take(i))] + lines(s.skip(i + 1))
    } else {
        seq![s]
    }
}

/// Cuts into lines.
pub fn split_lines<'a>(s: &'a [char]) -> (r: Vec<&'a [char]>)
    ensures
        texts(r@) == lines(s@),
{
    let mut r: Vec<&'a [char]> = Vec::new();
    let mut start: usize = 0;
    assert(s@.skip(0) == s@);
    assert(texts(r@) + lines(s@) == lines(s@));
    while start < s.len()
        invariant
            start <= s@.len(),
            lines(s@) == texts(r@) + lines(s@.skip(start as int)),
        decreases s@.len() - start,
    {
        let rest = slice_subrange(s, start, s.len());
        assert(rest@ == s@.skip(start as int));
        let i = char_position(rest, '\n');
        let ghost before = texts(r@);
        if i < rest.len() {
            let end = if i > 0 && rest[i - 1] == '\r' {
                i - 1
            } else {
                i
            };
            let line = slice_subrange(rest, 0, end);
            r.push(line);
            assert(line@ == strip_carriage_return(rest@.take(i as int)));
            assert(texts(r@) == before.push(line@));
            assert(rest@.skip(i + 1) == s@.skip(start + i + 1));
            assert(before + (seq![line@] + lines(s@.skip(start + i + 1))) == texts(r@) + lines(
                s@.skip(start + i + 1),
            ));
            start = start + i + 1;
        } else {
            r.push(rest);
            assert(texts(r@) == before + seq![rest@]);
            start = s.len();
            assert(s@.skip(start as int) == Seq::<char>::empty());
            assert(lines(s@.skip(start as int)) == Seq::<Seq<char>>::empty());
        }
    }
    assert(s@.skip(start as int) == Seq::<char>::empty());
    assert(lines(s@.skip(start as int)) == Seq::<Seq<char>>::empty());
    r
}

/// The words of `s`: its longest stretches without white space.
pub open spec fn words(s: Seq<char>) -> Seq<Seq<char>>
    decreases s.len(),
{
    if s.len() == 0 {
        seq![]
    } else if is_white(s[0]) {
        words(s.skip(1))
    } else {
        let n = find_white(s) as int;
        proof {
            lemma_find_white(s);
        }
        seq![s.take(n)] + words(s.skip(n))
    }
}

/// Cuts into words.
pub fn split_words<'a>(s: &'a [char]) -> (r: Vec<&'a [char]>)
    ensures
        texts(r@) == words(s@),
{
    let mut r: Vec<&'a [char]> = Vec::new();
    let mut start: usize = 0;
    assert(s@.skip(0) == s@);
    assert(texts(r@) + words(s@) == words(s@));
    while start < s.len()
        invariant
            start <= s@.len(),
            words(s@) == texts(r@) + words(s@.skip(start as int)),
        decreases s@.len() - start,
    {
        let rest = slice_subrange(s, start, s.len());
        assert(rest@ == s@.skip(start as int));
        if is_white_char(rest[0]) {
            assert(rest@.skip(1) == s@.skip(start + 1));
            start = start + 1;
        } else {
            let n = white_position(rest);
            let ghost before = texts(r@);
            let word = slice_subrange(rest, 0, n);
            r.push(word);
            assert(word@ == rest@.take(n as int));
            assert(texts(r@) == before.push(word@));
            assert(rest@.skip(n as int) == s@.skip(start + n));
            assert(before + (seq![word@] + words(s@.skip(start + n))) == texts(r@) + words(
                s@.skip(start + n),
            ));
            start = start + n;
        }
    }
    assert(s@.skip(start as int) == Seq::<char>::empty());
    r
}

// ---------------------------------------------------------------------------
// Prefixes, suffixes and parts
// ---------------------------------------------------------------------------

/// Whether `s` begins with `p`.
pub open spec fn starts_with(s: Seq<char>, p: Seq<char>) -> bool {
    p.len() <= s.len() && s.take(p.len() as int) == p
}

/// Whether `s` ends with `p`.
pub open spec fn ends_with(s: Seq<char>, p: Seq<char>) -> bool {
    p.len() <= s.len() && s.skip(s.len() - p.len()) == p
}

/// What follows `p` at the start of `s`.
pub open spec fn strip_prefix(s: Seq<char>, p: Seq<char>) -> Option<Seq<char>> {
    if starts_with(s, p) {
        Some(s.skip(p.len() as int))
    } else {
        None
    }
}

/// What precedes `p` at the end of `s`.
pub open spec fn strip_suffix(s: Seq<char>, p: Seq<char>) -> Option<Seq<char>> {
    if ends_with(s, p) {
        Some(s.take(s.len() - p.len()))
    } else {
        None
    }
}

/// The text of an optional slice.
pub open spec fn opt_text(s: Option<&[char]>) -> Option<Seq<char>> {
    match s {
        Some(t) => Some(t@),
        None => None,
    }
}

/// Takes `p` off the start.
pub fn without_prefix<'a>(s: &'a [char], p: &str) -> (r: Option<&'a [char]>)
    ensures
        opt_text(r) == strip_prefix(s@, p@),
{
    let q = to_chars(p);
    if q.len() > s.len() {
        return None;
    }
    let head = slice_subrange(s, 0, q.len());
    assert(head@ == s@.take(q@.len() as int));
    if same_chars(head, q.as_slice()) {
        let rest = slice_subrange(s, q.len(), s.len());
        assert(rest@ == s@.skip(q@.len() as int));
        Some(rest)
    } else {
        None
    }
}

/// Takes `p` off the end.
pub fn without_suffix<'a>(s: &'a [char], p: &str) -> (r: Option<&'a [char]>)
    ensures
        opt_text(r) == strip_suffix(s@, p@),
{
    let q = to_chars(p);
    if q.len() > s.len() {
        return None;
    }
    let at = s.len() - q.len();
    let tail = slice_subrange(s, at, s.len());
    assert(tail@ == s@.skip(at as int));
    if same_chars(tail, q.as_slice()) {
        let rest = slice_subrange(s, 0, at);
        assert(rest@ == s@.take(at as int));
        Some(rest)
    } else {
        None
    }
}

/// Whether the text begins with `p`.
pub fn begins_with(s: &[char], p: &str) -> (r: bool)
    ensures
        r == starts_with(s@, p@),
{
    without_prefix(s, p).is_some()
}

/// `s` without the `c`s at its start.
pub open spec fn trim_start_char(s: Seq<char>, c: char) -> Seq<char>
    decreases s.len(),
{
    if s.len() > 0 && s[0] == c {
        trim_start_char(s.skip(1), c)
    } else {
        s
    }
}

/// `s` without the `c`s at its end.
pub open spec fn trim_end_char(s: Seq<char>, c: char) -> Seq<char>
    decreases s.len(),
{
    if s.len() > 0 && s.last() == c {
        trim_end_char(s.drop_last(), c)
    } else {
        s
    }
}

/// `s` without the copies of `p` at its end.
pub open spec fn trim_end_text(s: Seq<char>, p: Seq<char>) -> Seq<char>
    decreases s.len(),
{
    if p.len() > 0 && ends_with(s, p) {
        trim_end_text(s.take(s.len() - p.len()), p)
    } else {
        s
    }
}

/// Drops every `c` at the start.
pub fn trimmed_start_char(s: &[char], c: char) -> (r: &[char])
    ensures
        r@ == trim_start_char(s@, c),
{
    let mut i: usize = 0;
    assert(s@.skip(0) == s@);
    while i < s.len() && s[i] == c
        invariant
            i <= s@.len(),
            trim_start_char(s@, c) == trim_start_char(s@.skip(i as int), c),
        decreases s@.len() - i,
    {
        assert(s@.skip(i as int).skip(1) == s@.skip(i + 1));
        i = i + 1;
    }
    let r = slice_subrange(s, i, s.len());
    assert(r@ == s@.skip(i as int));
    r
}

/// Drops every `c` at the end.
pub fn trimmed_end_char(s: &[char], c: char) -> (r: &[char])
    ensures
        r@ == trim_end_char(s@, c),
{
    let mut i: usize = s.len();
    assert(s@.take(i as int) == s@);
    while i > 0 && s[i - 1] == c
        invariant
            i <= s@.len(),
            trim_end_char(s@, c) == trim_end_char(s@.take(i as int), c),
        decreases i,
    {
        assert(s@.take(i as int).drop_last() == s@.take(i - 1));
        i = i - 1;
    }
    let r = slice_subrange(s, 0, i);
    assert(r@ == s@.take(i as int));
    r
}

/// Drops every copy of `p` at the end.
pub fn trimmed_end_text<'a>(s: &'a [char], p: &str) -> (r: &'a [char])
    requires
        p@.len() > 0,
    ensures
        r@ == trim_end_text(s@, p@),
{
    let mut rest = s;
    loop
        invariant
            p@.len() > 0,
            trim_end_text(s@, p@) == trim_end_text(rest@, p@),
        decreases rest@.len(),
    {
        match without_suffix(rest, p) {
            Some(shorter) => {
                rest = shorter;
            },
            None => {
                return rest;
            },
        }
    }
}

/// Whether `p` stands in `s`.
pub open spec fn contains(s: Seq<char>, p: Seq<char>) -> bool {
    exists|i: int|
        0 <= i <= s.len() - p.len() && #[trigger] s.subrange(i, i + p.len()) == p
}

/// Whether `p` stands somewhere in the text.
pub fn contains_text(s: &[char], p: &[char]) -> (r: bool)
    ensures
        r == contains(s@, p@),
{
    if p.len() > s.len() {
        return false;
    }
    let total = s.len();
    let last = total - p.len();
    let mut i: usize = 0;
    while i <= last
        invariant
            total == s@.len(),
            last == total - p@.len(),
            i <= last + 1,
            forall|j: int| 0 <= j < i ==> #[trigger] s@.subrange(j, j + p@.len()) != p@,
        decreases last + 1 - i,
    {
        if same_chars(slice_subrange(s, i, i + p.len()), p) {
            assert(s@.subrange(i as int, i + p@.len()) == p@);
            return true;
        }
        if i == last {
            return false;
        }
        i = i + 1;
    }
    false
}

/// The place of the last copy of `p`.
pub open spec fn rfind(s: Seq<char>, p: Seq<char>) -> Option<int>
    decreases s.len(),
{
    if s.len() < p.len() {
        None
    } else if ends_with(s, p) {
        Some(s.len() - p.len())
    } else if s.len() == 0 {
        None
    } else {
        rfind(s.drop_last(), p)
    }
}

/// `s` on either side of the last copy of `p`.
pub open spec fn rsplit_once(s: Seq<char>, p: Seq<char>) -> Option<(Seq<char>, Seq<char>)> {
    match rfind(s, p) {
        Some(i) => Some((s.take(i), s.skip(i + p.len()))),
        None => None,
    }
}

/// Splits at the last copy of `p`.
pub fn rsplit_once_at<'a>(s: &'a [char], p: &str) -> (r: Option<(&'a [char], &'a [char])>)
    ensures
        pair_texts(r) == rsplit_once(s@, p@),
{
    let q = to_chars(p);
    let n = q.len();
    if n > s.len() {
        return None;
    }
    let mut end: usize = s.len();
    assert(s@.take(end as int) == s@);
    loop
        invariant
            q@ == p@,
            n == q@.len(),
            n <= end <= s@.len(),
            rfind(s@, p@) == rfind(s@.take(end as int), p@),
        decreases end,
    {
        let head = slice_subrange(s, 0, end);
        assert(head@ == s@.take(end as int));
        let tail = slice_subrange(s, end - n, end);
        assert(tail@ == head@.skip(end - n));
        if same_chars(tail, q.as_slice()) {
            let a = slice_subrange(s, 0, end - n);
            let b = slice_subrange(s, end, s.len());
            assert(a@ == s@.take(end - n) && b@ == s@.skip(end as int));
            return Some((a, b));
        }
        if end == n {
            assert(n == 0 ==> tail@ =~= q@);
            assert(rfind(head@.drop_last(), p@) is None);
            return None;
        }
        assert(head@.drop_last() == s@.take(end - 1));
        end = end - 1;
    }
}

/// The texts one after the other, with `sep` between them.
pub open spec fn join(parts: Seq<Seq<char>>, sep: Seq<char>) -> Seq<char>
    decreases parts.len(),
{
    if parts.len() == 0 {
        seq![]
    } else if parts.len() == 1 {
        parts[0]
    } else {
        join(parts.drop_last(), sep) + sep + parts.last()
    }
}

/// Joins the slices from `from` on with `sep` between them.
pub fn joined(parts: &Vec<&[char]>, from: usize, sep: &str) -> (r: Vec<char>)
    requires
        from <= parts@.len(),
    ensures
        r@ == join(texts(parts@).skip(from as int), sep@),
{
    let gap = to_chars(sep);
    let mut r: Vec<char> = Vec::new();
    let ghost all = texts(parts@).skip(from as int);
    let mut i: usize = from;
    assert(all.take(0) == Seq::<Seq<char>>::empty());
    while i < parts.len()
        invariant
            from <= i <= parts@.len(),
            gap@ == sep@,
            all == texts(parts@).skip(from as int),
            r@ == join(all.take(i - from), sep@),
        decreases parts@.len() - i,
    {
        let ghost k = (i - from) as int;
        assert(all.take(k + 1).drop_last() == all.take(k));
        assert(all.take(k + 1).last() == parts@[i as int]@);
        if i > from {
            push_all(&mut r, gap.as_slice());
        }
        push_all(&mut r, parts[i]);
        assert(r@ == join(all.take(k + 1), sep@));
        i = i + 1;
    }
    assert(all.take((parts@.len() - from) as int) == all);
    r
}

/// Appends every character of `tail` to `chars`.
pub fn push_all(chars: &mut Vec<char>, tail: &[char])
    ensures
        final(chars)@ == old(chars)@ + tail@,
{
    for i in 0..tail.len()
        invariant
            chars@ == old(chars)@ + tail@.take(i as int),
    {
        chars.push(tail[i]);
    }
}

/// What [`split`] leaves holds no separator.
pub proof fn lemma_split_parts(s: Seq<char>, c: char)
    ensures
        split(s, c).len() > 0,
        forall|k: int|
            0 <= k < split(s, c).len() ==> !(#[trigger] split(
                s,
                c,
            )[k]).contains(c),
    decreases s.len(),
{
    let i = find_char(s, c) as int;
    lemma_find_char(s, c);
    let parts = split(s, c);
    if i < s.len() {
        let tail = split(s.skip(i + 1), c);
        lemma_split_parts(s.skip(i + 1), c);
        assert forall|k: int| 0 <= k < parts.len() implies !(#[trigger] parts[k]).contains(c) by {
            if k == 0 {
                assert(parts[0] == s.take(i));
            } else {
                assert(parts[k] == tail[k - 1]);
            }
        }
    } else {
        assert(parts == seq![s]);
    }
}

/// The first of several texts stands before all others.
pub proof fn lemma_join_front(parts: Seq<Seq<char>>, sep: Seq<char>)
    requires
        parts.len() > 1,
    ensures
        join(parts, sep) == parts[0] + sep + join(parts.skip(1), sep),
    decreases parts.len(),
{
    let head = parts.drop_last();
    let tail = parts.skip(1);
    if parts.len() == 2 {
        reveal_with_fuel(join, 2);
        assert(join(head, sep) == parts[0]);
        assert(join(tail, sep) == parts[1]);
    } else {
        lemma_join_front(head, sep);
        assert(head.skip(1) == tail.drop_last());
        assert(tail.last() == parts.last());
        assert(join(parts, sep) == parts[0] + sep + join(tail, sep));
    }
}

/// Texts without a separator are found again between the separators.
pub proof fn lemma_split_of_join(parts: Seq<Seq<char>>, c: char)
    requires
        parts.len() > 0,
        forall|k: int| 0 <= k < parts.len() ==> !(#[trigger] parts[k]).contains(c),
    ensures
        split(join(parts, seq![c]), c) == parts,
    decreases parts.len(),
{
    let s = join(parts, seq![c]);
    let first = parts[0];
    assert(!first.contains(c));
    assert forall|i: int| 0 <= i < first.len() implies first[i] != c by {
        assert(first.contains(first[i]));
    }
    if parts.len() == 1 {
        assert(s == first);
        lemma_find_char_unique(s, c, s.len() as int);
        assert(parts == seq![s]);
    } else {
        let tail = parts.skip(1);
        lemma_join_front(parts, seq![c]);
        assert forall|k: int| 0 <= k < tail.len() implies !(#[trigger] tail[k]).contains(c) by {
            assert(tail[k] == parts[k + 1]);
        }
        lemma_split_of_join(tail, c);
        let n = first.len() as int;
        assert(s[n] == c);
        assert forall|i: int| 0 <= i < n implies s[i] != c by {
            assert(s[i] == first[i]);
        }
        lemma_find_char_unique(s, c, n);
        assert(s.take(n) == first);
        assert(s.skip(n + 1) == join(tail, seq![c]));
        assert(seq![first] + tail == parts);
    }
}

/// A text that begins with no white space keeps its first character.
pub proof fn lemma_trim_end_first(s: Seq<char>)
    requires
        s.len() > 0,
        !is_white(s[0]),
    ensures
        trim_end(s).len() > 0,
        trim_end(s)[0] == s[0],
    decreases s.len(),
{
    if is_white(s.last()) {
        assert(s.len() > 1);
        lemma_trim_end_first(s.drop_last());
    }
}

/// A text that stands at a place and at no later one is found there.
pub proof fn lemma_rfind(s: Seq<char>, p: Seq<char>, i: int)
    requires
        p.len() > 0,
        0 <= i <= s.len() - p.len(),
        s.subrange(i, i + p.len()) == p,
        forall|j: int| i < j <= s.len() - p.len() ==> #[trigger] s.subrange(j, j + p.len()) != p,
    ensures
        rfind(s, p) == Some(i),
    decreases s.len(),
{
    let last = s.len() - p.len();
    assert(s.skip(last) == s.subrange(last, last + p.len()));
    if i < last {
        let head = s.drop_last();
        assert(head.subrange(i, i + p.len()) == s.subrange(i, i + p.len()));
        assert forall|j: int| i < j <= head.len() - p.len() implies #[trigger] head.subrange(
            j,
            j + p.len(),
        ) != p by {
            assert(head.subrange(j, j + p.len()) == s.subrange(j, j + p.len()));
        }
        lemma_rfind(head, p, i);
    }
}

} // verus!
