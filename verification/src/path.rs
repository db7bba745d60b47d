//! Paths inside a checkout.

use crate::error::{FossilError, FossilErrorView};
use crate::text::{joined, split_at_char, to_chars, to_text};
use vstd::prelude::*;
use vstd::slice::slice_subrange;

verus! {

/// How a machine writes paths.
#[derive(Clone, Copy, Debug, PartialEq, Eq, Structural)]
pub enum PathStyle {
    /// Parts are separated by slashes.
    Posix,
    /// Parts are separated by slashes or backslashes, and a path may begin with
    /// a drive letter.
    Windows,
}

/// Whether `c` separates the parts of a path.
pub open spec fn is_separator(c: char, style: PathStyle) -> bool {
    c == '/' || (style is Windows && c == '\\')
}

/// The separator that the machine itself writes.
pub open spec fn main_separator(style: PathStyle) -> char {
    match style {
        PathStyle::Posix => '/',
        PathStyle::Windows => '\\',
    }
}

/// A path without the `./` that it begins with, however often.
pub open spec fn strip_here(s: Seq<char>, style: PathStyle) -> Seq<char>
    decreases s.len(),
{
    if s.len() >= 2 && s[0] == '.' && is_separator(s[1], style) {
        strip_here(s.skip(2), style)
    } else {
        s
    }
}

/// Whether `c` is an ASCII letter.
pub open spec fn is_letter(c: char) -> bool {
    'a' <= c <= 'z' || 'A' <= c <= 'Z'
}

/// Whether a path begins at a root.
pub open spec fn is_absolute(s: Seq<char>, style: PathStyle) -> bool {
    ||| s.len() > 0 && is_separator(s[0], style)
    ||| style is Windows && s.len() > 2 && is_letter(s[0]) && s[1] == ':' && is_separator(
        s[2],
        style,
    )
}

/// A path with a slash for every separator.
pub open spec fn with_slashes(s: Seq<char>, style: PathStyle) -> Seq<char> {
    Seq::new(
        s.len(),
        |i: int|
            if is_separator(s[i], style) {
                '/'
            } else {
                s[i]
            },
    )
}

/// Whether a part names something: it is neither empty nor `.` nor `..`.
pub open spec fn is_name(part: Seq<char>) -> bool {
    part.len() > 0 && part != seq!['.'] && part != seq!['.', '.']
}

/// The names that are left when the parts are followed one after the other:
/// `..` takes the last name back. `None` if there is none to take back.
pub open spec fn resolve(parts: Seq<Seq<char>>) -> Option<Seq<Seq<char>>>
    decreases parts.len(),
{
    if parts.len() == 0 {
        Some(seq![])
    } else {
        match resolve(parts.drop_last()) {
            None => None,
            Some(names) => if is_name(parts.last()) {
                Some(names.push(parts.last()))
            } else if parts.last() == seq!['.', '.'] {
                if names.len() > 0 {
                    Some(names.drop_last())
                } else {
                    None
                }
            } else {
                Some(names)
            },
        }
    }
}

/// The path inside a checkout that a text names, with slashes between its
/// names; or why it names none.
pub open spec fn repo_path(s: Seq<char>, style: PathStyle) -> Result<Seq<char>, FossilErrorView> {
    let rest = strip_here(s, style);
    if is_absolute(rest, style) {
        Err(FossilErrorView::AbsolutePath(rest))
    } else {
        match resolve(crate::text::split(with_slashes(rest, style), '/')) {
            Some(names) => Ok(crate::text::join(names, seq!['/'])),
            None => Err(FossilErrorView::PathNotRelative(with_slashes(rest, style))),
        }
    }
}

/// Whether a text is a path inside a checkout in its one normal form.
pub open spec fn is_repo_path(s: Seq<char>) -> bool {
    exists|names: Seq<Seq<char>>| #[trigger] names_path(names, s)
}

/// Whether `s` is `names` with slashes between them.
pub open spec fn names_path(names: Seq<Seq<char>>, s: Seq<char>) -> bool {
    &&& s == crate::text::join(names, seq!['/'])
    &&& forall|i: int|
        0 <= i < names.len() ==> is_name(#[trigger] names[i]) && !names[i].contains('/')
}

/// A path inside a checkout, relative to its root.
#[derive(Debug, Hash)]
pub struct RepoPath {
    text: String,
}

impl View for RepoPath {
    type V = Seq<char>;

    closed spec fn view(&self) -> Seq<char> {
        self.text@
    }
}

impl DeepView for RepoPath {
    type V = Seq<char>;

    open spec fn deep_view(&self) -> Seq<char> {
        self@
    }
}

/// The path of a result, as text.
pub open spec fn path_result(r: Result<RepoPath, FossilError>) -> Result<
    Seq<char>,
    FossilErrorView,
> {
    match r {
        Ok(path) => Ok(path@),
        Err(error) => Err(error.deep_view()),
    }
}

impl RepoPath {
    #[verifier::type_invariant]
    spec fn normal(self) -> bool {
        is_repo_path(self.text@)
    }

    /// Reads a path that is written in the given style.
    pub fn from_std_path(path: &str, style: PathStyle) -> (r: Result<RepoPath, FossilError>)
        ensures
            path_result(r) == repo_path(path@, style),
    {
        let chars = to_chars(path);
        RepoPath::from_chars(chars.as_slice(), style)
    }

    /// Reads a path that is written with slashes.
    pub fn new(path: &str) -> (r: Result<RepoPath, FossilError>)
        ensures
            path_result(r) == repo_path(path@, PathStyle::Posix),
    {
        RepoPath::from_std_path(path, PathStyle::Posix)
    }

    /// Reads a path from its characters.
    pub fn from_chars(path: &[char], style: PathStyle) -> (r: Result<RepoPath, FossilError>)
        ensures
            path_result(r) == repo_path(path@, style),
    {
        let rest = without_here(path, style);
        if begins_at_root(rest, style) {
            return Err(FossilError::AbsolutePath(to_text(rest)));
        }
        let unix = slashed(rest, style);
        let parts = split_at_char(unix.as_slice(), '/');
        let ghost all = crate::text::split(unix@, '/');
        proof {
            crate::text::lemma_split_parts(unix@, '/');
        }
        let mut names: Vec<&[char]> = Vec::new();
        let mut i: usize = 0;
        assert(all.take(0) == Seq::<Seq<char>>::empty());
        assert(crate::text::texts(names@) == Seq::<Seq<char>>::empty());
        while i < parts.len()
            invariant
                i <= parts@.len(),
                crate::text::texts(parts@) == all,
                unix@ == with_slashes(rest@, style),
                all == crate::text::split(unix@, '/'),
                rest@ == strip_here(path@, style),
                !is_absolute(rest@, style),
                resolve(all.take(i as int)) == Some(crate::text::texts(names@)),
                forall|k: int| 0 <= k < all.len() ==> !(#[trigger] all[k]).contains('/'),
                forall|k: int|
                    0 <= k < names@.len() ==> is_name((#[trigger] names@[k])@)
                        && !names@[k]@.contains('/'),
            decreases parts@.len() - i,
        {
            let part = parts[i];
            let ghost before = crate::text::texts(names@);
            assert(all.take(i + 1).drop_last() == all.take(i as int));
            assert(all.take(i + 1).last() == part@);
            assert(all[i as int] == part@);
            if is_name_part(part) {
                names.push(part);
                assert(crate::text::texts(names@) == before.push(part@));
            } else if is_up_part(part) {
                if names.len() == 0 {
                    proof {
                        lemma_resolve_none(all, i + 1);
                    }
                    return Err(FossilError::PathNotRelative(to_text(unix.as_slice())));
                }
                let _ = names.pop();
                assert(crate::text::texts(names@) == before.drop_last());
            }
            i = i + 1;
        }
        assert(all.take(i as int) == all);
        proof {
            reveal_strlit("/");
        }
        assert("/"@ == seq!['/']);
        let text = joined(&names, 0, "/");
        assert(crate::text::texts(names@).skip(0) == crate::text::texts(names@));
        proof {
            let list = crate::text::texts(names@);
            assert forall|k: int| 0 <= k < list.len() implies is_name(#[trigger] list[k])
                && !list[k].contains('/') by {
                assert(list[k] == names@[k]@);
            }
            assert(names_path(list, text@));
        }
        Ok(RepoPath { text: to_text(text.as_slice()) })
    }

    /// The path with slashes between its names.
    pub fn as_unix_str(&self) -> (r: &str)
        ensures
            r@ == self@,
            is_repo_path(r@),
    {
        proof {
            use_type_invariant(self);
        }
        self.text.as_str()
    }

    /// Whether this is the root of the checkout.
    pub fn is_empty(&self) -> (r: bool)
        ensures
            r == (self@.len() == 0),
    {
        self.text.as_str().unicode_len() == 0
    }
}

impl Clone for RepoPath {
    fn clone(&self) -> (r: RepoPath)
        ensures
            r@ == self@,
    {
        proof {
            use_type_invariant(self);
        }
        RepoPath { text: self.text.clone() }
    }
}

impl PartialEq for RepoPath {
    fn eq(&self, other: &RepoPath) -> (r: bool) {
        self.text == other.text
    }
}

impl vstd::std_specs::cmp::PartialEqSpecImpl for RepoPath {
    open spec fn obeys_eq_spec() -> bool {
        true
    }

    open spec fn eq_spec(&self, other: &RepoPath) -> bool {
        self@ == other@
    }
}

impl Eq for RepoPath {

}

/// Whether `c` separates the parts of a path.
fn separates(c: char, style: PathStyle) -> (r: bool)
    ensures
        r == is_separator(c, style),
{
    c == '/' || (style == PathStyle::Windows && c == '\\')
}

/// Drops the `./` at the start, however often.
fn without_here<'a>(s: &'a [char], style: PathStyle) -> (r: &'a [char])
    ensures
        r@ == strip_here(s@, style),
{
    let mut rest = s;
    while rest.len() >= 2 && rest[0] == '.' && separates(rest[1], style)
        invariant
            strip_here(s@, style) == strip_here(rest@, style),
        decreases rest@.len(),
    {
        let shorter = slice_subrange(rest, 2, rest.len());
        assert(shorter@ == rest@.skip(2));
        rest = shorter;
    }
    rest
}

/// Whether `c` is an ASCII letter.
fn letter(c: char) -> (r: bool)
    ensures
        r == is_letter(c),
{
    ('a' <= c && c <= 'z') || ('A' <= c && c <= 'Z')
}

/// Whether a path begins at a root.
fn begins_at_root(s: &[char], style: PathStyle) -> (r: bool)
    ensures
        r == is_absolute(s@, style),
{
    if s.len() > 0 && separates(s[0], style) {
        return true;
    }
    style == PathStyle::Windows && s.len() > 2 && letter(s[0]) && s[1] == ':' && separates(
        s[2],
        style,
    )
}

/// Writes a slash for every separator.
fn slashed(s: &[char], style: PathStyle) -> (r: Vec<char>)
    ensures
        r@ == with_slashes(s@, style),
{
    let mut r: Vec<char> = Vec::new();
    for i in 0..s.len()
        invariant
            r@ == with_slashes(s@, style).take(i as int),
    {
        if separates(s[i], style) {
            r.push('/');
        } else {
            r.push(s[i]);
        }
        assert(r@ == with_slashes(s@, style).take(i + 1));
    }
    assert(with_slashes(s@, style).take(s@.len() as int) == with_slashes(s@, style));
    r
}

/// Whether a part is `..`.
fn is_up_part(part: &[char]) -> (r: bool)
    ensures
        r == (part@ == seq!['.', '.']),
{
    let r = part.len() == 2 && part[0] == '.' && part[1] == '.';
    assert(r ==> part@ =~= seq!['.', '.']);
    r
}

/// Whether a part names something.
fn is_name_part(part: &[char]) -> (r: bool)
    ensures
        r == is_name(part@),
{
    let here = part.len() == 1 && part[0] == '.';
    assert(here ==> part@ =~= seq!['.']);
    part.len() > 0 && !here && !is_up_part(part)
}

/// Once a `..` finds no name to take back, no further part helps.
proof fn lemma_resolve_none(parts: Seq<Seq<char>>, k: int)
    requires
        0 <= k <= parts.len(),
        resolve(parts.take(k)) is None,
    ensures
        resolve(parts) is None,
    decreases parts.len() - k,
{
    if k < parts.len() {
        assert(parts.take(k + 1).drop_last() == parts.take(k));
        lemma_resolve_none(parts, k + 1);
    } else {
        assert(parts.take(k) == parts);
    }
}

/// What is left of the parts are names, and they hold what the parts held.
proof fn lemma_resolve_names(parts: Seq<Seq<char>>)
    requires
        forall|k: int| 0 <= k < parts.len() ==> !(#[trigger] parts[k]).contains('/'),
    ensures
        resolve(parts) matches Some(names) ==> forall|k: int|
            0 <= k < names.len() ==> is_name(#[trigger] names[k]) && !names[k].contains('/'),
    decreases parts.len(),
{
    if parts.len() > 0 {
        let head = parts.drop_last();
        assert forall|k: int| 0 <= k < head.len() implies !(#[trigger] head[k]).contains('/') by {
            assert(head[k] == parts[k]);
        }
        lemma_resolve_names(head);
        assert(!parts[parts.len() - 1].contains('/'));
    }
}

/// Names are left as they are.
proof fn lemma_resolve_of_names(names: Seq<Seq<char>>)
    requires
        forall|k: int| 0 <= k < names.len() ==> is_name(#[trigger] names[k]),
    ensures
        resolve(names) == Some(names),
    decreases names.len(),
{
    if names.len() > 0 {
        let head = names.drop_last();
        assert forall|k: int| 0 <= k < head.len() implies is_name(#[trigger] head[k]) by {
            assert(head[k] == names[k]);
        }
        lemma_resolve_of_names(head);
        assert(is_name(names[names.len() - 1]));
        assert(head.push(names.last()) == names);
    } else {
        assert(names == Seq::<Seq<char>>::empty());
    }
}

/// Law: every path that is read is in normal form.
pub proof fn law_repo_path_is_normal(s: Seq<char>, style: PathStyle)
    ensures
        repo_path(s, style) matches Ok(path) ==> is_repo_path(path),
{
    let unix = with_slashes(strip_here(s, style), style);
    let parts = crate::text::split(unix, '/');
    crate::text::lemma_split_parts(unix, '/');
    lemma_resolve_names(parts);
    match resolve(parts) {
        Some(names) => {
            assert(names_path(names, crate::text::join(names, seq!['/'])));
        },
        None => {},
    }
}

/// Law: reading a path in normal form gives the same path.
pub proof fn law_repo_path_is_stable(path: Seq<char>)
    requires
        is_repo_path(path),
    ensures
        repo_path(path, PathStyle::Posix) == Ok::<Seq<char>, FossilErrorView>(path),
{
    let names = choose|names: Seq<Seq<char>>| #[trigger] names_path(names, path);
    let style = PathStyle::Posix;
    if names.len() == 0 {
        assert(path == Seq::<char>::empty());
        assert(with_slashes(path, style) == path);
        assert(crate::text::split(path, '/') == seq![path]);
        reveal_with_fuel(resolve, 2);
        assert(seq![path].drop_last() == Seq::<Seq<char>>::empty());
        assert(names == Seq::<Seq<char>>::empty());
    } else {
        let first = names[0];
        assert(is_name(first) && !first.contains('/'));
        if names.len() > 1 {
            crate::text::lemma_join_front(names, seq!['/']);
        }
        assert(path[0] == first[0]);
        assert(first.contains(first[0]));
        if first.len() >= 2 {
            assert(path[1] == first[1]);
            assert(first.contains(first[1]));
        } else {
            assert(first == seq![first[0]]);
        }
        assert(strip_here(path, style) == path);
        assert(with_slashes(path, style) == path);
        crate::text::lemma_split_of_join(names, '/');
        lemma_resolve_of_names(names);
    }
}

} // verus!
