//! Laws of paths inside a checkout.

use crate::error::FossilErrorView;
use crate::path::{repo_path, resolve, strip_here, with_slashes, PathStyle};
use crate::text::join;
use vstd::prelude::*;

verus! {

/// Whether a text is the name of a file or directory.
pub open spec fn is_file_name(n: Seq<char>) -> bool {
    n.len() > 0 && n != seq!['.'] && n != seq!['.', '.'] && !n.contains('/')
}

/// Whether every text is the name of a file or directory.
pub open spec fn are_file_names(names: Seq<Seq<char>>) -> bool {
    forall|i: int| 0 <= i < names.len() ==> is_file_name(#[trigger] names[i])
}

/// The names with slashes between them.
pub open spec fn slashed(names: Seq<Seq<char>>) -> Seq<char> {
    join(names, seq!['/'])
}

/// Whether a character can name a drive.
pub open spec fn is_drive(c: char) -> bool {
    'a' <= c <= 'z' || 'A' <= c <= 'Z'
}

/// Whether a path is written alike in every style: on Windows it has no
/// backslash and names no drive.
pub open spec fn reads_alike(p: Seq<char>, style: PathStyle) -> bool {
    style == PathStyle::Windows ==> !p.contains('\\') && !(p.len() > 2 && is_drive(p[0]) && p[1]
        == ':' && p[2] == '/')
}

/// Whether a text is a path in normal form: names with slashes between them.
pub open spec fn is_plain_path(p: Seq<char>, names: Seq<Seq<char>>, style: PathStyle) -> bool {
    &&& names.len() > 0
    &&& are_file_names(names)
    &&& p == slashed(names)
    &&& reads_alike(p, style)
}

/// A path that begins with a name begins with that name's characters.
proof fn lemma_begins_with_name(parts: Seq<Seq<char>>)
    requires
        parts.len() > 0,
        is_file_name(parts[0]),
    ensures
        slashed(parts).len() >= parts[0].len(),
        slashed(parts).take(parts[0].len() as int) == parts[0],
        slashed(parts).len() > parts[0].len() ==> slashed(parts)[parts[0].len() as int] == '/',
{
    if parts.len() > 1 {
        crate::text::lemma_join_front(parts, seq!['/']);
    }
    assert(slashed(parts).take(parts[0].len() as int) =~= parts[0]);
}

/// A path that begins with a name is neither absolute nor begins with `./`.
proof fn lemma_relative(parts: Seq<Seq<char>>, style: PathStyle)
    requires
        parts.len() > 0,
        is_file_name(parts[0]),
        reads_alike(slashed(parts), style),
    ensures
        strip_here(slashed(parts), style) == slashed(parts),
        !crate::path::is_absolute(slashed(parts), style),
        with_slashes(slashed(parts), style) == slashed(parts),
{
    let p = slashed(parts);
    let first = parts[0];
    lemma_begins_with_name(parts);
    assert(p.take(first.len() as int)[0] == p[0]);
    assert(first.contains(first[0]));
    if first.len() > 1 {
        assert(p.take(first.len() as int)[1] == p[1]);
        assert(first.contains(first[1]));
    } else {
        assert(first =~= seq![first[0]]);
    }
    if style == PathStyle::Windows {
        assert(p.contains(p[0]));
        if p.len() > 1 {
            assert(p.contains(p[1]));
        }
    }
    assert forall|i: int| 0 <= i < p.len() implies with_slashes(p, style)[i] == p[i] by {
        assert(p.contains(p[i]));
    }
    assert(with_slashes(p, style) =~= p);
}

/// The names that a path leads through are those of its parts.
proof fn lemma_parts(parts: Seq<Seq<char>>, style: PathStyle)
    requires
        parts.len() > 0,
        is_file_name(parts[0]),
        forall|i: int| 0 <= i < parts.len() ==> !(#[trigger] parts[i]).contains('/'),
        reads_alike(slashed(parts), style),
    ensures
        repo_path(slashed(parts), style) == (match resolve(parts) {
            Some(names) => Ok::<Seq<char>, FossilErrorView>(slashed(names)),
            None => Err(FossilErrorView::PathNotRelative(slashed(parts))),
        }),
{
    lemma_relative(parts, style);
    crate::text::lemma_split_of_join(parts, '/');
}

proof fn lemma_resolve_names(names: Seq<Seq<char>>)
    requires
        are_file_names(names),
    ensures
        resolve(names) == Some(names),
    decreases names.len(),
{
    if names.len() > 0 {
        let head = names.drop_last();
        assert(are_file_names(head)) by {
            assert forall|i: int| 0 <= i < head.len() implies is_file_name(#[trigger] head[i]) by {
                assert(head[i] == names[i]);
            }
        }
        lemma_resolve_names(head);
        assert(is_file_name(names[names.len() - 1]));
        assert(head.push(names.last()) =~= names);
    } else {
        assert(names =~= Seq::<Seq<char>>::empty());
    }
}

/// Parts that lead to the same place can stand for each other.
proof fn lemma_resolve_alike(a: Seq<Seq<char>>, c: Seq<Seq<char>>, b: Seq<Seq<char>>)
    requires
        resolve(a) == resolve(c),
    ensures
        resolve(a + b) == resolve(c + b),
    decreases b.len(),
{
    if b.len() == 0 {
        assert(a + b =~= a);
        assert(c + b =~= c);
    } else {
        lemma_resolve_alike(a, c, b.drop_last());
        assert((a + b).drop_last() =~= a + b.drop_last());
        assert((c + b).drop_last() =~= c + b.drop_last());
        assert((a + b).last() == b.last());
        assert((c + b).last() == b.last());
    }
}

/// Law: a path that is made of names is read as it is written, with all its
/// directories.
pub proof fn law_plain_path_is_kept(p: Seq<char>, names: Seq<Seq<char>>, style: PathStyle)
    requires
        is_plain_path(p, names, style),
    ensures
        repo_path(p, style) == Ok::<Seq<char>, FossilErrorView>(p),
{
    assert(is_file_name(names[0]));
    assert forall|i: int| 0 <= i < names.len() implies !(#[trigger] names[i]).contains('/') by {
        assert(is_file_name(names[i]));
    }
    lemma_parts(names, style);
    lemma_resolve_names(names);
}

/// Law: behind a name, an empty part and `.` lead nowhere, and a name followed by
/// `..` leads back.
pub proof fn law_detours_do_not_count(
    a: Seq<Seq<char>>,
    name: Seq<char>,
    b: Seq<Seq<char>>,
    style: PathStyle,
)
    requires
        a.len() > 0,
        are_file_names(a),
        is_file_name(name),
        are_file_names(b),
        reads_alike(slashed(a + b), style),
        reads_alike(slashed(a + seq![Seq::<char>::empty()] + b), style),
        reads_alike(slashed(a + seq![seq!['.']] + b), style),
        reads_alike(slashed(a + seq![name, seq!['.', '.']] + b), style),
    ensures
        repo_path(slashed(a + seq![Seq::<char>::empty()] + b), style) == Ok::<
            Seq<char>,
            FossilErrorView,
        >(slashed(a + b)),
        repo_path(slashed(a + seq![seq!['.']] + b), style) == Ok::<Seq<char>, FossilErrorView>(
            slashed(a + b),
        ),
        repo_path(slashed(a + seq![name, seq!['.', '.']] + b), style) == Ok::<
            Seq<char>,
            FossilErrorView,
        >(slashed(a + b)),
{
    let ab = a + b;
    assert(are_file_names(ab)) by {
        assert forall|i: int| 0 <= i < ab.len() implies is_file_name(#[trigger] ab[i]) by {
            if i < a.len() {
                assert(ab[i] == a[i]);
            } else {
                assert(ab[i] == b[i - a.len()]);
            }
        }
    }
    lemma_resolve_names(ab);
    lemma_resolve_names(a);
    let empty = seq![Seq::<char>::empty()];
    let here = seq![seq!['.']];
    let back = seq![name, seq!['.', '.']];
    assert((a + empty).drop_last() =~= a);
    assert((a + here).drop_last() =~= a);
    assert((a + back).drop_last() =~= a.push(name));
    assert(a.push(name).drop_last() =~= a);
    assert(resolve(a.push(name)) == Some(a.push(name)));
    assert(a.push(name).drop_last() =~= a);
    assert(seq!['.'].len() == 1);
    assert(seq!['.'] != seq!['.', '.']) by {
        assert(seq!['.', '.'].len() == 2);
    }
    assert(resolve(a + empty) == Some(a));
    assert(resolve(a + here) == Some(a));
    assert(resolve(a + back) == Some(a));
    lemma_resolve_alike(a + empty, a, b);
    lemma_resolve_alike(a + here, a, b);
    lemma_resolve_alike(a + back, a, b);
    assert(is_file_name(a[0]));
    lemma_mixed_parts(a, empty, b);
    lemma_mixed_parts(a, here, b);
    assert(!back[0].contains('/') && !back[1].contains('/'));
    lemma_mixed_parts(a, back, b);
    lemma_parts(a + empty + b, style);
    lemma_parts(a + here + b, style);
    lemma_parts(a + back + b, style);
}

proof fn lemma_mixed_parts(a: Seq<Seq<char>>, m: Seq<Seq<char>>, b: Seq<Seq<char>>)
    requires
        a.len() > 0,
        are_file_names(a),
        are_file_names(b),
        forall|i: int| 0 <= i < m.len() ==> !(#[trigger] m[i]).contains('/'),
    ensures
        (a + m + b)[0] == a[0],
        forall|i: int| 0 <= i < (a + m + b).len() ==> !(#[trigger] (a + m + b)[i]).contains('/'),
{
    let all = a + m + b;
    assert forall|i: int| 0 <= i < all.len() implies !(#[trigger] all[i]).contains('/') by {
        if i < a.len() {
            assert(is_file_name(a[i]));
        } else if i < a.len() + m.len() {
            assert(all[i] == m[i - a.len()]);
        } else {
            assert(is_file_name(b[i - a.len() - m.len()]));
        }
    }
}

/// Law: a path that begins with a slash is refused.
pub proof fn law_absolute_path_is_refused(p: Seq<char>, style: PathStyle)
    ensures
        repo_path(seq!['/'] + p, style) == Err::<Seq<char>, FossilErrorView>(
            FossilErrorView::AbsolutePath(seq!['/'] + p),
        ),
{
}

/// Law: a path that leads above the root is refused.
pub proof fn law_path_above_the_root_is_refused(name: Seq<char>, b: Seq<Seq<char>>)
    requires
        is_file_name(name),
        are_file_names(b),
    ensures
        repo_path(slashed(seq![name, seq!['.', '.'], seq!['.', '.']] + b), PathStyle::Posix) == Err::<
            Seq<char>,
            FossilErrorView,
        >(
            FossilErrorView::PathNotRelative(
                slashed(seq![name, seq!['.', '.'], seq!['.', '.']] + b),
            ),
        ),
{
    let up = seq!['.', '.'];
    let start = seq![name, up, up];
    let one = seq![name];
    let two = seq![name, up];
    let none = Seq::<Seq<char>>::empty();
    assert(are_file_names(one));
    lemma_resolve_names(one);
    assert(two.drop_last() =~= one);
    assert(one.drop_last() =~= none);
    assert(resolve(two) == Some(none));
    assert(start.drop_last() =~= two);
    assert(resolve(start) is None);
    lemma_resolve_fails(start, b);
    assert(!start[0].contains('/') && !start[1].contains('/') && !start[2].contains('/'));
    let rest = seq![up, up];
    assert(start + b =~= one + rest + b);
    assert(!rest[0].contains('/') && !rest[1].contains('/'));
    lemma_mixed_parts(one, rest, b);
    lemma_parts(start + b, PathStyle::Posix);
}

proof fn lemma_resolve_fails(a: Seq<Seq<char>>, b: Seq<Seq<char>>)
    requires
        resolve(a) is None,
    ensures
        resolve(a + b) is None,
    decreases b.len(),
{
    if b.len() == 0 {
        assert(a + b =~= a);
    } else {
        lemma_resolve_fails(a, b.drop_last());
        assert((a + b).drop_last() =~= a + b.drop_last());
    }
}

/// Law: `./` in front of a path leads nowhere.
pub proof fn law_leading_dot_does_not_count(p: Seq<char>, style: PathStyle)
    ensures
        repo_path(seq!['.', '/'] + p, style) == repo_path(p, style),
        repo_path(seq!['.', '\\'] + p, PathStyle::Windows) == repo_path(p, PathStyle::Windows),
{
    assert((seq!['.', '/'] + p).skip(2) =~= p);
    assert((seq!['.', '\\'] + p).skip(2) =~= p);
}

/// Whether `q` is `p` with backslashes for some of the slashes.
pub open spec fn backslashed(p: Seq<char>, q: Seq<char>) -> bool {
    &&& p.len() == q.len()
    &&& forall|i: int|
        0 <= i < p.len() ==> #[trigger] q[i] == p[i] || (p[i] == '/' && q[i] == '\\')
}

proof fn lemma_backslashed(p: Seq<char>, q: Seq<char>)
    requires
        backslashed(p, q),
    ensures
        backslashed(strip_here(p, PathStyle::Windows), strip_here(q, PathStyle::Windows)),
    decreases p.len(),
{
    if p.len() >= 2 {
        assert(q[0] == p[0] || p[0] == '/');
        assert(q[1] == p[1] || p[1] == '/');
        assert forall|i: int| 0 <= i < p.skip(2).len() implies #[trigger] q.skip(2)[i] == p.skip(
            2,
        )[i] || (p.skip(2)[i] == '/' && q.skip(2)[i] == '\\') by {
            assert(q.skip(2)[i] == q[i + 2]);
        }
        lemma_backslashed(p.skip(2), q.skip(2));
    }
}

/// Law: on Windows a backslash separates the names of a path as a slash does.
pub proof fn law_backslashes_are_slashes(p: Seq<char>, q: Seq<char>, path: Seq<char>)
    requires
        backslashed(p, q),
    ensures
        repo_path(p, PathStyle::Windows) == Ok::<Seq<char>, FossilErrorView>(path) <==> repo_path(
            q,
            PathStyle::Windows,
        ) == Ok::<Seq<char>, FossilErrorView>(path),
{
    lemma_backslashed(p, q);
    let a = strip_here(p, PathStyle::Windows);
    let b = strip_here(q, PathStyle::Windows);
    assert forall|i: int| 0 <= i < a.len() implies #[trigger] with_slashes(
        a,
        PathStyle::Windows,
    )[i] == with_slashes(b, PathStyle::Windows)[i] by {
        assert(b[i] == a[i] || a[i] == '/');
    }
    assert(with_slashes(a, PathStyle::Windows) =~= with_slashes(b, PathStyle::Windows));
    if a.len() > 0 {
        assert(b[0] == a[0] || a[0] == '/');
    }
    if a.len() > 2 {
        assert(b[1] == a[1] || a[1] == '/');
        assert(b[2] == a[2] || a[2] == '/');
    }
}

/// Law: on Windows a path that begins with a backslash or with a drive is refused.
pub proof fn law_path_from_a_drive_is_refused(drive: char, slash: char, p: Seq<char>)
    requires
        is_drive(drive),
        slash == '/' || slash == '\\',
    ensures
        repo_path(seq!['\\'] + p, PathStyle::Windows) == Err::<Seq<char>, FossilErrorView>(
            FossilErrorView::AbsolutePath(seq!['\\'] + p),
        ),
        repo_path(seq![drive, ':', slash] + p, PathStyle::Windows) == Err::<
            Seq<char>,
            FossilErrorView,
        >(FossilErrorView::AbsolutePath(seq![drive, ':', slash] + p)),
{
    let path = seq![drive, ':', slash] + p;
    assert(path[0] == drive && path[1] == ':' && path[2] == slash);
}

} // verus!
