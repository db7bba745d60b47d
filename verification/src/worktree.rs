//! The checkouts of a repository.

use crate::branch::{branch_ref_of, fossil_branch_name};
use crate::commands::{four_args, three_args, two_args};
use crate::error::{FossilError, FossilErrorView};
use crate::index::{insert_if_absent, push_item, Indexed};
use crate::info::{parse_fossil_info, FossilInfo, FossilInfoView};
use crate::path::PathStyle;
use crate::text::{
    is_text, last_white_position, split_lines, split_once_at, to_chars, to_text, trimmed,
    trimmed_end, trimmed_end_char,
};
use vstd::prelude::*;
use vstd::slice::slice_subrange;
use vstd::string::*;

verus! {

// ---------------------------------------------------------------------------
// The list of checkouts
// ---------------------------------------------------------------------------

/// Whether a text is a date: `YYYY-MM-DD`.
pub open spec fn is_checkout_date(s: Seq<char>) -> bool {
    &&& s.len() == 10
    &&& s[4] == '-' && s[7] == '-'
    &&& forall|i: int|
        0 <= i < 10 && i != 4 && i != 7 ==> crate::digits::is_decimal(#[trigger] s[i])
}

/// Whether a text is a date.
pub fn is_fossil_checkout_date(value: &[char]) -> (r: bool)
    ensures
        r == is_checkout_date(value@),
{
    if value.len() != 10 {
        return false;
    }
    for i in 0..10usize
        invariant
            value@.len() == 10,
            forall|j: int|
                0 <= j < i ==> if j == 4 || j == 7 {
                    #[trigger] value@[j] == '-'
                } else {
                    crate::digits::is_decimal(value@[j])
                },
    {
        let c = value[i];
        let fits = if i == 4 || i == 7 {
            c == '-'
        } else {
            '0' <= c && c <= '9'
        };
        if !fits {
            return false;
        }
    }
    assert(value@[4] == '-' && value@[7] == '-');
    true
}

/// The path of a checkout, without the date behind it.
pub open spec fn verbose_checkout_path(value: Seq<char>) -> Option<Seq<char>> {
    let text = crate::text::trim(value);
    let at = crate::text::rfind_white(text);
    let path = if at >= 0 && is_checkout_date(crate::text::trim(text.skip(at))) {
        crate::text::trim_end(text.take(at))
    } else {
        text
    };
    if path.len() > 0 {
        Some(path)
    } else {
        None
    }
}

/// Reads the path of a checkout.
pub fn parse_fossil_verbose_checkout_path<'a>(value: &'a [char]) -> (r: Option<&'a [char]>)
    ensures
        crate::text::opt_text(r) == verbose_checkout_path(value@),
{
    let text = trimmed(value);
    let path = match last_white_position(text) {
        Some(at) => {
            let head = slice_subrange(text, 0, at);
            let tail = slice_subrange(text, at, text.len());
            assert(head@ == text@.take(at as int) && tail@ == text@.skip(at as int));
            if is_fossil_checkout_date(trimmed(tail)) {
                trimmed_end(head)
            } else {
                text
            }
        },
        None => text,
    };
    if path.len() > 0 {
        Some(path)
    } else {
        None
    }
}

/// The checkout in a line, without the separators at its end.
pub open spec fn verbose_checkout_line(line: Seq<char>, style: PathStyle) -> Option<Seq<char>> {
    match crate::text::split_once(line, ':') {
        None => None,
        Some((key, value)) => if crate::text::trim(key) != "check-out"@ {
            None
        } else {
            match verbose_checkout_path(value) {
                Some(path) => Some(
                    crate::text::trim_end_char(path, crate::path::main_separator(style)),
                ),
                None => None,
            }
        },
    }
}

/// The checkouts in the given lines.
pub open spec fn verbose_checkout_lines(lines: Seq<Seq<char>>, style: PathStyle) -> Seq<Seq<char>>
    decreases lines.len(),
{
    if lines.len() == 0 {
        seq![]
    } else {
        match verbose_checkout_line(lines.last(), style) {
            Some(path) => verbose_checkout_lines(lines.drop_last(), style).push(path),
            None => verbose_checkout_lines(lines.drop_last(), style),
        }
    }
}

/// The checkouts in the output of `fossil info --verbose`.
pub open spec fn verbose_checkouts(output: Seq<char>, style: PathStyle) -> Seq<Seq<char>> {
    verbose_checkout_lines(crate::text::lines(output), style)
}

/// Reads one line of `fossil info --verbose`.
fn checkout_of_line(line: &[char], style: PathStyle) -> (r: Option<String>)
    ensures
        r.deep_view() == verbose_checkout_line(line@, style),
{
    match split_once_at(line, ':') {
        None => None,
        Some((key, value)) => {
            if !is_text(trimmed(key), "check-out") {
                return None;
            }
            match parse_fossil_verbose_checkout_path(value) {
                Some(path) => {
                    let separator = match style {
                        PathStyle::Posix => '/',
                        PathStyle::Windows => '\\',
                    };
                    Some(to_text(trimmed_end_char(path, separator)))
                },
                None => None,
            }
        },
    }
}

/// Reads the output of `fossil info --verbose`.
pub fn parse_fossil_verbose_checkouts(output: &str, style: PathStyle) -> (r: Vec<String>)
    ensures
        r.deep_view() == verbose_checkouts(output@, style),
{
    let chars = to_chars(output);
    let lines = split_lines(chars.as_slice());
    let ghost all = crate::text::lines(output@);
    let mut r: Vec<String> = Vec::new();
    let mut i: usize = 0;
    assert(all.take(0) == Seq::<Seq<char>>::empty());
    assert(r.deep_view() == Seq::<Seq<char>>::empty());
    while i < lines.len()
        invariant
            i <= lines@.len(),
            crate::text::texts(lines@) == all,
            r.deep_view() == verbose_checkout_lines(all.take(i as int), style),
        decreases lines@.len() - i,
    {
        assert(all.take(i + 1).drop_last() == all.take(i as int));
        assert(all.take(i + 1).last() == lines@[i as int]@);
        if let Some(path) = checkout_of_line(lines[i], style) {
            push_item(&mut r, path);
        }
        i = i + 1;
    }
    assert(all.take(i as int) == all);
    r
}

/// The arguments that ask for the checkouts of a repository, if it is known.
pub open spec fn checkouts_args(info: FossilInfoView) -> Option<Seq<Seq<char>>> {
    match info.repository {
        Some(repository) => Some(seq!["info"@, "--verbose"@, repository]),
        None => None,
    }
}

/// The arguments that ask for the checkouts of a repository, if it is known.
pub fn fossil_checkouts_args(info: &FossilInfo) -> (r: Option<Vec<String>>)
    ensures
        r.deep_view() == checkouts_args(info.deep_view()),
{
    match &info.repository {
        Some(repository) => Some(three_args("info", "--verbose", repository.as_str())),
        None => None,
    }
}

/// Where the checkouts of a repository are.
#[derive(Debug)]
pub enum CheckoutPaths {
    /// Nothing but the working directory is known.
    WorkDirectory,
    /// At these paths.
    Listed(Vec<String>),
}

/// Where the checkouts are, from the output of `fossil info --verbose`: empty if
/// there was nothing to ask or the command failed.
pub fn fossil_checkout_paths(output: &str, style: PathStyle) -> (r: CheckoutPaths)
    ensures
        match r {
            CheckoutPaths::WorkDirectory => verbose_checkouts(output@, style).len() == 0,
            CheckoutPaths::Listed(paths) => paths.deep_view() == verbose_checkouts(output@, style)
                && paths@.len() > 0,
        },
{
    let paths = parse_fossil_verbose_checkouts(output, style);
    assert(paths.deep_view().len() == paths@.len());
    if paths.len() == 0 {
        CheckoutPaths::WorkDirectory
    } else {
        CheckoutPaths::Listed(paths)
    }
}

// ---------------------------------------------------------------------------
// Worktrees
// ---------------------------------------------------------------------------

/// A part of a path on the machine.
#[derive(Debug)]
pub enum PathPart {
    /// A prefix, by its kind and the texts in it.
    Prefix { kind: u8, first: Vec<u8>, second: Vec<u8> },
    RootDir,
    CurDir,
    ParentDir,
    Normal(Vec<u8>),
}

/// A part of a path, as bytes.
pub enum PathPartView {
    Prefix { kind: u8, first: Seq<u8>, second: Seq<u8> },
    RootDir,
    CurDir,
    ParentDir,
    Normal(Seq<u8>),
}

impl DeepView for PathPart {
    type V = PathPartView;

    open spec fn deep_view(&self) -> PathPartView {
        match *self {
            PathPart::Prefix { kind, first, second } => PathPartView::Prefix {
                kind,
                first: first@,
                second: second@,
            },
            PathPart::RootDir => PathPartView::RootDir,
            PathPart::CurDir => PathPartView::CurDir,
            PathPart::ParentDir => PathPartView::ParentDir,
            PathPart::Normal(name) => PathPartView::Normal(name@),
        }
    }
}

/// A path on the machine, with its parts.
#[derive(Debug)]
pub struct CheckoutPath<P> {
    pub path: P,
    pub parts: Vec<PathPart>,
}

/// A path on the machine, with its parts.
pub struct CheckoutPathView<P> {
    pub path: P,
    pub parts: Seq<PathPartView>,
}

impl<P> DeepView for CheckoutPath<P> {
    type V = CheckoutPathView<P>;

    open spec fn deep_view(&self) -> CheckoutPathView<P> {
        CheckoutPathView { path: self.path, parts: self.parts.deep_view() }
    }
}

/// The key that orders texts of bytes: its end comes before every byte.
pub open spec fn bytes_key(bytes: Seq<u8>) -> Seq<u32> {
    Seq::new(bytes.len(), |i: int| (bytes[i] + 1) as u32).push(0)
}

/// The key of a part: parts of different kinds in the order in which the kinds
/// are declared, parts of one kind by their texts.
pub open spec fn part_key(part: PathPartView) -> Seq<u32> {
    match part {
        PathPartView::Prefix { kind, first, second } => seq![1u32, kind as u32] + bytes_key(first)
            + bytes_key(second),
        PathPartView::RootDir => seq![2u32],
        PathPartView::CurDir => seq![3u32],
        PathPartView::ParentDir => seq![4u32],
        PathPartView::Normal(name) => seq![5u32] + bytes_key(name),
    }
}

/// The key that orders paths part by part.
pub open spec fn parts_key(parts: Seq<PathPartView>) -> Seq<u32>
    decreases parts.len(),
{
    if parts.len() == 0 {
        seq![]
    } else {
        parts_key(parts.drop_last()) + part_key(parts.last())
    }
}

/// Appends the key of a text.
fn push_bytes_key(key: &mut Vec<u32>, bytes: &Vec<u8>)
    ensures
        final(key)@ == old(key)@ + bytes_key(bytes@),
{
    let ghost full = bytes_key(bytes@);
    for i in 0..bytes.len()
        invariant
            full == bytes_key(bytes@),
            key@ == old(key)@ + full.take(i as int),
    {
        key.push(bytes[i] as u32 + 1);
        assert(full.take(i + 1) == full.take(i as int).push((bytes@[i as int] + 1) as u32));
        assert(key@ == old(key)@ + full.take(i + 1));
    }
    key.push(0);
    assert(key@ == old(key)@ + full);
}

/// The key that orders paths part by part.
fn key_of_parts(parts: &Vec<PathPart>) -> (r: Vec<u32>)
    ensures
        r@ == parts_key(parts.deep_view()),
{
    let ghost all = parts.deep_view();
    let mut key: Vec<u32> = Vec::new();
    let mut i: usize = 0;
    assert(all.take(0) == Seq::<PathPartView>::empty());
    while i < parts.len()
        invariant
            i <= parts@.len(),
            all == parts.deep_view(),
            key@ == parts_key(all.take(i as int)),
        decreases parts@.len() - i,
    {
        let ghost before = key@;
        assert(all.take(i + 1).drop_last() == all.take(i as int));
        assert(all.take(i + 1).last() == parts@[i as int].deep_view());
        match &parts[i] {
            PathPart::Prefix { kind, first, second } => {
                key.push(1);
                key.push(*kind as u32);
                push_bytes_key(&mut key, first);
                push_bytes_key(&mut key, second);
                assert(key@ == before + (seq![1u32, *kind as u32] + bytes_key(first@) + bytes_key(
                    second@,
                )));
            },
            PathPart::RootDir => {
                key.push(2);
                assert(key@ == before + seq![2u32]);
            },
            PathPart::CurDir => {
                key.push(3);
                assert(key@ == before + seq![3u32]);
            },
            PathPart::ParentDir => {
                key.push(4);
                assert(key@ == before + seq![4u32]);
            },
            PathPart::Normal(name) => {
                key.push(5);
                push_bytes_key(&mut key, name);
                assert(key@ == before + (seq![5u32] + bytes_key(name@)));
            },
        }
        i = i + 1;
    }
    assert(all.take(i as int) == all);
    key
}

/// Texts are told apart by the start of what follows from their keys.
proof fn lemma_bytes_key_start(p: Seq<u8>, q: Seq<u8>, s: Seq<u32>, t: Seq<u32>)
    requires
        bytes_key(p) + s == bytes_key(q) + t,
    ensures
        p == q,
        s == t,
{
    let a = bytes_key(p) + s;
    let b = bytes_key(q) + t;
    assert(a[p.len() as int] == 0);
    assert(b[q.len() as int] == 0);
    if p.len() < q.len() {
        assert(b[p.len() as int] == (q[p.len() as int] + 1) as u32);
    }
    if q.len() < p.len() {
        assert(a[q.len() as int] == (p[q.len() as int] + 1) as u32);
    }
    assert forall|i: int| 0 <= i < p.len() implies p[i] == q[i] by {
        assert(a[i] == (p[i] + 1) as u32);
        assert(b[i] == (q[i] + 1) as u32);
    }
    assert(p =~= q);
    assert(a.skip((p.len() + 1) as int) =~= s);
    assert(b.skip((p.len() + 1) as int) =~= t);
}

/// Parts are told apart by the start of what follows from their keys.
proof fn lemma_part_key_start(p: PathPartView, q: PathPartView, s: Seq<u32>, t: Seq<u32>)
    requires
        part_key(p) + s == part_key(q) + t,
    ensures
        p == q,
        s == t,
{
    let a = part_key(p) + s;
    let b = part_key(q) + t;
    assert(a[0] == part_key(p)[0]);
    assert(b[0] == part_key(q)[0]);
    match p {
        PathPartView::Prefix { kind, first, second } => match q {
            PathPartView::Prefix { kind: kind2, first: first2, second: second2 } => {
                assert(a[1] == kind as u32);
                assert(b[1] == kind2 as u32);
                assert(a.skip(2) =~= bytes_key(first) + (bytes_key(second) + s));
                assert(b.skip(2) =~= bytes_key(first2) + (bytes_key(second2) + t));
                lemma_bytes_key_start(first, first2, bytes_key(second) + s, bytes_key(second2) + t);
                lemma_bytes_key_start(second, second2, s, t);
            },
            _ => {},
        },
        PathPartView::Normal(name) => match q {
            PathPartView::Normal(name2) => {
                assert(a.skip(1) =~= bytes_key(name) + s);
                assert(b.skip(1) =~= bytes_key(name2) + t);
                lemma_bytes_key_start(name, name2, s, t);
            },
            _ => {},
        },
        _ => {
            assert(part_key(p).len() == 1);
            assert(part_key(q).len() == 1);
            assert(a.skip(1) =~= s);
            assert(b.skip(1) =~= t);
        },
    }
}

/// The key of a path begins with that of its first part.
pub proof fn lemma_parts_key_front(parts: Seq<PathPartView>)
    requires
        parts.len() > 0,
    ensures
        parts_key(parts) == part_key(parts[0]) + parts_key(parts.skip(1)),
    decreases parts.len(),
{
    let head = parts.drop_last();
    let tail = parts.skip(1);
    if parts.len() == 1 {
        assert(head =~= Seq::<PathPartView>::empty());
        assert(tail =~= Seq::<PathPartView>::empty());
        assert(parts_key(parts) =~= part_key(parts[0]) + parts_key(tail));
    } else {
        lemma_parts_key_front(head);
        assert(head.skip(1) =~= tail.drop_last());
        assert(tail.last() == parts.last());
        assert(parts_key(parts) =~= part_key(parts[0]) + parts_key(tail));
    }
}

/// Different paths have different keys.
pub proof fn lemma_parts_keys_differ(a: Seq<PathPartView>, b: Seq<PathPartView>)
    requires
        parts_key(a) == parts_key(b),
    ensures
        a == b,
    decreases a.len(),
{
    if a.len() == 0 || b.len() == 0 {
        if a.len() > 0 {
            lemma_parts_key_front(a);
            assert(parts_key(b).len() == 0);
        }
        if b.len() > 0 {
            lemma_parts_key_front(b);
            assert(parts_key(a).len() == 0);
        }
        assert(a =~= b);
    } else {
        lemma_parts_key_front(a);
        lemma_parts_key_front(b);
        lemma_part_key_start(a[0], b[0], parts_key(a.skip(1)), parts_key(b.skip(1)));
        lemma_parts_keys_differ(a.skip(1), b.skip(1));
        assert(a =~= seq![a[0]] + a.skip(1));
        assert(b =~= seq![b[0]] + b.skip(1));
    }
}

/// A checkout and what was asked there: the outputs of `fossil info` and
/// `fossil branch current`, unless they failed.
#[derive(Debug)]
pub struct LoadedCheckout<P> {
    pub path: CheckoutPath<P>,
    pub info: Option<String>,
    pub branch: Option<String>,
}

/// A checkout and what was asked there, as texts.
pub struct LoadedCheckoutView<P> {
    pub path: CheckoutPathView<P>,
    pub info: Option<Seq<char>>,
    pub branch: Option<Seq<char>>,
}

impl<P> DeepView for LoadedCheckout<P> {
    type V = LoadedCheckoutView<P>;

    open spec fn deep_view(&self) -> LoadedCheckoutView<P> {
        LoadedCheckoutView {
            path: self.path.deep_view(),
            info: self.info.deep_view(),
            branch: self.branch.deep_view(),
        }
    }
}

/// A checkout as the rest of the program sees it.
#[derive(Debug)]
pub struct Worktree<P> {
    pub path: CheckoutPath<P>,
    pub ref_name: Option<String>,
    pub sha: String,
    pub is_main: bool,
    pub is_bare: bool,
}

/// A checkout as the rest of the program sees it, as texts.
pub struct WorktreeView<P> {
    pub path: CheckoutPathView<P>,
    pub ref_name: Option<Seq<char>>,
    pub sha: Seq<char>,
    pub is_main: bool,
    pub is_bare: bool,
}

impl<P> DeepView for Worktree<P> {
    type V = WorktreeView<P>;

    open spec fn deep_view(&self) -> WorktreeView<P> {
        WorktreeView {
            path: self.path.deep_view(),
            ref_name: self.ref_name.deep_view(),
            sha: self.sha@,
            is_main: self.is_main,
            is_bare: self.is_bare,
        }
    }
}

/// The key of a checkout: the main one comes first, the others follow by path.
pub open spec fn worktree_key(is_main: bool, parts: Seq<PathPartView>) -> Seq<u32> {
    seq![
        if is_main {
            0u32
        } else {
            1u32
        },
    ] + parts_key(parts)
}

impl<P> Indexed for Worktree<P> {
    open spec fn order_key(item: WorktreeView<P>) -> Seq<u32> {
        worktree_key(item.is_main, item.path.parts)
    }

    fn key(&self) -> (r: Vec<u32>) {
        let mut key: Vec<u32> = Vec::new();
        if self.is_main {
            key.push(0);
        } else {
            key.push(1);
        }
        let mut rest = key_of_parts(&self.path.parts);
        let ghost tail = rest@;
        key.append(&mut rest);
        assert(key@ =~= worktree_key(self.is_main, self.path.parts.deep_view()));
        key
    }
}

/// The check-in of a checkout: what was said there, or else in the working
/// directory.
pub open spec fn checkout_sha(
    info: FossilInfoView,
    output: Option<Seq<char>>,
    style: PathStyle,
) -> Seq<char> {
    let there = match output {
        Some(output) => crate::info::checkout_info(output, style).checkout,
        None => None,
    };
    match there {
        Some(sha) => sha,
        None => crate::commit::text_or_empty(info.checkout),
    }
}

/// A checkout as the rest of the program sees it: the main one is the one in the
/// working directory.
pub open spec fn worktree_of<P>(
    info: FossilInfoView,
    current: Seq<PathPartView>,
    checkout: LoadedCheckoutView<P>,
    style: PathStyle,
) -> WorktreeView<P> {
    WorktreeView {
        path: checkout.path,
        ref_name: match checkout.branch {
            Some(branch) => Some(crate::branch::branch_ref(branch)),
            None => None,
        },
        sha: checkout_sha(info, checkout.info, style),
        is_main: checkout.path.parts == current,
        is_bare: false,
    }
}

/// The checkouts of a repository: the main one first, then by path, each path
/// once.
pub open spec fn all_worktrees<P>(
    info: FossilInfoView,
    current: Seq<PathPartView>,
    checkouts: Seq<LoadedCheckoutView<P>>,
    style: PathStyle,
) -> Seq<WorktreeView<P>> {
    crate::index::sorted_first::<Worktree<P>>(
        Seq::new(checkouts.len(), |i: int| worktree_of(info, current, checkouts[i], style)),
    )
}

/// A checkout as the rest of the program sees it.
fn make_worktree<P>(
    info: &FossilInfo,
    current: &Vec<PathPart>,
    checkout: LoadedCheckout<P>,
    style: PathStyle,
) -> (r: Worktree<P>)
    ensures
        r.deep_view() == worktree_of(
            info.deep_view(),
            current.deep_view(),
            checkout.deep_view(),
            style,
        ),
{
    let there = match &checkout.info {
        Some(output) => parse_fossil_info(output.as_str(), style).checkout,
        None => None,
    };
    let sha = match there {
        Some(sha) => sha,
        None => crate::commit::or_empty(&info.checkout),
    };
    let ref_name = match &checkout.branch {
        Some(branch) => Some(branch_ref_of(branch.as_str())),
        None => None,
    };
    let key = key_of_parts(&checkout.path.parts);
    let main_key = key_of_parts(current);
    let is_main = match crate::index::compare_keys(key.as_slice(), main_key.as_slice()) {
        crate::index::KeyOrder::Same => true,
        _ => false,
    };
    proof {
        if is_main {
            lemma_parts_keys_differ(checkout.path.parts.deep_view(), current.deep_view());
        }
    }
    Worktree { path: checkout.path, ref_name, sha, is_main, is_bare: false }
}

/// The checkouts of a repository. `info` is what is known of the one in the
/// working directory, and `current` the parts of that directory.
pub fn fossil_worktrees<P>(
    info: &FossilInfo,
    current: &Vec<PathPart>,
    checkouts: Vec<LoadedCheckout<P>>,
    style: PathStyle,
) -> (r: Vec<Worktree<P>>)
    ensures
        r.deep_view() == all_worktrees(
            info.deep_view(),
            current.deep_view(),
            checkouts.deep_view(),
            style,
        ),
{
    let ghost all = checkouts.deep_view();
    let ghost raw = Seq::new(
        all.len(),
        |i: int| worktree_of(info.deep_view(), current.deep_view(), all[i], style),
    );
    let mut rest = checkouts;
    let mut r: Vec<Worktree<P>> = Vec::new();
    let n = rest.len();
    let mut i: usize = 0;
    assert(raw.take(0) == Seq::<WorktreeView<P>>::empty());
    assert(r.deep_view() == Seq::<WorktreeView<P>>::empty());
    assert(all.skip(0) == all);
    while i < n
        invariant
            i <= n,
            n == all.len(),
            rest.deep_view() == all.skip(i as int),
            raw == Seq::new(
                all.len(),
                |i: int| worktree_of(info.deep_view(), current.deep_view(), all[i], style),
            ),
            r.deep_view() == crate::index::sorted_first::<Worktree<P>>(raw.take(i as int)),
            crate::index::in_order::<Worktree<P>>(r.deep_view()),
        decreases n - i,
    {
        assert(rest.deep_view().len() == rest@.len());
        assert(rest.deep_view()[0] == all[i as int]);
        let ghost items = rest@;
        let ghost before = rest.deep_view();
        let checkout = rest.remove(0);
        assert(checkout.deep_view() == all[i as int]);
        assert forall|k: int| 0 <= k < rest@.len() implies #[trigger] rest.deep_view()[k]
            == all.skip(i + 1)[k] by {
            assert(rest@[k] == items[k + 1]);
            assert(before[k + 1] == all.skip(i as int)[k + 1]);
        }
        assert(rest.deep_view() =~= all.skip(i + 1));
        let worktree = make_worktree(info, current, checkout, style);
        assert(raw.take(i + 1).drop_last() == raw.take(i as int));
        assert(raw.take(i + 1).last() == worktree.deep_view());
        insert_if_absent(&mut r, worktree);
        i = i + 1;
    }
    assert(raw.take(i as int) == raw);
    r
}

/// Law: no two checkouts have the same path, and none comes before the main one.
pub proof fn law_worktrees_are_ordered<P>(
    info: FossilInfoView,
    current: Seq<PathPartView>,
    checkouts: Seq<LoadedCheckoutView<P>>,
    style: PathStyle,
    i: int,
    j: int,
)
    requires
        0 <= i < j < all_worktrees(info, current, checkouts, style).len(),
    ensures
        all_worktrees(info, current, checkouts, style)[i].path.parts != all_worktrees(
            info,
            current,
            checkouts,
            style,
        )[j].path.parts,
        !all_worktrees(info, current, checkouts, style)[j].is_main,
{
    let raw = Seq::new(
        checkouts.len(),
        |i: int| worktree_of(info, current, checkouts[i], style),
    );
    let all = all_worktrees(info, current, checkouts, style);
    crate::index::law_sorted_first::<Worktree<P>>(raw);
    let a = all[i];
    let b = all[j];
    assert(all.contains(a) && all.contains(b));
    let x = choose|x: int| #[trigger]
        crate::index::is_first::<Worktree<P>>(raw, x) && raw[x] == a;
    let y = choose|y: int| #[trigger]
        crate::index::is_first::<Worktree<P>>(raw, y) && raw[y] == b;
    assert(a.is_main == (a.path.parts == current));
    assert(b.is_main == (b.path.parts == current));
    let ka = <Worktree<P>>::order_key(a);
    let kb = <Worktree<P>>::order_key(b);
    assert(crate::index::lex_less(ka, kb));
    assert(ka[0] == (if a.is_main {
        0u32
    } else {
        1u32
    }));
    assert(kb[0] == (if b.is_main {
        0u32
    } else {
        1u32
    }));
    crate::index::lemma_lex_irreflexive(ka);
    reveal(crate::index::lex_less);
    if b.is_main {
        assert(a.is_main);
        assert(ka == kb);
    }
}

/// Law: every checkout that was loaded is among the worktrees.
pub proof fn law_worktrees_are_complete<P>(
    info: FossilInfoView,
    current: Seq<PathPartView>,
    checkouts: Seq<LoadedCheckoutView<P>>,
    style: PathStyle,
    j: int,
)
    requires
        0 <= j < checkouts.len(),
    ensures
        exists|i: int|
            0 <= i < all_worktrees(info, current, checkouts, style).len() && (
            #[trigger] all_worktrees(info, current, checkouts, style)[i]).path.parts
                == checkouts[j].path.parts,
{
    let raw = Seq::new(
        checkouts.len(),
        |i: int| worktree_of(info, current, checkouts[i], style),
    );
    let all = all_worktrees(info, current, checkouts, style);
    crate::index::law_sorted_first::<Worktree<P>>(raw);
    assert(raw[j] == worktree_of(info, current, checkouts[j], style));
    let i = choose|i: int|
        0 <= i < all.len() && <Worktree<P>>::order_key(#[trigger] all[i])
            == <Worktree<P>>::order_key(raw[j]);
    let a = all[i];
    let ka = worktree_key(a.is_main, a.path.parts);
    let kb = worktree_key(raw[j].is_main, raw[j].path.parts);
    assert(ka.skip(1) =~= parts_key(a.path.parts));
    assert(kb.skip(1) =~= parts_key(raw[j].path.parts));
    lemma_parts_keys_differ(a.path.parts, raw[j].path.parts);
    assert(all[i].path.parts == checkouts[j].path.parts);
}

// ---------------------------------------------------------------------------
// Opening and closing checkouts
// ---------------------------------------------------------------------------

/// An argument: a text, or a path on the machine.
#[derive(Debug)]
pub enum Arg<P> {
    Text(String),
    Path(P),
}

/// An argument: a text, or a path on the machine.
pub enum ArgView<P> {
    Text(Seq<char>),
    Path(P),
}

impl<P> DeepView for Arg<P> {
    type V = ArgView<P>;

    open spec fn deep_view(&self) -> ArgView<P> {
        match *self {
            Arg::Text(text) => ArgView::Text(text@),
            Arg::Path(path) => ArgView::Path(path),
        }
    }
}

/// Appends a text argument.
pub fn push_text_arg<P>(args: &mut Vec<Arg<P>>, text: &str)
    ensures
        final(args).deep_view() == old(args).deep_view().push(ArgView::Text(text@)),
{
    push_item(args, Arg::Text(text.to_owned()));
}

/// What a new checkout is to show.
#[derive(Debug)]
pub enum CreateWorktreeTarget {
    ExistingBranch { branch_name: String },
    NewBranch { branch_name: String, base_sha: Option<String> },
    Detached { base_sha: Option<String> },
}

/// What a new checkout is to show, as texts.
pub enum CreateWorktreeTargetView {
    ExistingBranch { branch_name: Seq<char> },
    NewBranch { branch_name: Seq<char>, base_sha: Option<Seq<char>> },
    Detached { base_sha: Option<Seq<char>> },
}

impl DeepView for CreateWorktreeTarget {
    type V = CreateWorktreeTargetView;

    open spec fn deep_view(&self) -> CreateWorktreeTargetView {
        match *self {
            CreateWorktreeTarget::ExistingBranch {
                branch_name,
            } => CreateWorktreeTargetView::ExistingBranch { branch_name: branch_name@ },
            CreateWorktreeTarget::NewBranch {
                branch_name,
                base_sha,
            } => CreateWorktreeTargetView::NewBranch {
                branch_name: branch_name@,
                base_sha: base_sha.deep_view(),
            },
            CreateWorktreeTarget::Detached { base_sha } => CreateWorktreeTargetView::Detached {
                base_sha: base_sha.deep_view(),
            },
        }
    }
}

/// The arguments of `fossil branch new`; a branch begins at `current` unless
/// said otherwise.
pub open spec fn new_branch_args(name: Seq<char>, basis: Option<Seq<char>>) -> Seq<Seq<char>> {
    seq![
        "branch"@,
        "new"@,
        crate::branch::branch_name(name),
        match basis {
            Some(basis) => basis,
            None => "current"@,
        },
    ]
}

/// The commands that make a checkout, in this order.
#[derive(Debug)]
pub struct CreateWorktreePlan<P> {
    /// Makes the branch.
    pub new_branch: Option<Vec<String>>,
    /// Opens the checkout.
    pub open: Vec<Arg<P>>,
}

/// The commands that make a checkout, as texts.
pub struct CreateWorktreePlanView<P> {
    pub new_branch: Option<Seq<Seq<char>>>,
    pub open: Seq<ArgView<P>>,
}

impl<P> DeepView for CreateWorktreePlan<P> {
    type V = CreateWorktreePlanView<P>;

    open spec fn deep_view(&self) -> CreateWorktreePlanView<P> {
        CreateWorktreePlanView {
            new_branch: self.new_branch.deep_view(),
            open: self.open.deep_view(),
        }
    }
}

/// The version that a new checkout shows.
pub open spec fn target_version(target: CreateWorktreeTargetView) -> Option<Seq<char>> {
    match target {
        CreateWorktreeTargetView::ExistingBranch { branch_name } => Some(
            crate::branch::branch_name(branch_name),
        ),
        CreateWorktreeTargetView::NewBranch { branch_name, base_sha } => Some(
            crate::branch::branch_name(branch_name),
        ),
        CreateWorktreeTargetView::Detached { base_sha } => base_sha,
    }
}

/// The arguments of `fossil open`.
pub open spec fn open_args<P>(repository: Seq<char>, version: Option<Seq<char>>, path: P) -> Seq<
    ArgView<P>,
> {
    let start = seq![ArgView::Text("open"@), ArgView::Text(repository)];
    let middle = match version {
        Some(version) => seq![ArgView::Text(version)],
        None => seq![],
    };
    start + middle + seq![ArgView::Text("--workdir"@), ArgView::Path(path)]
}

/// The commands that make a checkout at a path; its repository must be known.
pub open spec fn create_worktree_plan<P>(
    info: FossilInfoView,
    target: CreateWorktreeTargetView,
    path: P,
) -> Result<CreateWorktreePlanView<P>, FossilErrorView> {
    match info.repository {
        None => Err(FossilErrorView::RepositoryUnavailable),
        Some(repository) => Ok(
            CreateWorktreePlanView {
                new_branch: match target {
                    CreateWorktreeTargetView::NewBranch { branch_name, base_sha } => Some(
                        new_branch_args(branch_name, base_sha),
                    ),
                    _ => None,
                },
                open: open_args(repository, target_version(target), path),
            },
        ),
    }
}

/// Plans a checkout at a path.
pub fn fossil_create_worktree<P>(info: &FossilInfo, target: &CreateWorktreeTarget, path: P) -> (r:
    Result<CreateWorktreePlan<P>, FossilError>)
    ensures
        crate::error::result_view(r) == create_worktree_plan(
            info.deep_view(),
            target.deep_view(),
            path,
        ),
{
    let repository = match &info.repository {
        Some(repository) => repository,
        None => return Err(FossilError::RepositoryUnavailable),
    };
    let (version, new_branch) = match target {
        CreateWorktreeTarget::ExistingBranch { branch_name } => (
            Some(fossil_branch_name(branch_name.as_str())),
            None,
        ),
        CreateWorktreeTarget::NewBranch { branch_name, base_sha } => {
            let args = match base_sha {
                Some(base) => fossil_new_branch_args(branch_name.as_str(), Some(base.as_str())),
                None => fossil_new_branch_args(branch_name.as_str(), None),
            };
            (Some(fossil_branch_name(branch_name.as_str())), Some(args))
        },
        CreateWorktreeTarget::Detached { base_sha } => (crate::info::copy_text(base_sha), None),
    };
    let mut open: Vec<Arg<P>> = Vec::new();
    push_text_arg(&mut open, "open");
    push_text_arg(&mut open, repository.as_str());
    if let Some(version) = &version {
        push_text_arg(&mut open, version.as_str());
    }
    push_text_arg(&mut open, "--workdir");
    push_item(&mut open, Arg::Path(path));
    assert(open.deep_view() =~= open_args(repository@, version.deep_view(), path));
    Ok(CreateWorktreePlan { new_branch, open })
}

/// The arguments of `fossil branch new`.
pub fn fossil_new_branch_args(name: &str, basis: Option<&str>) -> (r: Vec<String>)
    ensures
        r.deep_view() == new_branch_args(
            name@,
            match basis {
                Some(basis) => Some(basis@),
                None => None,
            },
        ),
{
    let branch = fossil_branch_name(name);
    match basis {
        Some(basis) => four_args("branch", "new", branch.as_str(), basis),
        None => four_args("branch", "new", branch.as_str(), "current"),
    }
}

/// The arguments of `fossil update` to a branch.
pub open spec fn update_args(name: Seq<char>) -> Seq<Seq<char>> {
    seq!["update"@, crate::branch::branch_name(name)]
}

/// The arguments of `fossil update` to a branch.
pub fn fossil_update_args(name: &str) -> (r: Vec<String>)
    ensures
        r.deep_view() == update_args(name@),
{
    two_args("update", fossil_branch_name(name).as_str())
}

/// The commands that put a checkout on a branch, in this order; with `create`
/// the branch is made first, at the current check-in.
pub open spec fn switch_branch_plan(name: Seq<char>, create: bool) -> Seq<Seq<Seq<char>>> {
    if create {
        seq![new_branch_args(name, None), update_args(name)]
    } else {
        seq![update_args(name)]
    }
}

/// Plans to put a checkout on a branch.
pub fn checkout_branch_in_worktree(branch_name: &str, create: bool) -> (r: Vec<Vec<String>>)
    ensures
        r.deep_view() == switch_branch_plan(branch_name@, create),
{
    let mut plan: Vec<Vec<String>> = Vec::new();
    if create {
        push_item(&mut plan, fossil_new_branch_args(branch_name, None));
    }
    push_item(&mut plan, fossil_update_args(branch_name));
    assert(plan.deep_view() =~= switch_branch_plan(branch_name@, create));
    plan
}

/// The commands that make a branch and put the checkout on it, in this order.
pub open spec fn create_branch_plan(name: Seq<char>, base: Option<Seq<char>>) -> Seq<
    Seq<Seq<char>>,
> {
    seq![
        new_branch_args(
            name,
            match base {
                Some(base) => Some(crate::branch::branch_name(base)),
                None => None,
            },
        ),
        update_args(name),
    ]
}

/// Plans to make a branch and to put the checkout on it.
pub fn create_branch(name: &str, base_branch: Option<&str>) -> (r: Vec<Vec<String>>)
    ensures
        r.deep_view() == create_branch_plan(
            name@,
            match base_branch {
                Some(base) => Some(base@),
                None => None,
            },
        ),
{
    let first = match base_branch {
        Some(base) => fossil_new_branch_args(name, Some(fossil_branch_name(base).as_str())),
        None => fossil_new_branch_args(name, None),
    };
    let mut plan: Vec<Vec<String>> = Vec::new();
    push_item(&mut plan, first);
    push_item(&mut plan, fossil_update_args(name));
    assert(plan.deep_view().len() == 2);
    assert(plan.deep_view() =~= create_branch_plan(
        name@,
        match base_branch {
            Some(base) => Some(base@),
            None => None,
        },
    ));
    plan
}

/// The arguments that close a checkout; nothing is to be done for one that is
/// gone already if it is forced.
pub open spec fn remove_worktree_plan(exists: bool, force: bool) -> Option<Seq<Seq<char>>> {
    if !exists && force {
        None
    } else if force {
        Some(seq!["close"@, "--force"@])
    } else {
        Some(seq!["close"@])
    }
}

/// Plans to close a checkout.
pub fn remove_worktree(exists: bool, force: bool) -> (r: Option<Vec<String>>)
    ensures
        r.deep_view() == remove_worktree_plan(exists, force),
{
    if !exists && force {
        None
    } else if force {
        Some(two_args("close", "--force"))
    } else {
        Some(crate::commands::one_arg("close"))
    }
}

} // verus!
