//! The arguments of the `fossil` commands.

use crate::index::push_item;
use crate::path::RepoPath;
use vstd::prelude::*;
use vstd::string::*;

verus! {

/// Appends a text argument.
pub fn push_arg(args: &mut Vec<String>, arg: &str)
    ensures
        final(args).deep_view() == old(args).deep_view().push(arg@),
{
    push_item(args, arg.to_owned());
}

/// A list of one argument.
pub fn one_arg(arg: &str) -> (r: Vec<String>)
    ensures
        r.deep_view() == seq![arg@],
{
    let mut r: Vec<String> = Vec::new();
    push_arg(&mut r, arg);
    assert(r.deep_view() =~= seq![arg@]);
    r
}

/// A list of two arguments.
pub fn two_args(a: &str, b: &str) -> (r: Vec<String>)
    ensures
        r.deep_view() == seq![a@, b@],
{
    let mut r = one_arg(a);
    push_arg(&mut r, b);
    assert(r.deep_view() =~= seq![a@, b@]);
    r
}

/// A list of three arguments.
pub fn three_args(a: &str, b: &str, c: &str) -> (r: Vec<String>)
    ensures
        r.deep_view() == seq![a@, b@, c@],
{
    let mut r = two_args(a, b);
    push_arg(&mut r, c);
    assert(r.deep_view() =~= seq![a@, b@, c@]);
    r
}

/// A list of four arguments.
pub fn four_args(a: &str, b: &str, c: &str, d: &str) -> (r: Vec<String>)
    ensures
        r.deep_view() == seq![a@, b@, c@, d@],
{
    let mut r = three_args(a, b, c);
    push_arg(&mut r, d);
    assert(r.deep_view() =~= seq![a@, b@, c@, d@]);
    r
}

/// Appends a path argument for every path.
pub fn push_paths(args: &mut Vec<String>, paths: &Vec<RepoPath>)
    ensures
        final(args).deep_view() == old(args).deep_view() + paths.deep_view(),
{
    let ghost all = paths.deep_view();
    let ghost before = args.deep_view();
    let mut i: usize = 0;
    assert(before + all.take(0) == before);
    while i < paths.len()
        invariant
            i <= paths@.len(),
            all == paths.deep_view(),
            args.deep_view() == before + all.take(i as int),
        decreases paths@.len() - i,
    {
        push_arg(args, paths[i].as_unix_str());
        assert(before + all.take(i + 1) == (before + all.take(i as int)).push(all[i as int]));
        i = i + 1;
    }
    assert(all.take(i as int) == all);
}

/// The arguments for a list of paths.
pub fn repo_paths_to_args(paths: &Vec<RepoPath>) -> (r: Vec<String>)
    ensures
        r.deep_view() == paths.deep_view(),
{
    let mut r: Vec<String> = Vec::new();
    push_paths(&mut r, paths);
    assert(r.deep_view() =~= paths.deep_view());
    r
}

/// The paths other than the root.
pub open spec fn named_paths(paths: Seq<Seq<char>>) -> Seq<Seq<char>>
    decreases paths.len(),
{
    if paths.len() == 0 {
        seq![]
    } else if paths.last().len() > 0 {
        named_paths(paths.drop_last()).push(paths.last())
    } else {
        named_paths(paths.drop_last())
    }
}

/// Appends a path argument for every path other than the root.
pub fn push_named_paths(args: &mut Vec<String>, paths: &Vec<RepoPath>)
    ensures
        final(args).deep_view() == old(args).deep_view() + named_paths(paths.deep_view()),
{
    let ghost all = paths.deep_view();
    let ghost before = args.deep_view();
    let mut i: usize = 0;
    assert(all.take(0) == Seq::<Seq<char>>::empty());
    assert(before + named_paths(all.take(0)) == before);
    while i < paths.len()
        invariant
            i <= paths@.len(),
            all == paths.deep_view(),
            args.deep_view() == before + named_paths(all.take(i as int)),
        decreases paths@.len() - i,
    {
        assert(all.take(i + 1).drop_last() == all.take(i as int));
        assert(all.take(i + 1).last() == paths@[i as int]@);
        if !paths[i].is_empty() {
            push_arg(args, paths[i].as_unix_str());
            assert(args.deep_view() == before + named_paths(all.take(i + 1)));
        }
        i = i + 1;
    }
    assert(all.take(i as int) == all);
}

/// The arguments of `fossil changes`.
pub open spec fn changes_args(paths: Seq<Seq<char>>) -> Seq<Seq<char>> {
    seq!["changes"@, "--classify"@, "--differ"@, "--no-merge"@, "--rel-paths"@] + named_paths(paths)
}

/// The arguments of `fossil changes` below the given paths.
pub fn fossil_changes_args(path_prefixes: &Vec<RepoPath>) -> (r: Vec<String>)
    ensures
        r.deep_view() == changes_args(path_prefixes.deep_view()),
{
    let mut args = four_args("changes", "--classify", "--differ", "--no-merge");
    push_arg(&mut args, "--rel-paths");
    assert(args.deep_view() =~= seq![
        "changes"@,
        "--classify"@,
        "--differ"@,
        "--no-merge"@,
        "--rel-paths"@,
    ]);
    push_named_paths(&mut args, path_prefixes);
    args
}

/// The arguments of `fossil diff --numstat`.
pub open spec fn numstat_args(paths: Seq<Seq<char>>) -> Seq<Seq<char>> {
    seq!["diff"@, "--numstat"@] + named_paths(paths)
}

/// The arguments of `fossil diff --numstat` below the given paths.
pub fn fossil_numstat_args(path_prefixes: &Vec<RepoPath>) -> (r: Vec<String>)
    ensures
        r.deep_view() == numstat_args(path_prefixes.deep_view()),
{
    let mut args = two_args("diff", "--numstat");
    push_named_paths(&mut args, path_prefixes);
    args
}

} // verus!
