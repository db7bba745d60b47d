use fossil_git::blame::{
    fossil_blame_from_output, fossil_blame_prefixes, parse_fossil_blame_line,
    parse_fossil_blame_lines,
};
use fossil_git::branch::{fossil_branch_name, fossil_branches};
use fossil_git::commit::{fossil_commit_data, fossil_commit_info, CommitCache};
use fossil_git::details::{
    load_after_info, load_commit, read_cached_commit, read_commit_output, revparse_batch, show,
    show_checkout, show_commit, show_stash, DiffSource, LoadStep, ShowStep,
};
use fossil_git::diff::parse_fossil_unified_diff;
use fossil_git::error::FossilError;
use fossil_git::info::{parse_fossil_commit_info, parse_fossil_info};
use fossil_git::oid::{fossil_stash_oid, Oid};
use fossil_git::path::{PathStyle, RepoPath};
use fossil_git::repository::FossilRepository;
use fossil_git::stash::parse_fossil_stash_list;
use fossil_git::timeline::{
    add_graph_commit, fossil_ref_names, fossil_timeline_args, parse_fossil_timeline_entries,
    search_timeline, text_matches, LogSource,
};

const HASH: &str = "1234567890abcdef1234567890abcdef12345678";
const PARENT: &str = "abcdef1234567890abcdef1234567890abcdef12";

fn info_output() -> String {
    format!(
        "hash:         {HASH} 2026-05-13 06:44:31 UTC\nparent:       {PARENT} 2026-05-13 06:44:01 UTC\ntags:         trunk, release\ncomment:      second commit (user: tester)\n"
    )
}

#[test]
fn checkouts_are_known_by_their_last_lines() {
    let info = parse_fossil_info(
        "checkout: abc\nrepository:\nlocal-root: C:\\a\\\\\ncheckout: \nno key\n",
        PathStyle::Windows,
    );
    assert_eq!(info.checkout, None);
    assert_eq!(info.repository, None);
    assert_eq!(info.local_root.as_deref(), Some("C:\\a"));
    let info = parse_fossil_info("local-root: /a\\\n", PathStyle::Posix);
    assert_eq!(info.local_root.as_deref(), Some("/a\\"));
}

#[test]
fn check_ins_are_read_line_by_line() {
    let info = parse_fossil_commit_info(&info_output()).unwrap();
    assert_eq!(info.timestamp, 1778654671);
    assert_eq!(info.tags, ["trunk", "release"]);
    assert_eq!(info.branch.as_deref(), Some("trunk"));

    let info = parse_fossil_commit_info(
        "checkout: abc\nhash:\ntags: sym-trunk,one two ,, three\nuser: first\ncomment: a (user: b) (user: c)\nuser:\n",
    )
    .unwrap();
    assert_eq!(info.hash, "abc");
    assert_eq!(info.timestamp, 0);
    assert_eq!(info.tags, ["sym-trunk", "one", "two", "three"]);
    assert_eq!(info.branch.as_deref(), Some("one"));
    assert_eq!(info.comment, "a (user: b)");
    assert_eq!(info.user.as_deref(), Some("c"));

    let info = parse_fossil_commit_info("hash: abc\ncomment: open (user: x\n").unwrap();
    assert_eq!(info.comment, "open (user: x");
    assert_eq!(info.user, None);

    assert_eq!(
        parse_fossil_commit_info("comment: none\n").unwrap_err(),
        FossilError::MissingCheckInHash
    );
}

#[test]
fn stashes_have_messages_of_several_lines() {
    let stash = parse_fossil_stash_list(
        "stray line\n  empty stash\n 12: [abc] on 2026-05-13 06:44:06\n   one\n\n   two: three\n 3: [def]\nx: [y]\n 4: no hash\n",
    )
    .unwrap();
    assert_eq!(stash.entries.len(), 2);
    assert_eq!(stash.entries[0].index, 12);
    assert_eq!(stash.entries[0].timestamp, 1778654646);
    assert_eq!(stash.entries[0].message, "one\ntwo: three");
    assert_eq!(stash.entries[0].branch, None);
    assert_eq!(stash.entries[0].oid, fossil_stash_oid(12).unwrap());
    assert_eq!(stash.entries[1].index, 3);
    assert_eq!(stash.entries[1].timestamp, 0);
    assert_eq!(stash.entries[1].message, "x: [y]\n4: no hash");
    assert!(parse_fossil_stash_list("empty stash\n").unwrap().entries.is_empty());
}

#[test]
fn diffs_give_back_both_texts() {
    let diff = parse_fossil_unified_diff(
        "CHANGED  a.txt\n@@ -1 +1 @@\n same\n-old\n+new\n\\ No newline\n",
        PathStyle::Posix,
    )
    .unwrap();
    assert_eq!(diff.files.len(), 1);
    assert_eq!(diff.files[0].old_text.as_deref(), Some("same\nold\n"));
    assert_eq!(diff.files[0].new_text.as_deref(), Some("same\nnew\n"));
    assert_eq!(diff.stats, Some((1, 1)));
    assert!(!diff.files[0].is_binary);

    let diff = parse_fossil_unified_diff(
        "DELETED gone.txt\n@@ -1 +0 @@\n-old\nIndex: /abs\n--- /dev/null\n+++ x\nEDITED b\n-before a hunk\n",
        PathStyle::Posix,
    )
    .unwrap();
    assert_eq!(diff.files.len(), 1);
    assert_eq!(diff.files[0].path.as_unix_str(), "b");
    assert_eq!(diff.files[0].old_text.as_deref(), Some(""));
    assert_eq!(diff.stats, Some((0, 1)));

    let diff = parse_fossil_unified_diff("@@ -1 +1 @@\n+x\n", PathStyle::Posix).unwrap();
    assert!(diff.files.is_empty());
    assert_eq!(diff.stats, Some((0, 0)));

    let diff = parse_fossil_unified_diff(
        "Index: c.txt\n--- c.txt\n+++ /dev/null\n@@ -1 +0 @@\n-x\n",
        PathStyle::Posix,
    )
    .unwrap();
    assert_eq!(diff.files[0].new_text, None);
    assert_eq!(diff.files[0].old_text.as_deref(), Some("x\n"));
}

#[test]
fn branches_have_short_and_full_names() {
    assert_eq!(fossil_branch_name("refs/heads/topic"), "topic");
    assert_eq!(fossil_branch_name("topic"), "topic");
    assert_eq!(fossil_branch_name("refs/heads/refs/heads/x"), "refs/heads/x");

    let info = parse_fossil_commit_info(&info_output()).unwrap();
    let branches =
        fossil_branches(&Some(info), &Some("topic".to_string()), "  trunk\n* topic\n\n# p\n")
            .branches;
    let found: Vec<(String, bool, bool)> = branches
        .iter()
        .map(|branch| (branch.name(), branch.is_head, branch.most_recent_commit.is_some()))
        .collect();
    assert_eq!(
        found,
        [
            ("trunk".to_string(), false, false),
            ("topic".to_string(), true, true),
            ("p".to_string(), false, false),
        ]
    );
    assert!(branches.iter().all(|branch| branch.upstream.is_none()));
    let commit = branches[1].most_recent_commit.as_ref().unwrap();
    assert!(commit.has_parent);
    assert_eq!(commit.commit_timestamp, 1778654671);
    assert!(fossil_branches(&None, &None, "").branches.is_empty());
    let only = fossil_branches(&None, &Some("x".to_string()), "").branches;
    assert_eq!(only[0].ref_name, "refs/heads/x");
    assert!(only[0].is_head && only[0].most_recent_commit.is_none());
}

#[test]
fn timelines_are_asked_for() {
    let end = ["--type", "ci", "--limit", "0", "--format", "%H\t%d\t%a\t%c\t%b\t%t"];
    let mut all = vec!["timeline"];
    all.extend(end);
    assert_eq!(fossil_timeline_args(&LogSource::All, 0), all);
    let mut branch = all.clone();
    branch.extend(["--branch", "topic"]);
    assert_eq!(
        fossil_timeline_args(&LogSource::Branch("refs/heads/topic".to_string()), 0),
        branch
    );
    let mut file = all.clone();
    file.extend(["--path", "a/b"]);
    assert_eq!(
        fossil_timeline_args(&LogSource::Path(RepoPath::new("a/b").unwrap()), 0),
        file
    );
    let mut sha = vec!["timeline", "ancestors", HASH];
    sha.extend(["--type", "ci", "--limit", "1000", "--format", "%H\t%d\t%a\t%c\t%b\t%t"]);
    assert_eq!(
        fossil_timeline_args(&LogSource::Sha(Oid::from_str(HASH).unwrap()), 1000),
        sha
    );
}

#[test]
fn timelines_are_read_and_searched() {
    let output = format!(
        "{HASH}\t2026-05-13\tTester\tGrüße ÄÖ\ttrunk\ttrunk\nabc\t2026\tx\ty\tz\nabc\t\t\tplain\t\t\nnot-an-id\t\t\tplain\t\t\n"
    );
    let entries = parse_fossil_timeline_entries(&output);
    assert_eq!(entries.len(), 3);
    assert_eq!(entries[0].comment, "Grüße ÄÖ");
    assert_eq!(entries[1].hash, "abc");
    assert_eq!(entries[1].tags, "");

    let first = Oid::from_str(HASH).unwrap();
    let second = Oid::from_str("abc").unwrap();
    assert_eq!(search_timeline(&output, "grüße äö", false), [first]);
    assert_eq!(search_timeline(&output, "grüße äö", true), []);
    assert_eq!(search_timeline(&output, "Grüße ÄÖ trunk", true), [first]);
    assert_eq!(search_timeline(&output, "PLAIN", false), [second]);
    assert_eq!(search_timeline(&output, "", true), [first, second]);
    assert!(text_matches("a b c", "b c"));
    assert!(!text_matches("a b c", "bc"));
}

#[test]
fn the_graph_fills_the_cache() {
    let mut commits = Vec::new();
    let mut cache = CommitCache::new();
    add_graph_commit(&mut commits, &mut cache, HASH, &info_output()).unwrap();
    add_graph_commit(&mut commits, &mut cache, "x", "hash: not-an-id\n").unwrap();
    assert_eq!(
        add_graph_commit(&mut commits, &mut cache, "y", "").unwrap_err(),
        FossilError::CommitInfo("y".to_string())
    );
    assert_eq!(commits.len(), 1);
    assert_eq!(commits[0].sha.to_string(), HASH);
    assert_eq!(commits[0].parents.get(0).unwrap().to_string(), PARENT);
    assert_eq!(commits[0].ref_names, ["refs/heads/trunk", "tag: release"]);
    assert_eq!(
        read_cached_commit(&cache, &commits[0].sha).unwrap().subject,
        "second commit"
    );

    let info = parse_fossil_commit_info("hash: a\ntags: topic, trunk, v1\n").unwrap();
    assert_eq!(
        fossil_ref_names(&info),
        ["refs/heads/topic", "refs/heads/trunk", "tag: v1"]
    );
}

#[test]
fn details_come_from_the_cache_or_from_fossil() {
    let mut cache = CommitCache::new();
    match show(&cache, HASH) {
        ShowStep::AskCommit(commit) => assert_eq!(commit, HASH),
        _ => panic!("nothing is cached"),
    }
    let direct = show_commit(HASH, &info_output()).unwrap();
    assert_eq!(direct.sha, HASH);
    assert_eq!(direct.message, "second commit");
    assert_eq!(direct.author_name, "tester");
    assert_eq!(direct.author_email, "");
    assert_eq!(direct.commit_timestamp, 1778654671);

    let data = fossil_commit_data(HASH, &info_output()).unwrap();
    cache.insert(data.sha, data);
    match show(&cache, HASH) {
        ShowStep::Done(details) => {
            assert_eq!(details.sha, direct.sha);
            assert_eq!(details.message, direct.message);
            assert_eq!(details.author_name, direct.author_name);
            assert_eq!(details.commit_timestamp, direct.commit_timestamp);
        }
        _ => panic!("it is cached"),
    }
    for name in ["HEAD", "checkout", "current"] {
        assert!(matches!(show(&cache, name), ShowStep::AskCheckout));
    }
    assert_eq!(show_checkout("checkout: abc\n", PathStyle::Posix).unwrap(), "abc");
    assert_eq!(
        show_checkout("", PathStyle::Posix).unwrap_err(),
        FossilError::CheckoutHashUnavailable
    );
    assert_eq!(
        show_commit("x", "").unwrap_err(),
        FossilError::CommitInfo("x".to_string())
    );
}

#[test]
fn stashes_are_shown_by_their_numbers() {
    let oid = fossil_stash_oid(2).unwrap().to_string();
    match show(&CommitCache::new(), &oid) {
        ShowStep::AskStashes { stash_id } => assert_eq!(stash_id, 2),
        _ => panic!("this is a stash"),
    }
    let list = "1: [a]\n first\n2: [b] on 2026-05-13 06:44:06\n second\n";
    let details = show_stash(&oid, 2, list).unwrap();
    assert_eq!(details.sha, oid);
    assert_eq!(details.message, "second");
    assert_eq!(details.commit_timestamp, 1778654646);
    assert_eq!(details.author_name, "Fossil stash");
    let details = show_stash(&oid, 42, list).unwrap();
    assert_eq!(details.message, "Fossil stash 42");
    assert_eq!(details.commit_timestamp, 0);
}

#[test]
fn changes_are_those_from_the_first_parent() {
    let options = ["--verbose", "--context", "-1", "--internal", "--unified"];
    let mut cache = CommitCache::new();
    match load_commit(&cache, &fossil_stash_oid(2).unwrap().to_string()) {
        LoadStep::Known(DiffSource::Diff(args)) => {
            let mut expected = vec!["stash", "show", "2"];
            expected.extend(options);
            assert_eq!(args, expected);
        }
        _ => panic!("this is a stash"),
    }
    assert!(matches!(load_commit(&cache, HASH), LoadStep::AskCommit));
    let mut expected = vec!["diff", "--from", PARENT, "--to", HASH];
    expected.extend(options);
    match load_after_info(HASH, &info_output()).unwrap() {
        DiffSource::Diff(args) => assert_eq!(args, expected),
        _ => panic!("there is a parent"),
    }
    let data = fossil_commit_data(HASH, &info_output()).unwrap();
    cache.insert(data.sha, data);
    match load_commit(&cache, HASH) {
        LoadStep::Known(DiffSource::Diff(args)) => assert_eq!(args, expected),
        _ => panic!("there is a parent"),
    }

    match load_after_info("a", "hash: a\n").unwrap() {
        DiffSource::Done(diff) => {
            assert!(diff.files.is_empty());
            assert_eq!(diff.stats, Some((0, 0)));
        }
        _ => panic!("there is no parent"),
    }
    let data = fossil_commit_data("a", "hash: a\n").unwrap();
    cache.insert(data.sha, data);
    assert!(matches!(load_commit(&cache, "a"), LoadStep::Known(DiffSource::Done(_))));
    assert_eq!(
        load_after_info("b", "").unwrap_err(),
        FossilError::CommitInfo("b".to_string())
    );
}

#[test]
fn check_ins_are_read_through_the_cache() {
    let id = Oid::from_str(HASH).unwrap();
    let mut cache = CommitCache::new();
    assert!(read_cached_commit(&cache, &id).is_none());
    assert!(read_commit_output(&mut cache, &id, "").is_err());
    assert!(read_cached_commit(&cache, &id).is_none());
    read_commit_output(&mut cache, &id, &info_output()).unwrap();
    assert_eq!(read_cached_commit(&cache, &id).unwrap().subject, "second commit");

    let mut repository = FossilRepository::new("db", Some("dir"), Ok("fossil")).unwrap();
    repository.read_commit_output(&id, &info_output()).unwrap();
    let mut commits = Vec::new();
    repository
        .add_graph_commit(&mut commits, "abc", "hash: abc\ncomment: third\n")
        .unwrap();
    let cache = repository.cached_commit_data();
    assert_eq!(read_cached_commit(cache, &id).unwrap().message, "second commit");
    assert_eq!(read_cached_commit(cache, &commits[0].sha).unwrap().message, "third");
}

#[test]
fn names_of_the_checkout_are_resolved() {
    let info = parse_fossil_info("checkout: abc\n", PathStyle::Posix);
    let revs: Vec<String> =
        ["HEAD", "head", "current", "checkout", "abc"].iter().map(|r| r.to_string()).collect();
    let hash = Some("abc".to_string());
    assert_eq!(
        revparse_batch(&revs, &info),
        [hash.clone(), None, hash.clone(), hash, None]
    );
}

#[test]
fn lines_are_put_together_by_check_in() {
    assert!(parse_fossil_blame_line(0, "abc 2026-05-13").is_none());
    assert!(parse_fossil_blame_line(0, "abc 2026-05-13 no colon").is_none());
    let output = "a 2026-05-13 one: x\na 2026-05-13 one: y\nbroken\nb 2026-05-13 two: z\na 2026-05-13 one: : w\nc 2026-05-13 three: v\n";
    let lines = parse_fossil_blame_lines(output);
    assert_eq!(lines.len(), 5);
    assert_eq!(fossil_blame_prefixes(&lines), ["a", "b", "c"]);
    let infos = vec![
        (
            "a".to_string(),
            fossil_commit_info(
                "a",
                "hash: aa 2026-05-13 06:44:31\ncomment: first (user: u)\n",
            )
            .unwrap(),
        ),
        ("b".to_string(), fossil_commit_info("b", "hash: bb\ncomment: second\n").unwrap()),
        ("c".to_string(), fossil_commit_info("c", "hash: no-id\n").unwrap()),
    ];
    let path = RepoPath::new("dir/f.txt").unwrap();
    let blame = fossil_blame_from_output(&path, &lines, &infos);
    let a = Oid::from_str("aa").unwrap();
    let b = Oid::from_str("bb").unwrap();
    let found: Vec<(Oid, u32, u32)> = blame
        .entries
        .iter()
        .map(|entry| (entry.sha, entry.range.start, entry.range.end))
        .collect();
    assert_eq!(found, [(a, 0, 2), (b, 3, 4), (a, 4, 5)]);
    assert_eq!(blame.entries[0].original_line_number, 1);
    assert_eq!(blame.entries[0].author.as_deref(), Some("u"));
    assert_eq!(blame.entries[0].committer_name.as_deref(), Some("u"));
    assert_eq!(blame.entries[0].author_time, Some(1778654671));
    assert_eq!(blame.entries[0].author_tz.as_deref(), Some("+0000"));
    assert_eq!(blame.entries[0].summary.as_deref(), Some("first"));
    assert_eq!(blame.entries[0].filename, "dir/f.txt");
    assert_eq!(blame.entries[1].author.as_deref(), Some("two"));
    assert_eq!(blame.entries[1].committer_name, None);
    assert_eq!(blame.messages.get(&a).map(String::as_str), Some("first"));
    assert_eq!(blame.messages.get(&b).map(String::as_str), Some("second"));
    assert_eq!(blame.messages.get(&Oid::default()), None);
}
