use fossil_git::commit::{cached_fossil_commit_data, fossil_commit_data, CommitCache};
use fossil_git::error::FossilError;
use fossil_git::oid::{fossil_oid_from_hash, fossil_stash_id_from_oid, fossil_stash_oid, Oid};
use fossil_git::timestamp::parse_fossil_timestamp;

const HASH: &str = "1234567890abcdef1234567890abcdef12345678";

#[test]
fn ids_are_read_from_hexadecimal_digits() {
    let id = Oid::from_str(HASH).unwrap();
    assert_eq!(id.to_string(), HASH);
    assert_eq!(id.display_short(), "1234567");
    assert_eq!(id.as_bytes()[0], 0x12);
    assert_eq!(id.as_bytes()[19], 0x78);

    let upper = Oid::from_str("1234567890ABCDEF1234567890ABCDEF12345678").unwrap();
    assert_eq!(upper, id);

    let short = Oid::from_str("abc").unwrap();
    assert_eq!(short.to_string(), "abc0000000000000000000000000000000000000");
    assert_eq!(short.as_bytes()[..3], [0xab, 0xc0, 0x00]);
}

#[test]
fn ids_are_shown_as_their_digits() {
    let id = Oid::from_str(HASH).unwrap();
    assert_eq!(format!("{id:?}"), HASH);
    assert_eq!(format!("{:?}", Some(id)), format!("Some({HASH})"));
    assert_eq!(format!("{id:>42?}"), format!("  {HASH}"));
    assert_eq!(format!("{id:.7?}"), "1234567");
}

#[test]
fn texts_that_are_no_ids_are_refused() {
    let too_long = "0".repeat(41);
    for text in ["", "xyz", "12 34", "12345678g", too_long.as_str(), "é"] {
        assert_eq!(Oid::from_str(text).unwrap_err(), FossilError::InvalidOidText);
        assert!(text.parse::<Oid>().is_err());
        assert!(Oid::try_from(text).is_err());
    }
}

#[test]
fn ids_are_made_of_twenty_bytes() {
    let bytes: Vec<u8> = (1..=20).collect();
    let id = Oid::from_bytes(&bytes).unwrap();
    assert_eq!(id.as_bytes(), &bytes[..]);
    assert_eq!(id.to_string(), "0102030405060708090a0b0c0d0e0f1011121314");
    assert_eq!(
        Oid::from_bytes(&bytes[..19]).unwrap_err(),
        FossilError::InvalidOidBytes
    );
    assert_eq!(Oid::from_bytes(&[]).unwrap_err(), FossilError::InvalidOidBytes);
    assert_eq!(Oid::random([7; 20]).as_bytes(), &[7; 20]);
}

#[test]
fn the_default_id_is_zero() {
    assert!(Oid::default().is_zero());
    assert_eq!(Oid::default().to_string(), "0".repeat(40));
    assert!(!Oid::from_str("1").unwrap().is_zero());
    assert!(!Oid::from_str("0000000000000000000000000000000000000001").unwrap().is_zero());
}

#[test]
fn numbers_are_the_first_bytes_of_an_id() {
    let id = Oid::from_str(HASH).unwrap();
    assert_eq!(u32::from(id), u32::from_ne_bytes([0x12, 0x34, 0x56, 0x78]));
    assert_eq!(
        usize::from(id),
        u64::from_ne_bytes([0x12, 0x34, 0x56, 0x78, 0x90, 0xab, 0xcd, 0xef]) as usize
    );
}

#[test]
fn hashes_longer_than_an_id_are_cut() {
    let id = Oid::from_str(HASH).unwrap();
    assert_eq!(fossil_oid_from_hash(HASH), Some(id));
    assert_eq!(fossil_oid_from_hash(&format!("  {HASH}\n")), Some(id));
    assert_eq!(fossil_oid_from_hash(&format!("{HASH}0123456789abcdef01234567")), Some(id));
    assert_eq!(fossil_oid_from_hash(&format!("{HASH} and more")), Some(id));
    assert_eq!(fossil_oid_from_hash("1234"), Some(Oid::from_str("1234").unwrap()));
    assert_eq!(fossil_oid_from_hash("trunk"), None);
    assert_eq!(fossil_oid_from_hash("   "), None);
}

#[test]
fn stash_numbers_are_found_again_in_their_ids() {
    let id = fossil_stash_oid(2).unwrap();
    assert_eq!(id.to_string(), "f055110000000000000000000000000000000002");
    for number in [0, 1, 15, 16, 255, 4096, 123_456_789, usize::MAX] {
        let id = fossil_stash_oid(number).unwrap();
        assert_eq!(fossil_stash_id_from_oid(&id.to_string()), Some(number));
    }
    assert_ne!(fossil_stash_oid(1).unwrap(), fossil_stash_oid(2).unwrap());
    assert_eq!(fossil_stash_id_from_oid(HASH), None);
    assert_eq!(fossil_stash_id_from_oid("f0551100"), None);
    assert_eq!(
        fossil_stash_id_from_oid("f0551100ffffffffffffffffffffffffffffffff"),
        None
    );
    assert_eq!(
        fossil_stash_id_from_oid("f055110000000000000000000000000000000+02"),
        None
    );
    assert_eq!(
        fossil_stash_id_from_oid("f0551100+0000000000000000000000000000002"),
        Some(2)
    );
}

#[test]
fn time_stamps_count_seconds() {
    assert_eq!(parse_fossil_timestamp("2026-05-13 06:44:31 UTC"), Some(1778654671));
    assert_eq!(parse_fossil_timestamp("2026-05-13 06:44:31"), Some(1778654671));
    assert_eq!(parse_fossil_timestamp("  2026-05-13 06:44:31 UTC UTC  "), Some(1778654671));
    assert_eq!(parse_fossil_timestamp("1970-01-01 00:00:00"), Some(0));
    assert_eq!(parse_fossil_timestamp("1969-12-31 23:59:59"), Some(-1));
    assert_eq!(parse_fossil_timestamp("2024-02-29 12:00:00"), Some(1709208000));
    assert_eq!(parse_fossil_timestamp("9999-12-31 23:59:59"), Some(253402300799));
    assert_eq!(parse_fossil_timestamp("0001-01-01 00:00:00"), Some(-62135596800));
    assert_eq!(parse_fossil_timestamp("0000-03-01 00:00:00"), Some(-62162035200));
    assert_eq!(parse_fossil_timestamp("-0001-01-01 00:00:00"), Some(-62198755200));
    assert_eq!(parse_fossil_timestamp("+2026-05-13 06:44:31"), Some(1778654671));
}

#[test]
fn texts_that_are_no_time_stamps_are_refused() {
    for text in [
        "",
        "   ",
        " UTC",
        "2026-05-13",
        "2026-05-13 06:44",
        "2026-5-13 06:44:31",
        "2026-13-01 00:00:00",
        "2026-00-01 00:00:00",
        "2026-04-31 00:00:00",
        "2023-02-29 00:00:00",
        "1900-02-29 00:00:00",
        "2026-05-00 00:00:00",
        "2026-05-13 24:00:00",
        "2026-05-13 06:60:00",
        "2026-05-13 06:44:60",
        "2026-05-13T06:44:31",
        "2026-05-13  06:44:31",
        "2026-05-13 06:44:31.5",
        "+002026-05-13 06:44:31",
        "026-05-13 06:44:31",
    ] {
        assert_eq!(parse_fossil_timestamp(text), None, "{text:?}");
    }
}

#[test]
fn check_ins_keep_the_parents_that_have_ids() {
    let output = format!(
        "hash: {HASH} 2026-05-13 06:44:31 UTC\nparent: abc 2026-05-13\nparent: not-an-id\nparent: def\ncomment: one: two (user: tester)\n"
    );
    let data = fossil_commit_data("tip", &output).unwrap();
    assert_eq!(data.sha.to_string(), HASH);
    assert_eq!(data.parents.len(), 2);
    assert_eq!(data.parents.get(0), Some(Oid::from_str("abc").unwrap()));
    assert_eq!(data.parents.get(1), Some(Oid::from_str("def").unwrap()));
    assert_eq!(data.parents.get(2), None);
    assert_eq!(data.author_name, "tester");
    assert_eq!(data.author_email, "");
    assert_eq!(data.commit_timestamp, 1778654671);
    assert_eq!(data.subject, "one: two");
    assert_eq!(data.message, "one: two");

    assert_eq!(
        fossil_commit_data("tip", "comment: nothing\n").unwrap_err(),
        FossilError::CommitInfo("tip".to_string())
    );
    assert_eq!(
        fossil_commit_data("tip", "hash: tip\n").unwrap_err(),
        FossilError::HashNotOid("tip".to_string())
    );
}

#[test]
fn the_cache_finds_what_was_put_in() {
    let first = fossil_commit_data("a", &format!("hash: {HASH}\ncomment: first\n")).unwrap();
    let second = fossil_commit_data("a", &format!("hash: {HASH}\ncomment: second\n")).unwrap();
    let other = fossil_commit_data("b", "hash: abc\ncomment: other\n").unwrap();
    let mut cache = CommitCache::new();
    assert!(cached_fossil_commit_data(&cache, HASH).is_none());
    cache.insert(first.sha, first);
    cache.insert(other.sha, other);
    assert_eq!(cached_fossil_commit_data(&cache, HASH).unwrap().message, "first");
    cache.insert(second.sha, second);
    assert_eq!(cached_fossil_commit_data(&cache, HASH).unwrap().message, "second");
    let longer = format!("{HASH}ffff");
    assert_eq!(cached_fossil_commit_data(&cache, &longer).unwrap().message, "second");
    assert_eq!(cached_fossil_commit_data(&cache, "ABC").unwrap().message, "other");
    assert!(cached_fossil_commit_data(&cache, "abd").is_none());
    assert!(cached_fossil_commit_data(&cache, "HEAD").is_none());
}
