//! Laws of numbers, object ids and time stamps.

use crate::digits::{
    all_digits, decimal, digit_value, digits_value, hex_digit, hex_fixed, parse_number,
};
use crate::laws::text::{is_blank, is_tight};
use crate::oid::{oid_bytes, oid_of_hash, oid_text, stash_id, stash_oid_text};
use crate::text::ends_with;
use crate::timestamp::{
    days_before_month, days_before_year, moment_seconds, timestamp, unix_seconds, Moment,
};
use vstd::prelude::*;

verus! {

// ---------------------------------------------------------------------------
// Numbers
// ---------------------------------------------------------------------------

proof fn lemma_digit(n: nat)
    requires
        n < 10,
    ensures
        digit_value(hex_digit(n), 10) == Some(n),
        '0' <= hex_digit(n) <= '9',
        hex_digit(n) != '+',
{
    assert('0' as nat == 48);
    let c = hex_digit(n);
    assert(c as nat == 48 + n);
}

/// Law: a number is written in decimal digits and read back, if it is not above
/// the limit; above it nothing is read.
pub proof fn law_decimal_is_read_back(n: nat, max: nat)
    ensures
        decimal(n).len() > 0,
        forall|i: int| 0 <= i < decimal(n).len() ==> '0' <= #[trigger] decimal(n)[i] <= '9',
        digits_value(decimal(n), 10) == n,
        n <= max ==> parse_number(decimal(n), 10, max) == Some(n),
        n <= max ==> parse_number(seq!['+'] + decimal(n), 10, max) == Some(n),
        n > max ==> parse_number(decimal(n), 10, max) is None,
    decreases n,
{
    let s = decimal(n);
    if n < 10 {
        lemma_digit(n);
        reveal_with_fuel(digits_value, 2);
        assert(s.drop_last() =~= Seq::<char>::empty());
    } else {
        law_decimal_is_read_back(n / 10, max);
        lemma_digit(n % 10);
        assert(s.drop_last() =~= decimal(n / 10));
    }
    assert(all_digits(s, 10)) by {
        assert forall|i: int| 0 <= i < s.len() implies digit_value(#[trigger] s[i], 10) is Some by {
            lemma_decimal_digit(s[i]);
        }
    }
    lemma_decimal_digit(s[0]);
    assert((seq!['+'] + s).skip(1) =~= s);
}

proof fn lemma_decimal_digit(c: char)
    requires
        '0' <= c <= '9',
    ensures
        digit_value(c, 10) is Some,
        c != '+',
{
}

/// Law: a text with a character that is no digit, but for a plus sign in front,
/// is no number, and neither is the empty one.
pub proof fn law_no_number(s: Seq<char>, i: int, max: nat)
    requires
        0 <= i < s.len(),
        !('0' <= s[i] <= '9'),
        i == 0 ==> s[i] != '+',
    ensures
        parse_number(s, 10, max) is None,
        parse_number(seq![], 10, max) is None,
        parse_number(seq!['+'], 10, max) is None,
{
    lemma_no_digit(s[i]);
    let body = crate::digits::unsigned_digits(s);
    if s[0] == '+' {
        assert(body[i - 1] == s[i]);
    } else {
        assert(body[i] == s[i]);
    }
    assert(seq!['+'].skip(1) =~= Seq::<char>::empty());
}

proof fn lemma_no_digit(c: char)
    requires
        !('0' <= c <= '9'),
    ensures
        digit_value(c, 10) is None,
{
}

// ---------------------------------------------------------------------------
// Object ids
// ---------------------------------------------------------------------------

/// Law: a hash of forty digits or more has the id that its first forty write, with
/// or without blanks around it; whatever follows does not count.
pub proof fn law_long_hash(a: Seq<char>, digits: Seq<char>, more: Seq<char>, b: Seq<char>)
    requires
        is_blank(a) && is_blank(b),
        digits.len() == 40,
        forall|i: int| 0 <= i < 40 ==> crate::oid::is_lower_hex(#[trigger] digits[i]),
        is_tight(more),
    ensures
        oid_of_hash(a + (digits + more) + b) is Some,
        oid_text(oid_of_hash(a + (digits + more) + b)->0) == digits,
        oid_of_hash(digits) == oid_of_hash(a + (digits + more) + b),
{
    let whole = digits + more;
    assert(crate::oid::is_lower_hex(digits[0]) && crate::oid::is_lower_hex(digits[39]));
    lemma_hex_is_no_blank(digits[0]);
    lemma_hex_is_no_blank(digits[39]);
    assert(whole[0] == digits[0]);
    if more.len() > 0 {
        assert(whole.last() == more.last());
    } else {
        assert(whole =~= digits);
    }
    crate::laws::text::law_trim(a, whole, b);
    crate::laws::text::law_trim(a, digits, b);
    assert(whole.take(40) =~= digits);
    assert(digits.take(40) =~= digits);
    crate::oid::law_oid_text_is_written_back(digits);
}

proof fn lemma_hex_is_no_blank(c: char)
    requires
        crate::oid::is_lower_hex(c),
    ensures
        !crate::text::is_white(c),
{
}

/// Law: a shorter hash has an id exactly if it has a digit and nothing but
/// digits, and then the id that these write.
pub proof fn law_short_hash(hash: Seq<char>)
    requires
        is_tight(hash),
        hash.len() < 40,
    ensures
        oid_of_hash(hash) is Some <==> hash.len() > 0 && forall|i: int|
            0 <= i < hash.len() ==> crate::digits::is_hex(#[trigger] hash[i]),
        oid_of_hash(hash) is Some ==> oid_of_hash(hash)->0 == oid_bytes(hash),
{
    let none = Seq::<char>::empty();
    crate::laws::text::law_trim(none, hash, none);
}

/// Law: a hash with another character among its first forty has no id.
pub proof fn law_no_id(hash: Seq<char>, i: int)
    requires
        is_tight(hash),
        0 <= i < hash.len(),
        i < 40,
        !crate::digits::is_hex(hash[i]),
    ensures
        oid_of_hash(hash) is None,
{
    let none = Seq::<char>::empty();
    crate::laws::text::law_trim(none, hash, none);
    let head = crate::oid::hash_head(hash);
    assert(head[i] == hash[i]);
}

/// Law: the id of a stash begins with `f0551100` and ends with the number of the
/// stash in thirty-two hexadecimal digits; only such ids are ids of stashes.
pub proof fn law_stash_ids(n: nat, oid: Seq<char>)
    ensures
        stash_oid_text(n) == "f0551100"@ + hex_fixed(n, 32),
        stash_oid_text(n).len() == 40,
        stash_id(oid) is Some ==> oid.len() == 40 && crate::text::starts_with(oid, "f0551100"@),
        stash_id(oid) is Some ==> stash_id(oid) == parse_number(
            oid.skip(8),
            16,
            usize::MAX as nat,
        ),
{
    reveal_strlit("f0551100");
    lemma_hex_len(n, 32);
}

proof fn lemma_hex_len(n: nat, width: nat)
    ensures
        hex_fixed(n, width).len() == width,
    decreases width,
{
    if width > 0 {
        lemma_hex_len(n / 16, (width - 1) as nat);
    }
}

// ---------------------------------------------------------------------------
// Time stamps
// ---------------------------------------------------------------------------

/// Law: a time stamp is the moment that its text names, in seconds since 1970;
/// blanks around it and the mark of the time zone do not count.
pub proof fn law_timestamp(a: Seq<char>, text: Seq<char>, b: Seq<char>)
    requires
        is_blank(a) && is_blank(b),
        is_tight(text) && text.len() > 0,
        !ends_with(text, " UTC"@),
    ensures
        timestamp(a + text + b) == moment_seconds(text),
        timestamp(a + (text + " UTC"@) + b) == moment_seconds(text),
{
    reveal_strlit(" UTC");
    let zone = " UTC"@;
    let none = Seq::<char>::empty();
    let marked = text + zone;
    assert(marked[0] == text[0] && marked.last() == 'C');
    crate::laws::text::law_trim(a, text, b);
    crate::laws::text::law_trim(a, marked, b);
    crate::laws::text::law_trim_end_text(text, zone);
    crate::laws::text::law_trim(none, text, none);
}

proof fn lemma_every_4(year: int)
    ensures
        year / 4 - (year - 1) / 4 == (if year % 4 == 0 {
            1int
        } else {
            0int
        }),
{
}

proof fn lemma_every_100(year: int)
    ensures
        year / 100 - (year - 1) / 100 == (if year % 100 == 0 {
            1int
        } else {
            0int
        }),
{
}

proof fn lemma_every_400(year: int)
    ensures
        year / 400 - (year - 1) / 400 == (if year % 400 == 0 {
            1int
        } else {
            0int
        }),
{
}

proof fn lemma_centuries(year: int)
    ensures
        year % 100 == 0 ==> year % 4 == 0,
        year % 400 == 0 ==> year % 100 == 0,
{
}

/// A year has a leap day more than 365 days every fourth year, but of the
/// centuries only every fourth.
proof fn lemma_year(year: int)
    ensures
        days_before_year(year + 1) - days_before_year(year) == (if year % 4 == 0 && (year % 100 != 0
            || year % 400 == 0) {
            366int
        } else {
            365int
        }),
{
    let fours: int = year / 4 - (year - 1) / 4;
    let hundreds: int = year / 100 - (year - 1) / 100;
    let four_hundreds: int = year / 400 - (year - 1) / 400;
    assert(days_before_year(year + 1) - days_before_year(year) == 365 + fours - hundreds
        + four_hundreds);
    lemma_every_4(year);
    lemma_every_100(year);
    lemma_every_400(year);
    lemma_centuries(year);
}

/// The days of the months add up to a year.
proof fn lemma_months(year: int)
    ensures
        days_before_month(year, 1) == 0,
        days_before_month(year, 3) - days_before_month(year, 2) == (if year % 4 == 0 && (year % 100
            != 0 || year % 400 == 0) {
            29int
        } else {
            28int
        }),
        days_before_month(year, 13) == (if year % 4 == 0 && (year % 100 != 0 || year % 400 == 0) {
            366int
        } else {
            365int
        }),
{
    reveal_with_fuel(days_before_month, 14);
}

/// Law: time is counted in seconds from the first of January 1970: a second is
/// one, a minute sixty, an hour sixty minutes and a day twenty-four hours; a year
/// has 365 days, a leap year one more, in February.
pub proof fn law_seconds(m: Moment, year: int)
    ensures
        unix_seconds(
            Moment { year: 1970, month: 1, day: 1, hour: 0, minute: 0, second: 0 },
        ) == 0,
        unix_seconds(Moment { second: m.second + 1, ..m }) == unix_seconds(m) + 1,
        unix_seconds(Moment { minute: m.minute + 1, ..m }) == unix_seconds(m) + 60,
        unix_seconds(Moment { hour: m.hour + 1, ..m }) == unix_seconds(m) + 3600,
        unix_seconds(Moment { day: m.day + 1, ..m }) == unix_seconds(m) + 86400,
        days_before_year(year + 1) - days_before_year(year) == (if year % 4 == 0 && (year % 100 != 0
            || year % 400 == 0) {
            366int
        } else {
            365int
        }),
        days_before_month(year, 1) == 0,
        days_before_month(year, 13) == days_before_year(year + 1) - days_before_year(year),
        days_before_month(year, 3) - days_before_month(year, 2) == (if year % 4 == 0 && (year % 100
            != 0 || year % 400 == 0) {
            29int
        } else {
            28int
        }),
{
    lemma_year(year);
    lemma_months(year);
    assert(days_before_month(1970, 1) == 0);
}

} // verus!
