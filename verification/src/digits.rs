//! Numbers written in decimal and hexadecimal digits.

use vstd::prelude::*;
use vstd::slice::slice_subrange;

verus! {

/// The value of a hexadecimal digit of either case.
pub open spec fn hex_value(c: char) -> Option<nat> {
    if '0' <= c <= '9' {
        Some((c as nat - '0' as nat) as nat)
    } else if 'a' <= c <= 'f' {
        Some((c as nat - 'a' as nat + 10) as nat)
    } else if 'A' <= c <= 'F' {
        Some((c as nat - 'A' as nat + 10) as nat)
    } else {
        None
    }
}

/// Whether `c` is a hexadecimal digit.
pub open spec fn is_hex(c: char) -> bool {
    hex_value(c) is Some
}

/// Whether `c` is one of `0` to `9`.
pub open spec fn is_decimal(c: char) -> bool {
    '0' <= c <= '9'
}

/// The value of a digit below `radix`.
pub open spec fn digit_value(c: char, radix: nat) -> Option<nat> {
    match hex_value(c) {
        Some(d) => if d < radix {
            Some(d)
        } else {
            None
        },
        None => None,
    }
}

/// Whether every character is a digit below `radix`.
pub open spec fn all_digits(s: Seq<char>, radix: nat) -> bool {
    forall|i: int| 0 <= i < s.len() ==> digit_value(#[trigger] s[i], radix) is Some
}

/// The number that a sequence of digits writes.
pub open spec fn digits_value(s: Seq<char>, radix: nat) -> nat
    decreases s.len(),
{
    if s.len() == 0 {
        0
    } else {
        digits_value(s.drop_last(), radix) * radix + digit_value(s.last(), radix).unwrap_or(0)
    }
}

/// The digits behind an optional plus sign.
pub open spec fn unsigned_digits(s: Seq<char>) -> Seq<char> {
    if s.len() > 0 && s[0] == '+' {
        s.skip(1)
    } else {
        s
    }
}

/// The number up to `max` that `s` writes: an optional plus sign and at least
/// one digit.
pub open spec fn parse_number(s: Seq<char>, radix: nat, max: nat) -> Option<nat> {
    let body = unsigned_digits(s);
    if body.len() > 0 && all_digits(body, radix) && digits_value(body, radix) <= max {
        Some(digits_value(body, radix))
    } else {
        None
    }
}

/// The value of a digit below `radix`.
pub fn digit_of(c: char, radix: u64) -> (r: Option<u64>)
    ensures
        r is Some == digit_value(c, radix as nat) is Some,
        r matches Some(d) ==> d == digit_value(c, radix as nat)->0 && d < 16 && d < radix,
{
    let d: u64 = if '0' <= c && c <= '9' {
        c as u64 - '0' as u64
    } else if 'a' <= c && c <= 'f' {
        c as u64 - 'a' as u64 + 10
    } else if 'A' <= c && c <= 'F' {
        c as u64 - 'A' as u64 + 10
    } else {
        return None;
    };
    if d < radix {
        Some(d)
    } else {
        None
    }
}

/// A longer sequence of digits writes no smaller number.
pub proof fn lemma_digits_value_grows(s: Seq<char>, k: int, radix: nat)
    requires
        0 <= k <= s.len(),
        radix > 0,
    ensures
        digits_value(s.take(k), radix) <= digits_value(s, radix),
    decreases s.len() - k,
{
    if k < s.len() {
        lemma_digits_value_grows(s, k + 1, radix);
        assert(s.take(k + 1).drop_last() == s.take(k));
        let v = digits_value(s.take(k), radix);
        assert(v <= v * radix) by (nonlinear_arith)
            requires
                radix > 0,
        ;
    } else {
        assert(s.take(k) == s);
    }
}

/// Reads a number up to `max`.
pub fn parse_up_to(s: &[char], radix: u64, max: u64) -> (r: Option<u64>)
    requires
        2 <= radix <= 16,
    ensures
        r is Some == parse_number(s@, radix as nat, max as nat) is Some,
        r matches Some(n) ==> n == parse_number(s@, radix as nat, max as nat)->0,
{
    let body = if s.len() > 0 && s[0] == '+' {
        let rest = slice_subrange(s, 1, s.len());
        assert(rest@ == s@.skip(1));
        rest
    } else {
        s
    };
    if body.len() == 0 {
        return None;
    }
    let ghost base = radix as nat;
    let mut value: u64 = 0;
    let mut i: usize = 0;
    assert(body@.take(0) == Seq::<char>::empty());
    while i < body.len()
        invariant
            2 <= radix <= 16,
            base == radix as nat,
            i <= body@.len(),
            body@ == unsigned_digits(s@),
            all_digits(body@.take(i as int), base),
            value == digits_value(body@.take(i as int), base),
            value <= max,
        decreases body@.len() - i,
    {
        let ghost head = body@.take(i as int);
        let ghost longer = body@.take(i + 1);
        assert(longer.drop_last() == head);
        assert(longer.last() == body@[i as int]);
        match digit_of(body[i], radix) {
            Some(d) => {
                assert(digits_value(longer, base) == value * base + d);
                proof {
                    lemma_digits_value_grows(body@, i + 1, base);
                }
                if d > max || value > (max - d) / radix {
                    proof {
                        if d <= max {
                            let room = (max - d) as int;
                            assert(value * base > room) by (nonlinear_arith)
                                requires
                                    base == radix,
                                    value >= room / (radix as int) + 1,
                                    room >= 0,
                                    radix > 0,
                            ;
                        }
                    }
                    return None;
                }
                assert(value * radix <= max - d) by (nonlinear_arith)
                    requires
                        value <= (max - d) / (radix as int),
                        radix > 0,
                        max - d >= 0,
                ;
                value = value * radix + d;
                assert forall|j: int| 0 <= j < longer.len() implies digit_value(
                    #[trigger] longer[j],
                    base,
                ) is Some by {
                    if j < i {
                        assert(head[j] == longer[j]);
                    }
                }
                i = i + 1;
            },
            None => {
                assert(digit_value(body@[i as int], base) is None);
                return None;
            },
        }
    }
    assert(body@.take(i as int) == body@);
    Some(value)
}

/// The digit that writes a value below sixteen, in lower case.
pub open spec fn hex_digit(n: nat) -> char {
    if n < 10 {
        ('0' as nat + n) as char
    } else {
        ('a' as nat + n - 10) as char
    }
}

/// The digit that writes a value below sixteen.
pub fn hex_digit_of(n: u8) -> (r: char)
    requires
        n < 16,
    ensures
        r == hex_digit(n as nat),
{
    if n < 10 {
        (48u8 + n) as char
    } else {
        (97u8 + (n - 10)) as char
    }
}

/// `n` in decimal, without leading zeros.
pub open spec fn decimal(n: nat) -> Seq<char>
    decreases n,
{
    if n < 10 {
        seq![hex_digit(n)]
    } else {
        decimal(n / 10).push(hex_digit(n % 10))
    }
}

/// Appends `n` in decimal.
pub fn push_decimal(text: &mut String, n: u64)
    ensures
        final(text)@ == old(text)@ + decimal(n as nat),
    decreases n,
{
    if n >= 10 {
        push_decimal(text, n / 10);
    }
    text.push(hex_digit_of((n % 10) as u8));
    assert(text@ == old(text)@ + decimal(n as nat));
}

/// `n` in decimal.
pub fn decimal_text(n: u64) -> (r: String)
    ensures
        r@ == decimal(n as nat),
{
    let mut r = String::new();
    push_decimal(&mut r, n);
    assert(r@ == decimal(n as nat));
    r
}

/// The last `width` hexadecimal digits of `n`, padded with zeros.
pub open spec fn hex_fixed(n: nat, width: nat) -> Seq<char>
    decreases width,
{
    if width == 0 {
        seq![]
    } else {
        hex_fixed(n / 16, (width - 1) as nat).push(hex_digit(n % 16))
    }
}

/// Appends the last `width` hexadecimal digits of `n`.
pub fn push_hex_fixed(text: &mut String, n: u64, width: u32)
    ensures
        final(text)@ == old(text)@ + hex_fixed(n as nat, width as nat),
    decreases width,
{
    if width > 0 {
        push_hex_fixed(text, n / 16, width - 1);
        text.push(hex_digit_of((n % 16) as u8));
    }
    assert(text@ == old(text)@ + hex_fixed(n as nat, width as nat));
}

/// What is left of `n` when its last `width` hexadecimal digits are dropped.
pub open spec fn above_hex(n: nat, width: nat) -> nat
    decreases width,
{
    if width == 0 {
        n
    } else {
        above_hex(n / 16, (width - 1) as nat)
    }
}

/// Every digit written by [`hex_digit`] is read back.
pub proof fn lemma_hex_digit(n: nat)
    requires
        n < 16,
    ensures
        hex_value(hex_digit(n)) == Some(n),
        digit_value(hex_digit(n), 16) == Some(n),
{
}

/// [`hex_fixed`] writes as many digits as it is asked for, and reading them
/// gives the number back when nothing was dropped.
pub proof fn lemma_hex_fixed(n: nat, width: nat)
    ensures
        hex_fixed(n, width).len() == width,
        all_digits(hex_fixed(n, width), 16),
        above_hex(n, width) == 0 ==> digits_value(hex_fixed(n, width), 16) == n,
    decreases width,
{
    if width > 0 {
        let head = hex_fixed(n / 16, (width - 1) as nat);
        let s = hex_fixed(n, width);
        lemma_hex_fixed(n / 16, (width - 1) as nat);
        lemma_hex_digit(n % 16);
        assert(s.drop_last() == head);
        assert forall|i: int| 0 <= i < s.len() implies digit_value(#[trigger] s[i], 16) is Some by {
            if i < head.len() {
                assert(s[i] == head[i]);
            }
        }
    }
}

/// A machine word has no more than sixteen hexadecimal digits.
pub proof fn lemma_word_fits_hex(n: u64, width: nat)
    requires
        width >= 16,
    ensures
        above_hex(n as nat, width) == 0,
{
    reveal_with_fuel(above_hex, 17);
    let top = above_hex(n as nat, 16);
    lemma_above_hex_split(n as nat, 16, (width - 16) as nat);
    lemma_above_hex_zero((width - 16) as nat);
    assert(top == 0);
}

proof fn lemma_above_hex_split(n: nat, a: nat, b: nat)
    ensures
        above_hex(n, a + b) == above_hex(above_hex(n, a), b),
    decreases a,
{
    if a > 0 {
        lemma_above_hex_split(n / 16, (a - 1) as nat, b);
    }
}

proof fn lemma_above_hex_zero(width: nat)
    ensures
        above_hex(0, width) == 0,
    decreases width,
{
    if width > 0 {
        lemma_above_hex_zero((width - 1) as nat);
    }
}

} // verus!
