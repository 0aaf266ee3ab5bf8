//! Decimal numerals: writing them and reading them back.
use crate::text::{chars_of, is_digit};
use vstd::prelude::*;

verus! {

/// The ASCII digit with the value `d`.
pub open spec fn digit_char(d: nat) -> char {
    ('0' as u8 + d) as char
}

/// The value of an ASCII digit.
pub open spec fn digit_value(c: char) -> nat {
    (c as u8 - '0' as u8) as nat
}

/// `n` in decimal, without leading zeros.
pub open spec fn decimal(n: nat) -> Seq<char>
    decreases n,
{
    if n < 10 {
        seq![digit_char(n)]
    } else {
        decimal(n / 10).push(digit_char(n % 10))
    }
}

/// `n` in decimal, without leading zeros.
pub fn wide_to_decimal(n: u128) -> (r: String)
    ensures
        r@ == decimal(n as nat),
    decreases n,
{
    if n < 10 {
        let mut r = String::new();
        r.push((48u8 + n as u8) as char);
        assert(r@ == seq![digit_char(n as nat)]);
        r
    } else {
        let mut r = wide_to_decimal(n / 10);
        r.push((48u8 + (n % 10) as u8) as char);
        r
    }
}

/// `n` in decimal, without leading zeros.
pub fn to_decimal(n: u64) -> (r: String)
    ensures
        r@ == decimal(n as nat),
{
    wide_to_decimal(n as u128)
}

/// `n` in decimal, without leading zeros.
pub fn usize_to_decimal(n: usize) -> (r: String)
    ensures
        r@ == decimal(n as nat),
{
    to_decimal(n as u64)
}

/// Why a text is no number of the wanted type.
#[derive(Clone, Copy, Debug, PartialEq, Eq, Structural)]
pub enum NumberFault {
    /// The text is empty.
    Empty,
    /// A character that is no digit stands where a digit is due.
    InvalidDigit,
    /// The number is larger than the type holds.
    TooLarge,
}

impl NumberFault {
    pub open spec fn text(self) -> Seq<char> {
        match self {
            NumberFault::Empty => "cannot parse integer from empty string"@,
            NumberFault::InvalidDigit => "invalid digit found in string"@,
            NumberFault::TooLarge => "number too large to fit in target type"@,
        }
    }

    pub fn message(self) -> (r: &'static str)
        ensures
            r@ == self.text(),
    {
        match self {
            NumberFault::Empty => "cannot parse integer from empty string",
            NumberFault::InvalidDigit => "invalid digit found in string",
            NumberFault::TooLarge => "number too large to fit in target type",
        }
    }
}

/// Reads the digits of `s` after what gave `value` so far; the first fault counts.
pub open spec fn read_digits(s: Seq<char>, value: nat, max: nat) -> Result<nat, NumberFault>
    decreases s.len(),
{
    if s.len() == 0 {
        Ok(value)
    } else if !is_digit(s[0]) {
        Err(NumberFault::InvalidDigit)
    } else if value * 10 + digit_value(s[0]) > max {
        Err(NumberFault::TooLarge)
    } else {
        read_digits(s.drop_first(), value * 10 + digit_value(s[0]), max)
    }
}

/// The number that `s` writes: decimal digits, with one `+` before them allowed.
pub open spec fn parse_unsigned(s: Seq<char>, max: nat) -> Result<nat, NumberFault> {
    if s.len() == 0 {
        Err(NumberFault::Empty)
    } else if s.len() > 1 && s[0] == '+' {
        read_digits(s.drop_first(), 0, max)
    } else {
        read_digits(s, 0, max)
    }
}

fn read_number(value: &str, max: u64) -> (r: Result<u64, NumberFault>)
    ensures
        match r {
            Ok(n) => parse_unsigned(value@, max as nat) == Ok::<nat, NumberFault>(n as nat) && n
                <= max,
            Err(fault) => parse_unsigned(value@, max as nat) == Err::<nat, NumberFault>(fault),
        },
{
    let chars = chars_of(value);
    let n: usize = chars.len();
    if n == 0 {
        return Err(NumberFault::Empty);
    }
    let mut i: usize = if n > 1 && chars[0] == '+' {
        1
    } else {
        0
    };
    let mut number: u64 = 0;
    assert(value@.skip(0) == value@);
    assert(value@.skip(1) == value@.drop_first());
    while i < n
        invariant
            i <= n == chars@.len(),
            chars@ == value@,
            number <= max,
            read_digits(value@.skip(i as int), number as nat, max as nat) == parse_unsigned(
                value@,
                max as nat,
            ),
        decreases n - i,
    {
        let c = chars[i];
        assert(value@.skip(i as int)[0] == c);
        assert(value@.skip(i as int).drop_first() == value@.skip(i + 1));
        if !('0' <= c && c <= '9') {
            return Err(NumberFault::InvalidDigit);
        }
        let digit: u64 = (c as u8 - 48u8) as u64;
        if number > max / 10 {
            return Err(NumberFault::TooLarge);
        }
        if digit > max - number * 10 {
            return Err(NumberFault::TooLarge);
        }
        number = number * 10 + digit;
        i += 1;
    }
    Ok(number)
}

/// Reads a `u64`.
pub fn parse_u64(value: &str) -> (r: Result<u64, NumberFault>)
    ensures
        match r {
            Ok(n) => parse_unsigned(value@, u64::MAX as nat) == Ok::<nat, NumberFault>(n as nat),
            Err(fault) => parse_unsigned(value@, u64::MAX as nat) == Err::<nat, NumberFault>(fault),
        },
{
    read_number(value, u64::MAX)
}

/// Reads a `u32`.
pub fn parse_u32(value: &str) -> (r: Result<u32, NumberFault>)
    ensures
        match r {
            Ok(n) => parse_unsigned(value@, u32::MAX as nat) == Ok::<nat, NumberFault>(n as nat),
            Err(fault) => parse_unsigned(value@, u32::MAX as nat) == Err::<nat, NumberFault>(fault),
        },
{
    match read_number(value, u32::MAX as u64) {
        Ok(n) => Ok(n as u32),
        Err(fault) => Err(fault),
    }
}

proof fn lemma_digit(d: nat)
    requires
        d < 10,
    ensures
        is_digit(digit_char(d)),
        digit_value(digit_char(d)) == d,
{
}

/// Reading goes on after a front part as if the front part had been read alone.
proof fn lemma_read_digits_concat(a: Seq<char>, b: Seq<char>, value: nat, max: nat)
    ensures
        read_digits(a + b, value, max) == match read_digits(a, value, max) {
            Ok(v) => read_digits(b, v, max),
            Err(fault) => Err(fault),
        },
    decreases a.len(),
{
    if a.len() == 0 {
        assert(a + b == b);
    } else {
        assert((a + b).drop_first() == a.drop_first() + b);
        assert((a + b)[0] == a[0]);
        if is_digit(a[0]) && value * 10 + digit_value(a[0]) <= max {
            lemma_read_digits_concat(a.drop_first(), b, value * 10 + digit_value(a[0]), max);
        }
    }
}

proof fn lemma_read_decimal(n: nat, max: nat)
    requires
        n <= max,
    ensures
        read_digits(decimal(n), 0, max) == Ok::<nat, NumberFault>(n),
    decreases n,
{
    reveal_with_fuel(read_digits, 2);
    if n < 10 {
        lemma_digit(n);
        assert(decimal(n).drop_first().len() == 0);
    } else {
        let last = seq![digit_char(n % 10)];
        lemma_read_decimal(n / 10, max);
        lemma_digit(n % 10);
        lemma_read_digits_concat(decimal(n / 10), last, 0, max);
        assert(decimal(n) == decimal(n / 10) + last);
        assert(last.drop_first().len() == 0);
        assert(n / 10 * 10 + n % 10 == n);
    }
}

/// A decimal numeral holds digits alone.
pub proof fn decimal_is_digits(n: nat)
    ensures
        decimal(n).len() > 0,
        forall|i: int| 0 <= i < decimal(n).len() ==> is_digit(#[trigger] decimal(n)[i]),
    decreases n,
{
    if n < 10 {
        lemma_digit(n);
    } else {
        decimal_is_digits(n / 10);
        lemma_digit(n % 10);
    }
}

/// Reading what was written gives the number back, whatever type it is read as,
/// as long as the type holds it.
pub proof fn parse_inverts_decimal(n: nat, max: nat)
    requires
        n <= max,
    ensures
        parse_unsigned(decimal(n), max) == Ok::<nat, NumberFault>(n),
{
    decimal_is_digits(n);
    lemma_read_decimal(n, max);
    assert(is_digit(decimal(n)[0]));
}

/// Different numbers are written differently.
pub proof fn decimal_is_injective(a: nat, b: nat)
    requires
        decimal(a) == decimal(b),
    ensures
        a == b,
{
    let max = if a < b {
        b
    } else {
        a
    };
    parse_inverts_decimal(a, max);
    parse_inverts_decimal(b, max);
}

/// So many zeros.
pub open spec fn zeros(count: nat) -> Seq<char> {
    Seq::new(count, |i: int| '0')
}

proof fn lemma_read_is_written(s: Seq<char>, max: nat) -> (k: nat)
    requires
        s.len() > 0,
        read_digits(s, 0, max) is Ok,
    ensures
        s == zeros(k) + decimal(read_digits(s, 0, max)->Ok_0),
        read_digits(s, 0, max)->Ok_0 <= max,
    decreases s.len(),
{
    reveal_with_fuel(read_digits, 2);
    let front = s.drop_last();
    let last = seq![s.last()];
    assert(front + last =~= s);
    assert(last.drop_first().len() == 0);
    lemma_read_digits_concat(front, last, 0, max);
    let n = read_digits(s, 0, max)->Ok_0;
    let d = digit_value(s.last());
    assert(d < 10 && digit_char(d) == s.last());
    if front.len() == 0 {
        assert(n == d);
        assert(s =~= zeros(0) + decimal(n));
        0
    } else {
        let v = read_digits(front, 0, max)->Ok_0;
        let before = lemma_read_is_written(front, max);
        assert(n == v * 10 + d);
        if v == 0 {
            assert(s =~= zeros(before + 1) + decimal(n));
            before + 1
        } else {
            assert(n / 10 == v && n % 10 == d);
            assert(s =~= zeros(before) + decimal(n));
            before
        }
    }
}

/// A text that is read as a number is that number in decimal, but for zeros and one
/// `+` before it, and the number fits.
pub proof fn read_number_is_written(s: Seq<char>, max: nat)
    requires
        parse_unsigned(s, max) is Ok,
    ensures
        parse_unsigned(s, max)->Ok_0 <= max,
        exists|k: nat|
            s == #[trigger] zeros(k) + decimal(parse_unsigned(s, max)->Ok_0) || s == seq!['+']
                + zeros(k) + decimal(parse_unsigned(s, max)->Ok_0),
{
    let n = parse_unsigned(s, max)->Ok_0;
    if s.len() > 1 && s[0] == '+' {
        let k = lemma_read_is_written(s.drop_first(), max);
        assert(s =~= seq!['+'] + s.drop_first());
        assert(seq!['+'] + (zeros(k) + decimal(n)) =~= seq!['+'] + zeros(k) + decimal(n));
    } else {
        let k = lemma_read_is_written(s, max);
        assert(s == zeros(k) + decimal(n));
    }
}

proof fn lemma_too_large(n: nat, max: nat)
    requires
        n > max,
    ensures
        read_digits(decimal(n), 0, max) == Err::<nat, NumberFault>(NumberFault::TooLarge),
    decreases n,
{
    reveal_with_fuel(read_digits, 2);
    if n < 10 {
        lemma_digit(n);
    } else {
        let last = seq![digit_char(n % 10)];
        lemma_digit(n % 10);
        lemma_read_digits_concat(decimal(n / 10), last, 0, max);
        assert(decimal(n) =~= decimal(n / 10) + last);
        if n / 10 > max {
            lemma_too_large(n / 10, max);
        } else {
            lemma_read_decimal(n / 10, max);
            assert(n / 10 * 10 + n % 10 == n);
        }
    }
}

/// A number that does not fit is refused as too large.
pub proof fn large_numbers_are_refused(n: nat, max: nat)
    requires
        n > max,
    ensures
        parse_unsigned(decimal(n), max) == Err::<nat, NumberFault>(NumberFault::TooLarge),
{
    decimal_is_digits(n);
    lemma_too_large(n, max);
    assert(is_digit(decimal(n)[0]));
}

/// The number for which the digits stand, each worth ten times the one behind it.
pub open spec fn worth(digits: Seq<char>) -> int
    decreases digits.len(),
{
    if digits.len() == 0 {
        0
    } else {
        worth(digits.drop_last()) * 10 + (digits.last() as u32 - 48)
    }
}

/// A number in decimal is worth itself and has no zero before it.
pub proof fn decimal_is_worth_its_number(n: nat)
    ensures
        worth(decimal(n)) == n,
        n > 0 ==> decimal(n)[0] != '0',
        decimal(0) == seq!['0'],
    decreases n,
{
    reveal_with_fuel(worth, 2);
    if n < 10 {
        assert(decimal(n).drop_last() =~= Seq::<char>::empty());
    } else {
        decimal_is_worth_its_number(n / 10);
        decimal_is_digits(n / 10);
        assert(decimal(n).drop_last() =~= decimal(n / 10));
    }
}

proof fn lemma_zeros_count_for_nothing(k: nat, rest: Seq<char>, max: nat)
    ensures
        read_digits(zeros(k) + rest, 0, max) == read_digits(rest, 0, max),
    decreases k,
{
    let whole = zeros(k) + rest;
    if k == 0 {
        assert(whole =~= rest);
    } else {
        assert(whole[0] == '0');
        assert(whole.drop_first() =~= zeros((k - 1) as nat) + rest);
        lemma_zeros_count_for_nothing((k - 1) as nat, rest, max);
    }
}

/// Zeros and one `+` before a number make no difference, and any other character is
/// refused, behind a number that fits as well as alone.
pub proof fn zeros_and_plus_make_no_difference(n: nat, max: nat, k: nat, c: char, rest: Seq<char>)
    requires
        n <= max,
        !is_digit(c),
    ensures
        parse_unsigned(zeros(k) + decimal(n), max) == Ok::<nat, NumberFault>(n),
        parse_unsigned(seq!['+'] + (zeros(k) + decimal(n)), max) == Ok::<nat, NumberFault>(n),
        parse_unsigned(zeros(k) + decimal(n) + (seq![c] + rest), max) == Err::<nat, NumberFault>(
            NumberFault::InvalidDigit,
        ),
        parse_unsigned(seq![c], max) == Err::<nat, NumberFault>(NumberFault::InvalidDigit),
        parse_unsigned(Seq::empty(), max) == Err::<nat, NumberFault>(NumberFault::Empty),
{
    let plain = zeros(k) + decimal(n);
    let signed = seq!['+'] + plain;
    let tail = seq![c] + rest;
    decimal_is_digits(n);
    lemma_zeros_count_for_nothing(k, decimal(n), max);
    lemma_read_decimal(n, max);
    assert(is_digit(plain[0])) by {
        if k == 0 {
            assert(plain[0] == decimal(n)[0]);
        }
    }
    assert(signed[0] == '+' && signed.drop_first() =~= plain);
    lemma_read_digits_concat(plain, tail, 0, max);
    assert(tail[0] == c);
    assert((plain + tail)[0] == plain[0]);
}

} // verus!
