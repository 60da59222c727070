//! Numbers in text: decimal digits of integers, and unsigned numbers read back from text.

use vstd::prelude::*;

use crate::text::chars_of;

verus! {

/// The decimal digit of a number below ten.
pub open spec fn digit(n: nat) -> char {
    seq!['0', '1', '2', '3', '4', '5', '6', '7', '8', '9'][n as int]
}

/// The decimal digits of `n`, without leading zeros.
pub open spec fn decimal(n: nat) -> Seq<char>
    decreases n,
{
    if n < 10 {
        seq![digit(n)]
    } else {
        decimal(n / 10).push(digit(n % 10))
    }
}

/// The decimal digits of an integer, with a minus sign in front where it is negative.
pub open spec fn signed_decimal(n: int) -> Seq<char> {
    if n < 0 {
        seq!['-'] + decimal((-n) as nat)
    } else {
        decimal(n as nat)
    }
}

fn digit_char(n: u8) -> (c: char)
    requires
        n < 10,
    ensures
        c == digit(n as nat),
{
    match n {
        0 => '0',
        1 => '1',
        2 => '2',
        3 => '3',
        4 => '4',
        5 => '5',
        6 => '6',
        7 => '7',
        8 => '8',
        _ => '9',
    }
}

/// Writes `n` in decimal.
pub fn to_decimal(n: u128) -> (out: String)
    ensures
        out@ == decimal(n as nat),
    decreases n,
{
    if n < 10 {
        let mut out = String::new();
        out.push(digit_char(n as u8));
        assert(out@ =~= decimal(n as nat));
        out
    } else {
        let mut out = to_decimal(n / 10);
        out.push(digit_char((n % 10) as u8));
        out
    }
}

/// Writes `n` in decimal.
pub fn to_signed_decimal(n: i64) -> (out: String)
    ensures
        out@ == signed_decimal(n as int),
{
    if n < 0 {
        let mut out = String::new();
        out.push('-');
        assert(out@ =~= seq!['-']);
        let size: i128 = -(n as i128);
        let digits = to_decimal(size as u128);
        out.append(digits.as_str());
        out
    } else {
        to_decimal(n as u128)
    }
}

/// Why a text is not an unsigned 64-bit number.
#[derive(Debug, Clone, Copy, PartialEq, Eq)]
pub enum NumberError {
    /// The text is empty.
    Empty,
    /// A character that is no decimal digit.
    InvalidDigit,
    /// More than 64 bits can hold.
    TooLarge,
}

/// `c` is a decimal digit.
pub open spec fn is_digit(c: char) -> bool {
    '0' <= c && c <= '9'
}

/// The value of a decimal digit.
pub open spec fn digit_value(c: char) -> int {
    c as u32 - '0' as u32
}

/// Reads digits from the left onto `so_far`: the first character that is no digit ends the
/// reading, as does the first digit with which the number no longer fits.
pub open spec fn read_digits(s: Seq<char>, so_far: int) -> Result<int, NumberError>
    decreases s.len(),
{
    if s.len() == 0 {
        Ok(so_far)
    } else if !is_digit(s[0]) {
        Err(NumberError::InvalidDigit)
    } else if so_far * 10 + digit_value(s[0]) > u64::MAX {
        Err(NumberError::TooLarge)
    } else {
        read_digits(s.skip(1), so_far * 10 + digit_value(s[0]))
    }
}

/// The number that `s` writes: decimal digits, after at most one plus sign.
pub open spec fn read_u64(s: Seq<char>) -> Result<int, NumberError> {
    if s.len() == 0 {
        Err(NumberError::Empty)
    } else if s.len() == 1 && (s[0] == '+' || s[0] == '-') {
        Err(NumberError::InvalidDigit)
    } else if s[0] == '+' {
        read_digits(s.skip(1), 0)
    } else {
        read_digits(s, 0)
    }
}

/// Reads an unsigned number.
pub fn parse_u64(s: &str) -> (out: Result<u64, NumberError>)
    ensures
        match out {
            Ok(n) => read_u64(s@) == Ok::<int, NumberError>(n as int),
            Err(e) => read_u64(s@) == Err::<int, NumberError>(e),
        },
{
    let chars = chars_of(s);
    if chars.len() == 0 {
        return Err(NumberError::Empty);
    }
    if chars.len() == 1 && (chars[0] == '+' || chars[0] == '-') {
        return Err(NumberError::InvalidDigit);
    }
    let mut i: usize = if chars[0] == '+' {
        1
    } else {
        0
    };
    let mut n: u64 = 0;
    assert(s@.skip(0) =~= s@);
    while i < chars.len()
        invariant
            chars@ == s@,
            i <= chars@.len(),
            read_digits(s@.skip(i as int), n as int) == read_u64(s@),
        decreases chars@.len() - i,
    {
        let c = chars[i];
        let ghost rest = s@.skip(i as int);
        assert(rest.skip(1) =~= s@.skip(i + 1));
        if c < '0' || '9' < c {
            return Err(NumberError::InvalidDigit);
        }
        let value: u64 = c as u64 - '0' as u64;
        if n > (u64::MAX - value) / 10 {
            assert(n * 10 + value > u64::MAX);
            return Err(NumberError::TooLarge);
        }
        n = n * 10 + value;
        i = i + 1;
    }
    Ok(n)
}

/// Different numbers have different digits.
pub proof fn decimals_are_distinct(m: nat, n: nat)
    requires
        m != n,
    ensures
        decimal(m) != decimal(n),
    decreases m,
{
    assert(forall|a: nat, b: nat| a < 10 && b < 10 && digit(a) == digit(b) ==> a == b);
    if decimal(m) == decimal(n) {
        lemma_decimal_last(m);
        lemma_decimal_last(n);
        assert(m % 10 == n % 10);
        if m < 10 || n < 10 {
            assert(decimal(m).len() == 1 && decimal(n).len() == 1);
        } else {
            assert(decimal(m).drop_last() =~= decimal(m / 10));
            assert(decimal(n).drop_last() =~= decimal(n / 10));
            decimals_are_distinct(m / 10, n / 10);
        }
    }
}

pub proof fn lemma_decimal_last(n: nat)
    ensures
        decimal(n).len() >= 1,
        decimal(n).last() == digit(n % 10),
        decimal(n).len() == 1 <==> n < 10,
    decreases n,
{
    if n >= 10 {
        lemma_decimal_last(n / 10);
    }
}

} // verus!
