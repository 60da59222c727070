//! Numbers: writing them and reading them back.

use vstd::prelude::*;

use crate::number;

verus! {

/// All characters are decimal digits.
pub open spec fn digits(s: Seq<char>) -> bool {
    forall|k: int| 0 <= k < s.len() ==> '0' <= #[trigger] s[k] <= '9'
}

/// The number that decimal digits stand for.
pub open spec fn value(s: Seq<char>) -> int
    decreases s.len(),
{
    if s.len() == 0 {
        0
    } else {
        10 * value(s.drop_last()) + (s.last() as u32 - '0' as u32)
    }
}

proof fn lemma_read_next(s: Seq<char>, c: char, so_far: int)
    requires
        0 <= so_far <= u64::MAX,
    ensures
        number::read_digits(s.push(c), so_far) == match number::read_digits(s, so_far) {
            Ok(v) => if !number::is_digit(c) {
                Err(number::NumberError::InvalidDigit)
            } else if v * 10 + number::digit_value(c) > u64::MAX {
                Err(number::NumberError::TooLarge)
            } else {
                Ok(v * 10 + number::digit_value(c))
            },
            Err(e) => Err(e),
        },
    decreases s.len(),
{
    let all = s.push(c);
    if s.len() == 0 {
        assert(all[0] == c);
        assert(all.skip(1) =~= Seq::empty());
        assert(number::read_digits(all.skip(1), so_far * 10 + number::digit_value(c)) == Ok::<
            int,
            number::NumberError,
        >(so_far * 10 + number::digit_value(c)));
    } else {
        assert(all[0] == s[0]);
        assert(all.skip(1) =~= s.skip(1).push(c));
        if number::is_digit(s[0]) && so_far * 10 + number::digit_value(s[0]) <= u64::MAX {
            lemma_read_next(s.skip(1), c, so_far * 10 + number::digit_value(s[0]));
        }
    }
}

/// Digits are read as the number that they stand for, where 64 bits can hold it, and refused
/// otherwise.
pub proof fn digits_are_read_as_their_number(s: Seq<char>)
    requires
        digits(s),
    ensures
        value(s) >= 0,
        value(s) <= u64::MAX ==> number::read_digits(s, 0) == Ok::<int, number::NumberError>(
            value(s),
        ),
        value(s) > u64::MAX ==> number::read_digits(s, 0) == Err::<int, number::NumberError>(
            number::NumberError::TooLarge,
        ),
        s.len() > 0 && value(s) <= u64::MAX ==> number::read_u64(s) == Ok::<
            int,
            number::NumberError,
        >(value(s)),
        s.len() > 0 && value(s) > u64::MAX ==> number::read_u64(s) == Err::<
            int,
            number::NumberError,
        >(number::NumberError::TooLarge),
    decreases s.len(),
{
    if s.len() > 0 {
        let front = s.drop_last();
        assert forall|k: int| 0 <= k < front.len() implies '0' <= #[trigger] front[k] <= '9' by {
            assert(front[k] == s[k]);
        }
        digits_are_read_as_their_number(front);
        assert(front.push(s.last()) =~= s);
        lemma_read_next(front, s.last(), 0);
        assert('0' <= s[0] <= '9');
    }
}

/// Anything but a digit is refused, and so is an empty text; a plus sign may stand in front.
pub proof fn other_characters_are_no_digits(before: Seq<char>, c: char, after: Seq<char>)
    requires
        digits(before),
        value(before) <= u64::MAX,
        !('0' <= c <= '9'),
        before.len() > 0 || c != '+' || after.len() == 0,
    ensures
        number::read_u64(before.push(c) + after) == Err::<int, number::NumberError>(
            number::NumberError::InvalidDigit,
        ),
        number::read_u64(Seq::empty()) == Err::<int, number::NumberError>(
            number::NumberError::Empty,
        ),
        before.len() > 0 ==> number::read_u64(seq!['+'] + before) == number::read_u64(before),
{
    let all = before.push(c) + after;
    digits_are_read_as_their_number(before);
    lemma_read_next(before, c, 0);
    lemma_refused_stays_refused(before.push(c), after, 0);
    if before.len() > 0 {
        assert(all[0] == before[0]);
        assert('0' <= before[0] <= '9');
        assert((seq!['+'] + before).skip(1) =~= before);
    } else {
        assert(all[0] == c);
    }
}

proof fn lemma_refused_stays_refused(s: Seq<char>, after: Seq<char>, so_far: int)
    requires
        0 <= so_far <= u64::MAX,
        number::read_digits(s, so_far) is Err,
    ensures
        number::read_digits(s + after, so_far) == number::read_digits(s, so_far),
    decreases after.len(),
{
    if after.len() == 0 {
        assert(s + after =~= s);
    } else {
        let front = after.drop_last();
        lemma_refused_stays_refused(s, front, so_far);
        assert((s + front).push(after.last()) =~= s + after);
        lemma_read_next(s + front, after.last(), so_far);
    }
}

/// What is written of a number stands for it, in digits alone and without leading zeros.
pub proof fn numbers_are_written_in_digits(n: nat)
    ensures
        digits(number::decimal(n)),
        number::decimal(n).len() > 0,
        value(number::decimal(n)) == n,
        n > 0 ==> number::decimal(n)[0] != '0',
    decreases n,
{
    let d = number::digit(n % 10);
    assert('0' <= d <= '9' && d as u32 - '0' as u32 == n % 10);
    if n < 10 {
        let s = seq![number::digit(n)];
        assert(value(s.drop_last()) == 0);
        assert(s.last() == d);
    } else {
        let front = number::decimal(n / 10);
        numbers_are_written_in_digits(n / 10);
        let s = front.push(d);
        assert(s.drop_last() =~= front);
        assert forall|k: int| 0 <= k < s.len() implies '0' <= #[trigger] s[k] <= '9' by {
            if k < front.len() {
                assert(s[k] == front[k]);
            }
        }
        assert(s[0] == front[0]);
    }
}

/// A number that is written is read back.
pub proof fn written_numbers_are_read_back(n: nat)
    requires
        n <= u64::MAX,
    ensures
        number::read_u64(number::decimal(n)) == Ok::<int, number::NumberError>(n as int),
{
    numbers_are_written_in_digits(n);
    digits_are_read_as_their_number(number::decimal(n));
}

/// A negative number is written with a minus sign in front of its digits, others without.
pub proof fn only_negative_numbers_have_a_sign(n: nat)
    ensures
        n > 0 ==> number::signed_decimal(-n) == seq!['-'] + number::signed_decimal(n as int),
        value(number::signed_decimal(n as int)) == n,
        digits(number::signed_decimal(n as int)),
{
    numbers_are_written_in_digits(n);
}

} // verus!
