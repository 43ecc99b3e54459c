//! The digit-string parsing primitives and their mathematical model.
//!
//! A parse operation takes a string and returns either the unconsumed
//! suffix together with the parsed value, or the input at the point of
//! failure together with a structured error. The fixed-width primitive
//! takes an exact number of leading decimal digits and checks the value
//! against a bit-width capacity; the free-form integer parser takes the
//! longest leading run of digits.

use vstd::prelude::*;
use vstd::arithmetic::power2::pow2;
use vstd::arithmetic::power2::lemma2_to64;
use vstd::bits::lemma_u64_pow2_no_overflow;
use vstd::bits::lemma_u64_shl_is_mul;
use crate::states::USState;

verus! {

/// How a parse operation can fail.
#[derive(Copy, Clone, PartialEq, Eq, Structural, Hash, Debug)]
pub enum FIPSParserError {
    /// Fewer digit characters are available at the front of the input than
    /// the field requires. The fixed-width field parsers also report a
    /// non-digit before the required digit count this way: both collapse to
    /// a length mismatch against the exact take.
    InvalidLength { expected: usize, found: usize },
    /// The first character is not a decimal digit. Reported with the
    /// offending character; reserved to the free-form integer parser.
    InvalidDigit { found: char },
    /// The parsed integer exceeds the field's bit capacity. Carries the
    /// offending value and the capacity it exceeds.
    ValueExceedsCapacity { value: u64, capacity: u64 },
}

/// Success carries the unconsumed remainder and the parsed value; failure
/// carries the input as it stood at the point of failure and the error.
pub type FIPSParseResult<'a, T> = Result<(&'a str, T), (&'a str, FIPSParserError)>;

/// Whether a character is a decimal digit, `'0'` (code 48) through `'9'`
/// (code 57).
pub open spec fn is_decimal_digit(c: char) -> bool {
    48 <= c as u32 <= 57
}

/// The numeric value of a decimal digit character.
pub open spec fn digit_value(c: char) -> nat
    recommends
        is_decimal_digit(c),
{
    (c as u32 - 48) as nat
}

/// The integer value of a string of decimal digits, most significant digit
/// first. The empty string has value zero.
pub open spec fn digits_value(s: Seq<char>) -> nat
    decreases s.len(),
{
    if s.len() == 0 {
        0
    } else {
        digits_value(s.drop_last()) * 10 + digit_value(s.last())
    }
}

/// The number of decimal digit characters at the front of `s`.
pub open spec fn digit_prefix_len(s: Seq<char>) -> nat
    decreases s.len(),
{
    if s.len() == 0 || !is_decimal_digit(s[0]) {
        0
    } else {
        1 + digit_prefix_len(s.skip(1))
    }
}

/// The first `count` characters of `s` exist and are all decimal digits.
pub open spec fn has_digits(s: Seq<char>, count: nat) -> bool {
    count <= s.len() && (forall|i: int| 0 <= i < count ==> is_decimal_digit(s[i]))
}

/// How many of the `count` digits a fixed-width parse asks for are
/// actually available at the front of `s`.
pub open spec fn digits_found(s: Seq<char>, count: nat) -> nat {
    if digit_prefix_len(s) < count {
        digit_prefix_len(s)
    } else {
        count
    }
}

/// The greatest value representable in `bit_width` bits.
pub open spec fn bit_capacity(bit_width: nat) -> nat {
    (pow2(bit_width) - 1) as nat
}

/// A fixed-width parse of `count` digits against capacity `capacity`
/// succeeds on `s`.
pub open spec fn fixed_parse_ok(s: Seq<char>, count: nat, capacity: nat) -> bool {
    has_digits(s, count) && digits_value(s.take(count as int)) <= capacity
}

/// The error a failed fixed-width parse of `count` digits against capacity
/// `capacity` reports on `s`.
pub open spec fn fixed_parse_error(s: Seq<char>, count: nat, capacity: nat) -> FIPSParserError {
    if !has_digits(s, count) {
        FIPSParserError::InvalidLength {
            expected: count as usize,
            found: digits_found(s, count) as usize,
        }
    } else {
        FIPSParserError::ValueExceedsCapacity {
            value: digits_value(s.take(count as int)) as u64,
            capacity: capacity as u64,
        }
    }
}

/// A state-code parse succeeds on `s`: two leading digits whose value is a
/// recognized state code.
pub open spec fn state_parse_ok(s: Seq<char>) -> bool {
    has_digits(s, 2) && USState::spec_decode(digits_value(s.take(2)) as u8) is Some
}

/// The error a failed state-code parse reports on `s`: a missing digit is a
/// length mismatch; a two-digit value that is not a recognized state code
/// is reported against the six-bit state field capacity.
pub open spec fn state_parse_error(s: Seq<char>) -> FIPSParserError {
    if !has_digits(s, 2) {
        FIPSParserError::InvalidLength { expected: 2, found: digits_found(s, 2) as usize }
    } else {
        FIPSParserError::ValueExceedsCapacity {
            value: digits_value(s.take(2)) as u64,
            capacity: 63,
        }
    }
}

/// Ten to the power `exponent`.
pub open spec fn pow10(exponent: nat) -> nat
    decreases exponent,
{
    if exponent == 0 {
        1
    } else {
        10 * pow10((exponent - 1) as nat)
    }
}

/// Nineteen decimal digits always fit a 64-bit integer.
pub proof fn lemma_pow10_19_fits_u64()
    ensures
        pow10(19) == 10_000_000_000_000_000_000,
{
    reveal_with_fuel(pow10, 20);
}

/// `pow10` grows with its exponent.
pub proof fn lemma_pow10_increases(e1: nat, e2: nat)
    requires
        e1 <= e2,
    ensures
        pow10(e1) <= pow10(e2),
    decreases e2 - e1,
{
    if e1 < e2 {
        lemma_pow10_increases(e1, (e2 - 1) as nat);
    }
}

/// The capacities of the bit widths the field parsers use.
pub proof fn lemma_bit_capacity_values()
    ensures
        bit_capacity(6) == 63,
        bit_capacity(10) == 1023,
        bit_capacity(11) == 2047,
        bit_capacity(14) == 16383,
        bit_capacity(20) == 1048575,
{
    lemma2_to64();
}

/// A string of digits is bounded by ten to the power of its length.
pub proof fn lemma_digits_value_bound(s: Seq<char>)
    requires
        forall|i: int| 0 <= i < s.len() ==> is_decimal_digit(s[i]),
    ensures
        digits_value(s) < pow10(s.len()),
    decreases s.len(),
{
    if s.len() > 0 {
        lemma_digits_value_bound(s.drop_last());
    }
}

/// Extending a digit prefix by one character multiplies its value by ten
/// and adds the new digit.
pub proof fn lemma_digits_value_step(s: Seq<char>, i: int)
    requires
        0 <= i < s.len(),
    ensures
        digits_value(s.take(i + 1)) == digits_value(s.take(i)) * 10 + digit_value(s[i]),
{
    assert(s.take(i + 1).drop_last() =~= s.take(i));
    assert(s.take(i + 1).last() == s[i]);
}

/// The value of a digit prefix never shrinks as the prefix grows.
pub proof fn lemma_digits_value_monotone(s: Seq<char>, shorter: int, longer: int)
    requires
        0 <= shorter <= longer <= s.len(),
    ensures
        digits_value(s.take(shorter)) <= digits_value(s.take(longer)),
    decreases longer - shorter,
{
    if shorter < longer {
        lemma_digits_value_monotone(s, shorter, longer - 1);
        lemma_digits_value_step(s, longer - 1);
    }
}

/// If the first `k` characters of `s` are digits and the character at `k`
/// (if any) is not, then `k` is exactly the digit prefix length.
pub proof fn lemma_digit_prefix_len_is(s: Seq<char>, k: int)
    requires
        0 <= k <= s.len(),
        forall|i: int| 0 <= i < k ==> is_decimal_digit(s[i]),
        k < s.len() ==> !is_decimal_digit(s[k]),
    ensures
        digit_prefix_len(s) == k,
    decreases s.len(),
{
    if k == 0 {
    } else {
        assert(is_decimal_digit(s[0]));
        lemma_digit_prefix_len_is(s.skip(1), k - 1);
    }
}

/// If the first `k` characters of `s` are digits, the digit prefix is at
/// least `k` long.
pub proof fn lemma_digit_prefix_len_at_least(s: Seq<char>, k: int)
    requires
        0 <= k <= s.len(),
        forall|i: int| 0 <= i < k ==> is_decimal_digit(s[i]),
    ensures
        digit_prefix_len(s) >= k,
    decreases k,
{
    if k > 0 {
        assert(is_decimal_digit(s[0]));
        lemma_digit_prefix_len_at_least(s.skip(1), k - 1);
    }
}

/// Every character of the digit prefix is a digit, and the prefix stops at
/// the end of the string or at a non-digit.
pub proof fn lemma_digit_prefix_len_spec(s: Seq<char>)
    ensures
        digit_prefix_len(s) <= s.len(),
        forall|i: int| 0 <= i < digit_prefix_len(s) ==> is_decimal_digit(s[i]),
        digit_prefix_len(s) < s.len() ==> !is_decimal_digit(s[digit_prefix_len(s) as int]),
    decreases s.len(),
{
    if s.len() > 0 && is_decimal_digit(s[0]) {
        lemma_digit_prefix_len_spec(s.skip(1));
        assert forall|i: int| 0 <= i < digit_prefix_len(s) implies is_decimal_digit(s[i]) by {
            if i > 0 {
                assert(s.skip(1)[i - 1] == s[i]);
            }
        }
        if digit_prefix_len(s) < s.len() {
            assert(s.skip(1)[digit_prefix_len(s.skip(1)) as int] == s[digit_prefix_len(s) as int]);
        }
    }
}

/// The decimal digit character for a value below ten.
pub open spec fn digit_char(d: nat) -> char
    recommends
        d < 10,
{
    ((48 + d) as u8) as char
}

/// The canonical decimal rendering of a value: most significant digit
/// first, no leading zero, and the single digit `0` for zero.
pub open spec fn decimal_digits(n: nat) -> Seq<char>
    decreases n,
{
    if n < 10 {
        seq![digit_char(n)]
    } else {
        decimal_digits(n / 10).push(digit_char(n % 10))
    }
}

/// Rendering and parsing are inverse: the decimal rendering of a value is
/// never empty, holds digits only, and parses back to exactly that value.
pub proof fn lemma_decimal_digits_value(n: nat)
    ensures
        decimal_digits(n).len() >= 1,
        forall|i: int| 0 <= i < decimal_digits(n).len() ==> is_decimal_digit(#[trigger] decimal_digits(n)[i]),
        digits_value(decimal_digits(n)) == n,
    decreases n,
{
    if n < 10 {
        assert(decimal_digits(n) =~= seq![digit_char(n)]);
        assert(decimal_digits(n).drop_last() =~= Seq::<char>::empty());
        assert(decimal_digits(n).last() == digit_char(n));
        assert(digit_value(digit_char(n)) == n);
        assert(digits_value(decimal_digits(n)) == digits_value(decimal_digits(n).drop_last()) * 10
            + digit_value(decimal_digits(n).last()));
    } else {
        lemma_decimal_digits_value(n / 10);
        assert(decimal_digits(n).drop_last() =~= decimal_digits(n / 10));
        assert(decimal_digits(n).last() == digit_char(n % 10));
        assert(digit_value(digit_char(n % 10)) == n % 10);
        assert(digits_value(decimal_digits(n)) == digits_value(decimal_digits(n).drop_last()) * 10
            + digit_value(decimal_digits(n).last()));
        assert(n == (n / 10) * 10 + n % 10);
    }
}

/// The single-character string for a decimal digit value.
fn digit_str(d: u64) -> (s: &'static str)
    requires
        d < 10,
    ensures
        s@ =~= seq![digit_char(d as nat)],
{
    proof {
        reveal_strlit("0");
        reveal_strlit("1");
        reveal_strlit("2");
        reveal_strlit("3");
        reveal_strlit("4");
        reveal_strlit("5");
        reveal_strlit("6");
        reveal_strlit("7");
        reveal_strlit("8");
        reveal_strlit("9");
    }
    match d {
        0 => "0",
        1 => "1",
        2 => "2",
        3 => "3",
        4 => "4",
        5 => "5",
        6 => "6",
        7 => "7",
        8 => "8",
        _ => "9",
    }
}

/// Renders a value in decimal: the executable form of `decimal_digits`,
/// the inverse of the digit parsers.
pub fn u64_to_decimal_string(n: u64) -> (s: String)
    ensures
        s@ == decimal_digits(n as nat),
    decreases n,
{
    if n < 10 {
        String::from_str(digit_str(n))
    } else {
        proof {
            assert(n / 10 < n) by (nonlinear_arith)
                requires
                    n >= 10,
            ;
        }
        let mut s = u64_to_decimal_string(n / 10);
        s.append(digit_str(n % 10));
        proof {
            assert(s@ =~= decimal_digits((n / 10) as nat).push(digit_char((n % 10) as nat)));
        }
        s
    }
}

/// Whether a character is a decimal digit.
fn is_digit_char(c: char) -> (digit: bool)
    ensures
        digit == is_decimal_digit(c),
{
    let code = c as u32;
    48 <= code && code <= 57
}

/// Takes exactly `digit_count` leading characters of `input`, requires all
/// of them to be decimal digits, parses them as a decimal integer, and
/// checks the integer against the capacity of `bit_width` bits.
///
/// Too few leading digits - whether the input is short or a non-digit
/// appears early - is `InvalidLength`, reporting how many digits were
/// found. A value exceeding the capacity is `ValueExceedsCapacity`,
/// reporting the exact value and capacity; it is never silently masked.
/// On success, returns the input past the consumed digits and the value.
///
/// At most nineteen digits can be asked for, and the bit width must fit a
/// 64-bit value, so that neither the value nor the capacity can overflow.
pub fn parse_decimal_digits_to_bits<'a>(
    digit_count: usize,
    bit_width: u64,
    input: &'a str,
) -> (result: FIPSParseResult<'a, u64>)
    requires
        digit_count <= 19,
        bit_width <= 63,
    ensures
        (match result {
            Ok((rest, value)) => {
                &&& fixed_parse_ok(input@, digit_count as nat, bit_capacity(bit_width as nat))
                &&& value == digits_value(input@.take(digit_count as int))
                &&& rest@ == input@.skip(digit_count as int)
            },
            Err((remaining, error)) => {
                &&& !fixed_parse_ok(input@, digit_count as nat, bit_capacity(bit_width as nat))
                &&& remaining@ == input@
                &&& error == fixed_parse_error(
                    input@,
                    digit_count as nat,
                    bit_capacity(bit_width as nat),
                )
            },
        }),
{
    let len = input.unicode_len();
    let mut i: usize = 0;
    let mut value: u64 = 0;
    while i < digit_count
        invariant
            i <= digit_count,
            digit_count <= 19,
            len == input@.len(),
            i <= len,
            forall|j: int| 0 <= j < i ==> is_decimal_digit(input@[j]),
            value == digits_value(input@.take(i as int)),
        decreases digit_count - i,
    {
        let not_a_digit = if i >= len {
            true
        } else {
            !is_digit_char(input.get_char(i))
        };
        if not_a_digit {
            proof {
                lemma_digit_prefix_len_is(input@, i as int);
            }
            return Err(
                (input, FIPSParserError::InvalidLength { expected: digit_count, found: i }),
            );
        }
        let c = input.get_char(i);
        let digit = (c as u32 - 48) as u64;
        proof {
            lemma_digits_value_step(input@, i as int);
            assert(input@.take(i as int).len() == i);
            lemma_digits_value_bound(input@.take(i as int));
            lemma_pow10_increases((i + 1) as nat, 19);
            lemma_pow10_19_fits_u64();
        }
        value = value * 10 + digit;
        i = i + 1;
    }
    let shifted = 1u64 << bit_width;
    proof {
        lemma_u64_pow2_no_overflow(bit_width as nat);
        lemma_u64_shl_is_mul(1u64, bit_width);
        vstd::arithmetic::power2::lemma_pow2_pos(bit_width as nat);
    }
    let capacity = shifted - 1;
    proof {
        assert(capacity == bit_capacity(bit_width as nat));
    }
    if value > capacity {
        return Err((input, FIPSParserError::ValueExceedsCapacity { value, capacity }));
    }
    let rest = input.substring_char(digit_count, len);
    proof {
        assert(rest@ =~= input@.skip(digit_count as int));
    }
    Ok((rest, value))
}

/// Parses the first two digits of `input` as a numeric state code and looks
/// it up in the recognized state table. A missing digit is `InvalidLength`;
/// a two-digit value that is not a recognized state code is reported as
/// `ValueExceedsCapacity` against the six-bit state field capacity. On
/// success, returns the input past the two digits and the state.
pub fn parse_state_code<'a>(input: &'a str) -> (result: FIPSParseResult<'a, USState>)
    ensures
        (match result {
            Ok((rest, state)) => {
                &&& state_parse_ok(input@)
                &&& Some(state) == USState::spec_decode(digits_value(input@.take(2)) as u8)
                &&& rest@ == input@.skip(2)
            },
            Err((remaining, error)) => {
                &&& !state_parse_ok(input@)
                &&& remaining@ == input@
                &&& error == state_parse_error(input@)
            },
        }),
{
    proof {
        lemma_bit_capacity_values();
    }
    match parse_decimal_digits_to_bits(2, 6, input) {
        Ok((rest, value)) => {
            match USState::decode(value as u8) {
                Some(state) => Ok((rest, state)),
                None => Err(
                    (input, FIPSParserError::ValueExceedsCapacity { value, capacity: 63 }),
                ),
            }
        },
        Err((remaining, error)) => {
            proof {
                // A two-digit value above the six-bit capacity is at most
                // 99, so it stays above 63 as a `u8` and is outside the
                // recognized state table, whose codes all fit six bits.
                if has_digits(input@, 2) {
                    lemma_digits_value_bound(input@.take(2));
                    reveal_with_fuel(pow10, 3);
                    assert(63 < digits_value(input@.take(2)) < 100);
                }
            }
            Err((remaining, error))
        },
    }
}

/// Parses the longest leading run of decimal digits of `input`, without a
/// declared length or bit width; the value must implicitly fit 64 bits.
///
/// An input with no leading digit - including the empty input - is
/// `InvalidLength`, expecting one digit and finding none. A run whose value
/// overflows 64 bits is `ValueExceedsCapacity` with both fields collapsed
/// to the maximum 64-bit value: the exact overflowing value is not
/// representable, only that overflow occurred. On success, returns the
/// input past the digit run and the value.
pub fn parse_integer<'a>(input: &'a str) -> (result: FIPSParseResult<'a, u64>)
    ensures
        (match result {
            Ok((rest, value)) => {
                &&& digit_prefix_len(input@) >= 1
                &&& value == digits_value(input@.take(digit_prefix_len(input@) as int))
                &&& rest@ == input@.skip(digit_prefix_len(input@) as int)
            },
            Err((remaining, error)) => {
                &&& remaining@ == input@
                &&& (match error {
                    FIPSParserError::InvalidLength { expected, found } => {
                        &&& digit_prefix_len(input@) == 0
                        &&& expected == 1usize
                        &&& found == 0usize
                    },
                    FIPSParserError::ValueExceedsCapacity { value, capacity } => {
                        &&& digit_prefix_len(input@) >= 1
                        &&& digits_value(
                            input@.take(digit_prefix_len(input@) as int),
                        ) > u64::MAX
                        &&& value == u64::MAX
                        &&& capacity == u64::MAX
                    },
                    FIPSParserError::InvalidDigit { .. } => false,
                })
            },
        }),
{
    let len = input.unicode_len();
    let mut i: usize = 0;
    let mut value: u64 = 0;
    loop
        invariant
            i <= len,
            len == input@.len(),
            forall|j: int| 0 <= j < i ==> is_decimal_digit(input@[j]),
            value == digits_value(input@.take(i as int)),
        ensures
            i <= len,
            forall|j: int| 0 <= j < i ==> is_decimal_digit(input@[j]),
            value == digits_value(input@.take(i as int)),
            i == len || !is_decimal_digit(input@[i as int]),
        decreases len - i,
    {
        if i >= len {
            break ;
        }
        let c = input.get_char(i);
        if !is_digit_char(c) {
            break ;
        }
        let digit = (c as u32 - 48) as u64;
        proof {
            lemma_digits_value_step(input@, i as int);
        }
        let shifted = match value.checked_mul(10) {
            Some(v) => v,
            None => {
                proof {
                    lemma_integer_overflow(input@, i as int);
                }
                return Err(
                    (
                        input,
                        FIPSParserError::ValueExceedsCapacity {
                            value: u64::MAX,
                            capacity: u64::MAX,
                        },
                    ),
                );
            },
        };
        let next = match shifted.checked_add(digit) {
            Some(v) => v,
            None => {
                proof {
                    lemma_integer_overflow(input@, i as int);
                }
                return Err(
                    (
                        input,
                        FIPSParserError::ValueExceedsCapacity {
                            value: u64::MAX,
                            capacity: u64::MAX,
                        },
                    ),
                );
            },
        };
        value = next;
        i = i + 1;
    }
    proof {
        lemma_digit_prefix_len_is(input@, i as int);
    }
    if i == 0 {
        return Err((input, FIPSParserError::InvalidLength { expected: 1, found: 0 }));
    }
    let rest = input.substring_char(i, len);
    proof {
        assert(rest@ =~= input@.skip(i as int));
    }
    Ok((rest, value))
}

/// If the digit run continues past position `i` and the value of the first
/// `i + 1` digits already overflows 64 bits, the whole digit prefix does.
proof fn lemma_integer_overflow(s: Seq<char>, i: int)
    requires
        0 <= i < s.len(),
        forall|j: int| 0 <= j <= i ==> is_decimal_digit(s[j]),
        digits_value(s.take(i + 1)) > u64::MAX,
    ensures
        digit_prefix_len(s) >= 1,
        digits_value(s.take(digit_prefix_len(s) as int)) > u64::MAX,
{
    lemma_digit_prefix_len_at_least(s, i + 1);
    lemma_digit_prefix_len_spec(s);
    lemma_digits_value_monotone(s, i + 1, digit_prefix_len(s) as int);
}

} // verus!

