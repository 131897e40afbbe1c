//! Integers in text: reading them the way `FromStr` and `from_str_radix` do,
//! and writing them the way `Display` does.
use vstd::arithmetic::mul::{lemma_mul_inequality, lemma_mul_is_commutative};
use vstd::prelude::*;

use crate::text::to_chars;

verus! {

/// The value of one digit in the given radix: `0` to `9`, then the letters of
/// either case.
pub open spec fn digit_value(c: char, radix: nat) -> Option<nat> {
    let v: int = if '0' <= c <= '9' {
        c as int - '0' as int
    } else if 'a' <= c <= 'z' {
        c as int - 'a' as int + 10
    } else if 'A' <= c <= 'Z' {
        c as int - 'A' as int + 10
    } else {
        36
    };
    if v < radix {
        Some(v as nat)
    } else {
        None
    }
}

/// The value of a run of digits, most significant first; zero for none.
pub open spec fn digits_value(s: Seq<char>, radix: nat) -> Option<nat>
    decreases s.len(),
{
    if s.len() == 0 {
        Some(0)
    } else {
        match (digits_value(s.drop_last(), radix), digit_value(s.last(), radix)) {
            (Some(high), Some(low)) => Some(high * radix + low),
            _ => None,
        }
    }
}

/// An unsigned integer of at most `max`: an optional `+`, then one or more
/// digits and nothing else.
pub open spec fn parse_unsigned(s: Seq<char>, radix: nat, max: nat) -> Option<nat> {
    let digits = if s.len() > 0 && s[0] == '+' {
        s.drop_first()
    } else {
        s
    };
    match digits_value(digits, radix) {
        Some(v) => if digits.len() > 0 && v <= max {
            Some(v)
        } else {
            None
        },
        None => None,
    }
}

/// A signed decimal integer between `min` and `max`: an optional `+` or `-`,
/// then one or more digits and nothing else.
pub open spec fn parse_signed(s: Seq<char>, min: int, max: int) -> Option<int> {
    let signed = s.len() > 0 && (s[0] == '+' || s[0] == '-');
    let digits = if signed {
        s.drop_first()
    } else {
        s
    };
    match digits_value(digits, 10) {
        Some(v) => {
            let value: int = if signed && s[0] == '-' {
                -(v as int)
            } else {
                v as int
            };
            if digits.len() > 0 && min <= value <= max {
                Some(value)
            } else {
                None
            }
        },
        None => None,
    }
}

/// The digit that stands for `v` in lower case.
pub open spec fn digit_char(v: int) -> char {
    if 0 <= v < 10 {
        ('0' as int + v) as char
    } else {
        ('a' as int + v - 10) as char
    }
}

/// The decimal notation of `n`, without leading zeros.
pub open spec fn decimal(n: nat) -> Seq<char>
    decreases n,
{
    if n < 10 {
        seq![digit_char(n as int)]
    } else {
        decimal(n / 10).push(digit_char((n % 10) as int))
    }
}

/// The decimal notation of an integer of either sign.
pub open spec fn signed_decimal(n: int) -> Seq<char> {
    if n < 0 {
        seq!['-'] + decimal((-n) as nat)
    } else {
        decimal(n as nat)
    }
}

/// `n` below one hundred in two decimal digits.
pub open spec fn two_digits(n: nat) -> Seq<char> {
    seq![digit_char((n / 10) as int), digit_char((n % 10) as int)]
}

/// One byte in two hexadecimal digits of lower case.
pub open spec fn hex_byte(b: u8) -> Seq<char> {
    seq![digit_char(b as int / 16), digit_char(b as int % 16)]
}

/// The digits that `digit_char` writes read back as their value.
pub proof fn lemma_digit_char(v: int, radix: nat)
    requires
        0 <= v < radix <= 16,
    ensures
        digit_value(digit_char(v), radix) == Some(v as nat),
        digit_char(v) != '+',
        digit_char(v) != '-',
        digit_char(v) != ':',
        digit_char(v) != '.',
        digit_char(v) != ',',
{
}

pub proof fn lemma_digits_push(s: Seq<char>, c: char, radix: nat)
    ensures
        digits_value(s.push(c), radix) == (match (digits_value(s, radix), digit_value(c, radix)) {
            (Some(high), Some(low)) => Some(high * radix + low),
            _ => None,
        }),
{
    assert(s.push(c).drop_last() =~= s);
}

/// Decimal notation: not empty, digits only, and it reads back as the number.
pub proof fn lemma_decimal(n: nat)
    ensures
        decimal(n).len() > 0,
        digits_value(decimal(n), 10) == Some(n),
        forall|i: int|
            0 <= i < decimal(n).len() ==> '0' <= #[trigger] decimal(n)[i] && decimal(n)[i] <= '9',
    decreases n,
{
    if n < 10 {
        let s = Seq::<char>::empty();
        assert(decimal(n) =~= s.push(digit_char(n as int)));
        lemma_digits_push(s, digit_char(n as int), 10);
        lemma_digit_char(n as int, 10);
    } else {
        lemma_decimal(n / 10);
        lemma_digit_char((n % 10) as int, 10);
        lemma_digits_push(decimal(n / 10), digit_char((n % 10) as int), 10);
        assert(n == (n / 10) * 10 + n % 10);
    }
}

/// Reading a number that `Display` wrote gives the number back.
pub proof fn law_decimal_round_trip(n: nat, max: nat)
    requires
        n <= max,
    ensures
        parse_unsigned(decimal(n), 10, max) == Some(n),
{
    lemma_decimal(n);
}

/// Reading a signed number that `Display` wrote gives the number back.
pub proof fn law_signed_decimal_round_trip(n: int, min: int, max: int)
    requires
        min <= n <= max,
    ensures
        parse_signed(signed_decimal(n), min, max) == Some(n),
{
    if n < 0 {
        lemma_decimal((-n) as nat);
        assert(signed_decimal(n).drop_first() =~= decimal((-n) as nat));
    } else {
        lemma_decimal(n as nat);
    }
}

/// The digit value of `c`, where it is a digit of the radix.
fn digit(c: char, radix: u64) -> (r: Option<u64>)
    requires
        2 <= radix <= 36,
    ensures
        match r {
            Some(v) => digit_value(c, radix as nat) == Some(v as nat),
            None => digit_value(c, radix as nat) is None,
        },
{
    let v: u64 = if '0' <= c && c <= '9' {
        c as u64 - '0' as u64
    } else if 'a' <= c && c <= 'z' {
        c as u64 - 'a' as u64 + 10
    } else if 'A' <= c && c <= 'Z' {
        c as u64 - 'A' as u64 + 10
    } else {
        36
    };
    if v < radix {
        Some(v)
    } else {
        None
    }
}

/// A prefix that is no number, or already too large, stays so.
proof fn lemma_digits_monotone(s: Seq<char>, n: int, radix: nat)
    requires
        0 <= n <= s.len(),
        radix >= 1,
    ensures
        digits_value(s.take(n), radix) is None ==> digits_value(s, radix) is None,
        digits_value(s, radix) matches Some(v) ==> digits_value(s.take(n), radix) is Some
            && digits_value(s.take(n), radix)->0 <= v,
    decreases s.len() - n,
{
    if n == s.len() {
        assert(s.take(n) =~= s);
    } else {
        assert(s.take(n + 1).drop_last() =~= s.take(n));
        lemma_digits_monotone(s, n + 1, radix);
        if let Some(high) = digits_value(s.take(n), radix) {
            lemma_mul_inequality(1, radix as int, high as int);
            lemma_mul_is_commutative(radix as int, high as int);
        }
    }
}

/// A text that starts with a sign is no run of digits.
pub proof fn lemma_prefix_not_digits(s: Seq<char>, radix: nat)
    requires
        s.len() > 0,
        digit_value(s[0], radix) is None,
        radix >= 1,
    ensures
        digits_value(s, radix) is None,
{
    lemma_digits_monotone(s, 1, radix);
    let empty = Seq::<char>::empty();
    assert(s.take(1) =~= empty.push(s[0]));
    lemma_digits_push(empty, s[0], radix);
}

/// The value of `chars[from..]` as digits, where it is at most `max`.
fn read_digits(chars: &Vec<char>, from: usize, radix: u64, max: u64) -> (r: Option<u64>)
    requires
        from <= chars@.len(),
        2 <= radix <= 36,
    ensures
        ({
            let value = digits_value(chars@.skip(from as int), radix as nat);
            match r {
                Some(v) => value == Some(v as nat) && v <= max,
                None => value is None || value->0 > max,
            }
        }),
{
    let ghost all = chars@.skip(from as int);
    let mut value: u64 = 0;
    let mut i: usize = from;
    assert(all.take(0) =~= Seq::<char>::empty());
    while i < chars.len()
        invariant
            from <= i <= chars@.len(),
            2 <= radix <= 36,
            all == chars@.skip(from as int),
            value <= max,
            digits_value(all.take(i - from), radix as nat) == Some(value as nat),
        decreases chars@.len() - i,
    {
        proof {
            assert(all.take(i - from + 1).drop_last() =~= all.take(i - from));
            assert(all.take(i - from + 1).last() == chars@[i as int]);
            lemma_digits_monotone(all, i - from + 1, radix as nat);
        }
        match digit(chars[i], radix) {
            None => {
                return None;
            },
            Some(d) => {
                assert(value * radix <= u64::MAX * 36) by (nonlinear_arith)
                    requires
                        value <= u64::MAX,
                        radix <= 36,
                ;
                let next: u128 = value as u128 * radix as u128 + d as u128;
                if next > max as u128 {
                    return None;
                }
                value = next as u64;
            },
        }
        i += 1;
    }
    assert(all.take(chars@.len() - from) =~= all);
    Some(value)
}

/// Reads an unsigned integer of at most `max` in the given radix.
pub fn read_unsigned(s: &str, radix: u64, max: u64) -> (r: Option<u64>)
    requires
        2 <= radix <= 36,
    ensures
        match r {
            Some(v) => parse_unsigned(s@, radix as nat, max as nat) == Some(v as nat),
            None => parse_unsigned(s@, radix as nat, max as nat) is None,
        },
{
    let chars = to_chars(s);
    let from: usize = if chars.len() > 0 && chars[0] == '+' {
        1
    } else {
        0
    };
    proof {
        assert(chars@.skip(0) =~= s@);
        if from == 1 {
            assert(chars@.skip(1) =~= s@.drop_first());
        }
    }
    if from == chars.len() {
        return None;
    }
    read_digits(&chars, from, radix, max)
}

/// Reads a decimal `u32`.
pub fn read_u32(s: &str) -> (r: Option<u32>)
    ensures
        match r {
            Some(v) => parse_unsigned(s@, 10, u32::MAX as nat) == Some(v as nat),
            None => parse_unsigned(s@, 10, u32::MAX as nat) is None,
        },
{
    match read_unsigned(s, 10, u32::MAX as u64) {
        Some(v) => Some(v as u32),
        None => None,
    }
}

/// Reads a decimal `i32`.
pub fn read_i32(s: &str) -> (r: Option<i32>)
    ensures
        match r {
            Some(v) => parse_signed(s@, i32::MIN as int, i32::MAX as int) == Some(v as int),
            None => parse_signed(s@, i32::MIN as int, i32::MAX as int) is None,
        },
{
    let chars = to_chars(s);
    let minus = chars.len() > 0 && chars[0] == '-';
    let from: usize = if chars.len() > 0 && (chars[0] == '+' || chars[0] == '-') {
        1
    } else {
        0
    };
    proof {
        assert(chars@.skip(0) =~= s@);
        if from == 1 {
            assert(chars@.skip(1) =~= s@.drop_first());
        }
    }
    if from == chars.len() {
        return None;
    }
    let limit: u64 = if minus {
        0x8000_0000
    } else {
        0x7fff_ffff
    };
    match read_digits(&chars, from, 10, limit) {
        Some(v) => {
            if minus {
                Some((-(v as i64)) as i32)
            } else {
                Some(v as i32)
            }
        },
        None => None,
    }
}

/// The character of a digit below sixteen.
fn digit_of(v: u64) -> (r: char)
    requires
        v < 16,
    ensures
        r == digit_char(v as int),
{
    if v < 10 {
        (48u8 + v as u8) as char
    } else {
        (87u8 + v as u8) as char
    }
}

/// Appends the decimal notation of `n`.
pub fn push_decimal(out: &mut String, n: u64)
    ensures
        final(out)@ == old(out)@ + decimal(n as nat),
    decreases n,
{
    if n >= 10 {
        push_decimal(out, n / 10);
    }
    out.push(digit_of(n % 10));
    assert(out@ =~= old(out)@ + decimal(n as nat));
}

/// Appends the decimal notation of a signed integer.
pub fn push_signed_decimal(out: &mut String, n: i64)
    ensures
        final(out)@ == old(out)@ + signed_decimal(n as int),
{
    if n < 0 {
        out.push('-');
        let magnitude: u64 = (-(n as i128)) as u64;
        push_decimal(out, magnitude);
        assert(out@ =~= old(out)@ + signed_decimal(n as int));
    } else {
        push_decimal(out, n as u64);
    }
}

/// Appends `n` below one hundred in two digits.
pub fn push_two_digits(out: &mut String, n: u64)
    requires
        n < 100,
    ensures
        final(out)@ == old(out)@ + two_digits(n as nat),
{
    out.push(digit_of(n / 10));
    out.push(digit_of(n % 10));
    assert(out@ =~= old(out)@ + two_digits(n as nat));
}

/// Appends one byte in two hexadecimal digits.
pub fn push_hex_byte(out: &mut String, b: u8)
    ensures
        final(out)@ == old(out)@ + hex_byte(b),
{
    out.push(digit_of((b / 16) as u64));
    out.push(digit_of((b % 16) as u64));
    assert(out@ =~= old(out)@ + hex_byte(b));
}

/// A number is made of digits and nothing else, but for one `+` in front of
/// them, and is within its bound.
pub proof fn law_numbers_are_digits(s: Seq<char>, max: nat, i: int)
    requires
        parse_unsigned(s, 10, max) is Some,
        0 <= i < s.len(),
    ensures
        '0' <= s[i] <= '9' || (i == 0 && s[0] == '+' && s.len() > 1),
        parse_unsigned(s, 10, max)->0 <= max,
{
    let digits = if s[0] == '+' {
        s.drop_first()
    } else {
        s
    };
    if s[0] == '+' {
        if i > 0 {
            lemma_digits_only(digits, i - 1);
            assert(digits[i - 1] == s[i]);
        }
    } else {
        lemma_digits_only(digits, i);
    }
}

proof fn lemma_digits_only(s: Seq<char>, i: int)
    requires
        digits_value(s, 10) is Some,
        0 <= i < s.len(),
    ensures
        '0' <= s[i] <= '9',
    decreases s.len(),
{
    if i < s.len() - 1 {
        lemma_digits_only(s.drop_last(), i);
    }
}

/// A number below one hundred in two digits is its tens and its ones.
pub proof fn law_two_digits(tens: nat, ones: nat)
    requires
        tens < 10,
        ones < 10,
    ensures
        two_digits(tens * 10 + ones) == decimal(tens) + decimal(ones),
{
    assert((tens * 10 + ones) / 10 == tens);
    assert((tens * 10 + ones) % 10 == ones);
    assert(two_digits(tens * 10 + ones) =~= decimal(tens) + decimal(ones));
}

/// The digits of a number before its last one are those of a tenth of it.
pub proof fn law_decimal_digits(n: nat, ones: nat)
    requires
        n > 0,
        ones < 10,
    ensures
        decimal(n * 10 + ones) == decimal(n) + decimal(ones),
        decimal(ones).len() == 1,
{
    assert((n * 10 + ones) / 10 == n);
    assert((n * 10 + ones) % 10 == ones);
    assert(decimal(n * 10 + ones) =~= decimal(n) + decimal(ones));
}

/// A byte in hexadecimal is two digits, of lower case where they are letters.
pub proof fn law_hex_bytes(b: u8, i: int)
    requires
        0 <= i < 2,
    ensures
        hex_byte(b).len() == 2,
        '0' <= hex_byte(b)[i] <= '9' || 'a' <= hex_byte(b)[i] <= 'f',
{
}

proof fn lemma_leading_digit(s: Seq<char>)
    requires
        s.len() > 0,
        s[0] != '0',
        digits_value(s, 10) is Some,
    ensures
        digits_value(s, 10)->0 > 0,
    decreases s.len(),
{
    if s.len() == 1 {
        assert(digits_value(s.drop_last(), 10) == Some(0nat));
        assert(s.last() == s[0]);
    } else {
        assert(s.drop_last()[0] == s[0]);
        lemma_leading_digit(s.drop_last());
    }
}

/// Digits without a leading zero are the notation of their value.
pub proof fn law_notation_is_unique(s: Seq<char>)
    requires
        s.len() > 0,
        s.len() > 1 ==> s[0] != '0',
        digits_value(s, 10) is Some,
    ensures
        decimal(digits_value(s, 10)->0) == s,
    decreases s.len(),
{
    let v = digits_value(s, 10)->0;
    lemma_digits_only(s, s.len() - 1);
    let low = digit_value(s.last(), 10)->0;
    assert(digit_char(low as int) == s.last());
    if s.len() == 1 {
        assert(digits_value(s.drop_last(), 10) == Some(0nat));
        assert(v == low);
        assert(decimal(v) =~= s);
    } else {
        let before = s.drop_last();
        let high = digits_value(before, 10)->0;
        assert(before[0] == s[0]);
        lemma_leading_digit(before);
        law_notation_is_unique(before);
        assert(v == high * 10 + low);
        assert(v / 10 == high && v % 10 == low);
        assert(decimal(v) =~= s);
    }
}

} // verus!
