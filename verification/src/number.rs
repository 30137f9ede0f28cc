//! Integers as text.
use vstd::prelude::*;

use crate::text::text_of;

verus! {

/// The value of one digit, where `c` is a digit of `radix`.
pub open spec fn digit_value(c: char, radix: nat) -> Option<nat> {
    let value: int = if '0' <= c <= '9' {
        c as int - '0' as int
    } else if 'a' <= c <= 'z' {
        c as int - 'a' as int + 10
    } else if 'A' <= c <= 'Z' {
        c as int - 'A' as int + 10
    } else {
        36
    };
    if value < radix {
        Some(value as nat)
    } else {
        None
    }
}

/// Whether every character is a digit of `radix`.
pub open spec fn all_digits(s: Seq<char>, radix: nat) -> bool {
    forall|i: int| 0 <= i < s.len() ==> #[trigger] digit_value(s[i], radix) is Some
}

/// The value of a run of digits.
pub open spec fn digits_value(s: Seq<char>, radix: nat) -> nat
    decreases s.len(),
{
    if s.len() == 0 {
        0
    } else {
        digits_value(s.drop_last(), radix) * radix + digit_value(s.last(), radix).unwrap_or(0)
    }
}

/// A run without one plus sign at its front.
pub open spec fn without_plus(s: Seq<char>) -> Seq<char> {
    if s.len() > 0 && s[0] == '+' {
        s.skip(1)
    } else {
        s
    }
}

/// The unsigned number that `s` spells: an optional plus sign and one digit or
/// more, no greater than `max`.
pub open spec fn unsigned_value(s: Seq<char>, radix: nat, max: nat) -> Option<nat> {
    let digits = without_plus(s);
    if digits.len() > 0 && all_digits(digits, radix) && digits_value(digits, radix) <= max {
        Some(digits_value(digits, radix))
    } else {
        None
    }
}

/// The value of one digit of `radix`.
fn digit_of(c: char, radix: u64) -> (r: Option<u64>)
    requires
        radix <= 36,
    ensures
        match r {
            Some(v) => digit_value(c, radix as nat) == Some(v as nat),
            None => digit_value(c, radix as nat) is None,
        },
{
    let value: u64 = if '0' <= c && c <= '9' {
        (c as u8 - '0' as u8) as u64
    } else if 'a' <= c && c <= 'z' {
        (c as u8 - 'a' as u8) as u64 + 10
    } else if 'A' <= c && c <= 'Z' {
        (c as u8 - 'A' as u8) as u64 + 10
    } else {
        36
    };
    if value < radix {
        Some(value)
    } else {
        None
    }
}

/// More digits never make a number smaller.
proof fn lemma_digits_grow(s: Seq<char>, n: int, radix: nat)
    requires
        0 <= n <= s.len(),
        radix >= 1,
    ensures
        digits_value(s.take(n), radix) <= digits_value(s, radix),
    decreases s.len() - n,
{
    if n < s.len() {
        lemma_digits_grow(s, n + 1, radix);
        let longer = s.take(n + 1);
        assert(longer.drop_last() =~= s.take(n));
        let before = digits_value(s.take(n), radix);
        assert(before * radix >= before) by (nonlinear_arith)
            requires
                radix >= 1,
                before >= 0,
        ;
    } else {
        assert(s.take(n) =~= s);
    }
}

/// The unsigned number that `s` spells in `radix`, no greater than `max`.
pub fn parse_unsigned(s: &[char], radix: u64, max: u64) -> (r: Option<u64>)
    requires
        2 <= radix <= 36,
    ensures
        match r {
            Some(v) => unsigned_value(s@, radix as nat, max as nat) == Some(v as nat),
            None => unsigned_value(s@, radix as nat, max as nat) is None,
        },
{
    let start: usize = if s.len() > 0 && s[0] == '+' {
        1
    } else {
        0
    };
    let ghost digits = without_plus(s@);
    assert(digits =~= s@.skip(start as int));
    if start == s.len() {
        return None;
    }
    let mut i: usize = start;
    let mut value: u64 = 0;
    assert(digits.take(0) =~= Seq::empty());
    while i < s.len()
        invariant
            start <= i <= s@.len(),
            2 <= radix <= 36,
            value <= max,
            digits == without_plus(s@),
            digits == s@.skip(start as int),
            all_digits(digits.take(i - start), radix as nat),
            value == digits_value(digits.take(i - start), radix as nat),
        decreases s@.len() - i,
    {
        let ghost head = digits.take(i - start);
        let ghost longer = digits.take(i - start + 1);
        proof {
            assert(longer.drop_last() =~= head);
            assert(longer.last() == s@[i as int]);
            assert(digits[i - start] == s@[i as int]);
        }
        let digit: u64 = match digit_of(s[i], radix) {
            Some(d) => d,
            None => {
                assert(!all_digits(digits, radix as nat));
                return None;
            },
        };
        assert(value * radix <= u64::MAX * 36) by (nonlinear_arith)
            requires
                0 <= value <= u64::MAX,
                0 <= radix <= 36,
        ;
        let wide: u128 = (value as u128) * (radix as u128) + (digit as u128);
        assert(wide == digits_value(longer, radix as nat)) by {
            assert((value as u128) * (radix as u128) == value * radix);
        }
        if wide > max as u128 {
            proof {
                lemma_digits_grow(digits, i - start + 1, radix as nat);
            }
            return None;
        }
        value = wide as u64;
        i = i + 1;
        proof {
            assert forall|k: int| 0 <= k < longer.len() implies #[trigger] digit_value(
                longer[k],
                radix as nat,
            ) is Some by {
                if k < head.len() {
                    assert(longer[k] == head[k]);
                }
            }
        }
    }
    assert(digits.take(i - start) =~= digits);
    Some(value)
}

/// The 32-bit unsigned number that `s` spells in decimal.
pub open spec fn u32_value(s: Seq<char>) -> Option<nat> {
    unsigned_value(s, 10, u32::MAX as nat)
}

/// The 64-bit unsigned number that `s` spells in decimal.
pub open spec fn u64_value(s: Seq<char>) -> Option<nat> {
    unsigned_value(s, 10, u64::MAX as nat)
}

/// The 32-bit unsigned number that `s` spells in decimal.
pub fn parse_u32(s: &[char]) -> (r: Option<u32>)
    ensures
        match r {
            Some(v) => u32_value(s@) == Some(v as nat),
            None => u32_value(s@) is None,
        },
{
    match parse_unsigned(s, 10, u32::MAX as u64) {
        Some(v) => Some(v as u32),
        None => None,
    }
}

/// The 64-bit unsigned number that `s` spells in decimal.
pub fn parse_u64(s: &[char]) -> (r: Option<u64>)
    ensures
        match r {
            Some(v) => u64_value(s@) == Some(v as nat),
            None => u64_value(s@) is None,
        },
{
    parse_unsigned(s, 10, u64::MAX)
}

/// The 32-bit signed number that `s` spells in decimal: a minus sign and
/// digits, or an unsigned number.
pub open spec fn i32_value(s: Seq<char>) -> Option<int> {
    if s.len() > 0 && s[0] == '-' {
        let digits = s.skip(1);
        if digits.len() > 0 && all_digits(digits, 10) && digits_value(digits, 10) <= 0x8000_0000 {
            Some(-(digits_value(digits, 10) as int))
        } else {
            None
        }
    } else {
        match unsigned_value(s, 10, i32::MAX as nat) {
            Some(v) => Some(v as int),
            None => None,
        }
    }
}

/// The 32-bit signed number that `s` spells in decimal.
pub fn parse_i32(s: &[char]) -> (r: Option<i32>)
    ensures
        match r {
            Some(v) => i32_value(s@) == Some(v as int),
            None => i32_value(s@) is None,
        },
{
    if s.len() > 0 && s[0] == '-' {
        let digits = vstd::slice::slice_subrange(s, 1, s.len());
        assert(digits@ =~= s@.skip(1));
        if digits.len() > 0 && digits[0] == '+' {
            assert(digit_value(digits@[0], 10) is None);
            return None;
        }
        match parse_unsigned(digits, 10, 0x8000_0000) {
            Some(v) => Some((0i64 - v as i64) as i32),
            None => None,
        }
    } else {
        match parse_unsigned(s, 10, i32::MAX as u64) {
            Some(v) => Some(v as i32),
            None => None,
        }
    }
}

/// One decimal digit.
pub open spec fn decimal_digit(n: nat) -> char {
    (('0' as u32) + n) as char
}

/// The decimal digits of `n`, without leading zeros.
pub open spec fn decimal(n: nat) -> Seq<char>
    decreases n,
{
    if n < 10 {
        seq![decimal_digit(n)]
    } else {
        decimal(n / 10).push(decimal_digit(n % 10))
    }
}

/// The decimal form of a signed number.
pub open spec fn signed_decimal(n: int) -> Seq<char> {
    if n < 0 {
        seq!['-'] + decimal((-n) as nat)
    } else {
        decimal(n as nat)
    }
}

/// Appends the decimal digits of `n`.
fn push_decimal(out: &mut Vec<char>, n: u128)
    ensures
        final(out)@ == old(out)@ + decimal(n as nat),
    decreases n,
{
    if n >= 10 {
        push_decimal(out, n / 10);
    }
    let digit: u8 = (n % 10) as u8;
    let ghost before = out@;
    out.push((48u8 + digit) as char);
    proof {
        assert('0' as u32 == 48);
        if n >= 10 {
            assert(out@ =~= old(out)@ + decimal((n / 10) as nat).push(
                decimal_digit((n % 10) as nat),
            ));
        } else {
            assert(out@ =~= old(out)@ + seq![decimal_digit(n as nat)]);
        }
    }
}

/// The decimal form of `n`.
pub fn wide_decimal_text(n: u128) -> (r: String)
    ensures
        r@ == decimal(n as nat),
{
    let mut out: Vec<char> = Vec::new();
    push_decimal(&mut out, n);
    assert(out@ =~= decimal(n as nat));
    text_of(out.as_slice())
}

/// The decimal form of `n`.
pub fn decimal_text(n: u64) -> (r: String)
    ensures
        r@ == decimal(n as nat),
{
    wide_decimal_text(n as u128)
}

/// The decimal form of a signed number.
pub fn signed_decimal_text(n: i64) -> (r: String)
    ensures
        r@ == signed_decimal(n as int),
{
    let mut out: Vec<char> = Vec::new();
    if n < 0 {
        out.push('-');
        let magnitude: u128 = (0i128 - n as i128) as u128;
        push_decimal(&mut out, magnitude);
        assert(out@ =~= seq!['-'] + decimal((-n) as nat));
    } else {
        push_decimal(&mut out, n as u128);
        assert(out@ =~= decimal(n as nat));
    }
    text_of(out.as_slice())
}

/// The decimal form of a number is one digit or more, and those digits spell
/// the number.
pub proof fn lemma_decimal_value(n: nat)
    ensures
        decimal(n).len() >= 1,
        all_digits(decimal(n), 10),
        digits_value(decimal(n), 10) == n,
        decimal(n)[0] != '+',
    decreases n,
{
    assert('0' as u32 == 48 && '9' as u32 == 57 && '+' as u32 == 43);
    if n < 10 {
        let c = decimal_digit(n);
        assert(digit_value(c, 10) == Some(n));
        assert(decimal(n).drop_last() =~= Seq::empty());
        assert(digits_value(Seq::<char>::empty(), 10) == 0);
        reveal_with_fuel(digits_value, 2);
    } else {
        lemma_decimal_value(n / 10);
        let c = decimal_digit(n % 10);
        assert(digit_value(c, 10) == Some(n % 10));
        let s = decimal(n);
        assert(s.drop_last() =~= decimal(n / 10));
        assert forall|i: int| 0 <= i < s.len() implies #[trigger] digit_value(
            s[i],
            10,
        ) is Some by {
            if i < s.len() - 1 {
                assert(s[i] == decimal(n / 10)[i]);
            }
        }
    }
}

/// Reading back the decimal form of a number gives the number.
pub proof fn law_decimal_round_trip(n: u64)
    ensures
        u64_value(decimal(n as nat)) == Some(n as nat),
        n <= u32::MAX ==> u32_value(decimal(n as nat)) == Some(n as nat),
{
    lemma_decimal_value(n as nat);
}

} // verus!
