//! Reading a decimal integer.

use vstd::prelude::*;

verus! {

/// Whether a character is one of the ten decimal digits.
pub open spec fn is_digit(c: char) -> bool {
    '0' <= c && c <= '9'
}

/// Whether every character is a decimal digit.
pub open spec fn all_digits(s: Seq<char>) -> bool {
    forall|i: int| 0 <= i < s.len() ==> is_digit(#[trigger] s[i])
}

/// The number that a sequence of decimal digits writes.
pub open spec fn digits_value(s: Seq<char>) -> nat
    decreases s.len(),
{
    if s.len() == 0 {
        0
    } else {
        (digits_value(s.drop_last()) * 10 + (s.last() as nat - '0' as nat)) as nat
    }
}

/// Whether the text starts with a sign.
pub open spec fn has_sign(s: Seq<char>) -> bool {
    s.len() > 0 && (s[0] == '-' || s[0] == '+')
}

/// The text without its sign.
pub open spec fn unsigned_part(s: Seq<char>) -> Seq<char> {
    if has_sign(s) {
        s.skip(1)
    } else {
        s
    }
}

/// The 32-bit integer that the text writes in decimal: an optional `+` or
/// `-`, then one digit or more and nothing else. There is none when the text
/// has another shape or the number does not fit.
pub open spec fn parsed_i32(s: Seq<char>) -> Option<i32> {
    let digits = unsigned_part(s);
    let value = if s.len() > 0 && s[0] == '-' {
        -(digits_value(digits) as int)
    } else {
        digits_value(digits) as int
    };
    if digits.len() > 0 && all_digits(digits) && i32::MIN <= value <= i32::MAX {
        Some(value as i32)
    } else {
        None
    }
}

/// Reads a 32-bit integer written in decimal.
pub fn parse_i32(text: &str) -> (parsed: Option<i32>)
    ensures
        parsed == parsed_i32(text@),
{
    let mut first = true;
    let mut signed = false;
    let mut negative = false;
    let mut any = false;
    let mut valid = true;
    let mut overflow = false;
    let mut magnitude: u64 = 0;
    for c in it: text.chars()
        invariant
            it.seq() == text@,
            first == (it.index() == 0),
            signed == has_sign(text@.take(it.index() as int)),
            negative == (it.index() > 0 && text@[0] == '-'),
            any == (unsigned_part(text@.take(it.index() as int)).len() > 0),
            valid == all_digits(unsigned_part(text@.take(it.index() as int))),
            valid && !overflow ==> magnitude == digits_value(
                unsigned_part(text@.take(it.index() as int)),
            ),
            magnitude <= 0x8000_0000,
            valid && overflow ==> digits_value(unsigned_part(text@.take(it.index() as int)))
                > 0x8000_0000,
    {
        let ghost before = text@.take(it.index() as int);
        let ghost after = text@.take(it.index() + 1);
        let ghost digits = unsigned_part(before);
        proof {
            assert(after.drop_last() =~= before);
            assert(after.last() == c);
            assert(after =~= before.push(c));
        }
        if first && (c == '-' || c == '+') {
            signed = true;
            negative = c == '-';
            proof {
                assert(unsigned_part(after) =~= Seq::<char>::empty());
            }
        } else {
            proof {
                if first {
                    assert(before =~= Seq::<char>::empty());
                    assert(unsigned_part(after) =~= digits.push(c));
                } else {
                    assert(after[0] == before[0]);
                    assert(unsigned_part(after) =~= digits.push(c));
                }
                assert(digits.push(c).drop_last() =~= digits);
                if all_digits(digits.push(c)) {
                    assert forall|i: int| 0 <= i < digits.len() implies is_digit(
                        #[trigger] digits[i],
                    ) by {
                        assert(digits.push(c)[i] == digits[i]);
                    }
                    assert(digits.push(c)[digits.len() as int] == c);
                }
            }
            any = true;
            if c >= '0' && c <= '9' {
                let digit = (c as u32 - '0' as u32) as u64;
                if !overflow {
                    magnitude = magnitude * 10 + digit;
                    if magnitude > 0x8000_0000 {
                        overflow = true;
                        magnitude = 0;
                    }
                }
            } else {
                proof {
                    assert(!is_digit(digits.push(c)[digits.len() as int]));
                }
                valid = false;
            }
        }
        first = false;
    }
    proof {
        assert(text@.take(text@.len() as int) =~= text@);
    }
    if !valid || !any || overflow {
        None
    } else if negative {
        Some((0 - (magnitude as i64)) as i32)
    } else if magnitude <= 0x7fff_ffff {
        Some(magnitude as i32)
    } else {
        None
    }
}

/// The character of a digit.
pub open spec fn digit_char(digit: nat) -> char
    recommends
        digit < 10,
{
    ('0' as nat + digit) as char
}

/// The number written in decimal, without leading zeros.
pub open spec fn decimal_of(n: nat) -> Seq<char>
    decreases n,
{
    if n < 10 {
        seq![digit_char(n)]
    } else {
        decimal_of(n / 10).push(digit_char(n % 10))
    }
}

/// Appends a number written in decimal.
fn push_decimal(text: &mut String, n: usize)
    ensures
        final(text)@ == old(text)@ + decimal_of(n as nat),
    decreases n,
{
    if n >= 10 {
        push_decimal(text, n / 10);
    }
    let digit = ((n % 10) as u8 + 48u8) as char;
    text.push(digit);
    proof {
        assert(digit == digit_char((n % 10) as nat));
        assert(text@ =~= old(text)@ + decimal_of(n as nat));
    }
}

/// The number written in decimal.
pub fn to_decimal(n: usize) -> (text: String)
    ensures
        text@ == decimal_of(n as nat),
{
    let mut text = String::new();
    push_decimal(&mut text, n);
    proof {
        assert(Seq::<char>::empty() + decimal_of(n as nat) =~= decimal_of(n as nat));
    }
    text
}

} // verus!
