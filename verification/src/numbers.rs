//! Reading and writing integers as digit strings.

use vstd::prelude::*;

verus! {

/// The value of a digit in the given radix: `0`-`9`, then the letters of
/// either case from 10 on; `None` for any other character and for a digit
/// that the radix does not have.
pub open spec fn digit_value(c: char, radix: u32) -> Option<u32> {
    let code = c as u32;
    if 48 <= code <= 57 && code - 48 < radix {
        Some((code - 48) as u32)
    } else if 97 <= code <= 122 && code - 87 < radix {
        Some((code - 87) as u32)
    } else if 65 <= code <= 90 && code - 55 < radix {
        Some((code - 55) as u32)
    } else {
        None
    }
}

/// Whether every character is a digit of the radix.
pub open spec fn all_digits(s: Seq<char>, radix: u32) -> bool {
    forall|i: int| 0 <= i < s.len() ==> (#[trigger] digit_value(s[i], radix)) is Some
}

/// The number that a string of digits denotes, most significant digit
/// first. A character that is no digit counts as 0.
pub open spec fn digits_value(s: Seq<char>, radix: u32) -> nat
    decreases s.len(),
{
    if s.len() == 0 {
        0
    } else {
        let last = match digit_value(s.last(), radix) {
            Some(d) => d as nat,
            None => 0,
        };
        digits_value(s.drop_last(), radix) * (radix as nat) + last
    }
}

/// The number that a non-empty string of digits denotes, unless it is
/// above `max`.
pub open spec fn parse_magnitude(s: Seq<char>, radix: u32, max: nat) -> Option<nat> {
    if s.len() > 0 && all_digits(s, radix) && digits_value(s, radix) <= max {
        Some(digits_value(s, radix))
    } else {
        None
    }
}

/// A signed 32-bit number in the given radix: an optional `+` or `-`, then
/// at least one digit, with a value that fits.
pub open spec fn parse_i32(s: Seq<char>, radix: u32) -> Option<i32> {
    if s.len() > 0 && s[0] == '-' {
        match parse_magnitude(s.skip(1), radix, 0x8000_0000) {
            Some(m) => Some((-m) as i32),
            None => None,
        }
    } else if s.len() > 0 && s[0] == '+' {
        match parse_magnitude(s.skip(1), radix, 0x7FFF_FFFF) {
            Some(m) => Some(m as i32),
            None => None,
        }
    } else {
        match parse_magnitude(s, radix, 0x7FFF_FFFF) {
            Some(m) => Some(m as i32),
            None => None,
        }
    }
}

/// An unsigned 32-bit decimal number: an optional `+`, then at least one
/// digit, with a value that fits.
pub open spec fn parse_u32(s: Seq<char>) -> Option<u32> {
    let digits = if s.len() > 0 && s[0] == '+' {
        s.skip(1)
    } else {
        s
    };
    match parse_magnitude(digits, 10, 0xFFFF_FFFF) {
        Some(m) => Some(m as u32),
        None => None,
    }
}

/// The decimal digits of a number, without leading zeros.
pub open spec fn decimal_digits(n: nat) -> Seq<char>
    decreases n,
{
    if n < 10 {
        seq![decimal_digit(n)]
    } else {
        decimal_digits(n / 10).push(decimal_digit(n % 10))
    }
}

/// The character of a decimal digit.
pub open spec fn decimal_digit(d: nat) -> char {
    if d == 0 {
        '0'
    } else if d == 1 {
        '1'
    } else if d == 2 {
        '2'
    } else if d == 3 {
        '3'
    } else if d == 4 {
        '4'
    } else if d == 5 {
        '5'
    } else if d == 6 {
        '6'
    } else if d == 7 {
        '7'
    } else if d == 8 {
        '8'
    } else {
        '9'
    }
}

/// A longer string of digits denotes no smaller number than its prefixes.
proof fn lemma_prefix_value(s: Seq<char>, k: int, radix: u32)
    requires
        0 <= k <= s.len(),
        radix >= 1,
    ensures
        digits_value(s.take(k), radix) <= digits_value(s, radix),
    decreases s.len(),
{
    if k == s.len() {
        assert(s.take(k) =~= s);
    } else {
        assert(s.drop_last().take(k) =~= s.take(k));
        lemma_prefix_value(s.drop_last(), k, radix);
        let v = digits_value(s.drop_last(), radix);
        assert(v * (radix as nat) >= v) by (nonlinear_arith)
            requires
                radix >= 1,
        ;
    }
}

/// The value of a digit character in the given radix.
pub fn digit_of(c: char, radix: u32) -> (d: Option<u32>)
    requires
        2 <= radix <= 36,
    ensures
        d == digit_value(c, radix),
        d is Some ==> d->0 < radix,
{
    let code: u32 = c as u32;
    if 48 <= code && code <= 57 && code - 48 < radix {
        Some(code - 48)
    } else if 97 <= code && code <= 122 && code - 87 < radix {
        Some(code - 87)
    } else if 65 <= code && code <= 90 && code - 55 < radix {
        Some(code - 55)
    } else {
        None
    }
}

/// Reads the digits from position `start` to the end as one number.
pub fn read_magnitude(s: &Vec<char>, start: usize, radix: u32, max: u64) -> (value: Option<u64>)
    requires
        start <= s.len(),
        2 <= radix <= 36,
        max <= 0xFFFF_FFFF,
    ensures
        match parse_magnitude(s@.skip(start as int), radix, max as nat) {
            Some(m) => value == Some(m as u64),
            None => value is None,
        },
{
    let ghost t = s@.skip(start as int);
    if start == s.len() {
        return None;
    }
    let mut acc: u64 = 0;
    let mut i: usize = start;
    while i < s.len()
        invariant
            start <= i <= s.len(),
            t == s@.skip(start as int),
            2 <= radix <= 36,
            max <= 0xFFFF_FFFF,
            all_digits(t.take(i - start), radix),
            acc == digits_value(t.take(i - start), radix),
            acc <= max,
        decreases s.len() - i,
    {
        let ghost before = t.take(i - start);
        let ghost after = t.take(i - start + 1);
        proof {
            assert(after.drop_last() =~= before);
            assert(after.last() == s@[i as int]);
        }
        match digit_of(s[i], radix) {
            None => {
                assert(digit_value(t[i - start], radix) is None);
                return None;
            },
            Some(d) => {
                assert((acc as int) * (radix as int) <= 0xFFFF_FFFF * 36) by (nonlinear_arith)
                    requires
                        acc <= 0xFFFF_FFFF,
                        radix <= 36,
                ;
                let next: u64 = acc * (radix as u64) + (d as u64);
                assert(next == digits_value(after, radix));
                if next > max {
                    proof {
                        lemma_prefix_value(t, i - start + 1, radix);
                    }
                    return None;
                }
                acc = next;
                assert forall|j: int| 0 <= j < after.len() implies (#[trigger] digit_value(
                    after[j],
                    radix,
                )) is Some by {
                    if j < before.len() {
                        assert(after[j] == before[j]);
                    }
                }
            },
        }
        i += 1;
    }
    assert(t.take(i - start) =~= t);
    Some(acc)
}

/// Reads the characters from position `start` to the end as a signed
/// 32-bit number.
pub fn read_i32(s: &Vec<char>, start: usize, radix: u32) -> (value: Option<i32>)
    requires
        start <= s.len(),
        2 <= radix <= 36,
    ensures
        value == parse_i32(s@.skip(start as int), radix),
{
    let ghost t = s@.skip(start as int);
    if start < s.len() && s[start] == '-' {
        assert(t.skip(1) =~= s@.skip(start + 1));
        match read_magnitude(s, start + 1, radix, 0x8000_0000) {
            Some(m) => {
                let wide: i64 = -(m as i64);
                Some(wide as i32)
            },
            None => None,
        }
    } else if start < s.len() && s[start] == '+' {
        assert(t.skip(1) =~= s@.skip(start + 1));
        match read_magnitude(s, start + 1, radix, 0x7FFF_FFFF) {
            Some(m) => Some(m as i32),
            None => None,
        }
    } else {
        match read_magnitude(s, start, radix, 0x7FFF_FFFF) {
            Some(m) => Some(m as i32),
            None => None,
        }
    }
}

/// Reads a whole string as an unsigned 32-bit decimal number.
pub fn read_u32(s: &Vec<char>) -> (value: Option<u32>)
    ensures
        value == parse_u32(s@),
{
    let start: usize = if s.len() > 0 && s[0] == '+' {
        1
    } else {
        0
    };
    assert(s@.skip(0) =~= s@);
    match read_magnitude(s, start, 10, 0xFFFF_FFFF) {
        Some(m) => Some(m as u32),
        None => None,
    }
}

fn digit_char(d: u32) -> (c: char)
    requires
        d < 10,
    ensures
        c == decimal_digit(d as nat),
{
    if d == 0 {
        '0'
    } else if d == 1 {
        '1'
    } else if d == 2 {
        '2'
    } else if d == 3 {
        '3'
    } else if d == 4 {
        '4'
    } else if d == 5 {
        '5'
    } else if d == 6 {
        '6'
    } else if d == 7 {
        '7'
    } else if d == 8 {
        '8'
    } else {
        '9'
    }
}

/// Appends the decimal digits of a number to a string.
pub fn push_decimal(out: &mut String, n: u32)
    ensures
        final(out)@ == old(out)@ + decimal_digits(n as nat),
    decreases n,
{
    if n >= 10 {
        push_decimal(out, n / 10);
    }
    out.push(digit_char(n % 10));
    assert(out@ =~= old(out)@ + decimal_digits(n as nat));
}

/// The decimal representation of a number.
pub fn decimal_string(n: u32) -> (text: String)
    ensures
        text@ == decimal_digits(n as nat),
{
    let mut text = String::new();
    push_decimal(&mut text, n);
    assert(text@ =~= decimal_digits(n as nat));
    text
}

} // verus!
