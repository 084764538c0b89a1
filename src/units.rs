use vstd::prelude::*;
use vstd::string::*;

verus! {

/// Whole degrees Fahrenheit for `celsius` degrees Celsius: `celsius * 9 / 5 + 32`
/// rounded to the nearest integer (floor of the value plus two fifths).
/// Nine fifths of a whole number never ends in exactly one half, so there is
/// no tie to break.
pub open spec fn fahrenheit_of(celsius: int) -> int {
    (9 * celsius + 160 + 2) / 5
}

/// The decimal digit character for `d`, which lies in `0..10`.
pub open spec fn digit_char(d: nat) -> char {
    if d == 0 {
        '0'
    } else if d == 1 {
        '1'
    } else if d == 2 {
        '2'
    } else if d == 3 {
        '3'
    } else if d == 4 {
        '4'
    } else if d == 5 {
        '5'
    } else if d == 6 {
        '6'
    } else if d == 7 {
        '7'
    } else if d == 8 {
        '8'
    } else {
        '9'
    }
}

/// The decimal digits of `n`, without leading zeros.
pub open spec fn digits(n: nat) -> Seq<char>
    decreases n,
{
    if n < 10 {
        seq![digit_char(n)]
    } else {
        digits(n / 10).push(digit_char(n % 10))
    }
}

/// The decimal text of `n`, with a leading `-` when it is negative.
pub open spec fn decimal(n: int) -> Seq<char> {
    if n < 0 {
        seq!['-'] + digits((-n) as nat)
    } else {
        digits(n as nat)
    }
}

/// The text shown for a temperature of `celsius` degrees, in Fahrenheit
/// (`68°F`) or in Celsius (`20°C`).
pub open spec fn temperature_text(celsius: int, use_fahrenheit: bool) -> Seq<char> {
    if use_fahrenheit {
        decimal(fahrenheit_of(celsius)) + "°F"@
    } else {
        decimal(celsius) + "°C"@
    }
}

const SHIFT: i64 = 8589934592;

/// Converts whole degrees Celsius to whole degrees Fahrenheit, rounding to
/// the nearest degree: 20 gives 68 and 21 gives 70 (from 69.8).
pub fn celsius_to_fahrenheit(celsius: i32) -> (r: i64)
    ensures
        r == fahrenheit_of(celsius as int),
        -2 <= 5 * r - (9 * celsius + 160) <= 2,
{
    // Shifting by a multiple of five keeps the dividend non-negative, where
    // integer division rounds down.
    let x: i64 = 9 * (celsius as i64) + 162 + 5 * SHIFT;
    let r = x / 5 - SHIFT;
    r
}

fn digit_text(d: u64) -> (r: &'static str)
    requires
        d < 10,
    ensures
        r@ == seq![digit_char(d as nat)],
{
    proof {
        reveal_strlit("0");
        reveal_strlit("1");
        reveal_strlit("2");
        reveal_strlit("3");
        reveal_strlit("4");
        reveal_strlit("5");
        reveal_strlit("6");
        reveal_strlit("7");
        reveal_strlit("8");
        reveal_strlit("9");
    }
    if d == 0 {
        "0"
    } else if d == 1 {
        "1"
    } else if d == 2 {
        "2"
    } else if d == 3 {
        "3"
    } else if d == 4 {
        "4"
    } else if d == 5 {
        "5"
    } else if d == 6 {
        "6"
    } else if d == 7 {
        "7"
    } else if d == 8 {
        "8"
    } else {
        "9"
    }
}

fn append_digits(out: &mut String, n: u64)
    ensures
        final(out)@ == old(out)@ + digits(n as nat),
    decreases n,
{
    if n >= 10 {
        append_digits(out, n / 10);
    }
    out.append(digit_text(n % 10));
    assert(final(out)@ =~= old(out)@ + digits(n as nat));
}

/// The decimal text of `n`.
pub fn decimal_text(n: i64) -> (r: String)
    ensures
        r@ == decimal(n as int),
{
    let mut out = String::new();
    if n < 0 {
        out.append("-");
        proof {
            reveal_strlit("-");
        }
        let magnitude: u64 = ((-(n + 1)) as u64) + 1;
        append_digits(&mut out, magnitude);
        assert(out@ =~= decimal(n as int));
    } else {
        append_digits(&mut out, n as u64);
        assert(out@ =~= decimal(n as int));
    }
    out
}

/// The display text of a temperature of `celsius` degrees, in whole degrees
/// Fahrenheit (`68°F`) when `use_fahrenheit` is set and in Celsius (`20°C`)
/// otherwise.
pub fn display_temperature(celsius: i32, use_fahrenheit: bool) -> (r: String)
    ensures
        r@ == temperature_text(celsius as int, use_fahrenheit),
{
    if use_fahrenheit {
        let mut out = decimal_text(celsius_to_fahrenheit(celsius));
        out.append("°F");
        out
    } else {
        let mut out = decimal_text(celsius as i64);
        out.append("°C");
        out
    }
}

} // verus!
