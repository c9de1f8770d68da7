//! Numbers as text.

use vstd::prelude::*;

verus! {

/// `String::push` of the standard library appends one character to the end
/// of the text and changes nothing else.
pub assume_specification[ String::push ](text: &mut String, c: char)
    ensures
        final(text)@ == old(text)@.push(c),
;

/// The numeral of a single digit.
pub open spec fn digit(d: int) -> Seq<char> {
    if d == 0 {
        "0"@
    } else if d == 1 {
        "1"@
    } else if d == 2 {
        "2"@
    } else if d == 3 {
        "3"@
    } else if d == 4 {
        "4"@
    } else if d == 5 {
        "5"@
    } else if d == 6 {
        "6"@
    } else if d == 7 {
        "7"@
    } else if d == 8 {
        "8"@
    } else {
        "9"@
    }
}

/// A natural number in decimal, without leading zeros.
pub open spec fn decimal(n: nat) -> Seq<char>
    decreases n,
{
    if n < 10 {
        digit(n as int)
    } else {
        decimal(n / 10) + digit((n % 10) as int)
    }
}

/// An integer in decimal, with a minus sign where it is negative.
pub open spec fn signed_decimal(v: int) -> Seq<char> {
    if v < 0 {
        "-"@ + decimal((-v) as nat)
    } else {
        decimal(v as nat)
    }
}

/// A number below a hundred in two digits.
pub open spec fn two_digits(n: int) -> Seq<char> {
    digit(n / 10) + digit(n % 10)
}

/// A number below a thousand in three digits.
pub open spec fn three_digits(n: int) -> Seq<char> {
    digit(n / 100) + two_digits(n % 100)
}

/// A count of hundredths as a decimal fraction with two places: `150` is
/// `1.50`.
pub open spec fn hundredths(n: nat) -> Seq<char> {
    decimal(n / 100) + "."@ + two_digits((n % 100) as int)
}

/// A count of thousandths as a decimal fraction with three places: `950` is
/// `0.950`.
pub open spec fn thousandths(n: nat) -> Seq<char> {
    decimal(n / 1000) + "."@ + three_digits((n % 1000) as int)
}

/// The numeral of a single digit.
pub(crate) fn digit_text(d: u128) -> (s: &'static str)
    requires
        d < 10,
    ensures
        s@ == digit(d as int),
{
    if d == 0 {
        "0"
    } else if d == 1 {
        "1"
    } else if d == 2 {
        "2"
    } else if d == 3 {
        "3"
    } else if d == 4 {
        "4"
    } else if d == 5 {
        "5"
    } else if d == 6 {
        "6"
    } else if d == 7 {
        "7"
    } else if d == 8 {
        "8"
    } else {
        "9"
    }
}

/// A number in decimal.
pub fn decimal_text(n: u128) -> (s: String)
    ensures
        s@ == decimal(n as nat),
    decreases n,
{
    if n < 10 {
        String::from_str(digit_text(n))
    } else {
        decimal_text(n / 10).concat(digit_text(n % 10))
    }
}

/// An integer in decimal, with a minus sign where it is negative.
pub fn signed_decimal_text(v: i128) -> (s: String)
    ensures
        s@ == signed_decimal(v as int),
{
    if v < 0 {
        let magnitude: u128 = ((-(v + 1)) as u128) + 1;
        String::from_str("-").concat(decimal_text(magnitude).as_str())
    } else {
        decimal_text(v as u128)
    }
}

/// A number below a hundred in two digits.
pub(crate) fn two_digits_text(n: u128) -> (s: String)
    requires
        n < 100,
    ensures
        s@ == two_digits(n as int),
{
    String::from_str(digit_text(n / 10)).concat(digit_text(n % 10))
}

/// A number below a thousand in three digits.
pub(crate) fn three_digits_text(n: u128) -> (s: String)
    requires
        n < 1000,
    ensures
        s@ == three_digits(n as int),
{
    String::from_str(digit_text(n / 100)).concat(two_digits_text(n % 100).as_str())
}

/// A count of hundredths as a decimal fraction with two places.
pub fn hundredths_text(n: u128) -> (s: String)
    ensures
        s@ == hundredths(n as nat),
{
    decimal_text(n / 100).concat(".").concat(two_digits_text(n % 100).as_str())
}

/// A count of thousandths as a decimal fraction with three places.
pub fn thousandths_text(n: u128) -> (s: String)
    ensures
        s@ == thousandths(n as nat),
{
    decimal_text(n / 1000).concat(".").concat(three_digits_text(n % 1000).as_str())
}

/// A text written `n` times in a row.
pub open spec fn repeated(unit: Seq<char>, n: nat) -> Seq<char>
    decreases n,
{
    if n == 0 {
        Seq::empty()
    } else {
        repeated(unit, (n - 1) as nat) + unit
    }
}

/// A text written `n` times in a row.
pub fn repeated_text(unit: &str, n: usize) -> (s: String)
    ensures
        s@ == repeated(unit@, n as nat),
{
    let mut s = String::new();
    let mut i: usize = 0;
    while i < n
        invariant
            i <= n,
            s@ == repeated(unit@, i as nat),
        decreases n - i,
    {
        s.append(unit);
        i += 1;
    }
    s
}

/// `numerator / denominator` in units of one `scale`-th, rounded to the
/// nearest, halves up; zero where the denominator is zero.
pub open spec fn rounded_ratio(numerator: nat, denominator: nat, scale: nat) -> nat {
    if denominator == 0 {
        0
    } else {
        (2 * numerator * scale + denominator) / (2 * denominator)
    }
}

/// `numerator / denominator` in units of one `scale`-th, rounded to the
/// nearest.
pub fn rounded_ratio_of(numerator: u64, denominator: u64, scale: u32) -> (r: u128)
    ensures
        r == rounded_ratio(numerator as nat, denominator as nat, scale as nat),
{
    if denominator == 0 {
        0
    } else {
        let n: u128 = numerator as u128;
        let k: u128 = scale as u128;
        assert(2 * n * k <= 2 * 0xffff_ffff_ffff_ffff * 0xffff_ffff) by (nonlinear_arith)
            requires
                0 <= n <= 0xffff_ffff_ffff_ffff,
                0 <= k <= 0xffff_ffff,
        ;
        (2 * n * k + denominator as u128) / (2 * denominator as u128)
    }
}

/// A count of tenths as a decimal fraction with one place: `333` is `33.3`.
pub open spec fn tenths(n: nat) -> Seq<char> {
    decimal(n / 10) + "."@ + digit((n % 10) as int)
}

/// A count of tenths as a decimal fraction with one place.
pub fn tenths_text(n: u128) -> (s: String)
    ensures
        s@ == tenths(n as nat),
{
    decimal_text(n / 10).concat(".").concat(digit_text(n % 10))
}

/// A count of halves as a decimal fraction with one place: `121` is `60.5`
/// and `-3` is `-1.5`.
pub open spec fn halves(h: int) -> Seq<char> {
    let m = if h < 0 {
        -h
    } else {
        h
    };
    (if h < 0 {
        "-"@
    } else {
        Seq::<char>::empty()
    }) + decimal((m / 2) as nat) + (if m % 2 == 1 {
        ".5"@
    } else {
        ".0"@
    })
}

/// A count of halves as a decimal fraction with one place.
pub fn halves_text(h: i64) -> (s: String)
    ensures
        s@ == halves(h as int),
{
    let m: u128 = if h < 0 {
        (-(h as i128)) as u128
    } else {
        h as u128
    };
    let mut s = String::new();
    if h < 0 {
        s.append("-");
    }
    let ghost sign = s@;
    s.append(decimal_text(m / 2).as_str());
    if m % 2 == 1 {
        s.append(".5");
    } else {
        s.append(".0");
    }
    proof {
        let tail = if m % 2 == 1 {
            ".5"@
        } else {
            ".0"@
        };
        assert(s@ =~= sign + decimal((m / 2) as nat) + tail);
    }
    s
}

/// The texts of some lines, in order.
pub open spec fn spec_lines_of(lines: Seq<String>) -> Seq<Seq<char>> {
    Seq::new(lines.len(), |i: int| lines[i]@)
}

} // verus!
