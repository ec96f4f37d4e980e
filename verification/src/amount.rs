//! Fixed-point amounts and their decimal text.
//!
//! An amount is a signed count of ten-thousandths of the currency unit. Its text has
//! an optional minus sign, the whole units, a point, and exactly four fractional
//! digits: `15_000` reads `1.5000`, `-1` reads `-0.0001`.

use vstd::arithmetic::div_mod::{lemma_div_denominator, lemma_fundamental_div_mod};
use vstd::prelude::*;
use vstd::string::StringExecFns;

verus! {

/// How many ten-thousandths make one currency unit.
pub const SCALE: i64 = 10_000;

/// Whether `value` can be held in the machine representation of an amount.
pub open spec fn in_range(value: int) -> bool {
    i64::MIN <= value <= i64::MAX
}

/// The character of the decimal digit `d`.
pub open spec fn digit_char(d: nat) -> char
    recommends
        d < 10,
{
    if d == 0 {
        '0'
    } else if d == 1 {
        '1'
    } else if d == 2 {
        '2'
    } else if d == 3 {
        '3'
    } else if d == 4 {
        '4'
    } else if d == 5 {
        '5'
    } else if d == 6 {
        '6'
    } else if d == 7 {
        '7'
    } else if d == 8 {
        '8'
    } else {
        '9'
    }
}

/// The decimal digits of `n`, most significant first, without leading zeros.
pub open spec fn decimal_text(n: nat) -> Seq<char>
    decreases n,
{
    if n < 10 {
        seq![digit_char(n)]
    } else {
        decimal_text(n / 10).push(digit_char(n % 10))
    }
}

/// The four digits of a fraction of `n` ten-thousandths, `n` below [`SCALE`].
pub open spec fn fraction_text(n: nat) -> Seq<char>
    recommends
        n < SCALE,
{
    seq![
        digit_char(n / 1000),
        digit_char(n / 100 % 10),
        digit_char(n / 10 % 10),
        digit_char(n % 10),
    ]
}

/// The text of an amount of `value` ten-thousandths.
pub open spec fn amount_text(value: int) -> Seq<char> {
    let magnitude = if value < 0 { (-value) as nat } else { value as nat };
    let sign = if value < 0 { seq!['-'] } else { Seq::<char>::empty() };
    sign + decimal_text(magnitude / (SCALE as nat)) + seq!['.'] + fraction_text(
        magnitude % (SCALE as nat),
    )
}

/// The digit that the character `c` stands for; zero for any other character.
pub open spec fn digit_value(c: char) -> nat {
    if c == '1' {
        1
    } else if c == '2' {
        2
    } else if c == '3' {
        3
    } else if c == '4' {
        4
    } else if c == '5' {
        5
    } else if c == '6' {
        6
    } else if c == '7' {
        7
    } else if c == '8' {
        8
    } else if c == '9' {
        9
    } else {
        0
    }
}

/// Whether `c` is one of the ten decimal digits.
pub open spec fn is_digit(c: char) -> bool {
    c == '0' || digit_value(c) != 0
}

/// The number that a sequence of decimal digits denotes, most significant first.
pub open spec fn digits_value(digits: Seq<char>) -> nat
    decreases digits.len(),
{
    if digits.len() == 0 {
        0
    } else {
        10 * digits_value(digits.drop_last()) + digit_value(digits.last())
    }
}

/// The decimal text of a number is made of digits, has no leading zero but for zero
/// itself, and denotes that number.
pub proof fn decimal_text_denotes(n: nat)
    ensures
        decimal_text(n).len() >= 1,
        forall|i: int| 0 <= i < decimal_text(n).len() ==> is_digit(#[trigger] decimal_text(n)[i]),
        decimal_text(n)[0] == '0' <==> n == 0,
        digits_value(decimal_text(n)) == n,
    decreases n,
{
    digit_char_denotes(n % 10);
    if n < 10 {
        assert(decimal_text(n).drop_last() =~= Seq::<char>::empty());
        assert(digits_value(decimal_text(n)) == 10 * digits_value(decimal_text(n).drop_last())
            + digit_value(decimal_text(n).last()));
    } else {
        let head = decimal_text(n / 10);
        decimal_text_denotes(n / 10);
        assert(decimal_text(n).drop_last() =~= head);
    }
}

/// The character of a digit stands for that digit.
pub proof fn digit_char_denotes(d: nat)
    requires
        d < 10,
    ensures
        is_digit(digit_char(d)),
        digit_value(digit_char(d)) == d,
{
}

/// A number below ten thousand is the sum of its four decimal places.
proof fn four_places(n: nat)
    requires
        n < 10_000,
    ensures
        n / 1000 < 10,
        1000 * (n / 1000) + 100 * (n / 100 % 10) + 10 * (n / 10 % 10) + n % 10 == n,
{
    let n = n as int;
    lemma_fundamental_div_mod(n, 10);
    lemma_fundamental_div_mod(n / 10, 10);
    lemma_fundamental_div_mod(n / 100, 10);
    lemma_div_denominator(n, 10, 10);
    lemma_div_denominator(n, 100, 10);
    assert(n / 10 / 10 == n / 100);
    assert(n / 100 / 10 == n / 1000);
}

/// The fraction text has four digits and denotes the number of ten-thousandths.
pub proof fn fraction_text_denotes(n: nat)
    requires
        n < SCALE,
    ensures
        fraction_text(n).len() == 4,
        forall|i: int| 0 <= i < 4 ==> is_digit(#[trigger] fraction_text(n)[i]),
        digits_value(fraction_text(n)) == n,
{
    let text = fraction_text(n);
    let three = text.drop_last();
    let two = three.drop_last();
    let one = two.drop_last();
    four_places(n);
    digit_char_denotes(n / 1000);
    digit_char_denotes(n / 100 % 10);
    digit_char_denotes(n / 10 % 10);
    digit_char_denotes(n % 10);
    // One digit after the other, from the most significant.
    assert(digits_value(one) == n / 1000) by {
        assert(digits_value(one) == 10 * digits_value(one.drop_last()) + digit_value(one.last()));
    }
    assert(digits_value(two) == 10 * digits_value(one) + digit_value(two.last()));
    assert(digits_value(three) == 10 * digits_value(two) + digit_value(three.last()));
    assert(digits_value(text) == 10 * digits_value(three) + digit_value(text.last()));
}

/// The text of an amount is a minus sign where the amount is negative, then the
/// digits of the whole units, a point, and four digits of fraction; whole units and
/// fraction together denote the magnitude of the amount.
pub proof fn amount_text_denotes(value: int)
    ensures
        ({
            let magnitude = if value < 0 { (-value) as nat } else { value as nat };
            let sign = if value < 0 { seq!['-'] } else { Seq::<char>::empty() };
            let whole = decimal_text(magnitude / (SCALE as nat));
            let fraction = fraction_text(magnitude % (SCALE as nat));
            &&& amount_text(value) == sign + whole + seq!['.'] + fraction
            &&& amount_text(value).len() == sign.len() + whole.len() + 5
            &&& fraction.len() == 4
            &&& SCALE * digits_value(whole) + digits_value(fraction) == magnitude
        }),
{
    let magnitude = if value < 0 { (-value) as nat } else { value as nat };
    decimal_text_denotes(magnitude / (SCALE as nat));
    fraction_text_denotes(magnitude % (SCALE as nat));
}

/// Appends the character of the digit `d`.
fn push_digit(text: &mut String, d: u64)
    requires
        d < 10,
    ensures
        final(text)@ == old(text)@.push(digit_char(d as nat)),
{
    proof {
        reveal_strlit("0");
        reveal_strlit("1");
        reveal_strlit("2");
        reveal_strlit("3");
        reveal_strlit("4");
        reveal_strlit("5");
        reveal_strlit("6");
        reveal_strlit("7");
        reveal_strlit("8");
        reveal_strlit("9");
    }
    let digit = if d == 0 {
        "0"
    } else if d == 1 {
        "1"
    } else if d == 2 {
        "2"
    } else if d == 3 {
        "3"
    } else if d == 4 {
        "4"
    } else if d == 5 {
        "5"
    } else if d == 6 {
        "6"
    } else if d == 7 {
        "7"
    } else if d == 8 {
        "8"
    } else {
        "9"
    };
    assert(digit@ =~= seq![digit_char(d as nat)]);
    text.append(digit);
}

/// Appends the decimal digits of `n`.
pub fn push_decimal(text: &mut String, n: u64)
    ensures
        final(text)@ == old(text)@ + decimal_text(n as nat),
    decreases n,
{
    if n >= 10 {
        push_decimal(text, n / 10);
    }
    push_digit(text, n % 10);
}

/// Appends the text of the amount `value`.
pub fn push_amount(text: &mut String, value: i64)
    ensures
        final(text)@ == old(text)@ + amount_text(value as int),
{
    let magnitude: u64 = if value < 0 {
        text.append("-");
        (-(value as i128)) as u64
    } else {
        value as u64
    };
    let fraction: u64 = magnitude % (SCALE as u64);
    push_decimal(text, magnitude / (SCALE as u64));
    text.append(".");
    push_digit(text, fraction / 1000);
    push_digit(text, fraction / 100 % 10);
    push_digit(text, fraction / 10 % 10);
    push_digit(text, fraction % 10);
    proof {
        reveal_strlit("-");
        reveal_strlit(".");
        assert("-"@ =~= seq!['-']);
    }
}

/// Returns the text of the amount `value`: `format_amount(1_000)` is `0.1000`.
pub fn format_amount(value: i64) -> (text: String)
    ensures
        text@ == amount_text(value as int),
{
    let mut text = String::new();
    push_amount(&mut text, value);
    text
}

} // verus!
