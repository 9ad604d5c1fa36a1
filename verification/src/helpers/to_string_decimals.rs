//! Rendering of a scaled magnitude as decimal text, `integer.fraction`.
use crate::arithmetic::{lemma_pow10_monotonic, lemma_pow10_positive, pow10};
use crate::helpers::pad_to_width::{
    pad_count, prepend_char, repeated, utf8_len, utf8_width, PadToWidth,
};
use vstd::arithmetic::div_mod::{lemma_fundamental_div_mod_converse, lemma_mod_bound};
use vstd::prelude::*;
use vstd::string::*;
use vstd::utf8::{is_ascii_chars, is_ascii_chars_encode_utf8};

verus! {

/// The character for the decimal digit `d`.
pub open spec fn digit_char(d: int) -> char {
    ((48 + d) as u8) as char
}

/// The decimal digits of `n`, most significant first, without leading zeros;
/// zero is the single digit `0`.
pub open spec fn decimal_digits(n: nat) -> Seq<char>
    decreases n,
{
    if n < 10 {
        seq![digit_char(n as int)]
    } else {
        decimal_digits(n / 10).push(digit_char((n % 10) as int))
    }
}

/// The digits with zeros in front of them until there are at least `places`.
pub open spec fn zero_filled(digits: Seq<char>, places: nat) -> Seq<char> {
    repeated(
        '0',
        if digits.len() >= places {
            0
        } else {
            (places - digits.len()) as nat
        },
    ) + digits
}

/// The text of the magnitude `value` at scale `decimals`: the digits of
/// `value / 10^decimals`, a point, and the digits of `value % 10^decimals`
/// filled with zeros to `decimals` places.
pub open spec fn decimal_text(value: nat, decimals: u32) -> Seq<char> {
    let unit = pow10(decimals as nat);
    decimal_digits(value / unit) + seq!['.'] + zero_filled(
        decimal_digits(value % unit),
        decimals as nat,
    )
}

/// Decimal digits are ASCII, so a number's text is as many bytes as digits.
pub proof fn lemma_decimal_digits_ascii(n: nat)
    ensures
        is_ascii_chars(decimal_digits(n)),
        utf8_len(decimal_digits(n)) == decimal_digits(n).len(),
    decreases n,
{
    if n >= 10 {
        lemma_decimal_digits_ascii(n / 10);
    }
    assert(is_ascii_chars(decimal_digits(n)));
    is_ascii_chars_encode_utf8(decimal_digits(n));
}

/// A number below ten to the power `places` has at most `places` digits.
pub proof fn lemma_decimal_digits_len(n: nat, places: nat)
    requires
        places >= 1,
        n < pow10(places),
    ensures
        1 <= decimal_digits(n).len() <= places,
    decreases places,
{
    if n >= 10 {
        assert(pow10(1) == 10) by {
            reveal_with_fuel(pow10, 2);
        }
        lemma_decimal_digits_len(n / 10, (places - 1) as nat);
    }
}

/// With at least one decimal place, the text after the point has exactly as
/// many digits as there are places.
pub proof fn lemma_fraction_has_scale_digits(value: nat, decimals: u32)
    requires
        decimals >= 1,
    ensures
        zero_filled(decimal_digits(value % pow10(decimals as nat)), decimals as nat).len()
            == decimals,
{
    let unit = pow10(decimals as nat);
    lemma_pow10_positive(decimals as nat);
    lemma_mod_bound(value as int, unit as int);
    lemma_decimal_digits_len(value % unit, decimals as nat);
}

/// The character of a decimal digit.
fn digit(d: u8) -> (c: char)
    requires
        d < 10,
    ensures
        c == digit_char(d as int),
{
    (48u8 + d) as char
}

/// The decimal digits of `n` as a string.
pub fn decimal_string(n: u64) -> (text: String)
    ensures
        text@ == decimal_digits(n as nat),
{
    let mut text = String::new();
    prepend_char(&mut text, digit((n % 10) as u8));
    let mut rest = n / 10;
    proof {
        assert(seq![digit_char((n % 10) as int)] + Seq::<char>::empty() =~= seq![
            digit_char((n % 10) as int),
        ]);
        if n >= 10 {
            assert(decimal_digits(n as nat) =~= decimal_digits(rest as nat) + text@);
        } else {
            assert(decimal_digits(n as nat) =~= Seq::<char>::empty() + text@);
        }
    }
    while rest > 0
        invariant
            decimal_digits(n as nat) == (if rest > 0 {
                decimal_digits(rest as nat)
            } else {
                Seq::<char>::empty()
            }) + text@,
        decreases rest,
    {
        let ghost before = text@;
        let ghost high = rest;
        prepend_char(&mut text, digit((rest % 10) as u8));
        rest = rest / 10;
        proof {
            if high >= 10 {
                assert(decimal_digits(high as nat) + before =~= decimal_digits(rest as nat)
                    + text@);
            } else {
                assert(decimal_digits(high as nat) + before =~= Seq::<char>::empty() + text@);
            }
        }
    }
    proof {
        assert(Seq::<char>::empty() + text@ =~= text@);
    }
    text
}

/// Splits a magnitude at its scale into the part before the point and the part
/// after it. A scale so large that its power of ten exceeds the magnitude
/// leaves nothing before the point.
pub fn split_at_scale(value: u64, decimals: u32) -> (parts: (u64, u64))
    ensures
        parts.0 == value as nat / pow10(decimals as nat),
        parts.1 == value as nat % pow10(decimals as nat),
{
    let mut unit: u64 = 1;
    let mut done: u32 = 0;
    while done < decimals
        invariant
            done <= decimals,
            unit == pow10(done as nat),
            unit <= value || done == 0,
        decreases decimals - done,
    {
        if unit > value / 10 {
            proof {
                assert(unit * 10 == pow10((done + 1) as nat));
                lemma_pow10_monotonic((done + 1) as nat, decimals as nat);
                lemma_fundamental_div_mod_converse(
                    value as int,
                    pow10(decimals as nat) as int,
                    0,
                    value as int,
                );
            }
            return (0, value);
        }
        assert(unit * 10 == pow10((done + 1) as nat));
        unit = unit * 10;
        done = done + 1;
    }
    proof {
        lemma_pow10_positive(decimals as nat);
    }
    (value / unit, value % unit)
}

/// The text of the magnitude `value` at scale `decimals`.
pub fn render_decimal(value: u64, decimals: u32) -> (text: String)
    ensures
        text@ == decimal_text(value as nat, decimals),
{
    let (integer_part, fractional_part) = split_at_scale(value, decimals);
    let digits = decimal_string(fractional_part);
    let fraction = digits.pad_to_width(decimals as usize, '0');
    let mut text = decimal_string(integer_part);
    text.append(".");
    text.append(fraction.as_str());
    proof {
        reveal_strlit(".");
        lemma_decimal_digits_ascii(fractional_part as nat);
        assert(utf8_width('0') == 1);
        assert("."@ =~= seq!['.']);
        let len = digits@.len();
        let places = decimals as nat;
        assert(utf8_len(digits@) == len);
        if len < places {
            lemma_fundamental_div_mod_converse(places - len + 1 - 1, 1, places - len, 0);
            assert(pad_count(len, places, 1) == places - len);
        }
        assert(fraction@ == zero_filled(digits@, places));
    }
    text
}

/// Rendering a magnitude with a given number of decimal places.
pub trait ToStringDecimals {
    /// The magnitude as text with `decimals` places after the point:
    /// `123456789` with two places is `1234567.89`. A negative magnitude reads
    /// as zero.
    fn to_string_decimals(self, decimals: u32) -> String;
}


impl ToStringDecimals for u8 {
    fn to_string_decimals(self, decimals: u32) -> (text: String)
        ensures
            text@ == decimal_text(self as nat, decimals),
    {
        render_decimal(self as u64, decimals)
    }
}

impl ToStringDecimals for u16 {
    fn to_string_decimals(self, decimals: u32) -> (text: String)
        ensures
            text@ == decimal_text(self as nat, decimals),
    {
        render_decimal(self as u64, decimals)
    }
}

impl ToStringDecimals for u32 {
    fn to_string_decimals(self, decimals: u32) -> (text: String)
        ensures
            text@ == decimal_text(self as nat, decimals),
    {
        render_decimal(self as u64, decimals)
    }
}

impl ToStringDecimals for i8 {
    fn to_string_decimals(self, decimals: u32) -> (text: String)
        ensures
            text@ == decimal_text(
                if self < 0 {
                    0
                } else {
                    self as nat
                },
                decimals,
            ),
    {
        if self < 0 {
            render_decimal(0, decimals)
        } else {
            render_decimal(self as u64, decimals)
        }
    }
}

impl ToStringDecimals for i16 {
    fn to_string_decimals(self, decimals: u32) -> (text: String)
        ensures
            text@ == decimal_text(
                if self < 0 {
                    0
                } else {
                    self as nat
                },
                decimals,
            ),
    {
        if self < 0 {
            render_decimal(0, decimals)
        } else {
            render_decimal(self as u64, decimals)
        }
    }
}

impl ToStringDecimals for i32 {
    fn to_string_decimals(self, decimals: u32) -> (text: String)
        ensures
            text@ == decimal_text(
                if self < 0 {
                    0
                } else {
                    self as nat
                },
                decimals,
            ),
    {
        if self < 0 {
            render_decimal(0, decimals)
        } else {
            render_decimal(self as u64, decimals)
        }
    }
}

} // verus!
