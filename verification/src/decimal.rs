//! The operations that `Money` takes from `rust_decimal::Decimal`.
//!
//! Each function here rebuilds the `Decimal` that a `Money` stands for
//! (`from_i128_with_scale` followed by `set_sign_negative`, which keeps a negative
//! zero), makes one call, and takes the result apart again (`is_sign_negative`,
//! `mantissa`, `scale`). Where the rounding of `rust_decimal` takes pages to state,
//! the result is named, together with the short facts its source shows.

use vstd::prelude::*;
use crate::text::{all_ascii_digits, digits_value};
use crate::money::{
    decimal_text, in_range, max_mantissa, max_places, representable_at, rounded, unit,
    zero_spec, Money,
};
use rust_decimal::Decimal;
use rust_decimal::RoundingStrategy;

verus! {

/// What `Decimal + Decimal` returns.
pub uninterp spec fn decimal_sum(a: Money, b: Money) -> Money;

/// What `Decimal - Decimal` returns.
pub uninterp spec fn decimal_difference(a: Money, b: Money) -> Money;

/// What `Decimal * Decimal` returns.
pub uninterp spec fn decimal_product(a: Money, b: Money) -> Money;

/// What `Decimal / Decimal` returns.
pub uninterp spec fn decimal_quotient(a: Money, b: Money) -> Money;

/// What `<Decimal as FromStr>::from_str` returns on a text (`None` for an error).
pub uninterp spec fn decimal_parse(text: Seq<char>) -> Option<Money>;

/// `text` is a plain decimal number: an optional `-`, the digits `whole` (at least one),
/// and, when `fraction` is not empty, a `.` followed by the digits `fraction`; at most 28
/// digits in all.
pub open spec fn plain_decimal_text(
    text: Seq<char>,
    negative: bool,
    whole: Seq<char>,
    fraction: Seq<char>,
) -> bool {
    &&& whole.len() >= 1
    &&& all_ascii_digits(whole)
    &&& all_ascii_digits(fraction)
    &&& whole.len() + fraction.len() <= 28
    &&& text == (if negative {
        seq!['-']
    } else {
        Seq::<char>::empty()
    }) + whole + (if fraction.len() == 0 {
        Seq::<char>::empty()
    } else {
        seq!['.'] + fraction
    })
}

/// The amount that a plain decimal number writes: all its digits as the mantissa, the
/// number of fractional digits as the scale, and the sign unless the value is zero.
pub open spec fn plain_decimal(negative: bool, whole: Seq<char>, fraction: Seq<char>) -> Money {
    let m = digits_value(whole + fraction);
    Money::from_spec_parts(negative && m != 0, m as nat, fraction.len())
}

/// `<Decimal as Add>::add`. It panics ("Addition overflowed") only when the result
/// does not fit, which a sum within the representable range never does. A zero left
/// operand gives the right operand unchanged, and a zero right operand the left one.
/// When the exact sum has a 96-bit mantissa at the larger of the two scales, the sum is
/// exact, with at most that scale, and with exactly that scale when neither operand is
/// zero (`add_sub_internal` aligns both operands to the larger scale and lowers it only
/// when the mantissa overflows).
#[verifier::external_body]
pub(crate) fn decimal_add(a: Money, b: Money) -> (r: Money)
    requires
        in_range(a.units() + b.units()),
    ensures
        r == decimal_sum(a, b),
        a.magnitude() == 0 ==> r == b,
        a.magnitude() != 0 && b.magnitude() == 0 ==> r == a,
        representable_at(a.units() + b.units(), max_places(a.places(), b.places())) ==> r.units()
            == a.units() + b.units() && r.places() <= max_places(a.places(), b.places()),
        a.magnitude() != 0 && b.magnitude() != 0 && representable_at(
            a.units() + b.units(),
            max_places(a.places(), b.places()),
        ) ==> r.places() == max_places(a.places(), b.places()),
{
    let mut x = Decimal::from_i128_with_scale(a.mantissa as i128, a.scale);
    x.set_sign_negative(a.negative);
    let mut y = Decimal::from_i128_with_scale(b.mantissa as i128, b.scale);
    y.set_sign_negative(b.negative);
    let r = x + y;
    Money { negative: r.is_sign_negative(), mantissa: r.mantissa().unsigned_abs(), scale: r.scale() }
}

/// `<Decimal as Sub>::sub`: the same code path as addition with the sign of `b`
/// flipped, hence the same facts about exact results. A zero right operand gives the
/// left operand unchanged; a zero left operand gives a non-zero right operand with its
/// sign flipped.
#[verifier::external_body]
pub(crate) fn decimal_sub(a: Money, b: Money) -> (r: Money)
    requires
        in_range(a.units() - b.units()),
    ensures
        r == decimal_difference(a, b),
        a.magnitude() != 0 && b.magnitude() == 0 ==> r == a,
        a.magnitude() == 0 && b.magnitude() != 0 ==> r == crate::money::negated(b),
        representable_at(a.units() - b.units(), max_places(a.places(), b.places())) ==> r.units()
            == a.units() - b.units() && r.places() <= max_places(a.places(), b.places()),
        a.magnitude() != 0 && b.magnitude() != 0 && representable_at(
            a.units() - b.units(),
            max_places(a.places(), b.places()),
        ) ==> r.places() == max_places(a.places(), b.places()),
{
    let mut x = Decimal::from_i128_with_scale(a.mantissa as i128, a.scale);
    x.set_sign_negative(a.negative);
    let mut y = Decimal::from_i128_with_scale(b.mantissa as i128, b.scale);
    y.set_sign_negative(b.negative);
    let r = x - y;
    Money { negative: r.is_sign_negative(), mantissa: r.mantissa().unsigned_abs(), scale: r.scale() }
}

/// `<Decimal as Mul>::mul`. A zero factor gives `Decimal::ZERO`. When the product of
/// the mantissas fits in 96 bits and the scales add up to at most 28, the product is
/// exact with the summed scale. It panics only when the result does not fit.
#[verifier::external_body]
pub(crate) fn decimal_mul(a: Money, b: Money) -> (r: Money)
    requires
        in_range_product(a, b),
    ensures
        r == decimal_product(a, b),
        a.magnitude() == 0 || b.magnitude() == 0 ==> r == zero_spec(),
        a.magnitude() != 0 && b.magnitude() != 0 && a.places() + b.places() <= 28 && a.magnitude()
            * b.magnitude() < crate::money::MANTISSA_BOUND ==> r == Money::from_spec_parts(
            a.sign_negative() != b.sign_negative(),
            a.magnitude() * b.magnitude(),
            a.places() + b.places(),
        ),
{
    let mut x = Decimal::from_i128_with_scale(a.mantissa as i128, a.scale);
    x.set_sign_negative(a.negative);
    let mut y = Decimal::from_i128_with_scale(b.mantissa as i128, b.scale);
    y.set_sign_negative(b.negative);
    let r = x * y;
    Money { negative: r.is_sign_negative(), mantissa: r.mantissa().unsigned_abs(), scale: r.scale() }
}

/// `a / b` leaves no remainder: both are non-zero, `a` has at least as many places, and
/// `b`'s mantissa divides `a`'s.
pub open spec fn exact_division(a: Money, b: Money) -> bool {
    &&& a.magnitude() != 0
    &&& b.magnitude() != 0
    &&& a.places() >= b.places()
    &&& a.magnitude() % b.magnitude() == 0
}

/// The product of `a` and `b` lies within the representable range.
pub open spec fn in_range_product(a: Money, b: Money) -> bool {
    -(max_mantissa() * unit() * unit()) <= a.units() * b.units() <= max_mantissa() * unit()
        * unit()
}

/// The quotient of `a` by a non-zero `b` lies within the representable range.
pub open spec fn in_range_quotient(a: Money, b: Money) -> bool {
    let ua = if a.units() < 0 {
        -a.units()
    } else {
        a.units()
    };
    let ub = if b.units() < 0 {
        -b.units()
    } else {
        b.units()
    };
    ua <= max_mantissa() * ub
}

/// `<Decimal as Div>::div`. It panics on a zero divisor and when the quotient does not
/// fit; a zero dividend gives `Decimal::ZERO`. When the divisor's mantissa divides the
/// dividend's and the dividend has at least as many places, the division leaves no
/// remainder at a non-negative scale and returns that quotient at once (`div_impl`'s fast
/// path): the mantissas' quotient, with the difference of the places.
#[verifier::external_body]
pub(crate) fn decimal_div(a: Money, b: Money) -> (r: Money)
    requires
        b.magnitude() != 0,
        in_range_quotient(a, b),
    ensures
        r == decimal_quotient(a, b),
        a.magnitude() == 0 ==> r == zero_spec(),
        exact_division(a, b) ==> r == Money::from_spec_parts(
            a.sign_negative() != b.sign_negative(),
            a.magnitude() / b.magnitude(),
            (a.places() - b.places()) as nat,
        ),
{
    let mut x = Decimal::from_i128_with_scale(a.mantissa as i128, a.scale);
    x.set_sign_negative(a.negative);
    let mut y = Decimal::from_i128_with_scale(b.mantissa as i128, b.scale);
    y.set_sign_negative(b.negative);
    let r = x / y;
    Money { negative: r.is_sign_negative(), mantissa: r.mantissa().unsigned_abs(), scale: r.scale() }
}

/// `Decimal::round_dp`: rounding to `dp` places, midpoint to even.
#[verifier::external_body]
pub(crate) fn decimal_round_dp(a: Money, dp: u32) -> (r: Money)
    ensures
        r == rounded(a, dp as nat, false),
{
    let mut x = Decimal::from_i128_with_scale(a.mantissa as i128, a.scale);
    x.set_sign_negative(a.negative);
    let r = x.round_dp(dp);
    Money { negative: r.is_sign_negative(), mantissa: r.mantissa().unsigned_abs(), scale: r.scale() }
}

/// `Decimal::round_dp_with_strategy` with `RoundingStrategy::MidpointAwayFromZero`:
/// rounding to `dp` places, a midpoint away from zero.
#[verifier::external_body]
pub(crate) fn decimal_round_dp_half_up(a: Money, dp: u32) -> (r: Money)
    ensures
        r == rounded(a, dp as nat, true),
{
    let mut x = Decimal::from_i128_with_scale(a.mantissa as i128, a.scale);
    x.set_sign_negative(a.negative);
    let r = x.round_dp_with_strategy(dp, RoundingStrategy::MidpointAwayFromZero);
    Money { negative: r.is_sign_negative(), mantissa: r.mantissa().unsigned_abs(), scale: r.scale() }
}

/// `<Decimal as Display>::fmt` through `to_string`.
#[verifier::external_body]
pub(crate) fn decimal_to_string(a: Money) -> (s: String)
    ensures
        s@ == decimal_text(a),
{
    let mut x = Decimal::from_i128_with_scale(a.mantissa as i128, a.scale);
    x.set_sign_negative(a.negative);
    x.to_string()
}

/// `<Decimal as FromStr>::from_str`; the error becomes `None`. A plain decimal number
/// parses to its digits as the mantissa and its number of fractional digits as the scale
/// (`parse_str_radix_10`; at most 28 digits never overflow the 96-bit mantissa, and
/// `Decimal::from_parts` clears the sign of a zero).
#[verifier::external_body]
pub(crate) fn decimal_from_str(text: &str) -> (r: Option<Money>)
    ensures
        r == decimal_parse(text@),
        forall|negative: bool, whole: Seq<char>, fraction: Seq<char>|
            #[trigger] plain_decimal_text(text@, negative, whole, fraction) ==> r == Some(
                plain_decimal(negative, whole, fraction),
            ),
{
    let r = <Decimal as std::str::FromStr>::from_str(text).ok()?;
    Some(Money { negative: r.is_sign_negative(), mantissa: r.mantissa().unsigned_abs(), scale: r.scale() })
}

/// `<Decimal as PartialEq>::eq`: equality of the numeric values.
#[verifier::external_body]
pub(crate) fn decimal_eq(a: Money, b: Money) -> (r: bool)
    ensures
        r == (a.units() == b.units()),
{
    let mut x = Decimal::from_i128_with_scale(a.mantissa as i128, a.scale);
    x.set_sign_negative(a.negative);
    let mut y = Decimal::from_i128_with_scale(b.mantissa as i128, b.scale);
    y.set_sign_negative(b.negative);
    x == y
}

/// `<Decimal as PartialOrd>::lt`: the numeric value of `a` is below that of `b`.
#[verifier::external_body]
pub(crate) fn decimal_lt(a: Money, b: Money) -> (r: bool)
    ensures
        r == (a.units() < b.units()),
{
    let mut x = Decimal::from_i128_with_scale(a.mantissa as i128, a.scale);
    x.set_sign_negative(a.negative);
    let mut y = Decimal::from_i128_with_scale(b.mantissa as i128, b.scale);
    y.set_sign_negative(b.negative);
    x < y
}

} // verus!
