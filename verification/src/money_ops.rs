//! Operators on `Money`: arithmetic with another amount or an integer, the
//! reverse forms with an integer on the left, compound assignment, negation,
//! conversion from integers, value equality and the default.

use vstd::prelude::*;
use crate::decimal::{
    decimal_add, decimal_difference, decimal_eq, decimal_mul, decimal_product,
    decimal_sub, decimal_sum, exact_division, in_range_product, in_range_quotient,
};
use crate::money::{
    abs_int, from_int, money_quotient, in_range, lemma_from_int, max_places, negated, representable_at, unit, zero_spec, QUOTIENT_PLACES,
    Money,
};

verus! {

/// What `a + b` returns: the value that `rust_decimal` computes, exact whenever the exact
/// sum fits at the larger of the two scales, and then at that scale unless an operand is
/// zero; adding to zero gives the other operand unchanged.
pub open spec fn sum_outcome(a: Money, b: Money, r: Money) -> bool {
    let m = max_places(a.places(), b.places());
    &&& r == decimal_sum(a, b)
    &&& a.magnitude() == 0 ==> r == b
    &&& a.magnitude() != 0 && b.magnitude() == 0 ==> r == a
    &&& representable_at(a.units() + b.units(), m) ==> r.units() == a.units() + b.units()
        && r.places() <= m
    &&& a.magnitude() != 0 && b.magnitude() != 0 && representable_at(a.units() + b.units(), m)
        ==> r.places() == m
}

/// What `a - b` returns: the value that `rust_decimal` computes, exact whenever the exact
/// difference fits at the larger of the two scales, and then at that scale unless an
/// operand is zero; subtracting zero gives `a` unchanged, and subtracting a non-zero `b`
/// from zero gives `b` negated.
pub open spec fn difference_outcome(a: Money, b: Money, r: Money) -> bool {
    let m = max_places(a.places(), b.places());
    &&& r == decimal_difference(a, b)
    &&& a.magnitude() != 0 && b.magnitude() == 0 ==> r == a
    &&& a.magnitude() == 0 && b.magnitude() != 0 ==> r == negated(b)
    &&& representable_at(a.units() - b.units(), m) ==> r.units() == a.units() - b.units()
        && r.places() <= m
    &&& a.magnitude() != 0 && b.magnitude() != 0 && representable_at(a.units() - b.units(), m)
        ==> r.places() == m
}

impl core::ops::Add for Money {
    type Output = Money;

    /// Sum; exact whenever the exact sum fits at the larger scale, and then with that
    /// scale unless an operand is zero. Adding to zero gives the other operand unchanged.
    fn add(self, rhs: Money) -> (r: Money)
        ensures
            sum_outcome(self, rhs, r),
    {
        decimal_add(self, rhs)
    }
}

impl vstd::std_specs::ops::AddSpecImpl for Money {
    open spec fn obeys_add_spec() -> bool {
        true
    }

    open spec fn add_req(self, rhs: Money) -> bool {
        in_range(self.units() + rhs.units())
    }

    open spec fn add_spec(self, rhs: Money) -> Money {
        decimal_sum(self, rhs)
    }
}

impl core::ops::Sub for Money {
    type Output = Money;

    /// Difference; exact whenever the exact difference fits at the larger scale, and then
    /// with that scale unless an operand is zero. Subtracting zero gives the left operand
    /// unchanged; subtracting from zero gives the right operand negated.
    fn sub(self, rhs: Money) -> (r: Money)
        ensures
            difference_outcome(self, rhs, r),
    {
        decimal_sub(self, rhs)
    }
}

impl vstd::std_specs::ops::SubSpecImpl for Money {
    open spec fn obeys_sub_spec() -> bool {
        true
    }

    open spec fn sub_req(self, rhs: Money) -> bool {
        in_range(self.units() - rhs.units())
    }

    open spec fn sub_spec(self, rhs: Money) -> Money {
        decimal_difference(self, rhs)
    }
}

impl core::ops::Mul for Money {
    type Output = Money;

    /// Product; a zero factor gives zero.
    fn mul(self, rhs: Money) -> (r: Money)
        ensures
            r == decimal_product(self, rhs),
            self.magnitude() == 0 || rhs.magnitude() == 0 ==> r == zero_spec(),
            self.magnitude() != 0 && rhs.magnitude() != 0 && self.places() + rhs.places() <= 28
                && self.magnitude() * rhs.magnitude() < crate::money::MANTISSA_BOUND ==> r
                == Money::from_spec_parts(
                self.sign_negative() != rhs.sign_negative(),
                self.magnitude() * rhs.magnitude(),
                self.places() + rhs.places(),
            ),
    {
        decimal_mul(self, rhs)
    }
}

impl vstd::std_specs::ops::MulSpecImpl for Money {
    open spec fn obeys_mul_spec() -> bool {
        true
    }

    open spec fn mul_req(self, rhs: Money) -> bool {
        in_range_product(self, rhs)
    }

    open spec fn mul_spec(self, rhs: Money) -> Money {
        decimal_product(self, rhs)
    }
}

impl core::ops::Add<i64> for Money {
    type Output = Money;

    /// Sum; exact whenever the exact sum fits at the larger scale. The integer converts exactly.
    fn add(self, rhs: i64) -> (r: Money)
        ensures
            r == decimal_sum(self, from_int(rhs as int)),
            representable_at(self.units() + from_int(rhs as int).units(), max_places(self.places(), from_int(rhs as int).places()))
                ==> r.units() == self.units() + from_int(rhs as int).units()
                    && r.places() <= max_places(self.places(), from_int(rhs as int).places()),
            self.magnitude() != 0 && from_int(rhs as int).magnitude() != 0 && representable_at(self.units() + from_int(rhs as int).units(), max_places(self.places(), from_int(rhs as int).places()))
                ==> r.places() == max_places(self.places(), from_int(rhs as int).places()),
    {
        proof {
            lemma_from_int(rhs as int);
        }
        decimal_add(self, Money::from_i64_value(rhs))
    }
}

impl vstd::std_specs::ops::AddSpecImpl<i64> for Money {
    open spec fn obeys_add_spec() -> bool {
        true
    }

    open spec fn add_req(self, rhs: i64) -> bool {
        in_range(self.units() + from_int(rhs as int).units())
    }

    open spec fn add_spec(self, rhs: i64) -> Money {
        decimal_sum(self, from_int(rhs as int))
    }
}

impl core::ops::Sub<i64> for Money {
    type Output = Money;

    /// Difference; exact whenever the exact difference fits at the larger scale. The integer converts exactly.
    fn sub(self, rhs: i64) -> (r: Money)
        ensures
            r == decimal_difference(self, from_int(rhs as int)),
            representable_at(self.units() - from_int(rhs as int).units(), max_places(self.places(), from_int(rhs as int).places()))
                ==> r.units() == self.units() - from_int(rhs as int).units()
                    && r.places() <= max_places(self.places(), from_int(rhs as int).places()),
            self.magnitude() != 0 && from_int(rhs as int).magnitude() != 0 && representable_at(self.units() - from_int(rhs as int).units(), max_places(self.places(), from_int(rhs as int).places()))
                ==> r.places() == max_places(self.places(), from_int(rhs as int).places()),
    {
        proof {
            lemma_from_int(rhs as int);
        }
        decimal_sub(self, Money::from_i64_value(rhs))
    }
}

impl vstd::std_specs::ops::SubSpecImpl<i64> for Money {
    open spec fn obeys_sub_spec() -> bool {
        true
    }

    open spec fn sub_req(self, rhs: i64) -> bool {
        in_range(self.units() - from_int(rhs as int).units())
    }

    open spec fn sub_spec(self, rhs: i64) -> Money {
        decimal_difference(self, from_int(rhs as int))
    }
}

impl core::ops::Mul<i64> for Money {
    type Output = Money;

    /// Product; a zero factor gives zero. The integer converts exactly.
    fn mul(self, rhs: i64) -> (r: Money)
        ensures
            r == decimal_product(self, from_int(rhs as int)),
            self.magnitude() == 0 || rhs == 0 ==> r == zero_spec(),
            self.magnitude() != 0 && rhs != 0 && self.places() <= 28 && self.magnitude() * abs_int(
                rhs as int,
            ) < crate::money::MANTISSA_BOUND ==> r == Money::from_spec_parts(
                self.sign_negative() != (rhs < 0),
                self.magnitude() * abs_int(rhs as int),
                self.places(),
            ),
    {
        proof {
            lemma_from_int(rhs as int);
        }
        decimal_mul(self, Money::from_i64_value(rhs))
    }
}

impl vstd::std_specs::ops::MulSpecImpl<i64> for Money {
    open spec fn obeys_mul_spec() -> bool {
        true
    }

    open spec fn mul_req(self, rhs: i64) -> bool {
        in_range_product(self, from_int(rhs as int))
    }

    open spec fn mul_spec(self, rhs: i64) -> Money {
        decimal_product(self, from_int(rhs as int))
    }
}

impl core::ops::Add<Money> for i64 {
    type Output = Money;

    /// Sum; exact whenever the exact sum fits at the larger scale. The integer converts exactly.
    fn add(self, rhs: Money) -> (r: Money)
        ensures
            r == decimal_sum(from_int(self as int), rhs),
            representable_at(from_int(self as int).units() + rhs.units(), max_places(from_int(self as int).places(), rhs.places()))
                ==> r.units() == from_int(self as int).units() + rhs.units()
                    && r.places() <= max_places(from_int(self as int).places(), rhs.places()),
            from_int(self as int).magnitude() != 0 && rhs.magnitude() != 0 && representable_at(from_int(self as int).units() + rhs.units(), max_places(from_int(self as int).places(), rhs.places()))
                ==> r.places() == max_places(from_int(self as int).places(), rhs.places()),
    {
        proof {
            lemma_from_int(self as int);
        }
        decimal_add(Money::from_i64_value(self as i64), rhs)
    }
}

impl vstd::std_specs::ops::AddSpecImpl<Money> for i64 {
    open spec fn obeys_add_spec() -> bool {
        true
    }

    open spec fn add_req(self, rhs: Money) -> bool {
        in_range(from_int(self as int).units() + rhs.units())
    }

    open spec fn add_spec(self, rhs: Money) -> Money {
        decimal_sum(from_int(self as int), rhs)
    }
}

impl core::ops::Sub<Money> for i64 {
    type Output = Money;

    /// Difference; exact whenever the exact difference fits at the larger scale. The integer converts exactly.
    fn sub(self, rhs: Money) -> (r: Money)
        ensures
            r == decimal_difference(from_int(self as int), rhs),
            representable_at(from_int(self as int).units() - rhs.units(), max_places(from_int(self as int).places(), rhs.places()))
                ==> r.units() == from_int(self as int).units() - rhs.units()
                    && r.places() <= max_places(from_int(self as int).places(), rhs.places()),
            from_int(self as int).magnitude() != 0 && rhs.magnitude() != 0 && representable_at(from_int(self as int).units() - rhs.units(), max_places(from_int(self as int).places(), rhs.places()))
                ==> r.places() == max_places(from_int(self as int).places(), rhs.places()),
    {
        proof {
            lemma_from_int(self as int);
        }
        decimal_sub(Money::from_i64_value(self as i64), rhs)
    }
}

impl vstd::std_specs::ops::SubSpecImpl<Money> for i64 {
    open spec fn obeys_sub_spec() -> bool {
        true
    }

    open spec fn sub_req(self, rhs: Money) -> bool {
        in_range(from_int(self as int).units() - rhs.units())
    }

    open spec fn sub_spec(self, rhs: Money) -> Money {
        decimal_difference(from_int(self as int), rhs)
    }
}

impl core::ops::Mul<Money> for i64 {
    type Output = Money;

    /// Product; a zero factor gives zero. The integer converts exactly.
    fn mul(self, rhs: Money) -> (r: Money)
        ensures
            r == decimal_product(from_int(self as int), rhs),
            self == 0 || rhs.magnitude() == 0 ==> r == zero_spec(),
            self != 0 && rhs.magnitude() != 0 && rhs.places() <= 28 && abs_int(self as int) * rhs.magnitude()
                < crate::money::MANTISSA_BOUND ==> r == Money::from_spec_parts(
                (self < 0) != rhs.sign_negative(),
                abs_int(self as int) * rhs.magnitude(),
                rhs.places(),
            ),
    {
        proof {
            lemma_from_int(self as int);
        }
        decimal_mul(Money::from_i64_value(self as i64), rhs)
    }
}

impl vstd::std_specs::ops::MulSpecImpl<Money> for i64 {
    open spec fn obeys_mul_spec() -> bool {
        true
    }

    open spec fn mul_req(self, rhs: Money) -> bool {
        in_range_product(from_int(self as int), rhs)
    }

    open spec fn mul_spec(self, rhs: Money) -> Money {
        decimal_product(from_int(self as int), rhs)
    }
}

impl core::ops::Add<Money> for i32 {
    type Output = Money;

    /// Sum; exact whenever the exact sum fits at the larger scale. The integer converts exactly.
    fn add(self, rhs: Money) -> (r: Money)
        ensures
            r == decimal_sum(from_int(self as int), rhs),
            representable_at(from_int(self as int).units() + rhs.units(), max_places(from_int(self as int).places(), rhs.places()))
                ==> r.units() == from_int(self as int).units() + rhs.units()
                    && r.places() <= max_places(from_int(self as int).places(), rhs.places()),
            from_int(self as int).magnitude() != 0 && rhs.magnitude() != 0 && representable_at(from_int(self as int).units() + rhs.units(), max_places(from_int(self as int).places(), rhs.places()))
                ==> r.places() == max_places(from_int(self as int).places(), rhs.places()),
    {
        proof {
            lemma_from_int(self as int);
        }
        decimal_add(Money::from_i64_value(self as i64), rhs)
    }
}

impl vstd::std_specs::ops::AddSpecImpl<Money> for i32 {
    open spec fn obeys_add_spec() -> bool {
        true
    }

    open spec fn add_req(self, rhs: Money) -> bool {
        in_range(from_int(self as int).units() + rhs.units())
    }

    open spec fn add_spec(self, rhs: Money) -> Money {
        decimal_sum(from_int(self as int), rhs)
    }
}

impl core::ops::Mul<Money> for i32 {
    type Output = Money;

    /// Product; a zero factor gives zero. The integer converts exactly.
    fn mul(self, rhs: Money) -> (r: Money)
        ensures
            r == decimal_product(from_int(self as int), rhs),
            self == 0 || rhs.magnitude() == 0 ==> r == zero_spec(),
            self != 0 && rhs.magnitude() != 0 && rhs.places() <= 28 && abs_int(self as int) * rhs.magnitude()
                < crate::money::MANTISSA_BOUND ==> r == Money::from_spec_parts(
                (self < 0) != rhs.sign_negative(),
                abs_int(self as int) * rhs.magnitude(),
                rhs.places(),
            ),
    {
        proof {
            lemma_from_int(self as int);
        }
        decimal_mul(Money::from_i64_value(self as i64), rhs)
    }
}

impl vstd::std_specs::ops::MulSpecImpl<Money> for i32 {
    open spec fn obeys_mul_spec() -> bool {
        true
    }

    open spec fn mul_req(self, rhs: Money) -> bool {
        in_range_product(from_int(self as int), rhs)
    }

    open spec fn mul_spec(self, rhs: Money) -> Money {
        decimal_product(from_int(self as int), rhs)
    }
}

impl core::ops::Mul<Money> for u32 {
    type Output = Money;

    /// Product; a zero factor gives zero. The integer converts exactly.
    fn mul(self, rhs: Money) -> (r: Money)
        ensures
            r == decimal_product(from_int(self as int), rhs),
            self == 0 || rhs.magnitude() == 0 ==> r == zero_spec(),
            self != 0 && rhs.magnitude() != 0 && rhs.places() <= 28 && abs_int(self as int) * rhs.magnitude()
                < crate::money::MANTISSA_BOUND ==> r == Money::from_spec_parts(
                (self < 0) != rhs.sign_negative(),
                abs_int(self as int) * rhs.magnitude(),
                rhs.places(),
            ),
    {
        proof {
            lemma_from_int(self as int);
        }
        decimal_mul(Money::from_u64_value(self as u64), rhs)
    }
}

impl vstd::std_specs::ops::MulSpecImpl<Money> for u32 {
    open spec fn obeys_mul_spec() -> bool {
        true
    }

    open spec fn mul_req(self, rhs: Money) -> bool {
        in_range_product(from_int(self as int), rhs)
    }

    open spec fn mul_spec(self, rhs: Money) -> Money {
        decimal_product(from_int(self as int), rhs)
    }
}

impl core::ops::Mul<Money> for u64 {
    type Output = Money;

    /// Product; a zero factor gives zero. The integer converts exactly.
    fn mul(self, rhs: Money) -> (r: Money)
        ensures
            r == decimal_product(from_int(self as int), rhs),
            self == 0 || rhs.magnitude() == 0 ==> r == zero_spec(),
            self != 0 && rhs.magnitude() != 0 && rhs.places() <= 28 && abs_int(self as int) * rhs.magnitude()
                < crate::money::MANTISSA_BOUND ==> r == Money::from_spec_parts(
                (self < 0) != rhs.sign_negative(),
                abs_int(self as int) * rhs.magnitude(),
                rhs.places(),
            ),
    {
        proof {
            lemma_from_int(self as int);
        }
        decimal_mul(Money::from_u64_value(self as u64), rhs)
    }
}

impl vstd::std_specs::ops::MulSpecImpl<Money> for u64 {
    open spec fn obeys_mul_spec() -> bool {
        true
    }

    open spec fn mul_req(self, rhs: Money) -> bool {
        in_range_product(from_int(self as int), rhs)
    }

    open spec fn mul_spec(self, rhs: Money) -> Money {
        decimal_product(from_int(self as int), rhs)
    }
}

impl core::ops::Div for Money {
    type Output = Money;

    /// Quotient, kept to `QUOTIENT_PLACES` places; dividing by zero gives zero.
    fn div(self, rhs: Money) -> (r: Money)
        ensures
            rhs.magnitude() == 0 ==> r == zero_spec(),
            rhs.magnitude() != 0 ==> r == money_quotient(self, rhs),
            self.magnitude() == 0 ==> r == zero_spec(),
            exact_division(self, rhs) && self.places() - rhs.places() <= QUOTIENT_PLACES ==> r
                == Money::from_spec_parts(
                self.sign_negative() != rhs.sign_negative(),
                self.magnitude() / rhs.magnitude(),
                (self.places() - rhs.places()) as nat,
            ),
    {
        if rhs.is_zero() {
            Money::zero()
        } else {
            crate::money::divide(self, rhs)
        }
    }
}

impl vstd::std_specs::ops::DivSpecImpl for Money {
    open spec fn obeys_div_spec() -> bool {
        true
    }

    open spec fn div_req(self, rhs: Money) -> bool {
        rhs.magnitude() == 0 || in_range_quotient(self, rhs)
    }

    open spec fn div_spec(self, rhs: Money) -> Money {
        if rhs.magnitude() == 0 {
            zero_spec()
        } else {
            money_quotient(self, rhs)
        }
    }
}

/// A non-zero integer divisor keeps every quotient within range.
pub(crate) proof fn lemma_integer_divisor_in_range(a: Money, v: int)
    requires
        in_range(a.units()),
        v != 0,
        -(crate::money::MANTISSA_BOUND as int) < v < crate::money::MANTISSA_BOUND,
    ensures
        in_range_quotient(a, from_int(v)),
{
    lemma_from_int(v);
    crate::money::lemma_pow10_monotone(0, 28);
    let u = unit() as int;
    let m = crate::money::max_mantissa();
    let av = if v < 0 {
        -v
    } else {
        v
    };
    assert(m * u <= m * (av * u)) by (nonlinear_arith)
        requires
            av >= 1,
            u >= 1,
            m >= 0,
    ;
    assert((-v) * u == -(v * u)) by (nonlinear_arith);
}

impl core::ops::Div<i64> for Money {
    type Output = Money;

    /// Quotient by an integer, kept to `QUOTIENT_PLACES` places; dividing by zero gives zero.
    fn div(self, rhs: i64) -> (r: Money)
        ensures
            rhs == 0 ==> r == zero_spec(),
            rhs != 0 ==> r == money_quotient(self, from_int(rhs as int)),
            rhs != 0 && self.magnitude() != 0 && self.places() <= QUOTIENT_PLACES && self.magnitude() % abs_int(
                rhs as int,
            ) == 0 ==> r == Money::from_spec_parts(
                self.sign_negative() != (rhs < 0),
                self.magnitude() / abs_int(rhs as int),
                self.places(),
            ),
    {
        if rhs == 0 {
            Money::zero()
        } else {
            self.assert_invariant();
            proof {
                lemma_from_int(rhs as int);
                lemma_integer_divisor_in_range(self, rhs as int);
            }
            crate::money::divide(self, Money::from_i64_value(rhs))
        }
    }
}

impl vstd::std_specs::ops::DivSpecImpl<i64> for Money {
    open spec fn obeys_div_spec() -> bool {
        true
    }

    open spec fn div_req(self, rhs: i64) -> bool {
        true
    }

    open spec fn div_spec(self, rhs: i64) -> Money {
        if rhs == 0 {
            zero_spec()
        } else {
            money_quotient(self, from_int(rhs as int))
        }
    }
}

impl core::ops::Neg for Money {
    type Output = Money;

    /// The value with its sign flipped (zero becomes a negative zero).
    fn neg(self) -> (r: Money)
        ensures
            r == negated(self),
    {
        self.flip_sign()
    }
}

impl vstd::std_specs::ops::NegSpecImpl for Money {
    open spec fn obeys_neg_spec() -> bool {
        true
    }

    open spec fn neg_req(self) -> bool {
        true
    }

    open spec fn neg_spec(self) -> Money {
        negated(self)
    }
}

impl core::ops::AddAssign for Money {
    /// Adds `rhs` in place.
    fn add_assign(&mut self, rhs: Money)
        requires
            in_range(old(self).units() + rhs.units()),
        ensures
            *final(self) == decimal_sum(*old(self), rhs),
            representable_at(old(self).units() + rhs.units(), max_places(old(self).places(), rhs.places()))
                ==> final(self).units() == old(self).units() + rhs.units()
                && final(self).places() <= max_places(old(self).places(), rhs.places()),
            old(self).magnitude() != 0 && rhs.magnitude() != 0 && representable_at(old(self).units() + rhs.units(), max_places(old(self).places(), rhs.places()))
                ==> final(self).places() == max_places(old(self).places(), rhs.places()),
    {
        *self = decimal_add(*self, rhs);
    }
}

impl core::ops::AddAssign<i64> for Money {
    /// Adds an integer in place.
    fn add_assign(&mut self, rhs: i64)
        requires
            in_range(old(self).units() + rhs * unit()),
        ensures
            *final(self) == decimal_sum(*old(self), from_int(rhs as int)),
            representable_at(old(self).units() + rhs * unit(), old(self).places())
                ==> final(self).units() == old(self).units() + rhs * unit()
                && final(self).places() <= old(self).places(),
            old(self).magnitude() != 0 && rhs != 0 && representable_at(old(self).units() + rhs * unit(), old(self).places())
                ==> final(self).places() == old(self).places(),
    {
        proof {
            lemma_from_int(rhs as int);
        }
        *self = decimal_add(*self, Money::from_i64_value(rhs));
    }
}

impl core::ops::SubAssign for Money {
    /// Subtracts `rhs` in place.
    fn sub_assign(&mut self, rhs: Money)
        requires
            in_range(old(self).units() - rhs.units()),
        ensures
            *final(self) == decimal_difference(*old(self), rhs),
            representable_at(old(self).units() - rhs.units(), max_places(old(self).places(), rhs.places()))
                ==> final(self).units() == old(self).units() - rhs.units()
                && final(self).places() <= max_places(old(self).places(), rhs.places()),
            old(self).magnitude() != 0 && rhs.magnitude() != 0 && representable_at(old(self).units() - rhs.units(), max_places(old(self).places(), rhs.places()))
                ==> final(self).places() == max_places(old(self).places(), rhs.places()),
    {
        *self = decimal_sub(*self, rhs);
    }
}

impl core::ops::MulAssign for Money {
    /// Multiplies by `rhs` in place.
    fn mul_assign(&mut self, rhs: Money)
        requires
            in_range_product(*old(self), rhs),
        ensures
            *final(self) == decimal_product(*old(self), rhs),
            old(self).magnitude() == 0 || rhs.magnitude() == 0 ==> *final(self) == zero_spec(),
            old(self).magnitude() != 0 && rhs.magnitude() != 0 && old(self).places() + rhs.places() <= 28
                && old(self).magnitude() * rhs.magnitude() < crate::money::MANTISSA_BOUND ==> *final(self)
                == Money::from_spec_parts(
                old(self).sign_negative() != rhs.sign_negative(),
                old(self).magnitude() * rhs.magnitude(),
                old(self).places() + rhs.places(),
            ),
    {
        *self = decimal_mul(*self, rhs);
    }
}

impl core::ops::DivAssign for Money {
    /// Divides by `rhs` in place; a zero divisor leaves the value unchanged.
    fn div_assign(&mut self, rhs: Money)
        requires
            rhs.magnitude() == 0 || in_range_quotient(*old(self), rhs),
        ensures
            rhs.magnitude() == 0 ==> *final(self) == *old(self),
            rhs.magnitude() != 0 ==> *final(self) == money_quotient(*old(self), rhs),
    {
        if !rhs.is_zero() {
            *self = crate::money::divide(*self, rhs);
        }
    }
}

impl core::convert::From<i32> for Money {
    /// The integer, exactly.
    fn from(v: i32) -> (r: Money) {
        Money::from_i64_value(v as i64)
    }
}

impl vstd::std_specs::convert::FromSpecImpl<i32> for Money {
    open spec fn obeys_from_spec() -> bool {
        true
    }

    open spec fn from_spec(v: i32) -> Money {
        from_int(v as int)
    }
}

impl core::convert::From<i64> for Money {
    /// The integer, exactly.
    fn from(v: i64) -> (r: Money) {
        Money::from_i64_value(v)
    }
}

impl vstd::std_specs::convert::FromSpecImpl<i64> for Money {
    open spec fn obeys_from_spec() -> bool {
        true
    }

    open spec fn from_spec(v: i64) -> Money {
        from_int(v as int)
    }
}

impl core::convert::From<u32> for Money {
    /// The integer, exactly.
    fn from(v: u32) -> (r: Money) {
        Money::from_u64_value(v as u64)
    }
}

impl vstd::std_specs::convert::FromSpecImpl<u32> for Money {
    open spec fn obeys_from_spec() -> bool {
        true
    }

    open spec fn from_spec(v: u32) -> Money {
        from_int(v as int)
    }
}

impl core::convert::From<u64> for Money {
    /// The integer, exactly.
    fn from(v: u64) -> (r: Money) {
        Money::from_u64_value(v)
    }
}

impl vstd::std_specs::convert::FromSpecImpl<u64> for Money {
    open spec fn obeys_from_spec() -> bool {
        true
    }

    open spec fn from_spec(v: u64) -> Money {
        from_int(v as int)
    }
}

impl core::cmp::PartialEq for Money {
    /// Equality of the numeric values: `1.50 == 1.5`, and every zero equals every other.
    fn eq(&self, other: &Money) -> (r: bool) {
        decimal_eq(*self, *other)
    }
}

impl vstd::std_specs::cmp::PartialEqSpecImpl for Money {
    open spec fn obeys_eq_spec() -> bool {
        true
    }

    open spec fn eq_spec(&self, other: &Money) -> bool {
        self.units() == other.units()
    }
}

impl core::cmp::Eq for Money {

}

impl core::default::Default for Money {
    /// Zero.
    fn default() -> (r: Money)
        ensures
            r == zero_spec(),
    {
        Money::zero()
    }
}

/// The error of parsing an amount.
#[derive(Clone, Copy, Debug, PartialEq, Eq)]
pub enum MoneyError {
    /// The text is not a decimal number that `rust_decimal` accepts.
    InvalidAmount,
}

impl<'a> core::convert::TryFrom<&'a str> for Money {
    type Error = MoneyError;

    /// Parses a decimal number such as `"19.99"` or `"-500.5"`.
    fn try_from(s: &'a str) -> (r: Result<Money, MoneyError>)
        ensures
            forall|negative: bool, whole: Seq<char>, fraction: Seq<char>|
                #[trigger] crate::decimal::plain_decimal_text(s@, negative, whole, fraction) ==> r
                    == Ok::<Money, MoneyError>(crate::decimal::plain_decimal(negative, whole, fraction)),
    {
        match crate::decimal::decimal_from_str(s) {
            Some(m) => Ok(m),
            None => Err(MoneyError::InvalidAmount),
        }
    }
}

impl<'a> vstd::std_specs::convert::TryFromSpecImpl<&'a str> for Money {
    open spec fn obeys_try_from_spec() -> bool {
        true
    }

    open spec fn try_from_spec(s: &'a str) -> Result<Money, MoneyError> {
        match crate::decimal::decimal_parse(s@) {
            Some(m) => Ok(m),
            None => Err(MoneyError::InvalidAmount),
        }
    }
}

/// A stored amount read back from its text form: the bytes must be UTF-8 text that
/// `rust_decimal` parses.
pub fn money_from_sql_text(bytes: &[u8]) -> (r: Result<Money, MoneyError>)
    ensures
        !vstd::utf8::valid_utf8(bytes@) ==> r == Err::<Money, MoneyError>(MoneyError::InvalidAmount),
        vstd::utf8::valid_utf8(bytes@) ==> r == (match crate::decimal::decimal_parse(vstd::utf8::decode_utf8(bytes@)) {
            Some(m) => Ok(m),
            None => Err(MoneyError::InvalidAmount),
        }),
        forall|negative: bool, whole: Seq<char>, fraction: Seq<char>|
            vstd::utf8::valid_utf8(bytes@) && #[trigger] crate::decimal::plain_decimal_text(
                vstd::utf8::decode_utf8(bytes@),
                negative,
                whole,
                fraction,
            ) ==> r == Ok::<Money, MoneyError>(crate::decimal::plain_decimal(negative, whole, fraction)),
{
    match crate::text::text_from_utf8(bytes) {
        Some(text) => match crate::decimal::decimal_from_str(text.as_str()) {
            Some(m) => Ok(m),
            None => Err(MoneyError::InvalidAmount),
        },
        None => Err(MoneyError::InvalidAmount),
    }
}

} // verus!
