//! Monetary values with exact decimal arithmetic.
//!
//! A `Money` is the decimal number `±mantissa / 10^scale`, with a 96-bit mantissa and
//! at most 28 fractional digits: the representation of `rust_decimal::Decimal`, whose
//! arithmetic the operations here call. The sign is a flag of its own, so a zero may
//! carry a negative sign (it still compares equal to every other zero).

use vstd::prelude::*;
use crate::decimal::{
    decimal_round_dp, decimal_round_dp_half_up, decimal_to_string, plain_decimal,
    plain_decimal_text,
};

verus! {

/// Exclusive bound of the 96-bit mantissa.
pub const MANTISSA_BOUND: u128 = 0x1_0000_0000_0000_0000_0000_0000u128;

/// Largest number of fractional digits a value may carry.
pub const MAX_SCALE: u32 = 28;

/// `10^n`.
pub open spec fn pow10(n: nat) -> nat
    decreases n,
{
    if n == 0 {
        1
    } else {
        10 * pow10((n - 1) as nat)
    }
}

/// `10^28`: one whole unit expressed in the smallest representable step.
pub open spec fn unit() -> nat {
    pow10(MAX_SCALE as nat)
}

/// Largest representable magnitude of a mantissa, `2^96 - 1`.
pub open spec fn max_mantissa() -> int {
    MANTISSA_BOUND - 1
}

/// A value given in units of `10^-28` lies within the representable range.
pub open spec fn in_range(units: int) -> bool {
    -(max_mantissa() * unit()) <= units <= max_mantissa() * unit()
}

/// A value given in units of `10^-28` is exactly representable with `places`
/// fractional digits.
pub open spec fn representable_at(units: int, places: nat) -> bool {
    &&& places <= MAX_SCALE
    &&& -(MANTISSA_BOUND * pow10((MAX_SCALE - places) as nat)) < units < MANTISSA_BOUND * pow10(
        (MAX_SCALE - places) as nat,
    )
}

/// Larger of two scales.
pub open spec fn max_places(a: nat, b: nat) -> nat {
    if a < b {
        b
    } else {
        a
    }
}

/// Monetary value.
#[derive(Clone, Copy, Debug)]
pub struct Money {
    pub(crate) negative: bool,
    pub(crate) mantissa: u128,
    pub(crate) scale: u32,
}

impl Money {

    #[verifier::type_invariant]
    pub(crate) closed spec fn well_formed(self) -> bool {
        &&& self.mantissa < MANTISSA_BOUND
        &&& self.scale <= MAX_SCALE
    }

    /// The sign flag.
    pub closed spec fn sign_negative(self) -> bool {
        self.negative
    }

    /// The magnitude of the mantissa.
    pub closed spec fn magnitude(self) -> nat {
        self.mantissa as nat
    }

    /// Number of fractional digits.
    pub closed spec fn places(self) -> nat {
        self.scale as nat
    }

    /// The value with the given sign, mantissa magnitude and number of places.
    pub closed spec fn from_spec_parts(negative: bool, magnitude: nat, places: nat) -> Money {
        Money { negative, mantissa: magnitude as u128, scale: places as u32 }
    }

    /// Signed mantissa: the value is `signed_mantissa() / 10^places()`.
    pub open spec fn signed_mantissa(self) -> int {
        if self.sign_negative() {
            -(self.magnitude() as int)
        } else {
            self.magnitude() as int
        }
    }

    /// The value in units of `10^-28`.
    pub open spec fn units(self) -> int {
        self.signed_mantissa() * pow10((MAX_SCALE - self.places()) as nat)
    }

    /// Whether the mantissa and scale lie within their bounds; every `Money` value
    /// that code holds satisfies it.
    pub open spec fn bounded(self) -> bool {
        &&& self.magnitude() < MANTISSA_BOUND
        &&& self.places() <= MAX_SCALE
    }

    /// A bounded value lies within the representable range.
    pub proof fn lemma_bounded(self)
        requires
            self.bounded(),
        ensures
            in_range(self.units()),
    {
        lemma_pow10_monotone((MAX_SCALE - self.places()) as nat, MAX_SCALE as nat);
        let p = pow10((MAX_SCALE - self.places()) as nat);
        let m = self.magnitude() as int;
        assert(0 <= m * p <= max_mantissa() * unit()) by (nonlinear_arith)
            requires
                0 <= m <= max_mantissa(),
                1 <= p <= unit(),
        ;
        assert((-m) * p == -(m * p)) by (nonlinear_arith);
    }
}


/// The result of rounding `m` to `dp` fractional digits. A value with at most `dp`
/// digits is returned unchanged. Otherwise the mantissa is divided by `10^(places - dp)`
/// and the quotient is raised by one when the remainder is past the midpoint, or at the
/// midpoint with `half_up` (midpoint away from zero), or at the midpoint with an odd
/// quotient without `half_up` (midpoint to even). The sign is kept unless the result is zero.
pub open spec fn rounded(m: Money, dp: nat, half_up: bool) -> Money {
    if m.places() <= dp {
        m
    } else if m.magnitude() == 0 {
        Money::from_spec_parts(m.sign_negative(), 0, dp)
    } else {
        let p = pow10((m.places() - dp) as nat);
        let q = m.magnitude() / p;
        let r = m.magnitude() % p;
        let up = if half_up {
            2 * r >= p
        } else {
            2 * r > p || (2 * r == p && q % 2 == 1)
        };
        let q2: nat = if up {
            q + 1
        } else {
            q
        };
        Money::from_spec_parts(m.sign_negative() && q2 != 0, q2, dp)
    }
}

/// The value with its sign flag flipped.
pub open spec fn negated(m: Money) -> Money {
    Money::from_spec_parts(!m.sign_negative(), m.magnitude(), m.places())
}

/// The value with its sign flag cleared.
pub open spec fn absolute(m: Money) -> Money {
    Money::from_spec_parts(false, m.magnitude(), m.places())
}

/// The decimal digit `d` as a character.
pub open spec fn digit_char(d: nat) -> char {
    (48 + d) as char
}

/// A character is one of `0`..`9`.
pub open spec fn is_digit_char(c: char) -> bool {
    48 <= (c as int) <= 57
}

/// Decimal digits of `n`, most significant first; empty for zero.
pub open spec fn digits_of(n: nat) -> Seq<char>
    decreases n,
{
    if n == 0 {
        Seq::empty()
    } else {
        digits_of(n / 10).push(digit_char(n % 10))
    }
}

/// `n` zero characters.
pub open spec fn zeros(n: nat) -> Seq<char> {
    Seq::new(n, |i: int| '0')
}

/// The mantissa digits, left-padded with zeros to at least `places()` characters.
pub open spec fn padded_digits(m: Money) -> Seq<char> {
    let d = digits_of(m.magnitude());
    if d.len() < m.places() {
        zeros((m.places() - d.len()) as nat) + d
    } else {
        d
    }
}

/// Number of digits before the decimal point in `padded_digits`.
pub open spec fn whole_len(m: Money) -> nat {
    (padded_digits(m).len() - m.places()) as nat
}

/// Sign and integer digits of the displayed value (`"0"` when there are none).
pub open spec fn whole_text(m: Money) -> Seq<char> {
    let sign = if m.sign_negative() {
        seq!['-']
    } else {
        Seq::empty()
    };
    let w = whole_len(m);
    if w == 0 {
        sign + seq!['0']
    } else {
        sign + padded_digits(m).take(w as int)
    }
}

/// The digits after the decimal point: exactly `places()` of them.
pub open spec fn fraction_text(m: Money) -> Seq<char> {
    padded_digits(m).skip(whole_len(m) as int)
}

/// How `rust_decimal` displays a value: sign, integer digits, and when the scale is
/// positive a point followed by exactly `scale` digits (trailing zeros kept).
pub open spec fn decimal_text(m: Money) -> Seq<char> {
    if m.places() == 0 {
        whole_text(m)
    } else {
        whole_text(m) + seq!['.'] + fraction_text(m)
    }
}

/// The magnitude of an integer.
pub open spec fn abs_int(v: int) -> nat {
    (if v < 0 { -v } else { v }) as nat
}

/// `Decimal::from` of an integer: exact, with scale zero.
pub open spec fn from_int(v: int) -> Money {
    Money::from_spec_parts(v < 0, (if v < 0 { -v } else { v }) as nat, 0)
}

/// Inserts `,` between groups of three characters, counting from the right
/// (`"1234567"` becomes `"1,234,567"`).
pub open spec fn group_thousands(s: Seq<char>) -> Seq<char>
    decreases s.len(),
{
    if s.len() <= 3 {
        s
    } else {
        group_thousands(s.take(s.len() - 3)) + seq![','] + s.skip(s.len() - 3)
    }
}

/// Exactly two fraction digits: `"00"` for none, a `0` appended to one, the first two otherwise.
pub open spec fn two_decimals(f: Seq<char>) -> Seq<char> {
    if f.len() == 0 {
        seq!['0', '0']
    } else if f.len() == 1 {
        f + seq!['0']
    } else {
        f.take(2)
    }
}

/// `f` followed by `0`s up to `width` characters (a fraction keeps its value when
/// zeros are added on the right).
pub open spec fn right_pad_zeros(f: Seq<char>, width: nat) -> Seq<char> {
    if f.len() < width {
        f + zeros((width - f.len()) as nat)
    } else {
        f
    }
}

/// `-` for a negative amount, nothing otherwise.
pub open spec fn sign_text(negative: bool) -> Seq<char> {
    if negative {
        seq!['-']
    } else {
        Seq::empty()
    }
}

/// The amount shown by `format_money`: `Rs. `, a minus sign for a negative value,
/// the integer digits of its magnitude grouped by thousands, a point and two decimals,
/// after rounding to two places (midpoint away from zero).
pub open spec fn money_text(v: Money) -> Seq<char> {
    let r = rounded(v, 2, true);
    let negative = r.units() < 0;
    let a = if negative {
        negated(r)
    } else {
        r
    };
    seq!['R', 's', '.', ' '] + sign_text(negative) + group_thousands(whole_text(a)) + seq!['.']
        + two_decimals(fraction_text(a))
}

/// The amount shown by `format_money_with_code`: the code, a space, a minus sign for a
/// negative value, the integer digits of its magnitude grouped by thousands, and for a
/// positive `decimals` a point followed by exactly `decimals` fraction digits (the
/// fraction's digits, then zeros); after rounding to `decimals` places (midpoint to even).
pub open spec fn money_text_with_code(v: Money, code: Seq<char>, decimals: nat) -> Seq<char> {
    let r = rounded(v, decimals, false);
    let negative = r.units() < 0;
    let a = if negative {
        negated(r)
    } else {
        r
    };
    let tail = if decimals > 0 {
        seq!['.'] + right_pad_zeros(fraction_text(a), decimals).take(decimals as int)
    } else {
        Seq::empty()
    };
    code + seq![' '] + sign_text(negative) + group_thousands(whole_text(a)) + tail
}

/// The decimal digits of `n` are digit characters.
pub proof fn lemma_digits_are_digits(n: nat)
    ensures
        forall|i: int| 0 <= i < digits_of(n).len() ==> is_digit_char(#[trigger] digits_of(n)[i]),
    decreases n,
{
    if n > 0 {
        lemma_digits_are_digits(n / 10);
        let d = (n % 10) as nat;
        assert(is_digit_char(digit_char(d)));
        let prev = digits_of(n / 10);
        assert(digits_of(n) == prev.push(digit_char(d)));
        assert forall|i: int| 0 <= i < digits_of(n).len() implies is_digit_char(
            #[trigger] digits_of(n)[i],
        ) by {
            if i < prev.len() {
                assert(digits_of(n)[i] == prev[i]);
            }
        }
    }
}

/// The integer part of the displayed value holds no decimal point.
pub proof fn lemma_whole_text_has_no_point(m: Money)
    ensures
        !whole_text(m).contains('.'),
{
    lemma_digits_are_digits(m.magnitude());
    let p = padded_digits(m);
    assert forall|i: int| 0 <= i < p.len() implies p[i] != '.' by {
        let d = digits_of(m.magnitude());
        if d.len() < m.places() {
            let z = zeros((m.places() - d.len()) as nat);
            if i >= z.len() {
                assert(p[i] == d[i - z.len()]);
                assert(is_digit_char(d[i - z.len()]));
            }
        } else {
            assert(is_digit_char(d[i]));
        }
    }
    let w = whole_text(m);
    if w.contains('.') {
        let k = choose|k: int| 0 <= k < w.len() && w[k] == '.';
        let sign = sign_text(m.sign_negative());
        if k >= sign.len() && whole_len(m) > 0 {
            assert(w[k] == p[k - sign.len()]);
        }
    }
}

/// Splitting at a point that neither prefix contains is unique.
pub proof fn lemma_split_unique(x: Seq<char>, y: Seq<char>, x2: Seq<char>, y2: Seq<char>)
    requires
        x + seq!['.'] + y == x2 + seq!['.'] + y2,
        !x.contains('.'),
        !x2.contains('.'),
    ensures
        x == x2,
        y == y2,
{
    let whole = x + seq!['.'] + y;
    if x.len() < x2.len() {
        assert(whole[x.len() as int] == '.');
        assert((x2 + seq!['.'] + y2)[x.len() as int] == x2[x.len() as int]);
        assert(x2.contains('.'));
    } else if x2.len() < x.len() {
        assert((x2 + seq!['.'] + y2)[x2.len() as int] == '.');
        assert(whole[x2.len() as int] == x[x2.len() as int]);
        assert(x.contains('.'));
    }
    assert(x =~= whole.take(x.len() as int));
    assert(x2 =~= (x2 + seq!['.'] + y2).take(x2.len() as int));
    assert(y =~= whole.skip(x.len() as int + 1));
    assert(y2 =~= (x2 + seq!['.'] + y2).skip(x2.len() as int + 1));
}

/// What the accessors of a value built from parts within bounds return.
pub proof fn lemma_spec_parts(negative: bool, magnitude: nat, places: nat)
    requires
        magnitude < MANTISSA_BOUND,
        places <= MAX_SCALE,
    ensures
        Money::from_spec_parts(negative, magnitude, places).sign_negative() == negative,
        Money::from_spec_parts(negative, magnitude, places).magnitude() == magnitude,
        Money::from_spec_parts(negative, magnitude, places).places() == places,
        Money::from_spec_parts(negative, magnitude, places).bounded(),
{
}

/// The value is above zero exactly when the sign flag is clear and the mantissa is not
/// zero, and below zero exactly when the flag is set and the mantissa is not zero.
pub proof fn lemma_units_sign(m: Money)
    ensures
        (m.units() > 0) == (!m.sign_negative() && m.magnitude() != 0),
        (m.units() < 0) == (m.sign_negative() && m.magnitude() != 0),
{
    let p = pow10((MAX_SCALE - m.places()) as nat);
    lemma_pow10_monotone(0, (MAX_SCALE - m.places()) as nat);
    let k = m.magnitude() as int;
    assert(k > 0 ==> k * p > 0) by (nonlinear_arith)
        requires
            p >= 1,
    ;
    assert((-k) * p == -(k * p)) by (nonlinear_arith);
}

/// An integer below `2^96` in magnitude converts exactly: its value in units is `v * 10^28`.
pub proof fn lemma_from_int(v: int)
    requires
        -(MANTISSA_BOUND as int) < v < MANTISSA_BOUND,
    ensures
        from_int(v).sign_negative() == (v < 0),
        from_int(v).magnitude() == (if v < 0 { -v } else { v }),
        from_int(v).places() == 0,
        from_int(v).bounded(),
        from_int(v).units() == v * unit(),
{
}

/// Rebuilding a bounded value from its parts gives the value back.
pub proof fn lemma_bounded_roundtrip(m: Money)
    requires
        m.bounded(),
    ensures
        Money::from_spec_parts(m.sign_negative(), m.magnitude(), m.places()) == m,
        Money::from_spec_parts(!m.sign_negative(), m.magnitude(), m.places()) == Money::from_spec_parts(
            !m.sign_negative(),
            m.magnitude(),
            m.places(),
        ),
{
}

/// Spec of the value zero.
pub open spec fn zero_spec() -> Money {
    Money::from_spec_parts(false, 0, 0)
}

/// Zero has no sign, no digits, no places, and is worth zero units.
pub proof fn lemma_zero()
    ensures
        !zero_spec().sign_negative(),
        zero_spec().magnitude() == 0,
        zero_spec().places() == 0,
        zero_spec().units() == 0,
{
    lemma_spec_parts(false, 0, 0);
    assert(0 * pow10(28) == 0);
}

/// `10^n` is at least one and grows with `n`.
pub proof fn lemma_pow10_monotone(a: nat, b: nat)
    requires
        a <= b,
    ensures
        1 <= pow10(a) <= pow10(b),
    decreases b,
{
    if a < b {
        lemma_pow10_monotone(a, (b - 1) as nat);
    } else if a > 0 {
        lemma_pow10_monotone((a - 1) as nat, (a - 1) as nat);
    }
}

impl Money {
    /// The value zero.
    pub fn zero() -> (r: Money)
        ensures
            r == zero_spec(),
    {
        Money { negative: false, mantissa: 0, scale: 0 }
    }

    /// The value with the given sign flag, mantissa and number of fractional digits,
    /// or `None` when the mantissa needs more than 96 bits or the scale exceeds 28.
    pub fn from_parts(negative: bool, mantissa: u128, scale: u32) -> (r: Option<Money>)
        ensures
            r is Some <==> mantissa < MANTISSA_BOUND && scale <= MAX_SCALE,
            r is Some ==> r == Some(Money::from_spec_parts(negative, mantissa as nat, scale as nat)),
    {
        if mantissa < MANTISSA_BOUND && scale <= MAX_SCALE {
            Some(Money { negative, mantissa, scale })
        } else {
            None
        }
    }

    /// Whether the sign flag is set (a negative value, or a negative zero).
    pub fn is_sign_negative(&self) -> (r: bool)
        ensures
            r == self.sign_negative(),
    {
        self.negative
    }

    /// Magnitude of the mantissa.
    pub fn mantissa(&self) -> (r: u128)
        ensures
            r == self.magnitude(),
            r < MANTISSA_BOUND,
    {
        proof {
            use_type_invariant(self);
        }
        self.mantissa
    }

    /// Number of fractional digits.
    pub fn scale(&self) -> (r: u32)
        ensures
            r == self.places(),
            r <= MAX_SCALE,
    {
        proof {
            use_type_invariant(self);
        }
        self.scale
    }

    /// Round to 2 decimal places, a midpoint away from zero (half-up).
    pub fn round_dp2(self) -> (r: Money)
        ensures
            r == rounded(self, 2, true),
    {
        decimal_round_dp_half_up(self, 2)
    }

    /// Round to `dp` decimal places, a midpoint to the even neighbour.
    pub fn round_dp(self, dp: u32) -> (r: Money)
        ensures
            r == rounded(self, dp as nat, false),
    {
        decimal_round_dp(self, dp)
    }

    /// The absolute value.
    pub fn abs(self) -> (r: Money)
        ensures
            r == absolute(self),
    {
        proof {
            use_type_invariant(&self);
        }
        Money { negative: false, mantissa: self.mantissa, scale: self.scale }
    }

    /// Whether the value is zero.
    pub fn is_zero(self) -> (r: bool)
        ensures
            r == (self.magnitude() == 0),
    {
        self.mantissa == 0
    }

    /// Whether the value is above zero (zero is not).
    pub fn is_positive(self) -> (r: bool)
        ensures
            r == (self.units() > 0),
    {
        proof {
            lemma_units_sign(self);
        }
        !self.negative && self.mantissa != 0
    }

    /// Whether the value is below zero (a negative zero is not).
    pub fn is_negative(self) -> (r: bool)
        ensures
            r == (self.units() < 0),
    {
        proof {
            lemma_units_sign(self);
        }
        self.negative && self.mantissa != 0
    }

    /// The sign of the value: -1, 0 or 1.
    pub fn signum(self) -> (r: i32)
        ensures
            r == (if self.magnitude() == 0 {
                0
            } else if self.sign_negative() {
                -1
            } else {
                1
            }),
    {
        if self.mantissa == 0 {
            0
        } else if self.negative {
            -1
        } else {
            1
        }
    }

    /// The value as `rust_decimal` displays it, e.g. `"19.99"`, `"-0.50"`, `"3000"`.
    pub fn to_string(&self) -> (r: String)
        ensures
            r@ == decimal_text(*self),
    {
        decimal_to_string(*self)
    }

    /// The bounds that every value held by code satisfies.
    pub(crate) fn assert_invariant(&self)
        ensures
            self.bounded(),
            in_range(self.units()),
    {
        proof {
            use_type_invariant(self);
            self.lemma_bounded();
        }
    }

    /// The value with its sign flag flipped.
    pub(crate) fn flip_sign(self) -> (r: Money)
        ensures
            r == negated(self),
    {
        proof {
            use_type_invariant(&self);
        }
        Money { negative: !self.negative, mantissa: self.mantissa, scale: self.scale }
    }

    /// `Decimal::from` of a 64-bit integer.
    pub(crate) fn from_i64_value(v: i64) -> (r: Money)
        ensures
            r == from_int(v as int),
    {
        if v < 0 {
            let m: u128 = (0i128 - (v as i128)) as u128;
            Money { negative: true, mantissa: m, scale: 0 }
        } else {
            Money { negative: false, mantissa: v as u128, scale: 0 }
        }
    }

    /// `Decimal::from` of an unsigned 64-bit integer.
    pub(crate) fn from_u64_value(v: u64) -> (r: Money)
        ensures
            r == from_int(v as int),
    {
        Money { negative: false, mantissa: v as u128, scale: 0 }
    }
}


/// Splits at the first decimal point: the characters before it, those after it, and
/// whether there was one.
fn split_at_point(chars: &Vec<char>) -> (r: (Vec<char>, Vec<char>, bool))
    ensures
        !r.0@.contains('.'),
        r.2 ==> chars@ == r.0@ + seq!['.'] + r.1@,
        !r.2 ==> chars@ == r.0@ && r.1@.len() == 0,
{
    let mut before: Vec<char> = Vec::new();
    let mut i: usize = 0;
    while i < chars.len()
        invariant
            i <= chars.len(),
            before@ == chars@.take(i as int),
            !before@.contains('.'),
        decreases chars.len() - i,
    {
        if chars[i] == '.' {
            let mut after: Vec<char> = Vec::new();
            let mut j: usize = i + 1;
            while j < chars.len()
                invariant
                    i < j <= chars.len(),
                    after@ == chars@.subrange(i as int + 1, j as int),
                decreases chars.len() - j,
            {
                after.push(chars[j]);
                j = j + 1;
            }
            assert(chars@ == before@ + seq!['.'] + after@);
            return (before, after, true);
        }
        before.push(chars[i]);
        i = i + 1;
        assert(before@ == chars@.take(i as int));
    }
    assert(chars@ == before@);
    (before, Vec::new(), false)
}

/// The integer and fraction parts of the displayed form of `a`.
fn display_parts(a: Money) -> (r: (Vec<char>, Vec<char>))
    ensures
        r.0@ == whole_text(a),
        r.1@ == fraction_text(a),
{
    let text = a.to_string();
    let chars = crate::text::chars_of(text.as_str());
    let (before, after, has_point) = split_at_point(&chars);
    proof {
        lemma_whole_text_has_no_point(a);
        if a.places() == 0 {
            if has_point {
                assert(chars@[before@.len() as int] == '.');
                assert(whole_text(a).contains('.'));
            }
            assert(padded_digits(a).skip(whole_len(a) as int) =~= Seq::<char>::empty());
        } else {
            if !has_point {
                assert(chars@[whole_text(a).len() as int] == '.');
                assert(before@.contains('.'));
            }
            lemma_split_unique(before@, after@, whole_text(a), fraction_text(a));
        }
    }
    (before, after)
}

/// `group_thousands` of the first `end` characters of `s`.
fn group_thousands_prefix(s: &Vec<char>, end: usize) -> (r: Vec<char>)
    requires
        end <= s.len(),
    ensures
        r@ == group_thousands(s@.take(end as int)),
    decreases end,
{
    if end <= 3 {
        let mut v: Vec<char> = Vec::new();
        let mut i: usize = 0;
        while i < end
            invariant
                i <= end <= s.len(),
                v@ == s@.take(i as int),
            decreases end - i,
        {
            v.push(s[i]);
            i = i + 1;
            assert(v@ == s@.take(i as int));
        }
        v
    } else {
        let mut v = group_thousands_prefix(s, end - 3);
        v.push(',');
        v.push(s[end - 3]);
        v.push(s[end - 2]);
        v.push(s[end - 1]);
        proof {
            let t = s@.take(end as int);
            assert(t.take(t.len() - 3) =~= s@.take(end - 3));
            assert(t.skip(t.len() - 3) =~= seq![s@[end - 3], s@[end - 2], s@[end - 1]]);
            assert(v@ =~= group_thousands(s@.take(end - 3)) + seq![','] + t.skip(t.len() - 3));
        }
        v
    }
}

/// Appends `two_decimals(fraction)`.
fn push_two_decimals(out: &mut Vec<char>, fraction: &Vec<char>)
    ensures
        final(out)@ == old(out)@ + two_decimals(fraction@),
{
    if fraction.len() == 0 {
        out.push('0');
        out.push('0');
    } else if fraction.len() == 1 {
        out.push(fraction[0]);
        out.push('0');
    } else {
        out.push(fraction[0]);
        out.push(fraction[1]);
    }
    proof {
        let f = fraction@;
        if f.len() == 0 {
            assert(two_decimals(f) =~= seq!['0', '0']);
        } else if f.len() == 1 {
            assert(f + seq!['0'] =~= seq![f[0], '0']);
        } else {
            assert(f.take(2) =~= seq![f[0], f[1]]);
        }
    }
}

/// The sign of `r` (value below zero) and the magnitude whose digits are shown.
fn sign_and_magnitude(r: Money) -> (res: (bool, Money))
    ensures
        res.0 == (r.units() < 0),
        res.1 == (if res.0 {
            negated(r)
        } else {
            r
        }),
{
    let negative = crate::decimal::decimal_lt(r, Money::zero());
    proof {
        lemma_zero();
    }
    if negative {
        (true, r.flip_sign())
    } else {
        (false, r)
    }
}

/// Format a Money value as a currency string (e.g., "Rs. 1,234.56").
pub fn format_money(v: Money) -> (r: String)
    ensures
        r@ == money_text(v),
{
    let rounded_value = round_money(v);
    let (negative, a) = sign_and_magnitude(rounded_value);
    let (whole, fraction) = display_parts(a);
    let grouped = group_thousands_prefix(&whole, whole.len());
    proof {
        assert(whole@.take(whole.len() as int) =~= whole@);
    }
    let mut out: Vec<char> = vec!['R', 's', '.', ' '];
    if negative {
        out.push('-');
    }
    crate::text::push_all(&mut out, &grouped);
    out.push('.');
    push_two_decimals(&mut out, &fraction);
    proof {
        assert(out@ =~= seq!['R', 's', '.', ' '] + sign_text(negative) + group_thousands(
            whole_text(a),
        ) + seq!['.'] + two_decimals(fraction_text(a)));
    }
    crate::text::string_of(&out)
}

/// Appends `.` and the first `width` characters of `right_pad_zeros(fraction, width)`.
fn push_padded_fraction(out: &mut Vec<char>, fraction: &Vec<char>, width: usize)
    requires
        width > 0,
    ensures
        final(out)@ == old(out)@ + seq!['.'] + right_pad_zeros(fraction@, width as nat).take(
            width as int,
        ),
{
    let mut padded: Vec<char> = Vec::new();
    crate::text::push_all(&mut padded, &fraction);
    if fraction.len() < width {
        let mut k: usize = 0;
        while k < width - fraction.len()
            invariant
                fraction.len() < width,
                k <= width - fraction.len(),
                padded@ == fraction@ + zeros(k as nat),
            decreases width - fraction.len() - k,
        {
            padded.push('0');
            k = k + 1;
            assert(padded@ =~= fraction@ + zeros(k as nat));
        }
    } else {
        assert(padded@ =~= fraction@);
    }
    assert(padded@ == right_pad_zeros(fraction@, width as nat));
    out.push('.');
    let ghost with_point = out@;
    let mut i: usize = 0;
    while i < width
        invariant
            i <= width,
            padded@.len() >= width,
            out@ == with_point + padded@.take(i as int),
        decreases width - i,
    {
        out.push(padded[i]);
        i = i + 1;
        assert(out@ =~= with_point + padded@.take(i as int));
    }
}

/// Format a Money value with custom currency code and decimals.
pub fn format_money_with_code(v: Money, code: &str, decimals: u32) -> (r: String)
    ensures
        r@ == money_text_with_code(v, code@, decimals as nat),
{
    let rounded_value = v.round_dp(decimals);
    let (negative, a) = sign_and_magnitude(rounded_value);
    let (whole, fraction) = display_parts(a);
    let grouped = group_thousands_prefix(&whole, whole.len());
    proof {
        assert(whole@.take(whole.len() as int) =~= whole@);
    }
    let mut out = crate::text::chars_of(code);
    out.push(' ');
    if negative {
        out.push('-');
    }
    crate::text::push_all(&mut out, &grouped);
    let ghost head = out@;
    if decimals > 0 {
        push_padded_fraction(&mut out, &fraction, decimals as usize);
    }
    proof {
        assert(head =~= code@ + seq![' '] + sign_text(negative) + group_thousands(whole_text(a)));
        if decimals == 0 {
            assert(out@ =~= head + Seq::<char>::empty());
        }
    }
    crate::text::string_of(&out)
}

/// Round a monetary amount to 2 decimal places.
pub fn round_money(v: Money) -> (r: Money)
    ensures
        r == rounded(v, 2, true),
{
    v.round_dp2()
}


/// What folding `values` with `Decimal` addition from zero returns.
pub open spec fn sum_seq(values: Seq<Money>) -> Money
    decreases values.len(),
{
    if values.len() == 0 {
        zero_spec()
    } else {
        crate::decimal::decimal_sum(sum_seq(values.drop_last()), values.last())
    }
}

/// The exact total of `values`, in units of `10^-28`.
pub open spec fn total_units(values: Seq<Money>) -> int
    decreases values.len(),
{
    if values.len() == 0 {
        0
    } else {
        total_units(values.drop_last()) + values.last().units()
    }
}

/// The total of the magnitudes of `values`, in units of `10^-28`.
pub open spec fn total_magnitude_units(values: Seq<Money>) -> int
    decreases values.len(),
{
    if values.len() == 0 {
        0
    } else {
        total_magnitude_units(values.drop_last()) + (if values.last().units() < 0 {
            -values.last().units()
        } else {
            values.last().units()
        })
    }
}

/// The largest number of places among `values`.
pub open spec fn widest_places(values: Seq<Money>) -> nat
    decreases values.len(),
{
    if values.len() == 0 {
        0
    } else {
        max_places(widest_places(values.drop_last()), values.last().places())
    }
}

/// Every running total of `values` is exactly representable at the widest scale among
/// them: the magnitudes add up to less than `2^96` steps of that scale.
pub open spec fn sum_exactly_representable(values: Seq<Money>) -> bool {
    &&& widest_places(values) <= MAX_SCALE
    &&& total_magnitude_units(values) < MANTISSA_BOUND * pow10(
        (MAX_SCALE - widest_places(values)) as nat,
    )
}

/// The amounts can be summed exactly: every running total is representable at the widest
/// scale among them, and their magnitudes add up to at most the largest amount.
pub open spec fn sum_fits(values: Seq<Money>) -> bool {
    &&& sum_exactly_representable(values)
    &&& total_magnitude_units(values) <= max_mantissa() * unit()
}

/// Facts about a prefix of `values`: its exact total is the shorter total plus the next
/// value; its magnitudes add up to no more than those of all of `values`; the next
/// value's places are within the widest.
pub proof fn lemma_prefix(values: Seq<Money>, i: int)
    requires
        0 <= i < values.len(),
    ensures
        values.take(i + 1).drop_last() == values.take(i),
        values.take(i + 1).last() == values[i],
        total_units(values.take(i + 1)) == total_units(values.take(i)) + values[i].units(),
        total_magnitude_units(values.take(i + 1)) <= total_magnitude_units(values),
        -total_magnitude_units(values.take(i + 1)) <= total_units(values.take(i + 1))
            <= total_magnitude_units(values.take(i + 1)),
        widest_places(values.take(i)) <= widest_places(values),
        values[i].places() <= widest_places(values),
    decreases values.len(),
{
    assert(values.take(i + 1).drop_last() =~= values.take(i));
    lemma_total_within_magnitudes(values.take(i + 1));
    if i + 1 < values.len() {
        let shorter = values.drop_last();
        lemma_prefix(shorter, i);
        assert(shorter.take(i + 1) =~= values.take(i + 1));
        assert(shorter.take(i) =~= values.take(i));
        assert(shorter[i] == values[i]);
    } else {
        assert(values.take(i + 1) =~= values);
        lemma_widest_prefix(values, i);
    }
}

/// The widest places of a shorter prefix are within those of `values`.
pub proof fn lemma_widest_prefix(values: Seq<Money>, i: int)
    requires
        0 <= i <= values.len(),
    ensures
        widest_places(values.take(i)) <= widest_places(values),
    decreases values.len(),
{
    if i < values.len() {
        let shorter = values.drop_last();
        lemma_widest_prefix(shorter, i);
        assert(shorter.take(i) =~= values.take(i));
    } else {
        assert(values.take(i) =~= values);
    }
}

/// An exact total lies between minus and plus the total of the magnitudes.
pub proof fn lemma_total_within_magnitudes(values: Seq<Money>)
    ensures
        -total_magnitude_units(values) <= total_units(values) <= total_magnitude_units(values),
    decreases values.len(),
{
    if values.len() > 0 {
        lemma_total_within_magnitudes(values.drop_last());
    }
}

/// Each running total of `values`, as `Decimal` addition computes it, plus the next
/// amount lies within the representable range, so that no addition overflows.
pub open spec fn sum_in_range(values: Seq<Money>) -> bool {
    forall|i: int|
        0 <= i < values.len() ==> in_range(#[trigger] sum_seq(values.take(i)).units() + values[i].units())
}

impl Money {
    /// Sum of the amounts, starting from zero, as `Decimal` addition computes it; exact
    /// whenever every running total is representable at the widest scale among them.
    /// Every running total must stay within range; amounts that can be summed exactly
    /// within range always qualify.
    pub fn sum(values: &Vec<Money>) -> (r: Money)
        requires
            sum_in_range(values@) || sum_fits(values@),
        ensures
            r == sum_seq(values@),
            sum_exactly_representable(values@) ==> r.units() == total_units(values@)
                && r.places() <= widest_places(values@),
    {
        let mut acc = Money::zero();
        let mut i: usize = 0;
        proof {
            lemma_zero();
            assert(values@.take(0) =~= Seq::<Money>::empty());
        }
        while i < values.len()
            invariant
                i <= values.len(),
                sum_in_range(values@) || sum_fits(values@),
                acc == sum_seq(values@.take(i as int)),
                sum_exactly_representable(values@) ==> acc.units() == total_units(values@.take(i as int))
                    && acc.places() <= widest_places(values@),
            decreases values.len() - i,
        {
            let v = values[i];
            let ghost before = acc;
            proof {
                lemma_prefix(values@, i as int);
                if sum_fits(values@) {
                    assert(in_range(acc.units() + v.units()));
                } else {
                    assert(in_range(sum_seq(values@.take(i as int)).units() + values@[i as int].units()));
                }
            }
            acc = crate::decimal::decimal_add(acc, v);
            proof {
                if sum_exactly_representable(values@) {
                    use_type_invariant(&v);
                    let w = widest_places(values@);
                    let mp = max_places(before.places(), v.places());
                    lemma_pow10_monotone((MAX_SCALE - w) as nat, (MAX_SCALE - mp) as nat);
                    let lo = pow10((MAX_SCALE - w) as nat);
                    let hi = pow10((MAX_SCALE - mp) as nat);
                    assert(MANTISSA_BOUND * lo <= MANTISSA_BOUND * hi) by (nonlinear_arith)
                        requires
                            lo <= hi,
                    ;
                    assert(representable_at(before.units() + v.units(), mp));
                }
            }
            i = i + 1;
        }
        proof {
            assert(values@.take(values.len() as int) =~= values@);
        }
        acc
    }
}


/// Decimal places that a quotient of amounts keeps. The rule holds for every quotient the
/// library computes: `Money / Money`, `Money / i64`, `/=` and `percent_of`, so that
/// `100 / 30` is `3.333333333333333333333333333` (27 threes).
pub const QUOTIENT_PLACES: u32 = 27;

/// The quotient `a / b` as amounts keep it: the decimal quotient, rounded (midpoint to
/// even) to `QUOTIENT_PLACES` places, so that `100 / 30` is `3.333333333333333333333333333`.
pub open spec fn money_quotient(a: Money, b: Money) -> Money {
    rounded(crate::decimal::decimal_quotient(a, b), QUOTIENT_PLACES as nat, false)
}

/// The quotient of two amounts, kept to `QUOTIENT_PLACES` places; zero divided by
/// anything is zero.
pub(crate) fn divide(a: Money, b: Money) -> (r: Money)
    requires
        b.magnitude() != 0,
        crate::decimal::in_range_quotient(a, b),
    ensures
        r == money_quotient(a, b),
        a.magnitude() == 0 ==> r == zero_spec(),
        crate::decimal::exact_division(a, b) && a.places() - b.places() <= QUOTIENT_PLACES ==> r
            == Money::from_spec_parts(
            a.sign_negative() != b.sign_negative(),
            a.magnitude() / b.magnitude(),
            (a.places() - b.places()) as nat,
        ),
{
    let q = crate::decimal::decimal_div(a, b);
    proof {
        lemma_zero();
        if crate::decimal::exact_division(a, b) && a.places() - b.places() <= QUOTIENT_PLACES {
            use_type_invariant(&a);
            assert(a.magnitude() / b.magnitude() <= a.magnitude()) by (nonlinear_arith)
                requires
                    b.magnitude() >= 1,
            ;
            lemma_spec_parts(
                a.sign_negative() != b.sign_negative(),
                a.magnitude() / b.magnitude(),
                (a.places() - b.places()) as nat,
            );
        }
    }
    crate::decimal::decimal_round_dp(q, QUOTIENT_PLACES)
}

/// Shorthand to create a Money value from a string literal; the text must parse, as a
/// plain decimal number such as `"19.99"` always does.
pub fn money(s: &str) -> (r: Money)
    requires
        crate::decimal::decimal_parse(s@) is Some || exists|negative: bool, whole: Seq<char>, fraction: Seq<char>|
            plain_decimal_text(s@, negative, whole, fraction),
    ensures
        crate::decimal::decimal_parse(s@) == Some(r),
        forall|negative: bool, whole: Seq<char>, fraction: Seq<char>|
            #[trigger] plain_decimal_text(s@, negative, whole, fraction) ==> r == plain_decimal(
                negative,
                whole,
                fraction,
            ),
{
    match crate::decimal::decimal_from_str(s) {
        Some(m) => m,
        None => {
            proof {
                let (n, w, f) = choose|negative: bool, whole: Seq<char>, fraction: Seq<char>|
                    plain_decimal_text(s@, negative, whole, fraction);
                assert(plain_decimal_text(s@, n, w, f));
            }
            Money::zero()
        },
    }
}

/// Shorthand to create a Money value from an integer.
pub fn money_int(v: i64) -> (r: Money)
    ensures
        r == from_int(v as int),
{
    Money::from_i64_value(v)
}

/// Parse a Money from a string, returning zero on failure.
pub fn parse_money(s: &str) -> (r: Money)
    ensures
        r == (match crate::decimal::decimal_parse(s@) {
            Some(m) => m,
            None => zero_spec(),
        }),
        forall|negative: bool, whole: Seq<char>, fraction: Seq<char>|
            #[trigger] plain_decimal_text(s@, negative, whole, fraction) ==> r == plain_decimal(
                negative,
                whole,
                fraction,
            ),
{
    if crate::decimal::decimal_from_str(s).is_some() {
        money(s)
    } else {
        Money::zero()
    }
}

/// Parse an optional Money from a string: `None` for blank text or text that does not parse.
pub fn parse_optional_money(s: &str) -> (r: Option<Money>)
    ensures
        crate::text::all_white_space(s@) ==> r is None,
        !crate::text::all_white_space(s@) ==> r == crate::decimal::decimal_parse(s@),
        forall|negative: bool, whole: Seq<char>, fraction: Seq<char>|
            #[trigger] plain_decimal_text(s@, negative, whole, fraction) ==> r == Some(
                plain_decimal(negative, whole, fraction),
            ),
{
    if crate::text::is_blank(s) {
        proof {
            assert forall|negative: bool, whole: Seq<char>, fraction: Seq<char>|
                #[trigger] plain_decimal_text(s@, negative, whole, fraction) implies false by {
                let k: int = if negative { 1 } else { 0 };
                assert(s@[k] == whole[0]);
                assert(crate::text::unicode_white_space(s@[k]));
            }
        }
        return None;
    }
    crate::decimal::decimal_from_str(s)
}

/// Scale a Money value (multiply by a quantity).
pub fn scale(v: Money, qty: Money) -> (r: Money)
    requires
        crate::decimal::in_range_product(v, qty),
    ensures
        r == crate::decimal::decimal_product(v, qty),
{
    crate::decimal::decimal_mul(v, qty)
}

/// Calculate a percentage of a Money value: `v * pct / 100`.
pub fn percent_of(v: Money, pct: Money) -> (r: Money)
    requires
        crate::decimal::in_range_product(v, pct),
    ensures
        r == money_quotient(crate::decimal::decimal_product(v, pct), from_int(100)),
        v.magnitude() == 0 || pct.magnitude() == 0 ==> r == zero_spec(),
        v.magnitude() != 0 && pct.magnitude() != 0 && v.places() + pct.places() <= QUOTIENT_PLACES
            && v.magnitude() * pct.magnitude() < MANTISSA_BOUND && (v.magnitude() * pct.magnitude()) % 100
            == 0 ==> r == Money::from_spec_parts(
            v.sign_negative() != pct.sign_negative(),
            v.magnitude() * pct.magnitude() / 100,
            v.places() + pct.places(),
        ),
{
    let product = crate::decimal::decimal_mul(v, pct);
    let hundred = Money::from_i64_value(100);
    product.assert_invariant();
    proof {
        lemma_zero();
        lemma_from_int(100);
        crate::money_ops::lemma_integer_divisor_in_range(product, 100);
        if v.magnitude() != 0 && pct.magnitude() != 0 && v.places() + pct.places() <= QUOTIENT_PLACES
            && v.magnitude() * pct.magnitude() < MANTISSA_BOUND {
            assert(v.magnitude() * pct.magnitude() != 0) by (nonlinear_arith)
                requires
                    v.magnitude() != 0,
                    pct.magnitude() != 0,
            ;
            lemma_spec_parts(
                v.sign_negative() != pct.sign_negative(),
                v.magnitude() * pct.magnitude(),
                v.places() + pct.places(),
            );
        }
    }
    divide(product, hundred)
}

} // verus!
