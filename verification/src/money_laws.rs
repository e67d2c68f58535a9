//! Properties of monetary values that hold across operations.

use vstd::prelude::*;
use crate::decimal::{plain_decimal, plain_decimal_text};
use crate::text::{all_ascii_digits, digits_value};
use crate::money::{
    absolute, digit_char, digits_of, fraction_text, group_thousands, in_range, is_digit_char,
    lemma_digits_are_digits, lemma_pow10_monotone, lemma_spec_parts, lemma_units_sign,
    max_places, money_quotient, money_text, money_text_with_code, negated, padded_digits, pow10, representable_at,
    right_pad_zeros, rounded, sign_text, two_decimals, whole_len, whole_text, zeros, Money, MAX_SCALE,
    QUOTIENT_PLACES,
};
use crate::money_ops::{difference_outcome, sum_outcome};

verus! {

/// Rounding a value with more than `dp` places gives one with exactly `dp` places; a
/// value with at most `dp` places is left as it is.
pub proof fn law_rounded_places(v: Money, dp: nat, half_up: bool)
    requires
        v.bounded(),
    ensures
        rounded(v, dp, half_up).bounded(),
        v.places() > dp ==> rounded(v, dp, half_up).places() == dp,
        v.places() <= dp ==> rounded(v, dp, half_up) == v,
{
    if v.places() > dp {
        let p = pow10((v.places() - dp) as nat);
        crate::money::lemma_pow10_monotone(1, (v.places() - dp) as nat);
        let q = v.magnitude() / p;
        assert(q * 10 <= v.magnitude()) by (nonlinear_arith)
            requires
                p >= 10,
                q == v.magnitude() / p,
        ;
        lemma_spec_parts(v.sign_negative(), 0, dp);
        lemma_spec_parts(v.sign_negative() && q + 1 != 0, q + 1, dp);
        lemma_spec_parts(v.sign_negative() && q != 0, q, dp);
    }
}

/// Rounding twice to the same number of places is rounding once.
pub proof fn law_round_idempotent(v: Money, dp: nat, half_up: bool)
    requires
        v.bounded(),
    ensures
        rounded(rounded(v, dp, half_up), dp, half_up) == rounded(v, dp, half_up),
{
    law_rounded_places(v, dp, half_up);
}

/// Formatting an amount that `round_money` already rounded shows the same text.
pub proof fn law_format_money_of_rounded(v: Money)
    requires
        v.bounded(),
    ensures
        money_text(rounded(v, 2, true)) == money_text(v),
{
    law_round_idempotent(v, 2, true);
}

/// A quotient of amounts keeps at most `QUOTIENT_PLACES` places, so rounding it again to
/// that many places leaves it as it is.
pub proof fn law_quotient_places(a: Money, b: Money)
    requires
        crate::decimal::decimal_quotient(a, b).bounded(),
    ensures
        money_quotient(a, b).bounded(),
        money_quotient(a, b).places() <= QUOTIENT_PLACES,
        rounded(money_quotient(a, b), QUOTIENT_PLACES as nat, false) == money_quotient(a, b),
{
    let q = crate::decimal::decimal_quotient(a, b);
    law_rounded_places(q, QUOTIENT_PLACES as nat, false);
    law_round_idempotent(q, QUOTIENT_PLACES as nat, false);
}

/// Negating twice gives the value back, and negation flips the sign of the value.
pub proof fn law_negation(m: Money)
    requires
        m.bounded(),
    ensures
        negated(negated(m)) == m,
        negated(m).units() == -m.units(),
{
    lemma_spec_parts(!m.sign_negative(), m.magnitude(), m.places());
    lemma_spec_parts(m.sign_negative(), m.magnitude(), m.places());
    crate::money::lemma_bounded_roundtrip(m);
    let p = pow10((MAX_SCALE - m.places()) as nat);
    let k = m.magnitude() as int;
    assert((-k) * p == -(k * p)) by (nonlinear_arith);
}

/// The absolute value is never below zero, equals the value or its negation, and does
/// not depend on the sign.
pub proof fn law_absolute(m: Money)
    requires
        m.bounded(),
    ensures
        absolute(m).units() >= 0,
        absolute(m).units() == (if m.units() < 0 {
            -m.units()
        } else {
            m.units()
        }),
        absolute(negated(m)) == absolute(m),
{
    lemma_spec_parts(false, m.magnitude(), m.places());
    lemma_spec_parts(!m.sign_negative(), m.magnitude(), m.places());
    let p = pow10((MAX_SCALE - m.places()) as nat);
    crate::money::lemma_pow10_monotone(0, (MAX_SCALE - m.places()) as nat);
    let k = m.magnitude() as int;
    assert(k * p >= 0) by (nonlinear_arith)
        requires
            k >= 0,
            p >= 1,
    ;
    assert((-k) * p == -(k * p)) by (nonlinear_arith);
}

/// Rounding away from zero treats both signs alike: a value that rounds to a positive
/// amount and its negation round to negations of each other.
pub proof fn law_round_half_up_symmetric(v: Money, dp: nat)
    requires
        v.bounded(),
        rounded(v, dp, true).magnitude() != 0,
    ensures
        rounded(negated(v), dp, true) == negated(rounded(v, dp, true)),
{
    lemma_spec_parts(!v.sign_negative(), v.magnitude(), v.places());
    if v.places() > dp {
        law_rounded_places(v, dp, true);
        lemma_spec_parts(v.sign_negative(), 0, dp);
        let p = pow10((v.places() - dp) as nat);
        let q = v.magnitude() / p;
        let rem = v.magnitude() % p;
        let q2: nat = if 2 * rem >= p {
            q + 1
        } else {
            q
        };
        assert(v.magnitude() != 0);
        crate::money::lemma_pow10_monotone(1, (v.places() - dp) as nat);
        assert(q * 10 <= v.magnitude()) by (nonlinear_arith)
            requires
                p >= 10,
                q == v.magnitude() / p,
        ;
        assert(rounded(v, dp, true) == Money::from_spec_parts(v.sign_negative() && q2 != 0, q2, dp));
        lemma_spec_parts(v.sign_negative() && q2 != 0, q2, dp);
        assert(q2 != 0);
        lemma_spec_parts(!v.sign_negative(), q2, dp);
        assert(rounded(negated(v), dp, true) == Money::from_spec_parts(!v.sign_negative(), q2, dp));
    } else {
        law_negation(v);
    }
}

/// The text of a negated amount is the text of the amount with a minus sign after
/// `Rs. `, whenever the amount rounds to a positive value.
pub proof fn law_format_money_negated(v: Money)
    requires
        v.bounded(),
        rounded(v, 2, true).units() > 0,
    ensures
        money_text(negated(v)) == seq!['R', 's', '.', ' ', '-'] + money_text(v).skip(4),
{
    let r = rounded(v, 2, true);
    law_rounded_places(v, 2, true);
    if r.magnitude() == 0 {
        assert(r.units() == 0) by (nonlinear_arith)
            requires
                r.signed_mantissa() == 0,
                r.units() == r.signed_mantissa() * pow10((MAX_SCALE - r.places()) as nat),
        ;
    }
    law_round_half_up_symmetric(v, 2);
    law_negation(r);
    let rn = rounded(negated(v), 2, true);
    assert(rn == negated(r));
    assert(rn.units() < 0);
    assert(negated(rn) == r);
    assert(sign_text(true) == seq!['-']);
    assert(sign_text(false) =~= Seq::<char>::empty());
    assert(money_text(negated(v)) =~= seq!['R', 's', '.', ' ', '-'] + money_text(v).skip(4));
}


/// Adding `b` and then subtracting it gives back the value of `a`, whenever the sum
/// neither overflows nor needs rounding and `a` itself fits at the larger of the two
/// scales; and an amount minus itself is zero.
pub proof fn law_add_then_subtract(a: Money, b: Money, s: Money, d: Money, z: Money)
    requires
        a.bounded(),
        b.bounded(),
        in_range(a.units() + b.units()),
        representable_at(a.units() + b.units(), max_places(a.places(), b.places())),
        representable_at(a.units(), max_places(a.places(), b.places())),
        sum_outcome(a, b, s),
        difference_outcome(s, b, d),
        difference_outcome(a, a, z),
    ensures
        in_range(s.units() - b.units()),
        d.units() == a.units(),
        z.units() == 0,
{
    a.lemma_bounded();
    lemma_pow10_monotone(0, (MAX_SCALE - a.places()) as nat);
    lemma_pow10_monotone(0, (MAX_SCALE - b.places()) as nat);
    assert(s.units() == a.units() + b.units());
    if a.magnitude() == 0 {
        assert(a.units() == 0);
    }
    assert(representable_at(s.units() - b.units(), max_places(s.places(), b.places())));
    assert(representable_at(a.units() - a.units(), max_places(a.places(), a.places())));
}


/// `s` with every `,` taken out.
pub open spec fn without_commas(s: Seq<char>) -> Seq<char>
    decreases s.len(),
{
    if s.len() == 0 {
        s
    } else if s.last() == ',' {
        without_commas(s.drop_last())
    } else {
        without_commas(s.drop_last()).push(s.last())
    }
}

/// Taking the commas out of two texts one after the other.
proof fn lemma_without_commas_concat(a: Seq<char>, b: Seq<char>)
    ensures
        without_commas(a + b) == without_commas(a) + without_commas(b),
    decreases b.len(),
{
    if b.len() == 0 {
        assert(a + b =~= a);
        assert(without_commas(a) + without_commas(b) =~= without_commas(a));
    } else {
        lemma_without_commas_concat(a, b.drop_last());
        assert((a + b).drop_last() =~= a + b.drop_last());
        assert((a + b).last() == b.last());
        assert(without_commas(a) + without_commas(b.drop_last()).push(b.last()) =~= (
        without_commas(a) + without_commas(b.drop_last())).push(b.last()));
    }
}

/// A text without commas is left as it is.
proof fn lemma_without_commas_none(s: Seq<char>)
    requires
        forall|i: int| 0 <= i < s.len() ==> s[i] != ',',
    ensures
        without_commas(s) == s,
    decreases s.len(),
{
    if s.len() > 0 {
        assert(s.last() == s[s.len() - 1]);
        assert forall|i: int| 0 <= i < s.drop_last().len() implies s.drop_last()[i] != ',' by {
            assert(s.drop_last()[i] == s[i]);
        }
        lemma_without_commas_none(s.drop_last());
        assert(s.drop_last().push(s.last()) =~= s);
    }
}

/// Grouping by thousands only adds commas.
proof fn lemma_without_commas_grouped(s: Seq<char>)
    ensures
        without_commas(group_thousands(s)) == without_commas(s),
    decreases s.len(),
{
    if s.len() > 3 {
        let h = s.take(s.len() - 3);
        let t = s.skip(s.len() - 3);
        lemma_without_commas_grouped(h);
        lemma_without_commas_concat(group_thousands(h) + seq![','], t);
        lemma_without_commas_concat(group_thousands(h), seq![',']);
        lemma_without_commas_concat(h, t);
        assert(h + t =~= s);
        let comma: Seq<char> = seq![','];
        assert(comma.last() == ',');
        assert(comma.len() == 1);
        assert(comma.drop_last() =~= Seq::<char>::empty());
        assert(without_commas(Seq::<char>::empty()) =~= Seq::<char>::empty());
        assert(without_commas(comma) == without_commas(comma.drop_last()));
        assert(without_commas(comma) =~= Seq::<char>::empty());
        assert(without_commas(group_thousands(h)) + without_commas(comma) =~= without_commas(
            group_thousands(h),
        ));
    }
}

/// Grouping keeps the first character.
proof fn lemma_grouped_first(s: Seq<char>)
    requires
        s.len() > 0,
    ensures
        group_thousands(s).len() > 0,
        group_thousands(s)[0] == s[0],
    decreases s.len(),
{
    if s.len() > 3 {
        let h = s.take(s.len() - 3);
        lemma_grouped_first(h);
        assert((group_thousands(h) + seq![','] + s.skip(s.len() - 3))[0] == group_thousands(h)[0]);
    }
}

/// The number that two runs of digits write one after the other.
proof fn lemma_digits_value_concat(a: Seq<char>, b: Seq<char>)
    ensures
        digits_value(a + b) == digits_value(a) * pow10(b.len()) + digits_value(b),
    decreases b.len(),
{
    if b.len() == 0 {
        assert(a + b =~= a);
        assert(pow10(0) == 1);
        assert(digits_value(b) == 0);
    } else {
        lemma_digits_value_concat(a, b.drop_last());
        assert((a + b).drop_last() =~= a + b.drop_last());
        assert((a + b).last() == b.last());
        let x = digits_value(a);
        let y = digits_value(b.drop_last());
        let p = pow10((b.len() - 1) as nat);
        let c = b.last() as int - '0' as int;
        assert(digits_value(a + b) == digits_value(a + b.drop_last()) * 10 + c);
        assert(digits_value(b) == y * 10 + c);
        assert(pow10(b.len()) == 10 * p);
        assert((x * p + y) * 10 == x * (10 * p) + y * 10) by (nonlinear_arith);
    }
}

/// The decimal digits of `n` are ASCII digits and write `n`.
proof fn lemma_digits_value_of(n: nat)
    ensures
        all_ascii_digits(digits_of(n)),
        digits_value(digits_of(n)) == n,
    decreases n,
{
    lemma_digits_are_digits(n);
    if n > 0 {
        lemma_digits_value_of(n / 10);
        let d = digits_of(n);
        assert(d.drop_last() =~= digits_of(n / 10));
        assert(d.last() == digit_char((n % 10) as nat));
        assert(d.last() as int == 48 + n % 10);
    }
    assert forall|i: int| 0 <= i < digits_of(n).len() implies '0' <= #[trigger] digits_of(n)[i]
        && digits_of(n)[i] <= '9' by {
        assert(is_digit_char(digits_of(n)[i]));
    }
}

/// A run of zeros writes zero.
proof fn lemma_zeros_value(k: nat)
    ensures
        all_ascii_digits(zeros(k)),
        digits_value(zeros(k)) == 0,
    decreases k,
{
    if k > 0 {
        lemma_zeros_value((k - 1) as nat);
        assert(zeros(k).drop_last() =~= zeros((k - 1) as nat));
    }
}

/// A number below `10^k` has at most `k` digits.
proof fn lemma_digits_of_len(n: nat, k: nat)
    requires
        n < pow10(k),
    ensures
        digits_of(n).len() <= k,
    decreases n,
{
    if n > 0 {
        assert(k > 0);
        assert(n / 10 < pow10((k - 1) as nat));
        lemma_digits_of_len(n / 10, (k - 1) as nat);
    }
}


/// `10^(a + b) = 10^a * 10^b`.
proof fn lemma_pow10_add(a: nat, b: nat)
    ensures
        pow10(a + b) == pow10(a) * pow10(b),
    decreases b,
{
    let x = pow10(a);
    if b > 0 {
        lemma_pow10_add(a, (b - 1) as nat);
        assert((a + b - 1) as nat == a + (b - 1) as nat);
        assert(pow10(a + b) == 10 * pow10((a + b - 1) as nat));
        let y = pow10((b - 1) as nat);
        assert(pow10(b) == 10 * y);
        assert(10 * (x * y) == x * (10 * y)) by (nonlinear_arith);
    } else {
        assert(pow10(0) == 1);
        assert(x * 1 == x);
    }
}

/// The digits shown for a non-negative amount with at most two places, and the number
/// they write with two decimals.
proof fn lemma_shown_digits(a: Money)
    requires
        a.bounded(),
        !a.sign_negative(),
        a.places() <= 2,
        a.magnitude() < pow10(26 + a.places()),
    ensures
        whole_text(a).len() >= 1,
        whole_text(a).len() <= 26,
        all_ascii_digits(whole_text(a)),
        all_ascii_digits(two_decimals(fraction_text(a))),
        two_decimals(fraction_text(a)).len() == 2,
        digits_value(whole_text(a) + two_decimals(fraction_text(a))) == a.magnitude() * pow10(
            (2 - a.places()) as nat,
        ),
{
    let p = a.places();
    let d = digits_of(a.magnitude());
    let pd = padded_digits(a);
    let w = whole_len(a);
    let f = fraction_text(a);
    lemma_digits_value_of(a.magnitude());
    lemma_digits_of_len(a.magnitude(), 26 + p);
    lemma_zeros_value(2);
    if d.len() < p {
        let z = zeros((p - d.len()) as nat);
        lemma_zeros_value((p - d.len()) as nat);
        lemma_digits_value_concat(z, d);
        assert(all_ascii_digits(pd)) by {
            assert forall|i: int| 0 <= i < pd.len() implies '0' <= #[trigger] pd[i] && pd[i] <= '9' by {
                if i < z.len() {
                    assert(pd[i] == z[i]);
                } else {
                    assert(pd[i] == d[i - z.len()]);
                }
            }
        }
    }
    assert(digits_value(pd) == a.magnitude());
    assert(all_ascii_digits(pd));
    assert(pd.len() >= p);
    assert(f.len() == p);
    assert(all_ascii_digits(f)) by {
        assert forall|i: int| 0 <= i < f.len() implies '0' <= #[trigger] f[i] && f[i] <= '9' by {
            assert(f[i] == pd[i + w]);
        }
    }
    let t = two_decimals(f);
    let zt = zeros((2 - p) as nat);
    lemma_zeros_value((2 - p) as nat);
    assert(t =~= f + zt);
    assert(all_ascii_digits(t)) by {
        assert forall|i: int| 0 <= i < t.len() implies '0' <= #[trigger] t[i] && t[i] <= '9' by {
            if i < f.len() {
                assert(t[i] == f[i]);
            } else {
                assert(t[i] == zt[i - f.len()]);
            }
        }
    }
    {
        let wt = whole_text(a);
        let zero: Seq<char> = seq!['0'];
        if w == 0 {
            assert(wt =~= zero);
            assert(f =~= pd);
            assert(digits_value(zero) == 0) by {
                assert(zero.len() == 1);
                assert(zero.last() == '0');
                assert(zero.drop_last() =~= Seq::<char>::empty());
                assert(digits_value(Seq::<char>::empty()) == 0);
            }
            lemma_digits_value_concat(zero, pd);
            assert(all_ascii_digits(wt)) by {
                assert(wt[0] == '0');
            }
        } else {
            assert(wt =~= pd.take(w as int));
            assert(wt + f =~= pd);
            assert(all_ascii_digits(wt)) by {
                assert forall|i: int| 0 <= i < wt.len() implies '0' <= #[trigger] wt[i] && wt[i] <= '9' by {
                    assert(wt[i] == pd[i]);
                }
            }
        }
        assert(digits_value(wt + f) == a.magnitude());
        assert(wt + t =~= (wt + f) + zt);
        lemma_digits_value_concat(wt + f, zt);
    }
}

/// The amount whose digits `format_money` shows for a rounded amount `r`: `r` without
/// its minus sign.
pub open spec fn shown_amount(r: Money) -> Money {
    if r.units() < 0 {
        negated(r)
    } else {
        r
    }
}

/// Rounding to two places keeps at most two places, and gives a zero with a minus sign
/// only for such a zero.
proof fn lemma_rounded_two_places(v: Money)
    requires
        v.bounded(),
        !(v.sign_negative() && v.magnitude() == 0),
    ensures
        rounded(v, 2, true).bounded(),
        rounded(v, 2, true).places() <= 2,
        !(rounded(v, 2, true).sign_negative() && rounded(v, 2, true).magnitude() == 0),
{
    law_rounded_places(v, 2, true);
    if v.places() > 2 {
        let pp = pow10((v.places() - 2) as nat);
        lemma_pow10_monotone(1, (v.places() - 2) as nat);
        let q = v.magnitude() / pp;
        assert(q * 10 <= v.magnitude()) by (nonlinear_arith)
            requires
                pp >= 10,
                q == v.magnitude() / pp,
        ;
        lemma_spec_parts(v.sign_negative(), 0, 2);
        lemma_spec_parts(v.sign_negative() && q + 1 != 0, q + 1, 2);
        lemma_spec_parts(v.sign_negative() && q != 0, q, 2);
    }
}

/// The shown amount of a rounded amount that is no zero with a minus sign has no minus
/// sign, and the same digits and places.
proof fn lemma_shown_amount(r: Money)
    requires
        r.bounded(),
        !(r.sign_negative() && r.magnitude() == 0),
    ensures
        shown_amount(r).bounded(),
        !shown_amount(r).sign_negative(),
        shown_amount(r).magnitude() == r.magnitude(),
        shown_amount(r).places() == r.places(),
{
    lemma_units_sign(r);
    lemma_spec_parts(!r.sign_negative(), r.magnitude(), r.places());
}

/// The text of `format_money` after `Rs. `, with the commas taken out: the sign, the
/// integer digits and the two decimals.
proof fn lemma_money_text_without_commas(v: Money)
    requires
        v.bounded(),
        !(v.sign_negative() && v.magnitude() == 0),
        rounded(v, 2, true).magnitude() < pow10(26 + rounded(v, 2, true).places()),
    ensures
        money_text(v).take(4) == seq!['R', 's', '.', ' '],
        (money_text(v)[4] == '-') == (rounded(v, 2, true).units() < 0),
        without_commas(money_text(v).skip(4)) == sign_text(rounded(v, 2, true).units() < 0)
            + whole_text(shown_amount(rounded(v, 2, true))) + (seq!['.'] + two_decimals(
            fraction_text(shown_amount(rounded(v, 2, true))),
        )),
{
    let r = rounded(v, 2, true);
    lemma_rounded_two_places(v);
    lemma_shown_amount(r);
    let a = shown_amount(r);
    let neg = r.units() < 0;
    lemma_shown_digits(a);
    let wt = whole_text(a);
    let t = two_decimals(fraction_text(a));
    let g = group_thousands(wt);
    let s = sign_text(neg);
    let dot: Seq<char> = seq!['.'];
    let text = money_text(v);
    assert(text =~= seq!['R', 's', '.', ' '] + (s + g + dot + t));
    assert(text.take(4) =~= seq!['R', 's', '.', ' ']);
    assert(text.skip(4) =~= s + g + dot + t);
    lemma_grouped_first(wt);
    if neg {
        assert(text[4] == s[0]);
    } else {
        assert(text[4] == g[0]);
        assert('0' <= wt[0] && wt[0] <= '9');
    }
    lemma_without_commas_concat(s + g + dot, t);
    lemma_without_commas_concat(s + g, dot);
    lemma_without_commas_concat(s, g);
    lemma_without_commas_grouped(wt);
    lemma_without_commas_none(s);
    assert forall|i: int| 0 <= i < wt.len() implies wt[i] != ',' by {
        assert('0' <= wt[i] && wt[i] <= '9');
    }
    lemma_without_commas_none(wt);
    lemma_without_commas_none(dot);
    assert forall|i: int| 0 <= i < t.len() implies t[i] != ',' by {
        assert('0' <= t[i] && t[i] <= '9');
    }
    lemma_without_commas_none(t);
    assert(without_commas(text.skip(4)) =~= s + wt + (dot + t));
}

/// The sign, integer digits and two decimals of a rounded amount form a plain decimal
/// number with the value of the amount.
proof fn lemma_shown_value(r: Money)
    requires
        r.bounded(),
        r.places() <= 2,
        !(r.sign_negative() && r.magnitude() == 0),
        r.magnitude() < pow10(26 + r.places()),
    ensures
        plain_decimal_text(
            sign_text(r.units() < 0) + whole_text(shown_amount(r)) + (seq!['.'] + two_decimals(
                fraction_text(shown_amount(r)),
            )),
            r.units() < 0,
            whole_text(shown_amount(r)),
            two_decimals(fraction_text(shown_amount(r))),
        ),
        plain_decimal(
            r.units() < 0,
            whole_text(shown_amount(r)),
            two_decimals(fraction_text(shown_amount(r))),
        ).units() == r.units(),
{
    lemma_shown_amount(r);
    lemma_units_sign(r);
    let a = shown_amount(r);
    let neg = r.units() < 0;
    let p = a.places();
    lemma_shown_digits(a);
    let wt = whole_text(a);
    let t = two_decimals(fraction_text(a));
    let m = digits_value(wt + t);
    lemma_pow10_add(26 + p, (2 - p) as nat);
    lemma_pow10_add((2 - p) as nat, 26);
    assert((26 + p + (2 - p) as nat) as nat == 28);
    assert(((2 - p) as nat + 26) as nat == (28 - p) as nat);
    assert(pow10(28) == 10000000000000000000000000000nat) by {
        reveal_with_fuel(pow10, 29);
    }
    lemma_pow10_monotone(0, (2 - p) as nat);
    let k = a.magnitude() as int;
    let e = pow10((2 - p) as nat) as int;
    let b = pow10(26 + p) as int;
    assert(k * e < b * e) by (nonlinear_arith)
        requires
            k < b,
            e >= 1,
    ;
    assert(m == k * e);
    lemma_spec_parts(neg && m != 0, m as nat, 2);
    let u = pow10(26) as int;
    assert((k * e) * u == k * (e * u)) by (nonlinear_arith);
    assert((-(k * e)) * u == -(k * (e * u))) by (nonlinear_arith);
    assert(k * e == 0 <==> k == 0) by (nonlinear_arith)
        requires
            e >= 1,
            k >= 0,
    ;
    assert(pow10((MAX_SCALE - r.places()) as nat) == e * u);
    assert(pow10((MAX_SCALE - 2) as nat) == u);
    let pd = plain_decimal(neg, wt, t);
    assert(pd.places() == 2);
    assert(pd.magnitude() == m);
    if neg {
        assert(r.sign_negative() && k != 0);
        assert(r.units() == (-k) * (e * u));
        assert(pd.units() == (-(k * e)) * u);
        assert((-k) * (e * u) == -(k * (e * u))) by (nonlinear_arith);
    } else {
        assert(!r.sign_negative());
        assert(r.units() == k * (e * u));
        assert(pd.units() == (k * e) * u);
    }
}

/// `format_money` shows `Rs. `, then a minus sign exactly when the rounded amount is
/// negative, then its integer digits grouped by thousands, a point and two decimals.
/// With the commas taken out, the text after `Rs. ` is a plain decimal number with two
/// decimals whose value is the rounded amount, so that parsing it gives that amount back.
/// This holds whenever the rounded amount has at most 26 integer digits (28 digits in
/// all) and `v` is not a zero with a minus sign.
pub proof fn law_format_money_round_trip(v: Money)
    requires
        v.bounded(),
        !(v.sign_negative() && v.magnitude() == 0),
        rounded(v, 2, true).magnitude() < pow10(26 + rounded(v, 2, true).places()),
    ensures
        money_text(v).take(4) == seq!['R', 's', '.', ' '],
        (money_text(v)[4] == '-') == (rounded(v, 2, true).units() < 0),
        exists|negative: bool, whole: Seq<char>, fraction: Seq<char>|
            #[trigger] plain_decimal_text(without_commas(money_text(v).skip(4)), negative, whole, fraction)
                && fraction.len() == 2 && money_text(v) == seq!['R', 's', '.', ' '] + sign_text(negative)
                + group_thousands(whole) + seq!['.'] + fraction && plain_decimal(negative, whole, fraction).units()
                == rounded(v, 2, true).units(),
{
    let r = rounded(v, 2, true);
    lemma_rounded_two_places(v);
    lemma_money_text_without_commas(v);
    lemma_shown_value(r);
    lemma_shown_amount(r);
    lemma_shown_digits(shown_amount(r));
    let neg = r.units() < 0;
    let wt = whole_text(shown_amount(r));
    let t = two_decimals(fraction_text(shown_amount(r)));
    assert(plain_decimal_text(without_commas(money_text(v).skip(4)), neg, wt, t));
}


/// The digits shown for a non-negative amount with at most `dd` places when it is written
/// with exactly `dd` decimals, and the number they write.
proof fn lemma_shown_digits_at(a: Money, dd: nat)
    requires
        a.bounded(),
        !a.sign_negative(),
        a.places() <= dd < 28,
        a.magnitude() < pow10((28 - dd + a.places()) as nat),
    ensures
        whole_text(a).len() >= 1,
        whole_text(a).len() + dd <= 28,
        all_ascii_digits(whole_text(a)),
        all_ascii_digits(right_pad_zeros(fraction_text(a), dd).take(dd as int)),
        right_pad_zeros(fraction_text(a), dd).take(dd as int).len() == dd,
        digits_value(whole_text(a) + right_pad_zeros(fraction_text(a), dd).take(dd as int))
            == a.magnitude() * pow10((dd - a.places()) as nat),
{
    let p = a.places();
    let d = digits_of(a.magnitude());
    let pd = padded_digits(a);
    let w = whole_len(a);
    let f = fraction_text(a);
    lemma_digits_value_of(a.magnitude());
    lemma_digits_of_len(a.magnitude(), (28 - dd + p) as nat);
    if d.len() < p {
        let z = zeros((p - d.len()) as nat);
        lemma_zeros_value((p - d.len()) as nat);
        lemma_digits_value_concat(z, d);
        assert(all_ascii_digits(pd)) by {
            assert forall|i: int| 0 <= i < pd.len() implies '0' <= #[trigger] pd[i] && pd[i] <= '9' by {
                if i < z.len() {
                    assert(pd[i] == z[i]);
                } else {
                    assert(pd[i] == d[i - z.len()]);
                }
            }
        }
    }
    assert(digits_value(pd) == a.magnitude());
    assert(all_ascii_digits(pd));
    assert(pd.len() >= p);
    assert(f.len() == p);
    assert(all_ascii_digits(f)) by {
        assert forall|i: int| 0 <= i < f.len() implies '0' <= #[trigger] f[i] && f[i] <= '9' by {
            assert(f[i] == pd[i + w]);
        }
    }
    let t = right_pad_zeros(f, dd).take(dd as int);
    let zt = zeros((dd - p) as nat);
    lemma_zeros_value((dd - p) as nat);
    assert(t =~= f + zt);
    assert(all_ascii_digits(t)) by {
        assert forall|i: int| 0 <= i < t.len() implies '0' <= #[trigger] t[i] && t[i] <= '9' by {
            if i < f.len() {
                assert(t[i] == f[i]);
            } else {
                assert(t[i] == zt[i - f.len()]);
            }
        }
    }
    let wt = whole_text(a);
    let zero: Seq<char> = seq!['0'];
    if w == 0 {
        assert(wt =~= zero);
        assert(f =~= pd);
        assert(digits_value(zero) == 0) by {
            assert(zero.len() == 1);
            assert(zero.last() == '0');
            assert(zero.drop_last() =~= Seq::<char>::empty());
            assert(digits_value(Seq::<char>::empty()) == 0);
        }
        lemma_digits_value_concat(zero, pd);
        assert(all_ascii_digits(wt)) by {
            assert(wt[0] == '0');
        }
    } else {
        assert(wt =~= pd.take(w as int));
        assert(wt + f =~= pd);
        assert(all_ascii_digits(wt)) by {
            assert forall|i: int| 0 <= i < wt.len() implies '0' <= #[trigger] wt[i] && wt[i] <= '9' by {
                assert(wt[i] == pd[i]);
            }
        }
    }
    assert(digits_value(wt + f) == a.magnitude());
    assert(wt + t =~= (wt + f) + zt);
    lemma_digits_value_concat(wt + f, zt);
}

/// Rounding to `dp` places keeps at most `dp` places, and gives a zero with a minus sign
/// only for such a zero.
proof fn lemma_rounded_sign(v: Money, dp: nat, half_up: bool)
    requires
        v.bounded(),
        !(v.sign_negative() && v.magnitude() == 0),
    ensures
        rounded(v, dp, half_up).bounded(),
        rounded(v, dp, half_up).places() <= dp || rounded(v, dp, half_up) == v,
        rounded(v, dp, half_up).places() <= v.places(),
        !(rounded(v, dp, half_up).sign_negative() && rounded(v, dp, half_up).magnitude() == 0),
{
    law_rounded_places(v, dp, half_up);
    if v.places() > dp {
        let pp = pow10((v.places() - dp) as nat);
        lemma_pow10_monotone(1, (v.places() - dp) as nat);
        let q = v.magnitude() / pp;
        assert(q * 10 <= v.magnitude()) by (nonlinear_arith)
            requires
                pp >= 10,
                q == v.magnitude() / pp,
        ;
        lemma_spec_parts(v.sign_negative(), 0, dp);
        lemma_spec_parts(v.sign_negative() && q + 1 != 0, q + 1, dp);
        lemma_spec_parts(v.sign_negative() && q != 0, q, dp);
    }
}

/// The sign, integer digits and `dd` decimals of an amount with at most `dd` places form a
/// plain decimal number with the value of the amount.
proof fn lemma_shown_value_at(r: Money, dd: nat)
    requires
        r.bounded(),
        r.places() <= dd < 28,
        !(r.sign_negative() && r.magnitude() == 0),
        r.magnitude() < pow10((28 - dd + r.places()) as nat),
    ensures
        plain_decimal_text(
            sign_text(r.units() < 0) + whole_text(shown_amount(r)) + (if dd > 0 {
                seq!['.'] + right_pad_zeros(fraction_text(shown_amount(r)), dd).take(dd as int)
            } else {
                Seq::<char>::empty()
            }),
            r.units() < 0,
            whole_text(shown_amount(r)),
            right_pad_zeros(fraction_text(shown_amount(r)), dd).take(dd as int),
        ),
        plain_decimal(
            r.units() < 0,
            whole_text(shown_amount(r)),
            right_pad_zeros(fraction_text(shown_amount(r)), dd).take(dd as int),
        ).units() == r.units(),
{
    lemma_shown_amount(r);
    lemma_units_sign(r);
    let a = shown_amount(r);
    let neg = r.units() < 0;
    let p = a.places();
    lemma_shown_digits_at(a, dd);
    let wt = whole_text(a);
    let t = right_pad_zeros(fraction_text(a), dd).take(dd as int);
    let m = digits_value(wt + t);
    lemma_pow10_add((28 - dd + p) as nat, (dd - p) as nat);
    lemma_pow10_add((dd - p) as nat, (28 - dd) as nat);
    assert(((28 - dd + p) as nat + (dd - p) as nat) as nat == 28);
    assert(((dd - p) as nat + (28 - dd) as nat) as nat == (28 - p) as nat);
    assert(pow10(28) == 10000000000000000000000000000nat) by {
        reveal_with_fuel(pow10, 29);
    }
    lemma_pow10_monotone(0, (dd - p) as nat);
    let k = a.magnitude() as int;
    let e = pow10((dd - p) as nat) as int;
    let b = pow10((28 - dd + p) as nat) as int;
    assert(k * e < b * e) by (nonlinear_arith)
        requires
            k < b,
            e >= 1,
    ;
    assert(m == k * e);
    lemma_spec_parts(neg && m != 0, m as nat, dd);
    let u = pow10((28 - dd) as nat) as int;
    assert((k * e) * u == k * (e * u)) by (nonlinear_arith);
    assert(k * e == 0 <==> k == 0) by (nonlinear_arith)
        requires
            e >= 1,
            k >= 0,
    ;
    assert(pow10((MAX_SCALE - r.places()) as nat) == e * u);
    assert(pow10((MAX_SCALE - dd) as nat) == u);
    let pd = plain_decimal(neg, wt, t);
    assert(pd.places() == dd);
    assert(pd.magnitude() == m);
    if neg {
        assert(r.sign_negative() && k != 0);
        assert(r.units() == (-k) * (e * u));
        assert(pd.units() == (-(k * e)) * u);
        assert((-k) * (e * u) == -(k * (e * u))) by (nonlinear_arith);
        assert((-(k * e)) * u == -(k * (e * u))) by (nonlinear_arith);
    } else {
        assert(!r.sign_negative());
        assert(r.units() == k * (e * u));
        assert(pd.units() == (k * e) * u);
    }
    if dd > 0 {
        assert(t.len() > 0);
    } else {
        assert(t.len() == 0);
    }
}

/// The text of `format_money_with_code` after the code and its space, with the commas
/// taken out: the sign, the integer digits and the decimals.
proof fn lemma_money_text_with_code_without_commas(v: Money, code: Seq<char>, decimals: nat)
    requires
        v.bounded(),
        !(v.sign_negative() && v.magnitude() == 0),
        decimals < 28,
        rounded(v, decimals, false).magnitude() < pow10(
            (28 - decimals + rounded(v, decimals, false).places()) as nat,
        ),
    ensures
        money_text_with_code(v, code, decimals).take(code.len() + 1int) == code + seq![' '],
        (money_text_with_code(v, code, decimals)[code.len() + 1int] == '-') == (rounded(
            v,
            decimals,
            false,
        ).units() < 0),
        without_commas(money_text_with_code(v, code, decimals).skip(code.len() + 1int)) == sign_text(
            rounded(v, decimals, false).units() < 0,
        ) + whole_text(shown_amount(rounded(v, decimals, false))) + (if decimals > 0 {
            seq!['.'] + right_pad_zeros(
                fraction_text(shown_amount(rounded(v, decimals, false))),
                decimals,
            ).take(decimals as int)
        } else {
            Seq::<char>::empty()
        }),
{
    let r = rounded(v, decimals, false);
    lemma_rounded_sign(v, decimals, false);
    law_rounded_places(v, decimals, false);
    lemma_shown_amount(r);
    let a = shown_amount(r);
    let neg = r.units() < 0;
    lemma_shown_digits_at(a, decimals);
    let wt = whole_text(a);
    let t = right_pad_zeros(fraction_text(a), decimals).take(decimals as int);
    let tail = if decimals > 0 {
        seq!['.'] + t
    } else {
        Seq::<char>::empty()
    };
    let g = group_thousands(wt);
    let s = sign_text(neg);
    let head = code + seq![' '];
    let text = money_text_with_code(v, code, decimals);
    assert(text =~= head + (s + g + tail));
    assert(text.take(code.len() + 1int) =~= head);
    assert(text.skip(code.len() + 1int) =~= s + g + tail);
    lemma_grouped_first(wt);
    if neg {
        assert(text[code.len() + 1int] == s[0]);
    } else {
        assert(text[code.len() + 1int] == g[0]);
        assert('0' <= wt[0] && wt[0] <= '9');
    }
    lemma_without_commas_concat(s + g, tail);
    lemma_without_commas_concat(s, g);
    lemma_without_commas_grouped(wt);
    lemma_without_commas_none(s);
    assert forall|i: int| 0 <= i < wt.len() implies wt[i] != ',' by {
        assert('0' <= wt[i] && wt[i] <= '9');
    }
    lemma_without_commas_none(wt);
    assert forall|i: int| 0 <= i < tail.len() implies tail[i] != ',' by {
        if decimals > 0 && i > 0 {
            assert(tail[i] == t[i - 1]);
            assert('0' <= t[i - 1] && t[i - 1] <= '9');
        }
    }
    lemma_without_commas_none(tail);
    assert(without_commas(text.skip(code.len() + 1int)) =~= s + wt + tail);
}

/// `format_money_with_code` shows the code, a space, then a minus sign exactly when the
/// amount rounded to `decimals` places is negative, then its integer digits grouped by
/// thousands and exactly `decimals` decimals. With the commas taken out, the text after the
/// code and its space is a plain decimal number whose value is the rounded amount, sign
/// included, so that parsing it gives that amount back. This holds whenever fewer than 28
/// decimals are asked for, the rounded amount has at most 28 digits in all, and `v` is not
/// a zero with a minus sign.
pub proof fn law_format_money_with_code_round_trip(v: Money, code: Seq<char>, decimals: nat)
    requires
        v.bounded(),
        !(v.sign_negative() && v.magnitude() == 0),
        decimals < 28,
        rounded(v, decimals, false).magnitude() < pow10(
            (28 - decimals + rounded(v, decimals, false).places()) as nat,
        ),
    ensures
        money_text_with_code(v, code, decimals).take(code.len() + 1int) == code + seq![' '],
        (money_text_with_code(v, code, decimals)[code.len() + 1int] == '-') == (rounded(
            v,
            decimals,
            false,
        ).units() < 0),
        exists|negative: bool, whole: Seq<char>, fraction: Seq<char>|
            #[trigger] plain_decimal_text(
                without_commas(money_text_with_code(v, code, decimals).skip(code.len() + 1int)),
                negative,
                whole,
                fraction,
            ) && fraction.len() == decimals && negative == (rounded(v, decimals, false).units() < 0)
                && money_text_with_code(v, code, decimals) == code + seq![' '] + sign_text(negative)
                + group_thousands(whole) + (if decimals > 0 {
                seq!['.'] + fraction
            } else {
                Seq::<char>::empty()
            }) && plain_decimal(negative, whole, fraction).units() == rounded(
                v,
                decimals,
                false,
            ).units(),
{
    let r = rounded(v, decimals, false);
    lemma_rounded_sign(v, decimals, false);
    law_rounded_places(v, decimals, false);
    lemma_money_text_with_code_without_commas(v, code, decimals);
    lemma_shown_value_at(r, decimals);
    lemma_shown_amount(r);
    lemma_shown_digits_at(shown_amount(r), decimals);
    let neg = r.units() < 0;
    let wt = whole_text(shown_amount(r));
    let t = right_pad_zeros(fraction_text(shown_amount(r)), decimals).take(decimals as int);
    assert(plain_decimal_text(
        without_commas(money_text_with_code(v, code, decimals).skip(code.len() + 1int)),
        neg,
        wt,
        t,
    ));
}


/// Grouping by thousands puts a comma before every third character counted from the
/// right and nowhere else: the grouped text is `(n - 1) / 3` characters longer than the `n`
/// characters it groups, and a position holds a comma exactly when the number of characters
/// from it to the end is a multiple of four.
pub proof fn law_group_thousands(s: Seq<char>)
    requires
        s.len() >= 1,
        forall|i: int| 0 <= i < s.len() ==> s[i] != ',',
    ensures
        group_thousands(s).len() == s.len() + (s.len() - 1) / 3,
        forall|i: int|
            0 <= i < group_thousands(s).len() ==> ((#[trigger] group_thousands(s)[i] == ',') <==> (
            group_thousands(s).len() - i) % 4 == 0),
        without_commas(group_thousands(s)) == s,
    decreases s.len(),
{
    lemma_without_commas_grouped(s);
    lemma_without_commas_none(s);
    let g = group_thousands(s);
    if s.len() > 3 {
        let h = s.take(s.len() - 3);
        let t = s.skip(s.len() - 3);
        assert forall|i: int| 0 <= i < h.len() implies h[i] != ',' by {
            assert(h[i] == s[i]);
        }
        law_group_thousands(h);
        let gh = group_thousands(h);
        assert(g == gh + seq![','] + t);
        assert forall|i: int| 0 <= i < g.len() implies ((#[trigger] g[i] == ',') <==> (g.len() - i) % 4
            == 0) by {
            if i < gh.len() {
                assert(g[i] == gh[i]);
                assert((g.len() - i) % 4 == (gh.len() - i) % 4);
            } else if i > gh.len() {
                assert(g[i] == t[i - gh.len() - 1]);
                assert(t[i - gh.len() - 1] == s[s.len() - 3 + i - gh.len() - 1]);
            }
        }
    } else {
        assert forall|i: int| 0 <= i < g.len() implies ((#[trigger] g[i] == ',') <==> (g.len() - i) % 4
            == 0) by {
        }
    }
}

} // verus!
