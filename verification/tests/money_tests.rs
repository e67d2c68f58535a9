use mini_erp::money::{
    format_money, format_money_with_code, money, money_int, parse_money, parse_optional_money,
    percent_of, round_money, scale, Money,
};
use mini_erp::money_ops::{money_from_sql_text, MoneyError};
use rust_decimal::Decimal;

fn decimal_of(m: Money) -> Decimal {
    let mut d = Decimal::from_i128_with_scale(m.mantissa() as i128, m.scale());
    d.set_sign_negative(m.is_sign_negative());
    d
}

fn money_of(d: Decimal) -> Money {
    Money::from_parts(d.is_sign_negative(), d.mantissa().unsigned_abs(), d.scale()).unwrap()
}

fn money_of_f64(v: f64) -> Money {
    money_of(Decimal::try_from(v).unwrap_or(Decimal::ZERO))
}

#[test]
fn test_money_basic() {
    let m = money("19.99");
    assert_eq!(m.to_string(), "19.99");
}

#[test]
fn test_money_no_rounding_errors() {
    let a = money("0.1");
    let b = money("0.2");
    let c = a + b;
    assert_eq!(c.to_string(), "0.3");
}

#[test]
fn test_round_money() {
    let m = money("1.235");
    assert_eq!(round_money(m).to_string(), "1.24");
}

#[test]
fn test_format_money() {
    let m = money("1234567.89");
    assert_eq!(format_money(m), "Rs. 1,234,567.89");
}

#[test]
fn test_format_money_negative() {
    let m = money("-500.5");
    assert_eq!(format_money(m), "Rs. -500.50");
}

#[test]
fn test_format_money_zero() {
    assert_eq!(format_money(Money::zero()), "Rs. 0.00");
}

#[test]
fn test_percent_of() {
    let base = money("1000");
    let pct = percent_of(base, money("17"));
    assert_eq!(pct.to_string(), "170");
}

#[test]
fn test_arithmetic() {
    let a = money("100");
    let b = money("30");
    assert_eq!(a - b, money("70"));
    assert_eq!(a * b, money("3000"));
    assert_eq!(a / b, money("3.333333333333333333333333333"));
}

#[test]
fn test_reverse_arithmetic() {
    let m = money("50");
    assert_eq!(100 + m, money("150"));
    assert_eq!(100 - m, money("50"));
    assert_eq!(3 * m, money("150"));
    assert_eq!(money_of_f64(2.0) + m, money("52"));
    assert_eq!(money_of_f64(10.0) * m, money("500"));
}

#[test]
fn test_sum() {
    let values = vec![money("10"), money("20"), money("30")];
    let total: Money = Money::sum(&values);
    assert_eq!(total, money("60"));
}

#[test]
fn test_default() {
    let m = Money::default();
    assert_eq!(m, Money::zero());
}

#[test]
fn test_rust_decimal_conversion() {
    let m = money("42.50");
    let d: Decimal = decimal_of(m);
    assert_eq!(d.to_string(), "42.50");
    let m2 = money_of(d);
    assert_eq!(m, m2);
}

#[test]
fn stored_text_reads_back() {
    assert_eq!(money_from_sql_text(b"1234.50").unwrap().to_string(), "1234.50");
    assert_eq!(money_from_sql_text(b"abc"), Err(MoneyError::InvalidAmount));
    assert_eq!(money_from_sql_text(&[0xff, 0x31]), Err(MoneyError::InvalidAmount));
}

#[test]
fn amounts_order_by_value() {
    assert!(money("1.5") < money("2"));
    assert!(money("-2") < money("1"));
    assert!(money("10") > money("9.99"));
    assert_eq!(money("1.50").partial_cmp(&money("1.5")), Some(std::cmp::Ordering::Equal));
}

#[test]
fn signs_of_zero_and_amounts() {
    assert!(!Money::zero().is_positive());
    assert!(!Money::zero().is_negative());
    assert!(!(-Money::zero()).is_negative());
    assert!(money("0.01").is_positive());
    assert!(money("-0.01").is_negative());
    assert!(!money("-1").is_positive());
}

#[test]
fn code_format_pads_on_the_right() {
    assert_eq!(format_money_with_code(money("1.5"), "PKR", 3), "PKR 1.500");
    assert_eq!(format_money_with_code(money("1234.05"), "USD", 2), "USD 1,234.05");
    assert_eq!(format_money_with_code(money("7"), "PKR", 0), "PKR 7");
    assert_eq!(format_money_with_code(money("-0.004"), "PKR", 2), "PKR 0.00");
}

#[test]
fn exact_quotients_and_percentages() {
    assert_eq!(percent_of(money("1000"), money("17")).to_string(), "170");
    assert_eq!((money("7.50") / money("2.5")).to_string(), "3.0");
    assert_eq!((money("0.1") + money("0.2")).to_string(), "0.3");
    assert_eq!(3 * money("50"), money("150"));
}

#[test]
fn adding_then_subtracting_gives_the_amount_back() {
    let a = money("10.50");
    let b = money("3.333");
    let s = a + b;
    assert_eq!(s.to_string(), "13.833");
    let d = s - b;
    assert!(d == a);
    assert!(a - a == Money::zero());
    let c = money("-7.25");
    assert!((c + b) - b == c);
}

#[test]
fn sums_keep_the_larger_scale() {
    assert_eq!((money("1.5") + money("2.25")).scale(), 2);
    assert_eq!((money("1.50") - money("1.5")).scale(), 2);
    assert_eq!((money("1.50") - money("1.5")).to_string(), "0.00");
    assert_eq!((money("0") - money("2.5")).to_string(), "-2.5");
    assert_eq!((money("2.5") - money("0.000")).to_string(), "2.5");
}

#[test]
fn plain_decimal_texts_parse_to_their_digits() {
    let m = money("19.99");
    assert_eq!((m.mantissa(), m.scale(), m.is_sign_negative()), (1999, 2, false));
    let n = parse_money("-500.5");
    assert_eq!((n.mantissa(), n.scale(), n.is_sign_negative()), (5005, 1, true));
    let z = parse_money("-0.00");
    assert_eq!((z.mantissa(), z.scale(), z.is_sign_negative()), (0, 2, false));
    let w = parse_optional_money("42").unwrap();
    assert_eq!((w.mantissa(), w.scale()), (42, 0));
}

#[test]
fn sum_of_amounts_is_exact() {
    let values = vec![money("1.10"), money("2.205"), money("-0.3")];
    let total = Money::sum(&values);
    assert_eq!(total.to_string(), "3.005");
}

#[test]
fn formatted_amounts_parse_back_to_the_rounded_amount() {
    for text in ["1234567.891", "-1234567.895", "0.005", "-0.004", "12", "999.999", "-45.6"] {
        let v = money(text);
        let shown = format_money(v);
        assert!(shown.starts_with("Rs. "));
        let plain: String = shown[4..].chars().filter(|c| *c != ',').collect();
        let back = parse_money(&plain);
        assert!(back == round_money(v), "{} -> {} -> {}", text, shown, plain);
        assert_eq!(back.scale(), 2);
        assert_eq!(shown[4..].starts_with('-'), round_money(v) < Money::zero());
    }
}

#[test]
fn stored_plain_amounts_read_back_exactly() {
    let m = money_from_sql_text(b"-12.50").unwrap();
    assert_eq!((m.mantissa(), m.scale(), m.is_sign_negative()), (1250, 2, true));
    let t = Money::try_from("7.125").unwrap();
    assert_eq!((t.mantissa(), t.scale()), (7125, 3));
    assert!(matches!(Money::try_from("7.1.2"), Err(MoneyError::InvalidAmount)));
}
