use polystrike_engine::decimal::{Amount, MAX_DIGITS};
use polystrike_engine::scalar::{Scalar, EPSILON, INFINITY, LOWEST, ONE, SIGN};
use polystrike_engine::text::{
    contains_text, last_part, parse_unsigned, same_text, signed_text, unsigned_text,
};
use rust_decimal::Decimal;

fn scalar(x: f64) -> Scalar {
    Scalar::from_bits(x.to_bits())
}

#[test]
fn scalar_constants_are_those_of_the_type() {
    assert_eq!(ONE, 1.0f64.to_bits());
    assert_eq!(LOWEST, f64::MIN.to_bits());
    assert_eq!(EPSILON, f64::EPSILON.to_bits());
    assert_eq!(INFINITY, f64::INFINITY.to_bits());
    assert_eq!(SIGN, (-0.0f64).to_bits());
}

#[test]
fn scalar_order_is_that_of_the_numbers() {
    let samples = [
        f64::NEG_INFINITY,
        f64::MIN,
        -2.5,
        -1.0,
        -f64::MIN_POSITIVE,
        -5e-324,
        -0.0,
        0.0,
        5e-324,
        f64::EPSILON,
        0.999,
        1.0,
        1e300,
        f64::MAX,
        f64::INFINITY,
        f64::NAN,
        -f64::NAN,
    ];
    for a in samples {
        for b in samples {
            assert_eq!(scalar(a).lt(&scalar(b)), a < b, "{} < {}", a, b);
            assert_eq!(scalar(a).le(&scalar(b)), a <= b, "{} <= {}", a, b);
            if !(a == 0.0 && b == 0.0) && !(a.is_nan() && b.is_nan()) {
                let larger = f64::from_bits(scalar(a).max(&scalar(b)).to_bits());
                let smaller = f64::from_bits(scalar(a).min(&scalar(b)).to_bits());
                assert_eq!(larger, a.max(b));
                assert_eq!(smaller, a.min(b));
            }
        }
        assert_eq!(scalar(a).is_positive(), a > 0.0);
        assert_eq!(scalar(a).abs().to_bits(), a.abs().to_bits());
    }
}

#[test]
fn amounts_hold_what_decimals_hold() {
    assert!(Amount::new(MAX_DIGITS, 28).is_some());
    assert!(Amount::new(-MAX_DIGITS, 0).is_some());
    assert!(Amount::new(MAX_DIGITS + 1, 0).is_none());
    assert!(Amount::new(-MAX_DIGITS - 1, 0).is_none());
    assert!(Amount::new(1, 29).is_none());
    assert_eq!(MAX_DIGITS, Decimal::MAX.mantissa());
}

#[test]
fn amounts_calculate_like_decimals() {
    let a = Amount::new(12345, 3).unwrap();
    let b = Amount::new(-55, 1).unwrap();
    let sum = a.checked_add(&b).unwrap();
    assert_eq!((sum.mantissa(), sum.scale()), (6845, 3));
    let difference = a.checked_sub(&b).unwrap();
    assert_eq!((difference.mantissa(), difference.scale()), (17845, 3));
    let product = a.checked_mul(&b).unwrap();
    assert_eq!((product.mantissa(), product.scale()), (-678975, 4));
    assert!(b.le(&a) && !a.le(&b) && b.lt(&a) && !a.lt(&a) && a.le(&a));
    let same = Amount::new(123450, 4).unwrap();
    assert!(a.le(&same) && same.le(&a));
    assert_eq!(a.max(&same).scale(), 3);
    assert_eq!(b.abs().mantissa(), 55);
    assert!(Amount::max_value().checked_add(&Amount::one()).is_none());
    assert!(Amount::max_value().checked_mul(&a).is_none());
    assert!(Amount::new(-MAX_DIGITS, 0).unwrap().checked_sub(&Amount::one()).is_none());
}

#[test]
fn subtraction_of_what_is_not_negative_stays_in_bounds() {
    let samples = [
        Amount::zero(),
        Amount::one(),
        Amount::max_value(),
        Amount::new(MAX_DIGITS, 28).unwrap(),
        Amount::new(MAX_DIGITS, 5).unwrap(),
        Amount::new(1, 28).unwrap(),
        Amount::new(999_999_999_999, 13).unwrap(),
        Amount::new(79_228_162_514_264_337_593_543_950_334, 1).unwrap(),
    ];
    for a in samples {
        for b in samples {
            let r = a.checked_sub(&b).unwrap();
            let minus_b = Amount::new(-b.mantissa(), b.scale()).unwrap();
            assert!(r.le(&a) && minus_b.le(&r));
        }
    }
}

#[test]
fn texts_are_read_and_written() {
    assert_eq!(unsigned_text(0), "0");
    assert_eq!(unsigned_text(u64::MAX), u64::MAX.to_string());
    assert_eq!(signed_text(-1734567890), "-1734567890");
    assert_eq!(signed_text(i64::MIN), i64::MIN.to_string());
    for text in ["0", "7", "+7", "-7", "", "+", "12a", " 1", "18446744073709551615",
        "18446744073709551616", "00042", "++1"]
    {
        assert_eq!(parse_unsigned(text), text.parse::<u64>().ok(), "{}", text);
    }
    assert!(same_text("a", "a") && !same_text("a", "b") && !same_text("a", "ab"));
    for (text, needle) in [("abcabd", "abd"), ("abc", ""), ("", "a"), ("aaa", "ab"), ("x429", "429")]
    {
        assert_eq!(contains_text(text, needle), text.contains(needle));
    }
    assert_eq!(last_part("a-b-c", '-'), "c");
    assert_eq!(last_part("abc", '-'), "abc");
    assert_eq!(last_part("abc-", '-'), "");
}
