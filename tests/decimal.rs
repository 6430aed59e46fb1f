use rpn_calc::{CalcError, Decimal, DecimalOps};
use std::str::FromStr;

#[test]
fn new_keeps_mantissa_and_scale() {
    let d = Decimal::new(-1234, 3).unwrap();
    assert_eq!(d.mantissa(), -1234);
    assert_eq!(d.scale(), 3);
    assert_eq!(d.to_string(), "-1.234");
}

#[test]
fn new_rejects_large_scale() {
    assert_eq!(Decimal::new(1, 29), Err(CalcError::Construction));
    assert!(Decimal::new(1, 28).is_ok());
}

#[test]
fn parse_reads_text() {
    let d = Decimal::parse("3.14").unwrap();
    assert_eq!(d.mantissa(), 314);
    assert_eq!(d.scale(), 2);
    assert_eq!(Decimal::from_str("3.14").unwrap(), d);
}

#[test]
fn parse_rejects_malformed_text() {
    assert_eq!(Decimal::parse("abc"), Err(CalcError::Construction));
    assert_eq!(Decimal::from_str("1.2.3"), Err(CalcError::Construction));
}

#[test]
fn equality_compares_numbers() {
    assert_eq!(Decimal::new(30, 1).unwrap(), Decimal::new(3, 0).unwrap());
    assert_ne!(Decimal::new(31, 1).unwrap(), Decimal::new(3, 0).unwrap());
}

#[test]
fn checked_arithmetic() {
    let a = Decimal::new(15, 1).unwrap();
    let b = Decimal::new(5, 1).unwrap();
    assert_eq!(a.add(b).unwrap(), Decimal::new(2, 0).unwrap());
    assert_eq!(a.sub(b).unwrap(), Decimal::new(1, 0).unwrap());
    assert_eq!(a.mul(b).unwrap(), Decimal::new(75, 2).unwrap());
    assert_eq!(a.div(b).unwrap(), Decimal::new(3, 0).unwrap());
    assert_eq!(a.div(Decimal::zero()), Err(CalcError::DivisionByZero));
}

#[test]
fn addition_overflow() {
    let max = Decimal::parse("79228162514264337593543950335").unwrap();
    assert_eq!(max.add(max), Err(CalcError::Overflow));
    assert_eq!(max.change_sign().sub(max), Err(CalcError::Overflow));
}

#[test]
fn zero_and_sign() {
    let z = Decimal::zero();
    assert!(z.is_zero());
    assert_eq!(z.mantissa(), 0);
    let d = Decimal::new(25, 1).unwrap();
    assert!(!d.is_zero());
    assert_eq!(d.change_sign().mantissa(), -25);
    assert_eq!(d.change_sign().scale(), 1);
}

#[test]
fn square_root() {
    let four = Decimal::new(4, 0).unwrap();
    assert_eq!(four.sqrt().unwrap(), Decimal::new(2, 0).unwrap());
    assert_eq!(four.change_sign().sqrt(), Err(CalcError::Domain));
}

#[test]
fn sine_and_cosine_of_zero() {
    let z = Decimal::zero();
    assert_eq!(z.cos().unwrap(), Decimal::new(1, 0).unwrap());
    assert_eq!(z.sin().unwrap(), Decimal::zero());
}

#[test]
fn text_of_a_decimal() {
    assert_eq!(Decimal::new(5, 0).unwrap().to_string(), "5");
    assert_eq!(Decimal::new(-50, 1).unwrap().to_string(), "-5.0");
}

#[test]
fn sine_of_one_radian() {
    let one = Decimal::new(1, 0).unwrap();
    let s = one.sin().unwrap();
    assert_ne!(s, one);
    assert!(s.to_string().starts_with("0.8414709"));
}
