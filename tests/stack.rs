use rpn_calc::{CalcError, Decimal, DecimalOps, Op2, Stack, Token, rpn};
use std::str::FromStr;

fn dec(s: &str) -> Decimal {
    Decimal::from_str(s).unwrap()
}

fn whole(n: i64) -> Decimal {
    Decimal::new(n, 0).unwrap()
}

#[test]
fn rpn_macro_works1() {
    let x = dec("1.0");
    let stack: Stack = rpn(&[Token::Push(x)]);
    assert_eq!(stack.x().unwrap(), x);
}

#[test]
fn rpn_macro_works2() {
    let x = dec("1.0");
    let y = dec("2.0");
    let stack: Stack = rpn(&[Token::Push(x), Token::Push(y), Token::Apply(Op2::Add)]);
    assert_eq!(stack.x().unwrap(), dec("3.0"));
}

#[test]
fn new_stack_is_empty() {
    let s = Stack::new();
    assert_eq!(s.stack_count(), Some(0));
    assert!(!s.is_err());
    assert_eq!(s.err(), None);
    assert_eq!(s.x(), Err(CalcError::XNotSet));
    assert_eq!(s.y(), Err(CalcError::YNotSet));
}

#[test]
fn push_three_push_two_add_gives_five() {
    let s = Stack::new().enter(whole(3)).enter(whole(2)).op2(Op2::Add);
    assert_eq!(s.x().unwrap(), whole(5));
    assert_eq!(s.stack_count(), Some(1));
    assert_eq!(s.y(), Err(CalcError::YNotSet));
}

#[test]
fn push_increments_count_and_sets_top() {
    let mut s = Stack::new();
    for (k, v) in [7i64, -2, 9].iter().enumerate() {
        s = s.enter(whole(*v));
        assert_eq!(s.stack_count(), Some(k as u8 + 1));
        assert_eq!(s.x().unwrap(), whole(*v));
    }
    assert_eq!(s.y().unwrap(), whole(-2));
    let data = s.data().unwrap();
    assert_eq!(data[0], whole(9));
    assert_eq!(data[1], whole(-2));
    assert_eq!(data[2], whole(7));
    assert!(data[3].is_zero());
}

#[test]
fn four_pushes_fit_and_fifth_fails() {
    let mut s = Stack::new();
    for v in 1..=4i64 {
        s = s.enter(whole(v));
        assert!(!s.is_err());
    }
    assert_eq!(s.stack_count(), Some(4));
    let s = s.enter(whole(5));
    assert!(s.is_err());
    assert_eq!(s.err(), Some(CalcError::CapacityExceeded(4)));
    assert_eq!(s.stack_count(), None);
    assert_eq!(s.data(), None);
}

#[test]
fn subtraction_takes_older_value_first() {
    let s = Stack::new().enter(whole(10)).enter(whole(3)).op2(Op2::Sub);
    assert_eq!(s.x().unwrap(), whole(7));
}

#[test]
fn division_takes_older_value_first() {
    let s = Stack::new().enter(whole(12)).enter(whole(4)).op2(Op2::Div);
    assert_eq!(s.x().unwrap(), whole(3));
    let s = Stack::new().enter(whole(0)).enter(whole(5)).op2(Op2::Div);
    assert!(s.x().unwrap().is_zero());
}

#[test]
fn division_by_zero_fails_the_machine() {
    let s = Stack::new().enter(whole(5)).enter(whole(0)).op2(Op2::Div);
    assert!(s.is_err());
    assert_eq!(s.err(), Some(CalcError::DivisionByZero));
}

#[test]
fn multiplication_result() {
    let s = Stack::new().enter(dec("1.5")).enter(whole(4)).op2(Op2::Mul);
    assert_eq!(s.x().unwrap(), whole(6));
}

#[test]
fn operate_decrements_count_and_shifts_up() {
    let s = Stack::new()
        .enter(whole(1))
        .enter(whole(2))
        .enter(whole(3))
        .enter(whole(4))
        .op2(Op2::Mul);
    assert_eq!(s.stack_count(), Some(3));
    assert_eq!(s.x().unwrap(), whole(12));
    assert_eq!(s.y().unwrap(), whole(2));
    let data = s.data().unwrap();
    assert_eq!(data[2], whole(1));
    assert!(data[3].is_zero());
}

#[test]
fn operate_with_too_few_values_fails() {
    for op in [Op2::Add, Op2::Sub, Op2::Mul, Op2::Div] {
        let s = Stack::new().op2(op);
        assert_eq!(s.err(), Some(CalcError::MissingOperand));
        let s = Stack::new().enter(whole(1)).op2(op);
        assert_eq!(s.err(), Some(CalcError::MissingOperand));
    }
}

#[test]
fn overflow_fails_with_overflow_error() {
    let big = whole(i64::MAX);
    let s = Stack::new().enter(big).enter(big).op2(Op2::Mul).enter(big).op2(Op2::Mul);
    assert_eq!(s.err(), Some(CalcError::Overflow));
}

#[test]
fn failure_is_sticky() {
    let s = Stack::new().enter(whole(1)).op2(Op2::Add);
    assert_eq!(s.err(), Some(CalcError::MissingOperand));
    let s = s.enter(whole(2)).enter(whole(3)).op2(Op2::Add).enter(whole(4));
    assert!(s.is_err());
    assert_eq!(s.err(), Some(CalcError::MissingOperand));
}

#[test]
fn reading_a_failed_machine_reports_its_error() {
    let s = Stack::new().enter(whole(5)).enter(whole(0)).op2(Op2::Div);
    assert_eq!(s.x(), Err(CalcError::DivisionByZero));
    assert_eq!(s.y(), Err(CalcError::DivisionByZero));
}

#[test]
fn rpn_runs_a_longer_program() {
    let tokens = [
        Token::Push(whole(2)),
        Token::Push(whole(3)),
        Token::Push(whole(4)),
        Token::Apply(Op2::Mul),
        Token::Apply(Op2::Add),
    ];
    let s = rpn(&tokens);
    assert_eq!(s.x().unwrap(), whole(14));
    assert_eq!(s.stack_count(), Some(1));
}

#[test]
fn rpn_keeps_the_first_error() {
    let tokens = [
        Token::Apply(Op2::Sub),
        Token::Push(whole(1)),
        Token::Push(whole(0)),
        Token::Apply(Op2::Div),
    ];
    let s = rpn(&tokens);
    assert_eq!(s.err(), Some(CalcError::MissingOperand));
}
