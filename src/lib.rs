//! A bounded reverse-Polish stack machine over exact decimals.
//!
//! Operands are pushed onto a four-slot register file and binary operators
//! consume the two topmost values. Any failure turns the machine into a
//! permanent failed state that carries the first error.

mod decimal;
mod error;
mod stack;

pub use decimal::{
    Decimal, DecimalOps, MAX_MANTISSA, MAX_SCALE, cos_of, difference_of, outcome, parsed_of,
    parts_in_range, pow10, product_of, quotient_of, same_value, sin_of, sqrt_of, sum_of, text_of,
};
pub use error::CalcError;

pub use stack::{
    Op2, STACK_SIZE, Stack, StackModel, Token, lemma_division_by_zero, lemma_failure_is_sticky,
    lemma_operate_failure, lemma_operate_success, lemma_operate_underflow, lemma_push_at_capacity,
    lemma_push_below_capacity, lemma_read_after_failure, operate_model, push_model, rpn, run_model,
    second_model, step_model, top_model,
};
