use vstd::prelude::*;

verus! {

/// Why a decimal operation or the stack machine failed.
#[derive(Clone, Copy, Debug, PartialEq, Eq, Structural)]
pub enum CalcError {
    /// A decimal could not be built: its scale is too large or its text is malformed.
    Construction,
    /// The exact result of an arithmetic operation lies outside the decimal range.
    Overflow,
    /// The divisor was zero.
    DivisionByZero,
    /// A square root of a negative value, or a trigonometric value that could not be found.
    Domain,
    /// A push onto a full register file; carries the capacity.
    CapacityExceeded(u8),
    /// An operator was applied with fewer than two operands present.
    MissingOperand,
    /// The top of the stack was read while the stack was empty.
    XNotSet,
    /// The second value was read while fewer than two were present.
    YNotSet,
}

} // verus!
