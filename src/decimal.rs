use crate::error::CalcError;
use vstd::prelude::*;

verus! {

/// Largest magnitude of a mantissa: 2^96 - 1.
pub const MAX_MANTISSA: i128 = 0xFFFF_FFFF_FFFF_FFFF_FFFF_FFFF;

/// Largest number of decimal places.
pub const MAX_SCALE: u32 = 28;

/// A mantissa and a scale that a decimal can hold.
pub open spec fn parts_in_range(v: (int, nat)) -> bool {
    -MAX_MANTISSA <= v.0 <= MAX_MANTISSA && v.1 <= MAX_SCALE
}

pub open spec fn pow10(n: nat) -> int
    decreases n,
{
    if n == 0 {
        1
    } else {
        10 * pow10((n - 1) as nat)
    }
}

/// Two (mantissa, scale) pairs denote the same number: `a.0 / 10^a.1 == b.0 / 10^b.1`.
pub open spec fn same_value(a: (int, nat), b: (int, nat)) -> bool {
    a.0 * pow10(b.1) == b.0 * pow10(a.1)
}

/// What `rust_decimal` computes for `a + b`: `None` on overflow.
pub uninterp spec fn sum_of(a: (int, nat), b: (int, nat)) -> Option<(int, nat)>;

/// What `rust_decimal` computes for `a - b`: `None` on overflow.
pub uninterp spec fn difference_of(a: (int, nat), b: (int, nat)) -> Option<(int, nat)>;

/// What `rust_decimal` computes for `a * b`: `None` on overflow.
pub uninterp spec fn product_of(a: (int, nat), b: (int, nat)) -> Option<(int, nat)>;

/// What `rust_decimal` computes for `a / b`: `None` on overflow or a zero divisor.
pub uninterp spec fn quotient_of(a: (int, nat), b: (int, nat)) -> Option<(int, nat)>;

/// What `rust_decimal` computes for the square root of `a`.
pub uninterp spec fn sqrt_of(a: (int, nat)) -> Option<(int, nat)>;

/// What `rust_decimal` computes for the cosine of `a` radians.
pub uninterp spec fn cos_of(a: (int, nat)) -> Option<(int, nat)>;

/// What `rust_decimal` computes for the sine of `a` radians.
pub uninterp spec fn sin_of(a: (int, nat)) -> Option<(int, nat)>;

/// What `rust_decimal` parses from a text: `None` when it rejects the text.
pub uninterp spec fn parsed_of(s: Seq<char>) -> Option<(int, nat)>;

/// How `rust_decimal` writes a decimal as text.
pub uninterp spec fn text_of(a: (int, nat)) -> Seq<char>;

/// The pair that a wrapper hands back, as mathematical integers.
pub open spec fn parts_view(p: (i128, u32)) -> (int, nat) {
    (p.0 as int, p.1 as nat)
}

pub open spec fn parts_opt(r: Option<(i128, u32)>) -> Option<(int, nat)> {
    match r {
        Some(p) => Some(parts_view(p)),
        None => None,
    }
}

/// Every decimal that `rust_decimal` hands back has a mantissa and scale in range.
pub open spec fn opt_in_range(r: Option<(i128, u32)>) -> bool {
    r matches Some(p) ==> parts_in_range(parts_view(p))
}

/// An exact decimal number `mantissa / 10^scale`.
#[derive(Clone, Copy, Debug)]
pub struct Decimal {
    mantissa: i128,
    scale: u32,
}

impl View for Decimal {
    type V = (int, nat);

    closed spec fn view(&self) -> (int, nat) {
        (self.mantissa as int, self.scale as nat)
    }
}

/// The decimal with the given mantissa and scale (meaningful when they are in range).
pub closed spec fn decimal_of(v: (int, nat)) -> Decimal {
    Decimal { mantissa: v.0 as i128, scale: v.1 as u32 }
}

/// The decimal that an operation yields, or the error it reports when there is none.
pub open spec fn outcome(v: Option<(int, nat)>, e: CalcError) -> Result<Decimal, CalcError> {
    match v {
        Some(p) => Ok(decimal_of(p)),
        None => Err(e),
    }
}

impl Decimal {
    #[verifier::type_invariant]
    spec fn inv(self) -> bool {
        parts_in_range(self@)
    }

    /// The integer whose value, divided by `10^scale`, is this number.
    pub fn mantissa(&self) -> (r: i128)
        ensures
            r == self@.0,
    {
        self.mantissa
    }

    /// The number of decimal places.
    pub fn scale(&self) -> (r: u32)
        ensures
            r == self@.1,
    {
        self.scale
    }

    /// Parses a decimal from its text, as `rust_decimal` reads it.
    pub fn parse(s: &str) -> (r: Result<Decimal, CalcError>)
        ensures
            r == outcome(parsed_of(s@), CalcError::Construction),
    {
        match parse_parts(s) {
            Ok(p) => Ok(Decimal { mantissa: p.0, scale: p.1 }),
            Err(_) => Err(CalcError::Construction),
        }
    }

    /// The text of this decimal, as `rust_decimal` writes it.
    pub fn to_string(&self) -> (r: String)
        ensures
            r@ == text_of(self@),
    {
        render_parts(*self)
    }
}

fn from_parts_opt(r: Option<(i128, u32)>, e: CalcError) -> (d: Result<Decimal, CalcError>)
    requires
        opt_in_range(r),
    ensures
        d == outcome(parts_opt(r), e),
{
    match r {
        Some(p) => Ok(Decimal { mantissa: p.0, scale: p.1 }),
        None => Err(e),
    }
}

/// The checked operations that the stack machine needs of a decimal type.
pub trait DecimalOps: Sized + Copy {
    spec fn new_spec(num: i64, scale: u32) -> Result<Self, CalcError>;

    spec fn add_spec(self, other: Self) -> Result<Self, CalcError>;

    spec fn sub_spec(self, other: Self) -> Result<Self, CalcError>;

    spec fn mul_spec(self, other: Self) -> Result<Self, CalcError>;

    spec fn div_spec(self, other: Self) -> Result<Self, CalcError>;

    spec fn is_zero_spec(self) -> bool;

    spec fn zero_spec() -> Self;

    spec fn change_sign_spec(self) -> Self;

    spec fn sqrt_spec(self) -> Result<Self, CalcError>;

    spec fn cos_spec(self) -> Result<Self, CalcError>;

    spec fn sin_spec(self) -> Result<Self, CalcError>;

    /// The value `num / 10^scale`.
    fn new(num: i64, scale: u32) -> (r: Result<Self, CalcError>)
        ensures
            r == Self::new_spec(num, scale),
    ;

    /// The checked sum `self + other`.
    fn add(self, other: Self) -> (r: Result<Self, CalcError>)
        ensures
            r == self.add_spec(other),
    ;

    /// The checked difference `self - other`.
    fn sub(self, other: Self) -> (r: Result<Self, CalcError>)
        ensures
            r == self.sub_spec(other),
    ;

    /// The checked product `self * other`.
    fn mul(self, other: Self) -> (r: Result<Self, CalcError>)
        ensures
            r == self.mul_spec(other),
    ;

    /// The checked quotient `self / other`; a zero divisor is reported before dividing.
    fn div(self, other: Self) -> (r: Result<Self, CalcError>)
        ensures
            r == self.div_spec(other),
    ;

    /// Whether this is the zero value.
    fn is_zero(&self) -> (r: bool)
        ensures
            r == self.is_zero_spec(),
    ;

    /// The additive identity.
    fn zero() -> (r: Self)
        ensures
            r == Self::zero_spec(),
    ;

    /// The additive inverse.
    fn change_sign(&self) -> (r: Self)
        ensures
            r == self.change_sign_spec(),
    ;

    /// The principal square root.
    fn sqrt(&self) -> (r: Result<Self, CalcError>)
        ensures
            r == self.sqrt_spec(),
    ;

    /// The cosine, reading this value as radians.
    fn cos(&self) -> (r: Result<Self, CalcError>)
        ensures
            r == self.cos_spec(),
    ;

    /// The sine, reading this value as radians.
    fn sin(&self) -> (r: Result<Self, CalcError>)
        ensures
            r == self.sin_spec(),
    ;
}

impl DecimalOps for Decimal {
    open spec fn new_spec(num: i64, scale: u32) -> Result<Decimal, CalcError> {
        if scale <= MAX_SCALE {
            Ok(decimal_of((num as int, scale as nat)))
        } else {
            Err(CalcError::Construction)
        }
    }

    open spec fn add_spec(self, other: Decimal) -> Result<Decimal, CalcError> {
        outcome(sum_of(self@, other@), CalcError::Overflow)
    }

    open spec fn sub_spec(self, other: Decimal) -> Result<Decimal, CalcError> {
        outcome(difference_of(self@, other@), CalcError::Overflow)
    }

    open spec fn mul_spec(self, other: Decimal) -> Result<Decimal, CalcError> {
        outcome(product_of(self@, other@), CalcError::Overflow)
    }

    open spec fn div_spec(self, other: Decimal) -> Result<Decimal, CalcError> {
        if other.is_zero_spec() {
            Err(CalcError::DivisionByZero)
        } else {
            outcome(quotient_of(self@, other@), CalcError::Overflow)
        }
    }

    open spec fn is_zero_spec(self) -> bool {
        self@.0 == 0
    }

    open spec fn zero_spec() -> Decimal {
        decimal_of((0, 0))
    }

    open spec fn change_sign_spec(self) -> Decimal {
        decimal_of((-self@.0, self@.1))
    }

    open spec fn sqrt_spec(self) -> Result<Decimal, CalcError> {
        outcome(sqrt_of(self@), CalcError::Domain)
    }

    open spec fn cos_spec(self) -> Result<Decimal, CalcError> {
        outcome(cos_of(self@), CalcError::Domain)
    }

    open spec fn sin_spec(self) -> Result<Decimal, CalcError> {
        outcome(sin_of(self@), CalcError::Domain)
    }

    fn new(num: i64, scale: u32) -> (r: Result<Decimal, CalcError>) {
        match try_new_parts(num, scale) {
            Ok(p) => Ok(Decimal { mantissa: p.0, scale: p.1 }),
            Err(_) => Err(CalcError::Construction),
        }
    }

    fn add(self, other: Decimal) -> (r: Result<Decimal, CalcError>) {
        from_parts_opt(checked_add_parts(self, other), CalcError::Overflow)
    }

    fn sub(self, other: Decimal) -> (r: Result<Decimal, CalcError>) {
        from_parts_opt(checked_sub_parts(self, other), CalcError::Overflow)
    }

    fn mul(self, other: Decimal) -> (r: Result<Decimal, CalcError>) {
        from_parts_opt(checked_mul_parts(self, other), CalcError::Overflow)
    }

    fn div(self, other: Decimal) -> (r: Result<Decimal, CalcError>) {
        if other.is_zero() {
            Err(CalcError::DivisionByZero)
        } else {
            from_parts_opt(checked_div_parts(self, other), CalcError::Overflow)
        }
    }

    fn is_zero(&self) -> (r: bool) {
        self.mantissa == 0
    }

    fn zero() -> (r: Decimal) {
        Decimal { mantissa: 0, scale: 0 }
    }

    fn change_sign(&self) -> (r: Decimal) {
        proof {
            use_type_invariant(self);
        }
        Decimal { mantissa: -self.mantissa, scale: self.scale }
    }

    fn sqrt(&self) -> (r: Result<Decimal, CalcError>) {
        from_parts_opt(sqrt_parts(*self), CalcError::Domain)
    }

    fn cos(&self) -> (r: Result<Decimal, CalcError>) {
        from_parts_opt(cos_parts(*self), CalcError::Domain)
    }

    fn sin(&self) -> (r: Result<Decimal, CalcError>) {
        from_parts_opt(sin_parts(*self), CalcError::Domain)
    }
}

impl std::str::FromStr for Decimal {
    type Err = CalcError;

    fn from_str(s: &str) -> Result<Decimal, CalcError> {
        Decimal::parse(s)
    }
}

impl PartialEq for Decimal {
    fn eq(&self, other: &Decimal) -> (r: bool) {
        equal_values(*self, *other)
    }
}

impl vstd::std_specs::cmp::PartialEqSpecImpl for Decimal {
    open spec fn obeys_eq_spec() -> bool {
        true
    }

    open spec fn eq_spec(&self, other: &Decimal) -> bool {
        same_value(self@, other@)
    }
}

#[verifier::external_type_specification]
#[verifier::external_body]
pub struct ExDecimalError(rust_decimal::Error);

/// Relies on rust_decimal's `Decimal::try_new`: it fails exactly when the scale
/// exceeds 28, and otherwise keeps `num` as the mantissa and `scale` as the scale.
#[verifier::external_body]
fn try_new_parts(num: i64, scale: u32) -> (r: Result<(i128, u32), rust_decimal::Error>)
    ensures
        r is Ok <==> scale <= MAX_SCALE,
        r matches Ok(p) ==> p == (num as i128, scale),
{
    rust_decimal::Decimal::try_new(num, scale).map(|d| (d.mantissa(), d.scale()))
}

/// Relies on rust_decimal's `FromStr` for `Decimal`: the result depends on the text alone.
#[verifier::external_body]
fn parse_parts(s: &str) -> (r: Result<(i128, u32), rust_decimal::Error>)
    ensures
        r is Ok <==> parsed_of(s@) is Some,
        r matches Ok(p) ==> parsed_of(s@) == Some(parts_view(p)) && parts_in_range(parts_view(p)),
{
    <rust_decimal::Decimal as std::str::FromStr>::from_str(s).map(|d| (d.mantissa(), d.scale()))
}

/// Relies on rust_decimal's `Display` for `Decimal`: the text depends on the mantissa and scale alone.
#[verifier::external_body]
fn render_parts(a: Decimal) -> (r: String)
    ensures
        r@ == text_of(a@),
{
    format!("{}", rust_decimal::Decimal::from_i128_with_scale(a.mantissa, a.scale))
}

/// Relies on rust_decimal's `PartialEq` for `Decimal`, which compares the numbers exactly.
#[verifier::external_body]
fn equal_values(a: Decimal, b: Decimal) -> (r: bool)
    ensures
        r == same_value(a@, b@),
{
    rust_decimal::Decimal::from_i128_with_scale(a.mantissa, a.scale)
        == rust_decimal::Decimal::from_i128_with_scale(b.mantissa, b.scale)
}

/// Relies on rust_decimal's `Decimal::checked_add`: `None` on overflow, else a
/// decimal that the operands determine.
#[verifier::external_body]
fn checked_add_parts(a: Decimal, b: Decimal) -> (r: Option<(i128, u32)>)
    ensures
        parts_opt(r) == sum_of(a@, b@),
        opt_in_range(r),
{
    let x = rust_decimal::Decimal::from_i128_with_scale(a.mantissa, a.scale);
    let y = rust_decimal::Decimal::from_i128_with_scale(b.mantissa, b.scale);
    x.checked_add(y).map(|d| (d.mantissa(), d.scale()))
}

/// Relies on rust_decimal's `Decimal::checked_sub`: `None` on overflow, else a
/// decimal that the operands determine.
#[verifier::external_body]
fn checked_sub_parts(a: Decimal, b: Decimal) -> (r: Option<(i128, u32)>)
    ensures
        parts_opt(r) == difference_of(a@, b@),
        opt_in_range(r),
{
    let x = rust_decimal::Decimal::from_i128_with_scale(a.mantissa, a.scale);
    let y = rust_decimal::Decimal::from_i128_with_scale(b.mantissa, b.scale);
    x.checked_sub(y).map(|d| (d.mantissa(), d.scale()))
}

/// Relies on rust_decimal's `Decimal::checked_mul`: `None` on overflow, else a
/// decimal that the operands determine.
#[verifier::external_body]
fn checked_mul_parts(a: Decimal, b: Decimal) -> (r: Option<(i128, u32)>)
    ensures
        parts_opt(r) == product_of(a@, b@),
        opt_in_range(r),
{
    let x = rust_decimal::Decimal::from_i128_with_scale(a.mantissa, a.scale);
    let y = rust_decimal::Decimal::from_i128_with_scale(b.mantissa, b.scale);
    x.checked_mul(y).map(|d| (d.mantissa(), d.scale()))
}

/// Relies on rust_decimal's `Decimal::checked_div`: `None` on overflow or a zero
/// divisor, else a decimal that the operands determine.
#[verifier::external_body]
fn checked_div_parts(a: Decimal, b: Decimal) -> (r: Option<(i128, u32)>)
    ensures
        parts_opt(r) == quotient_of(a@, b@),
        opt_in_range(r),
{
    let x = rust_decimal::Decimal::from_i128_with_scale(a.mantissa, a.scale);
    let y = rust_decimal::Decimal::from_i128_with_scale(b.mantissa, b.scale);
    x.checked_div(y).map(|d| (d.mantissa(), d.scale()))
}

/// Relies on rust_decimal's `MathematicalOps::sqrt`: `None` for a negative
/// argument, else a decimal that the argument determines.
#[verifier::external_body]
fn sqrt_parts(a: Decimal) -> (r: Option<(i128, u32)>)
    ensures
        parts_opt(r) == sqrt_of(a@),
        a@.0 < 0 ==> r is None,
        opt_in_range(r),
{
    let x = rust_decimal::Decimal::from_i128_with_scale(a.mantissa, a.scale);
    rust_decimal::MathematicalOps::sqrt(&x).map(|d| (d.mantissa(), d.scale()))
}

/// Relies on rust_decimal's `MathematicalOps::checked_cos`: the result depends
/// on the argument alone.
#[verifier::external_body]
fn cos_parts(a: Decimal) -> (r: Option<(i128, u32)>)
    ensures
        parts_opt(r) == cos_of(a@),
        opt_in_range(r),
{
    let x = rust_decimal::Decimal::from_i128_with_scale(a.mantissa, a.scale);
    rust_decimal::MathematicalOps::checked_cos(&x).map(|d| (d.mantissa(), d.scale()))
}

/// Relies on rust_decimal's `MathematicalOps::checked_sin`: the result depends
/// on the argument alone.
#[verifier::external_body]
fn sin_parts(a: Decimal) -> (r: Option<(i128, u32)>)
    ensures
        parts_opt(r) == sin_of(a@),
        opt_in_range(r),
{
    let x = rust_decimal::Decimal::from_i128_with_scale(a.mantissa, a.scale);
    rust_decimal::MathematicalOps::checked_sin(&x).map(|d| (d.mantissa(), d.scale()))
}

} // verus!
