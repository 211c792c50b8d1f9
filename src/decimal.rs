//! Arbitrary-precision decimal arithmetic, carried out by `bigdecimal` on decimal text.
//!
//! A number is carried as its text. What parsing, formatting and arithmetic give
//! is named here and left to `bigdecimal`; the decisions around them are verified.

use vstd::prelude::*;

use crate::error::{Fault, ServerError};
use crate::BinaryOps;

verus! {

/// The text that `bigdecimal` formats for the number that `s` parses to;
/// `None` when `s` is not a decimal number.
pub uninterp spec fn decimal_text(s: Seq<char>) -> Option<Seq<char>>;

/// Whether the number that `s` parses to is zero.
pub uninterp spec fn decimal_is_zero(s: Seq<char>) -> bool;

/// The text of the exact sum of the numbers that `a` and `b` parse to.
pub uninterp spec fn decimal_sum(a: Seq<char>, b: Seq<char>) -> Seq<char>;

/// The text of the exact difference of the numbers that `a` and `b` parse to.
pub uninterp spec fn decimal_difference(a: Seq<char>, b: Seq<char>) -> Seq<char>;

/// The text of the exact product of the numbers that `a` and `b` parse to.
pub uninterp spec fn decimal_product(a: Seq<char>, b: Seq<char>) -> Seq<char>;

/// The text of the quotient of the numbers that `a` and `b` parse to.
pub uninterp spec fn decimal_quotient(a: Seq<char>, b: Seq<char>) -> Seq<char>;

/// The scale (digits right of the point, negative for a positive exponent) of
/// the number that `s` parses to.
pub uninterp spec fn decimal_scale(s: Seq<char>) -> i64;

/// The largest scale magnitude that an arithmetic operation accepts: within it,
/// the scale arithmetic of `bigdecimal` cannot overflow.
pub const MAX_SCALE: i64 = 1_000_000_000_000;

/// Whether the scale of the number that `s` parses to is within `MAX_SCALE`.
pub open spec fn scale_in_range(s: Seq<char>) -> bool {
    -MAX_SCALE <= decimal_scale(s) <= MAX_SCALE
}

/// Whether `s` parses as a decimal number.
pub open spec fn is_decimal(s: Seq<char>) -> bool {
    decimal_text(s) is Some
}

/// Relies on `BigDecimal::from_str` and `BigDecimal`'s `Display`: parses `s` and
/// formats the number back; `None` when the parse fails.
#[verifier::external_body]
pub(crate) fn canonical_text(s: &str) -> (r: Option<String>)
    ensures
        match r {
            Some(t) => decimal_text(s@) == Some(t@),
            None => decimal_text(s@) is None,
        },
{
    match <bigdecimal::BigDecimal as std::str::FromStr>::from_str(s) {
        Ok(d) => Some(d.to_string()),
        Err(_) => None,
    }
}

/// Relies on `BigDecimal::from_str` and `BigDecimal::fractional_digit_count`,
/// which gives the scale.
#[verifier::external_body]
fn scale_test(s: &str) -> (r: Option<i64>)
    ensures
        r is Some <==> is_decimal(s@),
        r matches Some(n) ==> n == decimal_scale(s@),
{
    match <bigdecimal::BigDecimal as std::str::FromStr>::from_str(s) {
        Ok(d) => Some(d.fractional_digit_count()),
        Err(_) => None,
    }
}

/// Relies on `BigDecimal::from_str` and `BigDecimal::is_zero`.
#[verifier::external_body]
fn zero_test(s: &str) -> (r: Option<bool>)
    ensures
        r is Some <==> is_decimal(s@),
        r matches Some(z) ==> z == decimal_is_zero(s@),
{
    match <bigdecimal::BigDecimal as std::str::FromStr>::from_str(s) {
        Ok(d) => Some(bigdecimal::Zero::is_zero(&d)),
        Err(_) => None,
    }
}

/// Relies on `BigDecimal::from_str` and `BigDecimal`'s `Add`, which is exact; it
/// aligns the scales by their `i64` difference, which panics on overflow and which
/// the scale bounds keep in range.
#[verifier::external_body]
fn add_texts(a: &str, b: &str) -> (r: Option<String>)
    requires
        is_decimal(a@) ==> scale_in_range(a@),
        is_decimal(b@) ==> scale_in_range(b@),
    ensures
        r is Some <==> (is_decimal(a@) && is_decimal(b@)),
        r matches Some(t) ==> t@ == decimal_sum(a@, b@),
{
    match (
        <bigdecimal::BigDecimal as std::str::FromStr>::from_str(a),
        <bigdecimal::BigDecimal as std::str::FromStr>::from_str(b),
    ) {
        (Ok(x), Ok(y)) => Some((x + y).to_string()),
        _ => None,
    }
}

/// Relies on `BigDecimal::from_str` and `BigDecimal`'s `Sub`, which is exact; it
/// aligns the scales by their `i64` difference, which panics on overflow and which
/// the scale bounds keep in range.
#[verifier::external_body]
fn subtract_texts(a: &str, b: &str) -> (r: Option<String>)
    requires
        is_decimal(a@) ==> scale_in_range(a@),
        is_decimal(b@) ==> scale_in_range(b@),
    ensures
        r is Some <==> (is_decimal(a@) && is_decimal(b@)),
        r matches Some(t) ==> t@ == decimal_difference(a@, b@),
{
    match (
        <bigdecimal::BigDecimal as std::str::FromStr>::from_str(a),
        <bigdecimal::BigDecimal as std::str::FromStr>::from_str(b),
    ) {
        (Ok(x), Ok(y)) => Some((x - y).to_string()),
        _ => None,
    }
}

/// Relies on `BigDecimal::from_str` and `BigDecimal`'s `Mul`, which is exact; it
/// adds the two scales as `i64`, which the scale bounds keep from overflowing.
#[verifier::external_body]
fn multiply_texts(a: &str, b: &str) -> (r: Option<String>)
    requires
        is_decimal(a@) ==> scale_in_range(a@),
        is_decimal(b@) ==> scale_in_range(b@),
    ensures
        r is Some <==> (is_decimal(a@) && is_decimal(b@)),
        r matches Some(t) ==> t@ == decimal_product(a@, b@),
{
    match (
        <bigdecimal::BigDecimal as std::str::FromStr>::from_str(a),
        <bigdecimal::BigDecimal as std::str::FromStr>::from_str(b),
    ) {
        (Ok(x), Ok(y)) => Some((x * y).to_string()),
        _ => None,
    }
}

/// Relies on `BigDecimal::from_str` and `BigDecimal`'s `Div`, which panics on a
/// zero divisor; it subtracts the two scales as `i64` and then raises the result
/// by at most the divisor's digit count plus the default precision, which the
/// scale bounds keep from overflowing.
#[verifier::external_body]
fn divide_texts(a: &str, b: &str) -> (r: Option<String>)
    requires
        is_decimal(b@) ==> !decimal_is_zero(b@),
        is_decimal(a@) ==> scale_in_range(a@),
        is_decimal(b@) ==> scale_in_range(b@),
    ensures
        r is Some <==> (is_decimal(a@) && is_decimal(b@)),
        r matches Some(t) ==> t@ == decimal_quotient(a@, b@),
{
    match (
        <bigdecimal::BigDecimal as std::str::FromStr>::from_str(a),
        <bigdecimal::BigDecimal as std::str::FromStr>::from_str(b),
    ) {
        (Ok(x), Ok(y)) => Some((x / y).to_string()),
        _ => None,
    }
}

/// The text of `a op b`, before any check on the operands.
pub open spec fn operation_text(op: BinaryOps, a: Seq<char>, b: Seq<char>) -> Seq<char> {
    match op {
        BinaryOps::Add => decimal_sum(a, b),
        BinaryOps::Subtract => decimal_difference(a, b),
        BinaryOps::Multiply => decimal_product(a, b),
        BinaryOps::Divide => decimal_quotient(a, b),
    }
}

/// The outcome of `a op b` on decimal texts: an operand that is not a number is
/// a parse error, a zero divisor is a division error, an operand whose scale
/// exceeds `MAX_SCALE` is a range error, otherwise the exact result.
pub open spec fn binary_outcome(op: BinaryOps, a: Seq<char>, b: Seq<char>) -> Result<
    Seq<char>,
    Fault,
> {
    if !is_decimal(b) {
        Err(Fault::ParseParamNumeric)
    } else if op == BinaryOps::Divide && decimal_is_zero(b) {
        Err(Fault::DivisionByZero)
    } else if !is_decimal(a) {
        Err(Fault::ParseParamNumeric)
    } else if !(scale_in_range(a) && scale_in_range(b)) {
        Err(Fault::ScaleOutOfRange)
    } else {
        Ok(operation_text(op, a, b))
    }
}

/// Computes `a op b` on decimal texts; a zero divisor gives `DivisionByZero`,
/// never a result, and an operand of too large a scale gives `ScaleOutOfRange`.
pub fn apply_binary(op: BinaryOps, a: &str, b: &str) -> (r: Result<String, ServerError>)
    ensures
        match (r, binary_outcome(op, a@, b@)) {
            (Ok(t), Ok(u)) => t@ == u,
            (Err(e), Err(f)) => e@ == f,
            _ => false,
        },
{
    match zero_test(b) {
        None => {
            return Err(ServerError::ParseParamNumeric);
        },
        Some(z) => {
            if z && op == BinaryOps::Divide {
                return Err(ServerError::DivisionByZero);
            }
        },
    }
    let scale_a = match scale_test(a) {
        None => {
            return Err(ServerError::ParseParamNumeric);
        },
        Some(n) => n,
    };
    let scale_b = match scale_test(b) {
        None => {
            return Err(ServerError::ParseParamNumeric);
        },
        Some(n) => n,
    };
    if scale_a < -MAX_SCALE || scale_a > MAX_SCALE || scale_b < -MAX_SCALE || scale_b > MAX_SCALE {
        return Err(ServerError::ScaleOutOfRange);
    }
    let computed = match op {
        BinaryOps::Add => add_texts(a, b),
        BinaryOps::Subtract => subtract_texts(a, b),
        BinaryOps::Multiply => multiply_texts(a, b),
        BinaryOps::Divide => divide_texts(a, b),
    };
    match computed {
        Some(t) => Ok(t),
        None => Err(ServerError::ParseParamNumeric),
    }
}

} // verus!
