//! The arithmetic that the formulas are written over.
//!
//! The formulas of the model are sums, products, roots and the like of
//! binary64 numbers. This library states and composes them; the operations
//! themselves are carried out by the caller's arithmetic, a function from an
//! [`Operation`] to its result. Every formula is proved to be the stated
//! composition of that arithmetic's answers, whatever the arithmetic is, as
//! long as it accepts every operation and never answers one operation in
//! two ways.

use vstd::prelude::*;
use crate::binary64::Binary64;

verus! {

/// One step of arithmetic, with its operands.
#[derive(Clone, Copy, Debug, PartialEq, Eq, Structural)]
pub enum Operation {
    /// The first plus the second.
    Sum(Binary64, Binary64),
    /// The first minus the second.
    Difference(Binary64, Binary64),
    /// The first times the second.
    Product(Binary64, Binary64),
    /// The first divided by the second.
    Quotient(Binary64, Binary64),
    /// The square root.
    SquareRoot(Binary64),
    /// The natural logarithm.
    Logarithm(Binary64),
    /// The natural exponential.
    Exponential(Binary64),
    /// The probability that a standard normal variable is at most the operand.
    NormalCdf(Binary64),
}

/// The arithmetic accepts every operation, and no operation has two
/// different answers.
pub open spec fn lawful<E: Fn(Operation) -> Binary64>(arithmetic: E) -> bool {
    &&& forall|op: Operation| call_requires(arithmetic, (op,))
    &&& forall|op: Operation, r1: Binary64, r2: Binary64|
        #![trigger call_ensures(arithmetic, (op,), r1), call_ensures(arithmetic, (op,), r2)]
        call_ensures(arithmetic, (op,), r1) && call_ensures(arithmetic, (op,), r2) ==> r1 == r2
}

/// The answer of `arithmetic` to `op`; `None` where it has none.
pub open spec fn answer<E: Fn(Operation) -> Binary64>(arithmetic: E, op: Operation) -> Option<
    Binary64,
> {
    if exists|r: Binary64| call_ensures(arithmetic, (op,), r) {
        Some(choose|r: Binary64| call_ensures(arithmetic, (op,), r))
    } else {
        None
    }
}

/// `x + y`, where both are there.
pub open spec fn sum_of<E: Fn(Operation) -> Binary64>(
    arithmetic: E,
    x: Option<Binary64>,
    y: Option<Binary64>,
) -> Option<Binary64> {
    match (x, y) {
        (Some(x), Some(y)) => answer(arithmetic, Operation::Sum(x, y)),
        _ => None,
    }
}

/// `x - y`, where both are there.
pub open spec fn difference_of<E: Fn(Operation) -> Binary64>(
    arithmetic: E,
    x: Option<Binary64>,
    y: Option<Binary64>,
) -> Option<Binary64> {
    match (x, y) {
        (Some(x), Some(y)) => answer(arithmetic, Operation::Difference(x, y)),
        _ => None,
    }
}

/// `x * y`, where both are there.
pub open spec fn product_of<E: Fn(Operation) -> Binary64>(
    arithmetic: E,
    x: Option<Binary64>,
    y: Option<Binary64>,
) -> Option<Binary64> {
    match (x, y) {
        (Some(x), Some(y)) => answer(arithmetic, Operation::Product(x, y)),
        _ => None,
    }
}

/// `x / y`, where both are there.
pub open spec fn quotient_of<E: Fn(Operation) -> Binary64>(
    arithmetic: E,
    x: Option<Binary64>,
    y: Option<Binary64>,
) -> Option<Binary64> {
    match (x, y) {
        (Some(x), Some(y)) => answer(arithmetic, Operation::Quotient(x, y)),
        _ => None,
    }
}

/// The square root of `x`, where it is there.
pub open spec fn root_of<E: Fn(Operation) -> Binary64>(arithmetic: E, x: Option<Binary64>) -> Option<
    Binary64,
> {
    match x {
        Some(x) => answer(arithmetic, Operation::SquareRoot(x)),
        None => None,
    }
}

/// The natural logarithm of `x`, where it is there.
pub open spec fn logarithm_of<E: Fn(Operation) -> Binary64>(
    arithmetic: E,
    x: Option<Binary64>,
) -> Option<Binary64> {
    match x {
        Some(x) => answer(arithmetic, Operation::Logarithm(x)),
        None => None,
    }
}

/// The natural exponential of `x`, where it is there.
pub open spec fn exponential_of<E: Fn(Operation) -> Binary64>(
    arithmetic: E,
    x: Option<Binary64>,
) -> Option<Binary64> {
    match x {
        Some(x) => answer(arithmetic, Operation::Exponential(x)),
        None => None,
    }
}

/// The standard normal distribution function at `x`, where it is there.
pub open spec fn normal_cdf_of<E: Fn(Operation) -> Binary64>(
    arithmetic: E,
    x: Option<Binary64>,
) -> Option<Binary64> {
    match x {
        Some(x) => answer(arithmetic, Operation::NormalCdf(x)),
        None => None,
    }
}

/// `x` with the other sign, where it is there. Negation needs no
/// arithmetic: it is a change of the sign bit.
pub open spec fn negated_of(x: Option<Binary64>) -> Option<Binary64> {
    match x {
        Some(x) => Some(Binary64 { bits: x.negated_bits() }),
        None => None,
    }
}

/// The arithmetic follows the sign rules of IEEE 754 for products,
/// quotients and exponentials: where no operand is a not-a-number and the
/// operation is not zero times infinity, zero over zero or infinity over
/// infinity, the result is a number whose sign bit is set exactly when the
/// sign bits of the operands differ; and the exponential of a number is a
/// number without sign bit.
pub open spec fn keeps_signs<E: Fn(Operation) -> Binary64>(arithmetic: E) -> bool {
    &&& forall|x: Binary64, y: Binary64, r: Binary64| #[trigger]
        call_ensures(arithmetic, (Operation::Product(x, y),), r) && !x@.is_nan() && !y@.is_nan()
            && !(x@.is_zero() && y@ is Infinite) && !(x@ is Infinite && y@.is_zero()) ==> !r@.is_nan()
            && r.sign_field() == (x.sign_field() != y.sign_field())
    &&& forall|x: Binary64, y: Binary64, r: Binary64| #[trigger]
        call_ensures(arithmetic, (Operation::Quotient(x, y),), r) && !x@.is_nan() && !y@.is_nan()
            && !(x@.is_zero() && y@.is_zero()) && !(x@ is Infinite && y@ is Infinite)
            ==> !r@.is_nan() && r.sign_field() == (x.sign_field() != y.sign_field())
    &&& forall|x: Binary64, r: Binary64| #[trigger]
        call_ensures(arithmetic, (Operation::Exponential(x),), r) && !x@.is_nan() ==> !r@.is_nan()
            && !r.sign_field()
}

/// Carries out one operation: the result is the arithmetic's answer, and
/// it is one of the results that the arithmetic promises for `op`.
pub fn perform<E: Fn(Operation) -> Binary64>(arithmetic: &E, op: Operation) -> (r: Binary64)
    requires
        lawful(*arithmetic),
    ensures
        answer(*arithmetic, op) == Some(r),
        call_ensures(*arithmetic, (op,), r),
{
    arithmetic(op)
}

} // verus!
