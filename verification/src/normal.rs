//! The standard normal distribution: its density and its distribution
//! function, at one point and along a sequence.

use vstd::prelude::*;
use crate::arithmetic::exponential_of;
use crate::arithmetic::keeps_signs;
use crate::arithmetic::lawful;
use crate::arithmetic::negated_of;
use crate::arithmetic::normal_cdf_of;
use crate::arithmetic::perform;
use crate::arithmetic::product_of;
use crate::arithmetic::quotient_of;
use crate::arithmetic::Operation;
use crate::binary64::Binary64;
use crate::binary64::INV_SQRT_TWO_PI_BITS;
use crate::binary64::TWO_BITS;

verus! {

/// The density at `x`: one over the root of two pi, times the exponential
/// of minus `x` squared over two.
pub open spec fn pdf_value<E: Fn(Operation) -> Binary64>(arithmetic: E, x: Option<Binary64>) -> Option<
    Binary64,
> {
    product_of(
        arithmetic,
        Some(Binary64 { bits: INV_SQRT_TWO_PI_BITS }),
        exponential_of(
            arithmetic,
            quotient_of(
                arithmetic,
                negated_of(product_of(arithmetic, x, x)),
                Some(Binary64 { bits: TWO_BITS }),
            ),
        ),
    )
}

/// The density is never negative: under an arithmetic that follows the
/// sign rules of IEEE 754, the density at any `x` that is a number is a
/// number greater than or equal to zero. (At a not-a-number the density is
/// one too.)
pub proof fn lemma_density_is_not_negative<E: Fn(Operation) -> Binary64>(
    arithmetic: E,
    x: Binary64,
    density: Binary64,
)
    requires
        keeps_signs(arithmetic),
        !x@.is_nan(),
        pdf_value(arithmetic, Some(x)) == Some(density),
    ensures
        density@.is_non_negative(),
{
    let two = Binary64 { bits: TWO_BITS };
    let scale = Binary64 { bits: INV_SQRT_TWO_PI_BITS };
    two.lemma_fields();
    scale.lemma_fields();
    two.lemma_magnitude();
    scale.lemma_magnitude();
    assert(two.exponent_field() == 0x400 && two.fraction_field() == 0);
    assert(scale.exponent_field() == 0x3fd && scale.fraction_field() == 0x9_8845_33d4_3651);
    let square = product_of(arithmetic, Some(x), Some(x))->Some_0;
    assert(call_ensures(arithmetic, (Operation::Product(x, x),), square));
    square.lemma_negated();
    let minus = Binary64 { bits: square.negated_bits() };
    let half = quotient_of(arithmetic, Some(minus), Some(two))->Some_0;
    assert(call_ensures(arithmetic, (Operation::Quotient(minus, two),), half));
    let bell = exponential_of(arithmetic, Some(half))->Some_0;
    assert(call_ensures(arithmetic, (Operation::Exponential(half),), bell));
    assert(call_ensures(arithmetic, (Operation::Product(scale, bell),), density));
    assert(!density@.is_nan() && !density.sign_field());
}

/// The standard normal density at `x`. Defined for every `x`.
pub fn standard_normal_pdf<E: Fn(Operation) -> Binary64>(x: Binary64, arithmetic: &E) -> (r:
    Binary64)
    requires
        lawful(*arithmetic),
    ensures
        pdf_value(*arithmetic, Some(x)) == Some(r),
{
    let square = perform(arithmetic, Operation::Product(x, x));
    let exponent = perform(
        arithmetic,
        Operation::Quotient(square.negated(), Binary64::two()),
    );
    let bell = perform(arithmetic, Operation::Exponential(exponent));
    perform(arithmetic, Operation::Product(Binary64::from_bits(INV_SQRT_TWO_PI_BITS), bell))
}

/// The standard normal distribution function at `x`: the probability that
/// a standard normal variable is at most `x`. Defined for every `x`.
pub fn standard_normal_cdf<E: Fn(Operation) -> Binary64>(x: Binary64, arithmetic: &E) -> (r:
    Binary64)
    requires
        lawful(*arithmetic),
    ensures
        normal_cdf_of(*arithmetic, Some(x)) == Some(r),
{
    perform(arithmetic, Operation::NormalCdf(x))
}

/// The standard normal density at each point of `xs`, in the order of `xs`.
pub fn standard_gaussian_pdf<E: Fn(Operation) -> Binary64>(xs: &Vec<Binary64>, arithmetic: &E) -> (r:
    Vec<Binary64>)
    requires
        lawful(*arithmetic),
    ensures
        r.len() == xs.len(),
        forall|i: int|
            0 <= i < xs.len() ==> pdf_value(*arithmetic, Some(xs[i])) == Some(#[trigger] r[i]),
{
    let mut out: Vec<Binary64> = Vec::new();
    let mut i: usize = 0;
    while i < xs.len()
        invariant
            lawful(*arithmetic),
            i <= xs.len(),
            out.len() == i,
            forall|j: int|
                0 <= j < i ==> pdf_value(*arithmetic, Some(xs[j])) == Some(#[trigger] out[j]),
        decreases xs.len() - i,
    {
        let density = standard_normal_pdf(xs[i], arithmetic);
        out.push(density);
        i += 1;
    }
    out
}

/// The standard normal distribution function at each point of `xs`, in the
/// order of `xs`.
pub fn standard_gaussian_cdf<E: Fn(Operation) -> Binary64>(xs: &Vec<Binary64>, arithmetic: &E) -> (r:
    Vec<Binary64>)
    requires
        lawful(*arithmetic),
    ensures
        r.len() == xs.len(),
        forall|i: int|
            0 <= i < xs.len() ==> normal_cdf_of(*arithmetic, Some(xs[i])) == Some(
                #[trigger] r[i],
            ),
{
    let mut out: Vec<Binary64> = Vec::new();
    let mut i: usize = 0;
    while i < xs.len()
        invariant
            lawful(*arithmetic),
            i <= xs.len(),
            out.len() == i,
            forall|j: int|
                0 <= j < i ==> normal_cdf_of(*arithmetic, Some(xs[j])) == Some(
                    #[trigger] out[j],
                ),
        decreases xs.len() - i,
    {
        let probability = standard_normal_cdf(xs[i], arithmetic);
        out.push(probability);
        i += 1;
    }
    out
}

} // verus!
