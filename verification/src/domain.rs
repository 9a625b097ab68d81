//! Which parameters and prices the curves are defined on.
//!
//! A request is judged before anything is computed. Parameters outside
//! their domain are an `InvalidParameter`. Parameters inside it at which the
//! auxiliary terms divide by zero, and prices that are not greater than
//! zero, are a `DegenerateInput`. Parameters are judged before prices.

use vstd::prelude::*;
use crate::binary64::Binary64;
use crate::error::ModelError;

verus! {

/// The strike is greater than zero; the volatility and the time to maturity
/// are at least zero.
pub open spec fn in_domain(strike: Binary64, volatility: Binary64, tau: Binary64) -> bool {
    &&& strike@.is_positive()
    &&& volatility@.is_non_negative()
    &&& tau@.is_non_negative()
}

/// The volatility or the time to maturity is zero, so that the auxiliary
/// terms divide by zero.
pub open spec fn singular(volatility: Binary64, tau: Binary64) -> bool {
    volatility@.is_zero() || tau@.is_zero()
}

/// Every price of the series is greater than zero.
pub open spec fn all_positive(prices: Seq<Binary64>) -> bool {
    forall|i: int| 0 <= i < prices.len() ==> (#[trigger] prices[i])@.is_positive()
}

/// The error owed to a request that depends on the parameters alone, if any.
pub open spec fn scalar_verdict(strike: Binary64, volatility: Binary64, tau: Binary64) -> Option<
    ModelError,
> {
    if !in_domain(strike, volatility, tau) {
        Some(ModelError::InvalidParameter)
    } else {
        None
    }
}

/// The error owed to a request for a curve over `prices`, if any.
pub open spec fn series_verdict(
    prices: Seq<Binary64>,
    strike: Binary64,
    volatility: Binary64,
    tau: Binary64,
) -> Option<ModelError> {
    if !in_domain(strike, volatility, tau) {
        Some(ModelError::InvalidParameter)
    } else if singular(volatility, tau) || !all_positive(prices) {
        Some(ModelError::DegenerateInput)
    } else {
        None
    }
}

/// Zero volatility is in the domain and singular: with the other two
/// parameters in their domain, a request that depends on the parameters
/// alone is accepted, and a request for a curve is a `DegenerateInput`
/// whatever the prices.
pub proof fn lemma_zero_volatility_is_degenerate(
    prices: Seq<Binary64>,
    strike: Binary64,
    volatility: Binary64,
    tau: Binary64,
)
    requires
        strike@.is_positive(),
        volatility@.is_zero(),
        tau@.is_non_negative(),
    ensures
        scalar_verdict(strike, volatility, tau) is None,
        series_verdict(prices, strike, volatility, tau) == Some(ModelError::DegenerateInput),
{
}

/// The index of the first price that is not greater than zero.
pub fn first_unusable(prices: &Vec<Binary64>) -> (r: Option<usize>)
    ensures
        r is None <==> all_positive(prices@),
        r matches Some(k) ==> {
            &&& k < prices.len()
            &&& !prices[k as int]@.is_positive()
            &&& all_positive(prices@.take(k as int))
        },
{
    let mut i: usize = 0;
    while i < prices.len()
        invariant
            i <= prices.len(),
            all_positive(prices@.take(i as int)),
        decreases prices.len() - i,
    {
        if !prices[i].is_positive() {
            return Some(i);
        }
        assert(prices@.take(i + 1) == prices@.take(i as int).push(prices[i as int]));
        i += 1;
    }
    assert(prices@.take(i as int) == prices@);
    None
}

/// Judges a request that depends on the parameters alone.
pub fn check_parameters(strike: Binary64, volatility: Binary64, tau: Binary64) -> (r: Result<
    (),
    ModelError,
>)
    ensures
        r == (match scalar_verdict(strike, volatility, tau) {
            Some(e) => Err::<(), ModelError>(e),
            None => Ok(()),
        }),
{
    if strike.is_positive() && volatility.is_non_negative() && tau.is_non_negative() {
        Ok(())
    } else {
        Err(ModelError::InvalidParameter)
    }
}

/// Judges a request for a curve over `prices`.
pub fn check_series(
    prices: &Vec<Binary64>,
    strike: Binary64,
    volatility: Binary64,
    tau: Binary64,
) -> (r: Result<(), ModelError>)
    ensures
        r == (match series_verdict(prices@, strike, volatility, tau) {
            Some(e) => Err::<(), ModelError>(e),
            None => Ok(()),
        }),
{
    if let Err(e) = check_parameters(strike, volatility, tau) {
        return Err(e);
    }
    if volatility.is_zero() || tau.is_zero() {
        return Err(ModelError::DegenerateInput);
    }
    match first_unusable(prices) {
        Some(_) => Err(ModelError::DegenerateInput),
        None => Ok(()),
    }
}

} // verus!
