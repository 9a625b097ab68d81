//! The RMM-01 pool model: a market maker whose trading curve replicates a
//! portfolio priced by the Black-Scholes formulas.

use vstd::prelude::*;
use crate::arithmetic::difference_of;
use crate::arithmetic::exponential_of;
use crate::arithmetic::lawful;
use crate::arithmetic::normal_cdf_of;
use crate::arithmetic::perform;
use crate::arithmetic::product_of;
use crate::arithmetic::quotient_of;
use crate::arithmetic::Operation;
use crate::base_model::PriceRange;
use crate::binary64::Binary64;
use crate::binary64::ONE_BITS;
use crate::binary64::TWO_BITS;
use crate::black_scholes::d_one;
use crate::black_scholes::d_one_at;
use crate::black_scholes::d_two;
use crate::black_scholes::d_two_at;
use crate::black_scholes::spread;
use crate::black_scholes::spread_of;
use crate::domain::check_parameters;
use crate::domain::scalar_verdict;
use crate::domain::series_verdict;
use crate::error::ModelError;
use crate::normal::pdf_value;
use crate::normal::standard_gaussian_pdf;
use crate::normal::standard_normal_cdf;

verus! {

/// Parameters for the RMM01 model.
#[derive(Clone, Copy, Debug, PartialEq, Eq, Structural)]
pub struct RMM01 {
    pub strike: Binary64,
    pub volatility: Binary64,
    pub time_to_maturity: Binary64,
}

/// The factor by which reserves are scaled: the one given, or the number
/// one where none is given.
pub open spec fn scaling_or_one(scaling: Option<Binary64>) -> Binary64 {
    match scaling {
        Some(s) => s,
        None => (Binary64 { bits: ONE_BITS }),
    }
}

/// The liquidity density at one price: the normal density at d1, over the
/// spread, over the price.
pub open spec fn density_at<E: Fn(Operation) -> Binary64>(
    arithmetic: E,
    price: Binary64,
    strike: Binary64,
    volatility: Binary64,
    tau: Binary64,
) -> Option<Binary64> {
    quotient_of(
        arithmetic,
        quotient_of(
            arithmetic,
            pdf_value(arithmetic, d_one_at(arithmetic, price, strike, volatility, tau)),
            spread(arithmetic, volatility, tau),
        ),
        Some(price),
    )
}

/// The risky reserve at one price: the scale times one minus the normal
/// distribution function at d1.
pub open spec fn risky_reserve_at<E: Fn(Operation) -> Binary64>(
    arithmetic: E,
    price: Binary64,
    strike: Binary64,
    volatility: Binary64,
    tau: Binary64,
    scale: Binary64,
) -> Option<Binary64> {
    product_of(
        arithmetic,
        Some(scale),
        difference_of(
            arithmetic,
            Some(Binary64 { bits: ONE_BITS }),
            normal_cdf_of(arithmetic, d_one_at(arithmetic, price, strike, volatility, tau)),
        ),
    )
}

/// The stable reserve at one price: the scale times the strike, times the
/// normal distribution function at d2.
pub open spec fn stable_reserve_at<E: Fn(Operation) -> Binary64>(
    arithmetic: E,
    price: Binary64,
    strike: Binary64,
    volatility: Binary64,
    tau: Binary64,
    scale: Binary64,
) -> Option<Binary64> {
    product_of(
        arithmetic,
        product_of(arithmetic, Some(scale), Some(strike)),
        normal_cdf_of(arithmetic, d_two_at(arithmetic, price, strike, volatility, tau)),
    )
}

/// The price the model implies for the pool: the strike times the
/// exponential of the time to maturity times the squared volatility over
/// two.
pub open spec fn reported_value<E: Fn(Operation) -> Binary64>(
    arithmetic: E,
    strike: Binary64,
    volatility: Binary64,
    tau: Binary64,
) -> Option<Binary64> {
    product_of(
        arithmetic,
        Some(strike),
        exponential_of(
            arithmetic,
            quotient_of(
                arithmetic,
                product_of(
                    arithmetic,
                    product_of(arithmetic, Some(tau), Some(volatility)),
                    Some(volatility),
                ),
                Some(Binary64 { bits: TWO_BITS }),
            ),
        ),
    )
}

/// What a request for the liquidity densities over `prices` owes: the
/// error of the request, or one density for each price, in their order.
pub open spec fn density_result<E: Fn(Operation) -> Binary64>(
    arithmetic: E,
    prices: Seq<Binary64>,
    strike: Binary64,
    volatility: Binary64,
    tau: Binary64,
    r: Result<Vec<Binary64>, ModelError>,
) -> bool {
    match series_verdict(prices, strike, volatility, tau) {
        Some(e) => r == Err::<Vec<Binary64>, ModelError>(e),
        None => r matches Ok(densities) && densities.len() == prices.len() && forall|i: int|
            0 <= i < prices.len() ==> density_at(arithmetic, prices[i], strike, volatility, tau)
                == Some(#[trigger] densities[i]),
    }
}

/// What a request for the reserves over `prices` owes: the error of the
/// request, or the risky and the stable reserve for each price, in their
/// order.
pub open spec fn curve_result<E: Fn(Operation) -> Binary64>(
    arithmetic: E,
    prices: Seq<Binary64>,
    strike: Binary64,
    volatility: Binary64,
    tau: Binary64,
    scaling: Option<Binary64>,
    r: Result<(Vec<Binary64>, Vec<Binary64>), ModelError>,
) -> bool {
    match series_verdict(prices, strike, volatility, tau) {
        Some(e) => r == Err::<(Vec<Binary64>, Vec<Binary64>), ModelError>(e),
        None => r matches Ok(curve) && curve.0.len() == prices.len() && curve.1.len()
            == prices.len() && forall|i: int|
            #![trigger curve.0[i]]
            #![trigger curve.1[i]]
            0 <= i < prices.len() ==> risky_reserve_at(
                arithmetic,
                prices[i],
                strike,
                volatility,
                tau,
                scaling_or_one(scaling),
            ) == Some(curve.0[i]) && stable_reserve_at(
                arithmetic,
                prices[i],
                strike,
                volatility,
                tau,
                scaling_or_one(scaling),
            ) == Some(curve.1[i]),
    }
}

/// What a request for the reported price owes: the error of the request,
/// or the price.
pub open spec fn price_result<E: Fn(Operation) -> Binary64>(
    arithmetic: E,
    strike: Binary64,
    volatility: Binary64,
    tau: Binary64,
    r: Result<Binary64, ModelError>,
) -> bool {
    match scalar_verdict(strike, volatility, tau) {
        Some(e) => r == Err::<Binary64, ModelError>(e),
        None => r matches Ok(price) && reported_value(arithmetic, strike, volatility, tau)
            == Some(price),
    }
}

/// The scaling factor in force.
pub fn effective_scaling(scaling: Option<Binary64>) -> (r: Binary64)
    ensures
        r == scaling_or_one(scaling),
{
    match scaling {
        Some(s) => s,
        None => Binary64::one(),
    }
}

/// Fetches the liquidity distribution of a pool that uses the RMM01 model:
/// the liquidity density at each price, in the order of the prices.
pub fn liquidity_distribution<E: Fn(Operation) -> Binary64>(
    prices: Vec<Binary64>,
    strike: Binary64,
    volatility: Binary64,
    tau: Binary64,
    arithmetic: &E,
) -> (r: Result<Vec<Binary64>, ModelError>)
    requires
        lawful(*arithmetic),
    ensures
        density_result(*arithmetic, prices@, strike, volatility, tau, r),
{
    // Probability density function at d1.
    let terms = match d_one(&prices, strike, volatility, tau, arithmetic) {
        Ok(terms) => terms,
        Err(e) => {
            return Err(e);
        },
    };
    let pdf_of_d_one = standard_gaussian_pdf(&terms, arithmetic);
    let width = spread_of(volatility, tau, arithmetic);
    let mut y_coordinates: Vec<Binary64> = Vec::new();
    let mut i: usize = 0;
    while i < prices.len()
        invariant
            lawful(*arithmetic),
            i <= prices.len(),
            terms.len() == prices.len(),
            pdf_of_d_one.len() == prices.len(),
            y_coordinates.len() == i,
            spread(*arithmetic, volatility, tau) == Some(width),
            forall|j: int|
                0 <= j < prices.len() ==> d_one_at(
                    *arithmetic,
                    prices[j],
                    strike,
                    volatility,
                    tau,
                ) == Some(#[trigger] terms[j]),
            forall|j: int|
                0 <= j < prices.len() ==> pdf_value(*arithmetic, Some(terms[j])) == Some(
                    #[trigger] pdf_of_d_one[j],
                ),
            forall|j: int|
                0 <= j < i ==> density_at(*arithmetic, prices[j], strike, volatility, tau)
                    == Some(#[trigger] y_coordinates[j]),
        decreases prices.len() - i,
    {
        assert(d_one_at(*arithmetic, prices[i as int], strike, volatility, tau) == Some(
            terms[i as int],
        ));
        // Density over the spread, then over the price.
        let density_over_vol = perform(arithmetic, Operation::Quotient(pdf_of_d_one[i], width));
        let density = perform(arithmetic, Operation::Quotient(density_over_vol, prices[i]));
        y_coordinates.push(density);
        i += 1;
    }
    Ok(y_coordinates)
}

/// Returns the reserves of the pool for the RMM01 model: the risky reserve
/// and the stable reserve at each price, in the order of the prices.
/// `scaling` is one where it is absent.
pub fn trading_function<E: Fn(Operation) -> Binary64>(
    prices: Vec<Binary64>,
    strike: Binary64,
    volatility: Binary64,
    tau: Binary64,
    scaling: Option<Binary64>,
    arithmetic: &E,
) -> (r: Result<(Vec<Binary64>, Vec<Binary64>), ModelError>)
    requires
        lawful(*arithmetic),
    ensures
        curve_result(*arithmetic, prices@, strike, volatility, tau, scaling, r),
{
    let d1 = match d_one(&prices, strike, volatility, tau, arithmetic) {
        Ok(terms) => terms,
        Err(e) => {
            return Err(e);
        },
    };
    let d2 = match d_two(&prices, strike, volatility, tau, arithmetic) {
        Ok(terms) => terms,
        Err(e) => {
            return Err(e);
        },
    };
    let scale = effective_scaling(scaling);
    let cap = perform(arithmetic, Operation::Product(scale, strike));
    let mut x: Vec<Binary64> = Vec::new();
    let mut y: Vec<Binary64> = Vec::new();
    let mut i: usize = 0;
    while i < prices.len()
        invariant
            lawful(*arithmetic),
            i <= prices.len(),
            d1.len() == prices.len(),
            d2.len() == prices.len(),
            x.len() == i,
            y.len() == i,
            product_of(*arithmetic, Some(scale), Some(strike)) == Some(cap),
            forall|j: int|
                0 <= j < prices.len() ==> d_one_at(
                    *arithmetic,
                    prices[j],
                    strike,
                    volatility,
                    tau,
                ) == Some(#[trigger] d1[j]),
            forall|j: int|
                0 <= j < prices.len() ==> d_two_at(
                    *arithmetic,
                    prices[j],
                    strike,
                    volatility,
                    tau,
                ) == Some(#[trigger] d2[j]),
            forall|j: int|
                #![trigger x[j]]
                #![trigger y[j]]
                0 <= j < i ==> risky_reserve_at(
                    *arithmetic,
                    prices[j],
                    strike,
                    volatility,
                    tau,
                    scale,
                ) == Some(x[j]) && stable_reserve_at(
                    *arithmetic,
                    prices[j],
                    strike,
                    volatility,
                    tau,
                    scale,
                ) == Some(y[j]),
        decreases prices.len() - i,
    {
        assert(d_one_at(*arithmetic, prices[i as int], strike, volatility, tau) == Some(
            d1[i as int],
        ));
        assert(d_two_at(*arithmetic, prices[i as int], strike, volatility, tau) == Some(
            d2[i as int],
        ));
        let below = standard_normal_cdf(d1[i], arithmetic);
        let above = perform(arithmetic, Operation::Difference(Binary64::one(), below));
        let risky = perform(arithmetic, Operation::Product(scale, above));
        let covered = standard_normal_cdf(d2[i], arithmetic);
        let stable = perform(arithmetic, Operation::Product(cap, covered));
        x.push(risky);
        y.push(stable);
        i += 1;
    }
    Ok((x, y))
}

/// The price that the model reports for the pool. It is defined on every
/// parameter set in the domain, zero volatility included.
pub fn reported_price<E: Fn(Operation) -> Binary64>(
    strike: Binary64,
    volatility: Binary64,
    tau: Binary64,
    arithmetic: &E,
) -> (r: Result<Binary64, ModelError>)
    requires
        lawful(*arithmetic),
    ensures
        price_result(*arithmetic, strike, volatility, tau, r),
{
    if let Err(e) = check_parameters(strike, volatility, tau) {
        return Err(e);
    }
    let scaled = perform(arithmetic, Operation::Product(tau, volatility));
    let variance = perform(arithmetic, Operation::Product(scaled, volatility));
    let half = perform(arithmetic, Operation::Quotient(variance, Binary64::two()));
    let growth = perform(arithmetic, Operation::Exponential(half));
    Ok(perform(arithmetic, Operation::Product(strike, growth)))
}

impl RMM01 {
    /// Builds the model, turning down parameters outside their domain.
    /// Zero volatility and zero time to maturity are in the domain: the
    /// reported price is defined there, though no curve is.
    pub fn new(strike: Binary64, volatility: Binary64, time_to_maturity: Binary64) -> (r: Result<
        RMM01,
        ModelError,
    >)
        ensures
            match scalar_verdict(strike, volatility, time_to_maturity) {
                Some(e) => r == Err::<RMM01, ModelError>(e),
                None => r == Ok::<RMM01, ModelError>(
                    RMM01 { strike, volatility, time_to_maturity },
                ),
            },
    {
        match check_parameters(strike, volatility, time_to_maturity) {
            Ok(()) => Ok(RMM01 { strike, volatility, time_to_maturity }),
            Err(e) => Err(e),
        }
    }

    /// The liquidity density at each price, in the order of the prices.
    pub fn get_liquidity_density<E: Fn(Operation) -> Binary64>(
        &self,
        prices: Vec<Binary64>,
        arithmetic: &E,
    ) -> (r: Result<Vec<Binary64>, ModelError>)
        requires
            lawful(*arithmetic),
        ensures
            density_result(
                *arithmetic,
                prices@,
                self.strike,
                self.volatility,
                self.time_to_maturity,
                r,
            ),
    {
        liquidity_distribution(
            prices,
            self.strike,
            self.volatility,
            self.time_to_maturity,
            arithmetic,
        )
    }

    /// The price that the model reports for the pool.
    pub fn get_reported_price<E: Fn(Operation) -> Binary64>(&self, arithmetic: &E) -> (r: Result<
        Binary64,
        ModelError,
    >)
        requires
            lawful(*arithmetic),
        ensures
            price_result(*arithmetic, self.strike, self.volatility, self.time_to_maturity, r),
    {
        reported_price(self.strike, self.volatility, self.time_to_maturity, arithmetic)
    }

    /// The price interval over which the reserves are active. No such
    /// interval is defined for this model yet: the range returned is the
    /// placeholder from zero to zero, which `PriceRange::placeholder` tells
    /// apart from a computed one.
    pub fn get_virtual_price_range(&self) -> (r: PriceRange)
        ensures
            r.lower.bits == 0,
            r.upper.bits == 0,
            r.is_placeholder(),
    {
        PriceRange { lower: Binary64::zero(), upper: Binary64::zero() }
    }

    /// The risky and the stable reserve at each price, in the order of the
    /// prices.
    pub fn get_trading_curve<E: Fn(Operation) -> Binary64>(
        &self,
        prices: Vec<Binary64>,
        scaling: Option<Binary64>,
        arithmetic: &E,
    ) -> (r: Result<(Vec<Binary64>, Vec<Binary64>), ModelError>)
        requires
            lawful(*arithmetic),
        ensures
            curve_result(
                *arithmetic,
                prices@,
                self.strike,
                self.volatility,
                self.time_to_maturity,
                scaling,
                r,
            ),
    {
        trading_function(
            prices,
            self.strike,
            self.volatility,
            self.time_to_maturity,
            scaling,
            arithmetic,
        )
    }
}

} // verus!
