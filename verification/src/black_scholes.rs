//! The auxiliary terms d1 and d2 of the Black-Scholes formulas, at a zero
//! risk-free rate.

use vstd::prelude::*;
use crate::arithmetic::difference_of;
use crate::arithmetic::lawful;
use crate::arithmetic::logarithm_of;
use crate::arithmetic::perform;
use crate::arithmetic::product_of;
use crate::arithmetic::quotient_of;
use crate::arithmetic::root_of;
use crate::arithmetic::sum_of;
use crate::arithmetic::Operation;
use crate::binary64::Binary64;
use crate::binary64::TWO_BITS;
use crate::domain::check_series;
use crate::domain::series_verdict;
use crate::error::ModelError;

verus! {

/// The volatility times the root of the time to maturity: what the terms
/// are divided by, and what d2 lies below d1.
pub open spec fn spread<E: Fn(Operation) -> Binary64>(
    arithmetic: E,
    volatility: Binary64,
    tau: Binary64,
) -> Option<Binary64> {
    product_of(arithmetic, Some(volatility), root_of(arithmetic, Some(tau)))
}

/// Half the squared volatility, times the time to maturity. The risk-free
/// rate is zero and adds nothing.
pub open spec fn drift<E: Fn(Operation) -> Binary64>(
    arithmetic: E,
    volatility: Binary64,
    tau: Binary64,
) -> Option<Binary64> {
    product_of(
        arithmetic,
        quotient_of(
            arithmetic,
            product_of(arithmetic, Some(volatility), Some(volatility)),
            Some(Binary64 { bits: TWO_BITS }),
        ),
        Some(tau),
    )
}

/// d1 at one price: the logarithm of price over strike, plus the drift,
/// all over the spread.
pub open spec fn d_one_at<E: Fn(Operation) -> Binary64>(
    arithmetic: E,
    price: Binary64,
    strike: Binary64,
    volatility: Binary64,
    tau: Binary64,
) -> Option<Binary64> {
    quotient_of(
        arithmetic,
        sum_of(
            arithmetic,
            logarithm_of(arithmetic, quotient_of(arithmetic, Some(price), Some(strike))),
            drift(arithmetic, volatility, tau),
        ),
        spread(arithmetic, volatility, tau),
    )
}

/// d2 at one price: d1 minus the spread.
pub open spec fn d_two_at<E: Fn(Operation) -> Binary64>(
    arithmetic: E,
    price: Binary64,
    strike: Binary64,
    volatility: Binary64,
    tau: Binary64,
) -> Option<Binary64> {
    difference_of(
        arithmetic,
        d_one_at(arithmetic, price, strike, volatility, tau),
        spread(arithmetic, volatility, tau),
    )
}

/// Computes the spread.
pub fn spread_of<E: Fn(Operation) -> Binary64>(
    volatility: Binary64,
    tau: Binary64,
    arithmetic: &E,
) -> (r: Binary64)
    requires
        lawful(*arithmetic),
    ensures
        spread(*arithmetic, volatility, tau) == Some(r),
{
    let root = perform(arithmetic, Operation::SquareRoot(tau));
    perform(arithmetic, Operation::Product(volatility, root))
}

/// d1 for each price, in the order of the prices, or the error owed to the
/// request.
pub fn d_one<E: Fn(Operation) -> Binary64>(
    prices: &Vec<Binary64>,
    strike: Binary64,
    volatility: Binary64,
    tau: Binary64,
    arithmetic: &E,
) -> (r: Result<Vec<Binary64>, ModelError>)
    requires
        lawful(*arithmetic),
    ensures
        match series_verdict(prices@, strike, volatility, tau) {
            Some(e) => r == Err::<Vec<Binary64>, ModelError>(e),
            None => r matches Ok(terms) && terms.len() == prices.len() && forall|i: int|
                0 <= i < prices.len() ==> d_one_at(
                    *arithmetic,
                    prices[i],
                    strike,
                    volatility,
                    tau,
                ) == Some(#[trigger] terms[i]),
        },
{
    if let Err(e) = check_series(prices, strike, volatility, tau) {
        return Err(e);
    }
    let square = perform(arithmetic, Operation::Product(volatility, volatility));
    let half = perform(arithmetic, Operation::Quotient(square, Binary64::two()));
    let shift = perform(arithmetic, Operation::Product(half, tau));
    let width = spread_of(volatility, tau, arithmetic);
    let mut terms: Vec<Binary64> = Vec::new();
    let mut i: usize = 0;
    while i < prices.len()
        invariant
            lawful(*arithmetic),
            i <= prices.len(),
            terms.len() == i,
            drift(*arithmetic, volatility, tau) == Some(shift),
            spread(*arithmetic, volatility, tau) == Some(width),
            forall|j: int|
                0 <= j < i ==> d_one_at(*arithmetic, prices[j], strike, volatility, tau) == Some(
                    #[trigger] terms[j],
                ),
        decreases prices.len() - i,
    {
        let moneyness = perform(arithmetic, Operation::Quotient(prices[i], strike));
        let log = perform(arithmetic, Operation::Logarithm(moneyness));
        let numerator = perform(arithmetic, Operation::Sum(log, shift));
        let term = perform(arithmetic, Operation::Quotient(numerator, width));
        terms.push(term);
        i += 1;
    }
    Ok(terms)
}

/// d2 for each price, in the order of the prices, or the error owed to the
/// request.
pub fn d_two<E: Fn(Operation) -> Binary64>(
    prices: &Vec<Binary64>,
    strike: Binary64,
    volatility: Binary64,
    tau: Binary64,
    arithmetic: &E,
) -> (r: Result<Vec<Binary64>, ModelError>)
    requires
        lawful(*arithmetic),
    ensures
        match series_verdict(prices@, strike, volatility, tau) {
            Some(e) => r == Err::<Vec<Binary64>, ModelError>(e),
            None => r matches Ok(terms) && terms.len() == prices.len() && forall|i: int|
                0 <= i < prices.len() ==> d_two_at(
                    *arithmetic,
                    prices[i],
                    strike,
                    volatility,
                    tau,
                ) == Some(#[trigger] terms[i]),
        },
{
    let upper = match d_one(prices, strike, volatility, tau, arithmetic) {
        Ok(terms) => terms,
        Err(e) => {
            return Err(e);
        },
    };
    let width = spread_of(volatility, tau, arithmetic);
    let mut terms: Vec<Binary64> = Vec::new();
    let mut i: usize = 0;
    while i < upper.len()
        invariant
            lawful(*arithmetic),
            i <= upper.len(),
            upper.len() == prices.len(),
            terms.len() == i,
            spread(*arithmetic, volatility, tau) == Some(width),
            forall|j: int|
                0 <= j < prices.len() ==> d_one_at(
                    *arithmetic,
                    prices[j],
                    strike,
                    volatility,
                    tau,
                ) == Some(#[trigger] upper[j]),
            forall|j: int|
                0 <= j < i ==> d_two_at(*arithmetic, prices[j], strike, volatility, tau) == Some(
                    #[trigger] terms[j],
                ),
        decreases upper.len() - i,
    {
        let term = perform(arithmetic, Operation::Difference(upper[i], width));
        terms.push(term);
        i += 1;
    }
    Ok(terms)
}

/// d2 is d1 minus the volatility times the root of the time to maturity,
/// exactly: whatever the arithmetic answers for d1 at a price, its answer
/// for d2 at that price is its difference of that d1 and that product.
pub proof fn lemma_d_two_is_d_one_less_spread<E: Fn(Operation) -> Binary64>(
    arithmetic: E,
    price: Binary64,
    strike: Binary64,
    volatility: Binary64,
    tau: Binary64,
)
    ensures
        d_two_at(arithmetic, price, strike, volatility, tau) == difference_of(
            arithmetic,
            d_one_at(arithmetic, price, strike, volatility, tau),
            product_of(arithmetic, Some(volatility), root_of(arithmetic, Some(tau))),
        ),
{
}

/// The same of the sequences that `d_one` and `d_two` return for one
/// accepted request: they are as long as the price series, and at every
/// index the entry of the second is the arithmetic's difference of the
/// entry of the first and the spread.
pub proof fn lemma_terms_differ_by_spread<E: Fn(Operation) -> Binary64>(
    arithmetic: E,
    prices: Seq<Binary64>,
    strike: Binary64,
    volatility: Binary64,
    tau: Binary64,
    upper: Seq<Binary64>,
    lower: Seq<Binary64>,
)
    requires
        upper.len() == prices.len(),
        lower.len() == prices.len(),
        forall|i: int|
            0 <= i < prices.len() ==> d_one_at(arithmetic, prices[i], strike, volatility, tau)
                == Some(#[trigger] upper[i]),
        forall|i: int|
            0 <= i < prices.len() ==> d_two_at(arithmetic, prices[i], strike, volatility, tau)
                == Some(#[trigger] lower[i]),
    ensures
        forall|i: int|
            0 <= i < prices.len() ==> difference_of(
                arithmetic,
                Some(upper[i]),
                spread(arithmetic, volatility, tau),
            ) == Some(#[trigger] lower[i]),
{
    assert forall|i: int| 0 <= i < prices.len() implies difference_of(
        arithmetic,
        Some(upper[i]),
        spread(arithmetic, volatility, tau),
    ) == Some(#[trigger] lower[i]) by {
        assert(d_one_at(arithmetic, prices[i], strike, volatility, tau) == Some(upper[i]));
        assert(d_two_at(arithmetic, prices[i], strike, volatility, tau) == Some(lower[i]));
    }
}

} // verus!
