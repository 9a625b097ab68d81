//! A pool of capital under analysis, and the objective it is analysed by.

use vstd::prelude::*;
use crate::arithmetic::lawful;
use crate::arithmetic::Operation;
use crate::binary64::Binary64;
use crate::error::ModelError;
use crate::rmm_01::curve_result;
use crate::rmm_01::density_result;
use crate::rmm_01::price_result;
use crate::rmm_01::RMM01;

verus! {

/// Bounds of the prices over which a pool's reserves are active.
#[derive(Clone, Copy, Debug, PartialEq, Eq, Structural)]
pub struct PriceRange {
    pub lower: Binary64,
    pub upper: Binary64,
}

impl PriceRange {
    /// The range from zero to zero, which stands for "not computed".
    pub open spec fn is_placeholder(self) -> bool {
        self.lower@.is_zero() && self.upper@.is_zero()
    }

    /// Whether this range is the placeholder and not a computed interval.
    pub fn placeholder(&self) -> (r: bool)
        ensures
            r == self.is_placeholder(),
    {
        self.lower.is_zero() && self.upper.is_zero()
    }
}

/// The model a pool is analysed by. Each model is one variant, and every
/// operation below is defined for each of them.
#[derive(Clone, Copy, Debug, PartialEq, Eq, Structural)]
pub enum Objective {
    RMM01(RMM01),
}

impl Objective {
    /// What a request for the reported price owes under this objective.
    pub open spec fn price_result<E: Fn(Operation) -> Binary64>(
        self,
        arithmetic: E,
        r: Result<Binary64, ModelError>,
    ) -> bool {
        match self {
            Objective::RMM01(m) => price_result(
                arithmetic,
                m.strike,
                m.volatility,
                m.time_to_maturity,
                r,
            ),
        }
    }

    /// What a request for the liquidity densities over `prices` owes under
    /// this objective.
    pub open spec fn density_result<E: Fn(Operation) -> Binary64>(
        self,
        arithmetic: E,
        prices: Seq<Binary64>,
        r: Result<Vec<Binary64>, ModelError>,
    ) -> bool {
        match self {
            Objective::RMM01(m) => density_result(
                arithmetic,
                prices,
                m.strike,
                m.volatility,
                m.time_to_maturity,
                r,
            ),
        }
    }

    /// What a request for the reserves over `prices` owes under this
    /// objective.
    pub open spec fn curve_result<E: Fn(Operation) -> Binary64>(
        self,
        arithmetic: E,
        prices: Seq<Binary64>,
        scaling: Option<Binary64>,
        r: Result<(Vec<Binary64>, Vec<Binary64>), ModelError>,
    ) -> bool {
        match self {
            Objective::RMM01(m) => curve_result(
                arithmetic,
                prices,
                m.strike,
                m.volatility,
                m.time_to_maturity,
                scaling,
                r,
            ),
        }
    }

    /// The price that the model reports for the pool.
    pub fn get_reported_price<E: Fn(Operation) -> Binary64>(&self, arithmetic: &E) -> (r: Result<
        Binary64,
        ModelError,
    >)
        requires
            lawful(*arithmetic),
        ensures
            self.price_result(*arithmetic, r),
    {
        match self {
            Objective::RMM01(m) => m.get_reported_price(arithmetic),
        }
    }

    /// The liquidity density at each price, in the order of the prices.
    pub fn get_liquidity_density<E: Fn(Operation) -> Binary64>(
        &self,
        prices: Vec<Binary64>,
        arithmetic: &E,
    ) -> (r: Result<Vec<Binary64>, ModelError>)
        requires
            lawful(*arithmetic),
        ensures
            self.density_result(*arithmetic, prices@, r),
    {
        match self {
            Objective::RMM01(m) => m.get_liquidity_density(prices, arithmetic),
        }
    }

    /// The price interval over which the reserves are active: for every
    /// model so far, the placeholder from zero to zero.
    pub fn get_virtual_price_range(&self) -> (r: PriceRange)
        ensures
            r.lower.bits == 0,
            r.upper.bits == 0,
            r.is_placeholder(),
    {
        match self {
            Objective::RMM01(m) => m.get_virtual_price_range(),
        }
    }

    /// The risky and the stable reserve at each price, in the order of the
    /// prices.
    pub fn get_trading_curve<E: Fn(Operation) -> Binary64>(
        &self,
        prices: Vec<Binary64>,
        scaling: Option<Binary64>,
        arithmetic: &E,
    ) -> (r: Result<(Vec<Binary64>, Vec<Binary64>), ModelError>)
        requires
            lawful(*arithmetic),
        ensures
            self.curve_result(*arithmetic, prices@, scaling, r),
    {
        match self {
            Objective::RMM01(m) => m.get_trading_curve(prices, scaling, arithmetic),
        }
    }
}

/// Abstraction for a pool of capital managed by a smart contract.
///
/// For autonomous market making smart contracts, the pools
/// are responsible for holding the assets and executing trades.
/// These pools have implied properties that this abstraction will expose.
///
/// * `name` - The human readable name of the pool.
/// * `version` - The version of the pool.
/// * `code` - A ticker to identify the pool short hand.
/// * `id` - A unique pool identifier.
/// * `objective` - The model the pool is analysed by, once one is set.
/// * `x`, `y` - The pool's reserves.
pub struct BaseModel {
    pub name: String,
    pub version: String,
    pub code: String,
    pub id: String,
    pub objective: Option<Objective>,
    pub x: Binary64,
    pub y: Binary64,
}

impl BaseModel {
    /// A pool without an objective and with empty reserves.
    pub fn new(name: String, version: String, code: String, id: String) -> (r: BaseModel)
        ensures
            r.name == name,
            r.version == version,
            r.code == code,
            r.id == id,
            r.objective is None,
            r.x.bits == 0,
            r.y.bits == 0,
    {
        BaseModel {
            name,
            version,
            code,
            id,
            objective: None,
            x: Binary64::zero(),
            y: Binary64::zero(),
        }
    }

    /// Sets the objective. Nothing else changes.
    pub fn set_objective(&mut self, objective: Objective)
        ensures
            final(self).objective == Some(objective),
            final(self).name == old(self).name,
            final(self).version == old(self).version,
            final(self).code == old(self).code,
            final(self).id == old(self).id,
            final(self).x == old(self).x,
            final(self).y == old(self).y,
    {
        self.objective = Some(objective);
    }

    /// The objective, or `UnsetObjective` where none was set.
    pub fn active_objective(&self) -> (r: Result<Objective, ModelError>)
        ensures
            r == (match self.objective {
                Some(o) => Ok::<Objective, ModelError>(o),
                None => Err(ModelError::UnsetObjective),
            }),
    {
        match self.objective {
            Some(o) => Ok(o),
            None => Err(ModelError::UnsetObjective),
        }
    }

    /// The price that the pool's objective reports. Without an objective
    /// the request fails with `UnsetObjective`.
    pub fn get_reported_price<E: Fn(Operation) -> Binary64>(&self, arithmetic: &E) -> (r: Result<
        Binary64,
        ModelError,
    >)
        requires
            lawful(*arithmetic),
        ensures
            match self.objective {
                None => r == Err::<Binary64, ModelError>(ModelError::UnsetObjective),
                Some(o) => o.price_result(*arithmetic, r),
            },
    {
        match self.active_objective() {
            Ok(o) => o.get_reported_price(arithmetic),
            Err(e) => Err(e),
        }
    }

    /// The liquidity density of the pool's objective at each price. Without
    /// an objective the request fails with `UnsetObjective`, whatever the
    /// prices.
    pub fn get_liquidity_density<E: Fn(Operation) -> Binary64>(
        &self,
        prices: Vec<Binary64>,
        arithmetic: &E,
    ) -> (r: Result<Vec<Binary64>, ModelError>)
        requires
            lawful(*arithmetic),
        ensures
            match self.objective {
                None => r == Err::<Vec<Binary64>, ModelError>(ModelError::UnsetObjective),
                Some(o) => o.density_result(*arithmetic, prices@, r),
            },
    {
        match self.active_objective() {
            Ok(o) => o.get_liquidity_density(prices, arithmetic),
            Err(e) => Err(e),
        }
    }

    /// The virtual price range of the pool's objective. Without an
    /// objective the request fails with `UnsetObjective`.
    pub fn get_virtual_price_range(&self) -> (r: Result<PriceRange, ModelError>)
        ensures
            match self.objective {
                None => r == Err::<PriceRange, ModelError>(ModelError::UnsetObjective),
                Some(_) => r matches Ok(range) && range.lower.bits == 0 && range.upper.bits == 0
                    && range.is_placeholder(),
            },
    {
        match self.active_objective() {
            Ok(o) => Ok(o.get_virtual_price_range()),
            Err(e) => Err(e),
        }
    }

    /// The reserves of the pool's objective at each price. Without an
    /// objective the request fails with `UnsetObjective`, whatever the
    /// prices.
    pub fn get_trading_curve<E: Fn(Operation) -> Binary64>(
        &self,
        prices: Vec<Binary64>,
        scaling: Option<Binary64>,
        arithmetic: &E,
    ) -> (r: Result<(Vec<Binary64>, Vec<Binary64>), ModelError>)
        requires
            lawful(*arithmetic),
        ensures
            match self.objective {
                None => r == Err::<(Vec<Binary64>, Vec<Binary64>), ModelError>(
                    ModelError::UnsetObjective,
                ),
                Some(o) => o.curve_result(*arithmetic, prices@, scaling, r),
            },
    {
        match self.active_objective() {
            Ok(o) => o.get_trading_curve(prices, scaling, arithmetic),
            Err(e) => Err(e),
        }
    }
}

impl Default for BaseModel {
    fn default() -> (r: BaseModel)
        ensures
            r.name@ == "default"@,
            r.version@ == "default"@,
            r.code@ == "default"@,
            r.id@ == "default"@,
            r.objective is None,
            r.x.bits == 0,
            r.y.bits == 0,
    {
        BaseModel {
            name: "default".to_owned(),
            version: "default".to_owned(),
            code: "default".to_owned(),
            id: "default".to_owned(),
            objective: None,
            x: Binary64::zero(),
            y: Binary64::zero(),
        }
    }
}

} // verus!
