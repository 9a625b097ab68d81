//! The ways in which a request to the model can fail.

use vstd::prelude::*;

verus! {

/// Why a request was turned down. A request either succeeds completely or
/// fails with exactly one of these; nothing is computed for a rejected
/// request. That the sequences of a result are as long as the price series
/// is proved of every function that returns them, so no error stands for a
/// mismatch.
#[derive(Clone, Copy, Debug, PartialEq, Eq, Structural)]
pub enum ModelError {
    /// A model parameter lies outside its domain: the strike is not greater
    /// than zero, or the volatility or the time to maturity is not at least
    /// zero.
    InvalidParameter,
    /// The parameters are in their domain but the curves are singular at
    /// them (zero volatility or zero time to maturity), or some price is
    /// not greater than zero.
    DegenerateInput,
    /// The session has no objective yet.
    UnsetObjective,
}

impl ModelError {
    /// A short sentence for the person reading a log.
    pub fn message(&self) -> (r: String)
        ensures
            r@ == match *self {
                ModelError::InvalidParameter => "model parameter outside its domain"@,
                ModelError::DegenerateInput => "curve is singular at this input"@,
                ModelError::UnsetObjective => "no objective has been set"@,
            },
    {
        match self {
            ModelError::InvalidParameter => "model parameter outside its domain".to_owned(),
            ModelError::DegenerateInput => "curve is singular at this input".to_owned(),
            ModelError::UnsetObjective => "no objective has been set".to_owned(),
        }
    }
}

} // verus!
