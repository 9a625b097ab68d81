//! Analytic curves of a replicating market maker: model parameters, the
//! rules by which inputs are accepted or rejected, and the session that
//! holds the active model.

pub mod arithmetic;
pub mod base_model;
pub mod binary64;
pub mod black_scholes;
pub mod domain;
pub mod error;
pub mod normal;
pub mod rmm_01;
