//! Tokenised real-estate assets: the lifecycle that carries an asset from an
//! acquisition proposal through council screening, an investor referendum,
//! fractional ownership, the election of a representative and of tenants, and
//! the periodic collection and distribution of rent.
//!
//! Every state-changing action is a method that either applies completely or
//! returns an error and leaves the state as it was. Time advances only through
//! [`runtime::Runtime::next_block`].

pub mod action;
pub mod asset_management;
pub mod currency;
pub mod hashing;
pub mod housing_fund;
pub mod identity;
pub mod onboarding;
pub mod roles;
pub mod runtime;
pub mod share_distributor;
pub mod tally;
pub mod template;
pub mod tenancy;
pub mod types;
pub mod voting;
