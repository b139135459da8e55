//! Collateralised debt positions: users lock collateral to mint a synthetic
//! asset, subject to a minimum collateral ratio checked against prices that
//! the caller supplies. Every rule of the position lifecycle is stated as a
//! contract and proved.

pub mod decimal;
pub mod error;
pub mod asset;
pub mod state;
pub mod ledger;
pub mod registry;
pub mod asserts;
pub mod response;
pub mod positions;
pub mod laws;
pub mod msg;
pub mod contract;
