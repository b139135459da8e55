//! What the engine keeps: its settings, the settings of each synthetic
//! asset, and the positions.

use vstd::prelude::*;
use crate::asset::Asset;
use crate::decimal::{Decimal, FRACTIONAL};

verus! {

/// The protocol's settings. The position operations only read them.
#[derive(Clone, Debug, PartialEq, Eq)]
pub struct Config {
    pub owner: String,
    pub oracle: String,
    pub collector: String,
    pub collateral_oracle: String,
    pub staking: String,
    pub melange_factory: String,
    pub lock: String,
    pub base_denom: String,
    pub token_code_id: u64,
    pub protocol_fee_rate: Decimal,
}

impl Config {
    /// The protocol fee rate is at most one.
    pub open spec fn wf(self) -> bool {
        self.protocol_fee_rate.atomics <= FRACTIONAL
    }
}

/// The settings of one synthetic asset. An end price marks the asset as
/// deprecated: no new debt is taken against it, and its debt is redeemed at
/// that price.
#[derive(Clone, Debug, PartialEq, Eq)]
pub struct AssetConfig {
    pub token: String,
    pub min_collateral_ratio: Decimal,
    pub end_price: Option<Decimal>,
}

impl AssetConfig {
    /// An asset is deprecated once it has an end price.
    pub open spec fn deprecated(self) -> bool {
        self.end_price is Some
    }

    /// The settings of a newly registered asset, which has no end price.
    pub fn register(token: String, min_collateral_ratio: Decimal) -> (r: AssetConfig)
        ensures
            r.token == token,
            r.min_collateral_ratio == min_collateral_ratio,
            !r.deprecated(),
    {
        AssetConfig { token, min_collateral_ratio, end_price: None }
    }

    /// Marks the asset as deprecated at the given end price.
    pub fn register_migration(&mut self, end_price: Decimal)
        ensures
            final(self).token == old(self).token,
            final(self).min_collateral_ratio == old(self).min_collateral_ratio,
            final(self).end_price == Some(end_price),
            final(self).deprecated(),
    {
        self.end_price = Some(end_price);
    }
}

/// Locked collateral and the synthetic debt minted against it.
#[derive(Debug, PartialEq, Eq)]
pub struct Position {
    pub idx: u128,
    pub owner: String,
    pub collateral: Asset,
    pub asset: Asset,
}

impl Position {
    /// A position is closed once it holds no collateral and owes nothing.
    pub open spec fn is_closed(self) -> bool {
        self.collateral.amount == 0 && self.asset.amount == 0
    }
}

impl Clone for Position {
    fn clone(&self) -> (r: Self)
        ensures
            r == *self,
    {
        Position {
            idx: self.idx,
            owner: self.owner.clone(),
            collateral: self.collateral.clone(),
            asset: self.asset.clone(),
        }
    }
}

} // verus!
