//! The requests that the engine takes.

use vstd::prelude::*;
use crate::asset::{Asset, AssetInfo};
use crate::decimal::Decimal;

verus! {

/// The settings that the engine starts with.
#[derive(Clone, Debug, PartialEq, Eq)]
pub struct InstantiateMsg {
    pub owner: String,
    pub oracle: String,
    pub collector: String,
    pub collateral_oracle: String,
    pub staking: String,
    pub melange_factory: String,
    pub lock: String,
    pub base_denom: String,
    pub token_code_id: u64,
    pub protocol_fee_rate: Decimal,
}

/// What comes with tokens that a token contract hands over: who sent them,
/// how many, and what they are for. The token is the contract that calls.
#[derive(Clone, Debug, PartialEq, Eq)]
pub struct Cw20ReceiveMsg {
    pub sender: String,
    pub amount: u128,
    pub msg: Cw20HookMsg,
}

/// What handed-over tokens are for.
#[derive(Clone, Debug, PartialEq, Eq)]
#[allow(inconsistent_fields)]
pub enum Cw20HookMsg {
    /// Open a position on the tokens as collateral.
    OpenPosition { asset_info: AssetInfo, collateral_ratio: Decimal },
    /// Add the tokens to a position's collateral.
    Deposit { position_idx: u128 },
    /// Burn the tokens against a position's debt.
    Burn { position_idx: u128 },
    /// Buy a position's collateral at a discount.
    Auction { position_idx: u128 },
}

/// The requests that change the engine's state.
#[derive(Clone, Debug, PartialEq, Eq)]
#[allow(inconsistent_fields)]
pub enum ExecuteMsg {
    Receive(Cw20ReceiveMsg),
    /// Change settings; only the owner may.
    UpdateConfig {
        owner: Option<String>,
        oracle: Option<String>,
        collector: Option<String>,
        collateral_oracle: Option<String>,
        melange_factory: Option<String>,
        lock: Option<String>,
        token_code_id: Option<u64>,
        protocol_fee_rate: Option<Decimal>,
        staking: Option<String>,
    },
    /// Change an asset's minimum collateral ratio; only the owner may.
    UpdateAsset { asset_token: String, min_collateral_ratio: Option<Decimal> },
    /// Register a synthetic asset; only the owner may.
    RegisterAsset { asset_token: String, min_collateral_ratio: Decimal },
    /// Deprecate a synthetic asset at an end price; only the owner may.
    RegisterMigration { asset_token: String, end_price: Decimal },
    /// Open a position at the chosen collateral ratio.
    OpenPosition { collateral: Asset, asset_info: AssetInfo, collateral_ratio: Decimal },
    /// Add collateral to a position.
    Deposit { position_idx: u128, collateral: Asset },
    /// Take collateral out of a position: all of it where none is named.
    Withdraw { position_idx: u128, collateral: Option<Asset> },
    /// Mint more of a position's asset.
    Mint { position_idx: u128, asset: Asset },
}

/// The order of a listing.
#[derive(Clone, Copy, Debug, PartialEq, Eq, Structural)]
pub enum OrderBy {
    Asc,
    Desc,
}

/// The requests that only read.
#[derive(Clone, Debug, PartialEq, Eq)]
#[allow(inconsistent_fields)]
pub enum QueryMsg {
    Config {  },
    AssetConfig { asset_token: String },
    Position { position_idx: u128 },
    Positions {
        owner_addr: Option<String>,
        asset_token: Option<String>,
        start_after: Option<u128>,
        limit: Option<u32>,
        order_by: Option<OrderBy>,
    },
    NextPositionIdx {  },
}

} // verus!
