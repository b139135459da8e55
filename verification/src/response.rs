//! What operations and queries hand back.

use vstd::prelude::*;
use crate::asset::Asset;
use crate::decimal::Decimal;
use crate::state::{AssetConfig, Config, Position};

verus! {

/// What an operation asks of the token contracts and of the bank.
#[derive(Clone, Debug, PartialEq, Eq)]
pub enum Request {
    /// Mint `amount` of the synthetic token to `recipient`.
    MintToken { token: String, recipient: String, amount: u128 },
    /// Burn `amount` of the synthetic token.
    BurnToken { token: String, amount: u128 },
    /// Pay `asset` out to `recipient`.
    Transfer { asset: Asset, recipient: String },
}

/// The operations on positions.
#[derive(Clone, Copy, Debug, PartialEq, Eq, Structural)]
pub enum Action {
    OpenPosition,
    Deposit,
    Withdraw,
    Mint,
    Burn,
    UpdateConfig,
    UpdateAsset,
    RegisterAsset,
    MigrateAsset,
}

/// One line of an operation's report.
#[derive(Clone, Debug, PartialEq, Eq)]
pub enum Attribute {
    Action(Action),
    PositionIdx(u128),
    AssetToken(String),
    EndPrice(Decimal),
    MintAmount(Asset),
    CollateralAmount(Asset),
    DepositAmount(Asset),
    WithdrawAmount(Asset),
    BurnAmount(Asset),
    ProtocolFee(Asset),
    RefundCollateralAmount(Asset),
}

/// What a successful operation hands back: the requests to send, in order,
/// and the report.
#[derive(Clone, Debug, PartialEq, Eq)]
pub struct Response {
    pub messages: Vec<Request>,
    pub attributes: Vec<Attribute>,
}

/// A position as it is shown to a caller.
#[derive(Clone, Debug, PartialEq, Eq)]
pub struct PositionResponse {
    pub idx: u128,
    pub owner: String,
    pub collateral: Asset,
    pub asset: Asset,
}

/// The protocol's settings as they are shown to a caller.
#[derive(Clone, Debug, PartialEq, Eq)]
pub struct ConfigResponse {
    pub owner: String,
    pub oracle: String,
    pub collector: String,
    pub collateral_oracle: String,
    pub staking: String,
    pub melange_factory: String,
    pub lock: String,
    pub base_denom: String,
    pub token_code_id: u64,
    pub protocol_fee_rate: Decimal,
}

/// The settings of one synthetic asset as they are shown to a caller.
#[derive(Clone, Debug, PartialEq, Eq)]
pub struct AssetConfigResponse {
    pub token: String,
    pub min_collateral_ratio: Decimal,
    pub end_price: Option<Decimal>,
}

/// One page of positions.
#[derive(Clone, Debug, PartialEq, Eq)]
pub struct PositionsResponse {
    pub positions: Vec<PositionResponse>,
}

/// The index that the next new position gets.
#[derive(Clone, Copy, Debug, PartialEq, Eq, Structural)]
pub struct NextPositionIdxResponse {
    pub next_position_idx: u128,
}

/// What a query is answered with.
#[derive(Clone, Debug, PartialEq, Eq)]
pub enum QueryResponse {
    Config(ConfigResponse),
    AssetConfig(AssetConfigResponse),
    Position(PositionResponse),
    Positions(PositionsResponse),
    NextPositionIdx(NextPositionIdxResponse),
}

/// A position as it is shown: index, owner and both balances.
pub open spec fn shown(position: Position) -> PositionResponse {
    PositionResponse {
        idx: position.idx,
        owner: position.owner,
        collateral: position.collateral,
        asset: position.asset,
    }
}

/// The settings as they are shown: all of them.
pub open spec fn shown_config(config: Config) -> ConfigResponse {
    ConfigResponse {
        owner: config.owner,
        oracle: config.oracle,
        collector: config.collector,
        collateral_oracle: config.collateral_oracle,
        staking: config.staking,
        melange_factory: config.melange_factory,
        lock: config.lock,
        base_denom: config.base_denom,
        token_code_id: config.token_code_id,
        protocol_fee_rate: config.protocol_fee_rate,
    }
}

/// An asset's settings as they are shown: all of them.
pub open spec fn shown_asset(asset_config: AssetConfig) -> AssetConfigResponse {
    AssetConfigResponse {
        token: asset_config.token,
        min_collateral_ratio: asset_config.min_collateral_ratio,
        end_price: asset_config.end_price,
    }
}

/// What a successful operation on one position does: the position's new
/// state, whether the position leaves the ledger, and what is handed back.
pub ghost struct Effect {
    pub position: Position,
    pub removed: bool,
    pub messages: Seq<Request>,
    pub attributes: Seq<Attribute>,
}

/// The ledger's positions after an effect.
pub open spec fn applied(before: Map<u128, Position>, effect: Effect) -> Map<u128, Position> {
    if effect.removed {
        before.remove(effect.position.idx)
    } else {
        before.insert(effect.position.idx, effect.position)
    }
}

} // verus!
