//! The engine as a whole: its store, the routing of requests, the requests
//! on settings and assets, and the queries.

use vstd::prelude::*;
use crate::asserts::{assert_protocol_fee, fee_rate_fits};
use crate::asset::{funds_fit, Asset, AssetInfo, Coin};
use crate::decimal::Decimal;
use crate::error::MintError;
use crate::msg::{Cw20HookMsg, Cw20ReceiveMsg, ExecuteMsg, InstantiateMsg, QueryMsg};
use crate::positions::{
    burn, burn_effect, deposit, deposit_effect, mint, mint_effect, on_position, open_position,
    opened, page_limit, page_order, query_next_position_idx, query_position, query_positions,
    settled, withdraw, withdraw_effect,
};
use crate::response::{
    shown, shown_asset, shown_config, Action, AssetConfigResponse, Attribute, ConfigResponse,
    NextPositionIdxResponse, QueryResponse, Request, Response,
};
use crate::ledger::{page, PositionLedger};
use crate::registry::AssetRegistry;
use crate::state::{AssetConfig, Config, Position};

verus! {

/// The least minimum collateral ratio that an asset may have, in atomic
/// units: 1.2.
pub const MIN_CR_ALLOWED: u128 = 1_200_000_000_000_000_000;

/// All that the engine keeps between two requests.
#[derive(Debug)]
pub struct Store {
    pub config: Config,
    pub assets: AssetRegistry,
    pub ledger: PositionLedger,
}

impl Store {
    /// Each part of the store is in order.
    pub open spec fn wf(self) -> bool {
        self.config.wf() && self.assets.wf() && self.ledger.wf()
    }
}

/// What the oracles say at the time of a request: price, multiplier and
/// revocation of the collateral in question, and the price of the asset.
#[derive(Clone, Copy, Debug)]
pub struct Quotes {
    pub collateral: (Decimal, Decimal, bool),
    pub asset_price: Decimal,
}

/// The settings that a message asks the engine to start with.
pub open spec fn initial_config(msg: InstantiateMsg) -> Config {
    Config {
        owner: msg.owner,
        oracle: msg.oracle,
        collector: msg.collector,
        collateral_oracle: msg.collateral_oracle,
        staking: msg.staking,
        melange_factory: msg.melange_factory,
        lock: msg.lock,
        base_denom: msg.base_denom,
        token_code_id: msg.token_code_id,
        protocol_fee_rate: msg.protocol_fee_rate,
    }
}

/// The request was rejected with the given error.
pub open spec fn rejected(result: Result<Response, MintError>, e: MintError) -> bool {
    result == Err::<Response, MintError>(e)
}

/// The request went through, sends nothing and reports the given lines.
pub open spec fn reported(result: Result<Response, MintError>, attributes: Seq<Attribute>) -> bool {
    result is Ok && result->Ok_0.messages@ == Seq::<Request>::empty() && result->Ok_0.attributes@
        == attributes
}

/// The new value of a setting: the one given, or else the old one.
pub open spec fn chosen<T>(given: Option<T>, old: T) -> T {
    match given {
        Some(v) => v,
        None => old,
    }
}

/// An update of the settings: the owner's, with a fee rate of at most one,
/// replaces the settings that it names and no others.
pub open spec fn config_updated(
    before: Config,
    after: Config,
    result: Result<Response, MintError>,
    sender: String,
    owner: Option<String>,
    oracle: Option<String>,
    collector: Option<String>,
    collateral_oracle: Option<String>,
    melange_factory: Option<String>,
    lock: Option<String>,
    token_code_id: Option<u64>,
    protocol_fee_rate: Option<Decimal>,
    staking: Option<String>,
) -> bool {
    if sender@ != before.owner@ {
        rejected(result, MintError::Unauthorized) && after == before
    } else if protocol_fee_rate is Some && fee_rate_fits(protocol_fee_rate->0) is Err {
        rejected(result, MintError::WrongFeeRate) && after == before
    } else {
        &&& reported(result, seq![Attribute::Action(Action::UpdateConfig)])
        &&& after == (Config {
            owner: chosen(owner, before.owner),
            oracle: chosen(oracle, before.oracle),
            collector: chosen(collector, before.collector),
            collateral_oracle: chosen(collateral_oracle, before.collateral_oracle),
            staking: chosen(staking, before.staking),
            melange_factory: chosen(melange_factory, before.melange_factory),
            lock: chosen(lock, before.lock),
            base_denom: before.base_denom,
            token_code_id: chosen(token_code_id, before.token_code_id),
            protocol_fee_rate: chosen(protocol_fee_rate, before.protocol_fee_rate),
        })
    }
}

/// A registration: the owner's, of a token that has no settings yet, with a
/// minimum ratio at or above the floor, gives the token live settings.
pub open spec fn asset_registered(
    before: AssetRegistry,
    after: AssetRegistry,
    result: Result<Response, MintError>,
    owner: String,
    sender: String,
    asset_token: String,
    min_collateral_ratio: Decimal,
) -> bool {
    if sender@ != owner@ {
        rejected(result, MintError::Unauthorized) && after == before
    } else if before@.contains_key(asset_token@) {
        rejected(result, MintError::AssetExists) && after == before
    } else if min_collateral_ratio.atomics < MIN_CR_ALLOWED {
        rejected(result, MintError::MinRatioTooLow) && after == before
    } else {
        &&& reported(
            result,
            seq![Attribute::Action(Action::RegisterAsset), Attribute::AssetToken(asset_token)],
        )
        &&& after@ == before@.insert(
            asset_token@,
            (AssetConfig { token: asset_token, min_collateral_ratio, end_price: None }),
        )
    }
}

/// An update of an asset: the owner's, of a registered token, with a
/// minimum ratio at or above the floor, replaces the minimum ratio where one
/// is given and leaves the rest.
pub open spec fn asset_updated(
    before: AssetRegistry,
    after: AssetRegistry,
    result: Result<Response, MintError>,
    owner: String,
    sender: String,
    asset_token: String,
    min_collateral_ratio: Option<Decimal>,
) -> bool {
    if sender@ != owner@ {
        rejected(result, MintError::Unauthorized) && after == before
    } else if !before@.contains_key(asset_token@) {
        rejected(result, MintError::NotFound) && after == before
    } else if min_collateral_ratio is Some && min_collateral_ratio->0.atomics < MIN_CR_ALLOWED {
        rejected(result, MintError::MinRatioTooLow) && after == before
    } else {
        let old = before@[asset_token@];
        &&& reported(
            result,
            seq![Attribute::Action(Action::UpdateAsset), Attribute::AssetToken(asset_token)],
        )
        &&& after@ == before@.insert(
            asset_token@,
            (AssetConfig {
                token: old.token,
                min_collateral_ratio: chosen(min_collateral_ratio, old.min_collateral_ratio),
                end_price: old.end_price,
            }),
        )
    }
}

/// A migration: the owner's, of a registered token, deprecates the asset at
/// the given end price and leaves the rest of its settings.
pub open spec fn migration_registered(
    before: AssetRegistry,
    after: AssetRegistry,
    result: Result<Response, MintError>,
    owner: String,
    sender: String,
    asset_token: String,
    end_price: Decimal,
) -> bool {
    if sender@ != owner@ {
        rejected(result, MintError::Unauthorized) && after == before
    } else if !before@.contains_key(asset_token@) {
        rejected(result, MintError::NotFound) && after == before
    } else {
        let old = before@[asset_token@];
        &&& reported(
            result,
            seq![
                Attribute::Action(Action::MigrateAsset),
                Attribute::AssetToken(asset_token),
                Attribute::EndPrice(end_price),
            ],
        )
        &&& after@ == before@.insert(
            asset_token@,
            (AssetConfig {
                token: old.token,
                min_collateral_ratio: old.min_collateral_ratio,
                end_price: Some(end_price),
            }),
        )
    }
}

/// The asset that a token contract hands over: of the contract that calls,
/// in the amount that the message names.
pub open spec fn passed_asset(token: String, msg: Cw20ReceiveMsg) -> Asset {
    Asset { info: AssetInfo::Token { contract_addr: token }, amount: msg.amount }
}

/// What handed-over tokens did: opened a position on them, added them to a
/// position's collateral, or burnt them against a position's debt, each in
/// the name of who sent the tokens.
pub open spec fn received(
    before: PositionLedger,
    after: PositionLedger,
    result: Result<Response, MintError>,
    config: Config,
    assets: AssetRegistry,
    token: String,
    msg: Cw20ReceiveMsg,
    quotes: Quotes,
) -> bool {
    let passed = passed_asset(token, msg);
    match msg.msg {
        Cw20HookMsg::OpenPosition { asset_info, collateral_ratio } => opened(
            before,
            after,
            result,
            msg.sender,
            passed,
            asset_info,
            collateral_ratio,
            quotes.collateral,
            assets.lookup(asset_info),
            quotes.asset_price,
        ),
        Cw20HookMsg::Deposit { position_idx } => settled(
            before,
            after,
            result,
            on_position(
                before@,
                position_idx,
                |p: Position|
                    deposit_effect(
                        p,
                        msg.sender,
                        passed,
                        quotes.collateral,
                        assets.lookup(p.asset.info),
                    ),
            ),
        ),
        Cw20HookMsg::Burn { position_idx } => settled(
            before,
            after,
            result,
            on_position(
                before@,
                position_idx,
                |p: Position|
                    burn_effect(
                        p,
                        config,
                        msg.sender,
                        passed,
                        quotes.collateral.0,
                        assets.lookup(p.asset.info),
                        quotes.asset_price,
                    ),
            ),
        ),
        Cw20HookMsg::Auction { .. } => rejected(result, MintError::AuctionUnsupported) && after
            == before,
    }
}

/// What a request did to the store and handed back. Settings change only
/// by an update of the settings, assets only by the three requests on
/// assets, positions only by the requests on positions. Native collateral
/// that a request names must have come with it, in exactly that amount.
pub open spec fn executed(
    before: Store,
    after: Store,
    result: Result<Response, MintError>,
    sender: String,
    funds: Seq<Coin>,
    msg: ExecuteMsg,
    quotes: Quotes,
) -> bool {
    match msg {
        ExecuteMsg::Receive(m) => {
            &&& after.config == before.config
            &&& after.assets == before.assets
            &&& received(
                before.ledger,
                after.ledger,
                result,
                before.config,
                before.assets,
                sender,
                m,
                quotes,
            )
        },
        ExecuteMsg::UpdateConfig {
            owner,
            oracle,
            collector,
            collateral_oracle,
            melange_factory,
            lock,
            token_code_id,
            protocol_fee_rate,
            staking,
        } => {
            &&& after.assets == before.assets
            &&& after.ledger == before.ledger
            &&& config_updated(
                before.config,
                after.config,
                result,
                sender,
                owner,
                oracle,
                collector,
                collateral_oracle,
                melange_factory,
                lock,
                token_code_id,
                protocol_fee_rate,
                staking,
            )
        },
        ExecuteMsg::UpdateAsset { asset_token, min_collateral_ratio } => {
            &&& after.config == before.config
            &&& after.ledger == before.ledger
            &&& asset_updated(
                before.assets,
                after.assets,
                result,
                before.config.owner,
                sender,
                asset_token,
                min_collateral_ratio,
            )
        },
        ExecuteMsg::RegisterAsset { asset_token, min_collateral_ratio } => {
            &&& after.config == before.config
            &&& after.ledger == before.ledger
            &&& asset_registered(
                before.assets,
                after.assets,
                result,
                before.config.owner,
                sender,
                asset_token,
                min_collateral_ratio,
            )
        },
        ExecuteMsg::RegisterMigration { asset_token, end_price } => {
            &&& after.config == before.config
            &&& after.ledger == before.ledger
            &&& migration_registered(
                before.assets,
                after.assets,
                result,
                before.config.owner,
                sender,
                asset_token,
                end_price,
            )
        },
        ExecuteMsg::OpenPosition { collateral, asset_info, collateral_ratio } => {
            &&& after.config == before.config
            &&& after.assets == before.assets
            &&& if !funds_fit(collateral, funds) {
                rejected(result, MintError::FundsMismatch) && after.ledger == before.ledger
            } else {
                opened(
                    before.ledger,
                    after.ledger,
                    result,
                    sender,
                    collateral,
                    asset_info,
                    collateral_ratio,
                    quotes.collateral,
                    before.assets.lookup(asset_info),
                    quotes.asset_price,
                )
            }
        },
        ExecuteMsg::Deposit { position_idx, collateral } => {
            &&& after.config == before.config
            &&& after.assets == before.assets
            &&& if !(collateral.info is NativeToken) {
                rejected(result, MintError::Unauthorized) && after.ledger == before.ledger
            } else if !funds_fit(collateral, funds) {
                rejected(result, MintError::FundsMismatch) && after.ledger == before.ledger
            } else {
                settled(
                    before.ledger,
                    after.ledger,
                    result,
                    on_position(
                        before.ledger@,
                        position_idx,
                        |p: Position|
                            deposit_effect(
                                p,
                                sender,
                                collateral,
                                quotes.collateral,
                                before.assets.lookup(p.asset.info),
                            ),
                    ),
                )
            }
        },
        ExecuteMsg::Withdraw { position_idx, collateral } => {
            &&& after.config == before.config
            &&& after.assets == before.assets
            &&& settled(
                before.ledger,
                after.ledger,
                result,
                on_position(
                    before.ledger@,
                    position_idx,
                    |p: Position|
                        withdraw_effect(
                            p,
                            sender,
                            collateral,
                            quotes.collateral,
                            before.assets.lookup(p.asset.info),
                            quotes.asset_price,
                        ),
                ),
            )
        },
        ExecuteMsg::Mint { position_idx, asset } => {
            &&& after.config == before.config
            &&& after.assets == before.assets
            &&& settled(
                before.ledger,
                after.ledger,
                result,
                on_position(
                    before.ledger@,
                    position_idx,
                    |p: Position|
                        mint_effect(
                            p,
                            sender,
                            asset,
                            quotes.collateral,
                            before.assets.lookup(p.asset.info),
                            quotes.asset_price,
                        ),
                ),
            )
        },
    }
}

/// A response that sends nothing and reports the given lines.
fn report(attributes: Vec<Attribute>) -> (r: Result<Response, MintError>)
    ensures
        reported(r, attributes@),
{
    Ok(Response { messages: Vec::new(), attributes })
}

/// Rejects a minimum collateral ratio below the floor.
pub fn assert_min_collateral_ratio(min_collateral_ratio: Decimal) -> (r: Result<(), MintError>)
    ensures
        r == (if min_collateral_ratio.atomics < MIN_CR_ALLOWED {
            Err::<(), MintError>(MintError::MinRatioTooLow)
        } else {
            Ok::<(), MintError>(())
        }),
{
    if min_collateral_ratio.atomics < MIN_CR_ALLOWED {
        return Err(MintError::MinRatioTooLow);
    }
    Ok(())
}

/// The store that the engine starts with: the settings of the message, no
/// assets, no positions, and 1 as the first position index. Fails where the
/// protocol fee rate is above one.
pub fn instantiate(msg: InstantiateMsg) -> (r: Result<Store, MintError>)
    ensures
        match r {
            Ok(store) => {
                &&& fee_rate_fits(msg.protocol_fee_rate) is Ok
                &&& store.wf()
                &&& store.config == initial_config(msg)
                &&& store.assets@ == Map::<Seq<char>, AssetConfig>::empty()
                &&& store.ledger@ == Map::<u128, Position>::empty()
                &&& store.ledger.next() == 1
            },
            Err(e) => fee_rate_fits(msg.protocol_fee_rate) == Err::<Decimal, MintError>(e),
        },
{
    let protocol_fee_rate = assert_protocol_fee(msg.protocol_fee_rate)?;
    let config = Config {
        owner: msg.owner,
        oracle: msg.oracle,
        collector: msg.collector,
        collateral_oracle: msg.collateral_oracle,
        staking: msg.staking,
        melange_factory: msg.melange_factory,
        lock: msg.lock,
        base_denom: msg.base_denom,
        token_code_id: msg.token_code_id,
        protocol_fee_rate,
    };
    Ok(Store { config, assets: AssetRegistry::new(), ledger: PositionLedger::new() })
}

/// Replaces the settings that are given, for the owner.
pub fn update_config(
    config: &mut Config,
    sender: String,
    owner: Option<String>,
    oracle: Option<String>,
    collector: Option<String>,
    collateral_oracle: Option<String>,
    melange_factory: Option<String>,
    lock: Option<String>,
    token_code_id: Option<u64>,
    protocol_fee_rate: Option<Decimal>,
    staking: Option<String>,
) -> (r: Result<Response, MintError>)
    ensures
        old(config).wf() ==> final(config).wf(),
        config_updated(
            *old(config),
            *final(config),
            r,
            sender,
            owner,
            oracle,
            collector,
            collateral_oracle,
            melange_factory,
            lock,
            token_code_id,
            protocol_fee_rate,
            staking,
        ),
{
    if !(sender == config.owner) {
        return Err(MintError::Unauthorized);
    }
    if let Some(rate) = protocol_fee_rate {
        if assert_protocol_fee(rate).is_err() {
            return Err(MintError::WrongFeeRate);
        }
        config.protocol_fee_rate = rate;
    }
    if let Some(owner) = owner {
        config.owner = owner;
    }
    if let Some(oracle) = oracle {
        config.oracle = oracle;
    }
    if let Some(collector) = collector {
        config.collector = collector;
    }
    if let Some(collateral_oracle) = collateral_oracle {
        config.collateral_oracle = collateral_oracle;
    }
    if let Some(melange_factory) = melange_factory {
        config.melange_factory = melange_factory;
    }
    if let Some(lock) = lock {
        config.lock = lock;
    }
    if let Some(token_code_id) = token_code_id {
        config.token_code_id = token_code_id;
    }
    if let Some(staking) = staking {
        config.staking = staking;
    }
    let mut attributes: Vec<Attribute> = Vec::new();
    attributes.push(Attribute::Action(Action::UpdateConfig));
    proof {
        assert(attributes@ =~= seq![Attribute::Action(Action::UpdateConfig)]);
    }
    report(attributes)
}

/// Registers a synthetic asset, for the owner.
pub fn register_asset(
    assets: &mut AssetRegistry,
    config: &Config,
    sender: String,
    asset_token: String,
    min_collateral_ratio: Decimal,
) -> (r: Result<Response, MintError>)
    requires
        old(assets).wf(),
    ensures
        final(assets).wf(),
        asset_registered(
            *old(assets),
            *final(assets),
            r,
            config.owner,
            sender,
            asset_token,
            min_collateral_ratio,
        ),
{
    if !(sender == config.owner) {
        return Err(MintError::Unauthorized);
    }
    if assets.read_asset_config(&asset_token).is_ok() {
        return Err(MintError::AssetExists);
    }
    assert_min_collateral_ratio(min_collateral_ratio)?;
    assets.store_asset_config(AssetConfig::register(asset_token.clone(), min_collateral_ratio));
    let mut attributes: Vec<Attribute> = Vec::new();
    attributes.push(Attribute::Action(Action::RegisterAsset));
    attributes.push(Attribute::AssetToken(asset_token));
    proof {
        assert(attributes@ =~= seq![
            Attribute::Action(Action::RegisterAsset),
            Attribute::AssetToken(asset_token),
        ]);
    }
    report(attributes)
}

/// Changes the minimum collateral ratio of a registered asset, for the owner.
pub fn update_asset(
    assets: &mut AssetRegistry,
    config: &Config,
    sender: String,
    asset_token: String,
    min_collateral_ratio: Option<Decimal>,
) -> (r: Result<Response, MintError>)
    requires
        old(assets).wf(),
    ensures
        final(assets).wf(),
        asset_updated(
            *old(assets),
            *final(assets),
            r,
            config.owner,
            sender,
            asset_token,
            min_collateral_ratio,
        ),
{
    if !(sender == config.owner) {
        return Err(MintError::Unauthorized);
    }
    let mut asset_config: AssetConfig = match assets.read_asset_config(&asset_token) {
        Ok(c) => AssetConfig {
            token: c.token.clone(),
            min_collateral_ratio: c.min_collateral_ratio,
            end_price: c.end_price,
        },
        Err(e) => { return Err(e); },
    };
    if let Some(ratio) = min_collateral_ratio {
        assert_min_collateral_ratio(ratio)?;
        asset_config.min_collateral_ratio = ratio;
    }
    assets.store_asset_config(asset_config);
    let mut attributes: Vec<Attribute> = Vec::new();
    attributes.push(Attribute::Action(Action::UpdateAsset));
    attributes.push(Attribute::AssetToken(asset_token));
    proof {
        assert(attributes@ =~= seq![
            Attribute::Action(Action::UpdateAsset),
            Attribute::AssetToken(asset_token),
        ]);
    }
    report(attributes)
}

/// Deprecates a registered asset at the given end price, for the owner.
pub fn register_migration(
    assets: &mut AssetRegistry,
    config: &Config,
    sender: String,
    asset_token: String,
    end_price: Decimal,
) -> (r: Result<Response, MintError>)
    requires
        old(assets).wf(),
    ensures
        final(assets).wf(),
        migration_registered(
            *old(assets),
            *final(assets),
            r,
            config.owner,
            sender,
            asset_token,
            end_price,
        ),
{
    if !(sender == config.owner) {
        return Err(MintError::Unauthorized);
    }
    let mut asset_config: AssetConfig = match assets.read_asset_config(&asset_token) {
        Ok(c) => AssetConfig {
            token: c.token.clone(),
            min_collateral_ratio: c.min_collateral_ratio,
            end_price: c.end_price,
        },
        Err(e) => { return Err(e); },
    };
    asset_config.register_migration(end_price);
    assets.store_asset_config(asset_config);
    let mut attributes: Vec<Attribute> = Vec::new();
    attributes.push(Attribute::Action(Action::MigrateAsset));
    attributes.push(Attribute::AssetToken(asset_token));
    attributes.push(Attribute::EndPrice(end_price));
    proof {
        assert(attributes@ =~= seq![
            Attribute::Action(Action::MigrateAsset),
            Attribute::AssetToken(asset_token),
            Attribute::EndPrice(end_price),
        ]);
    }
    report(attributes)
}

/// Takes tokens that the token contract `token` hands over and does with
/// them what their message asks, in the name of who sent them.
pub fn receive_cw20(
    store: &mut Store,
    token: String,
    msg: Cw20ReceiveMsg,
    quotes: Quotes,
) -> (r: Result<Response, MintError>)
    requires
        old(store).wf(),
    ensures
        final(store).wf(),
        final(store).config == old(store).config,
        final(store).assets == old(store).assets,
        received(
            old(store).ledger,
            final(store).ledger,
            r,
            old(store).config,
            old(store).assets,
            token,
            msg,
            quotes,
        ),
{
    let passed = Asset { info: AssetInfo::Token { contract_addr: token }, amount: msg.amount };
    match msg.msg {
        Cw20HookMsg::OpenPosition { asset_info, collateral_ratio } => open_position(
            &mut store.ledger,
            msg.sender,
            passed,
            asset_info,
            collateral_ratio,
            quotes.collateral,
            &store.assets,
            quotes.asset_price,
        ),
        Cw20HookMsg::Deposit { position_idx } => deposit(
            &mut store.ledger,
            msg.sender,
            position_idx,
            passed,
            quotes.collateral,
            &store.assets,
        ),
        Cw20HookMsg::Burn { position_idx } => burn(
            &mut store.ledger,
            &store.config,
            msg.sender,
            position_idx,
            passed,
            quotes.collateral,
            &store.assets,
            quotes.asset_price,
        ),
        Cw20HookMsg::Auction { .. } => Err(MintError::AuctionUnsupported),
    }
}

/// Carries out one request of `sender`, which came with `funds`, at the
/// given quotes. A rejected request changes nothing.
pub fn execute(
    store: &mut Store,
    sender: String,
    funds: Vec<Coin>,
    msg: ExecuteMsg,
    quotes: Quotes,
) -> (r: Result<Response, MintError>)
    requires
        old(store).wf(),
    ensures
        final(store).wf(),
        executed(*old(store), *final(store), r, sender, funds@, msg, quotes),
{
    match msg {
        ExecuteMsg::Receive(m) => receive_cw20(store, sender, m, quotes),
        ExecuteMsg::UpdateConfig {
            owner,
            oracle,
            collector,
            collateral_oracle,
            melange_factory,
            lock,
            token_code_id,
            protocol_fee_rate,
            staking,
        } => update_config(
            &mut store.config,
            sender,
            owner,
            oracle,
            collector,
            collateral_oracle,
            melange_factory,
            lock,
            token_code_id,
            protocol_fee_rate,
            staking,
        ),
        ExecuteMsg::UpdateAsset { asset_token, min_collateral_ratio } => update_asset(
            &mut store.assets,
            &store.config,
            sender,
            asset_token,
            min_collateral_ratio,
        ),
        ExecuteMsg::RegisterAsset { asset_token, min_collateral_ratio } => register_asset(
            &mut store.assets,
            &store.config,
            sender,
            asset_token,
            min_collateral_ratio,
        ),
        ExecuteMsg::RegisterMigration { asset_token, end_price } => register_migration(
            &mut store.assets,
            &store.config,
            sender,
            asset_token,
            end_price,
        ),
        ExecuteMsg::OpenPosition { collateral, asset_info, collateral_ratio } => {
            collateral.assert_sent_native_token_balance(&funds)?;
            open_position(
                &mut store.ledger,
                sender,
                collateral,
                asset_info,
                collateral_ratio,
                quotes.collateral,
                &store.assets,
                quotes.asset_price,
            )
        },
        ExecuteMsg::Deposit { position_idx, collateral } => {
            if !collateral.is_native_token() {
                return Err(MintError::Unauthorized);
            }
            collateral.assert_sent_native_token_balance(&funds)?;
            deposit(
                &mut store.ledger,
                sender,
                position_idx,
                collateral,
                quotes.collateral,
                &store.assets,
            )
        },
        ExecuteMsg::Withdraw { position_idx, collateral } => withdraw(
            &mut store.ledger,
            sender,
            position_idx,
            collateral,
            quotes.collateral,
            &store.assets,
            quotes.asset_price,
        ),
        ExecuteMsg::Mint { position_idx, asset } => mint(
            &mut store.ledger,
            sender,
            position_idx,
            asset,
            quotes.collateral,
            &store.assets,
            quotes.asset_price,
        ),
    }
}

/// The kinds of asset that the oracles are to be asked about before a
/// request is carried out.
#[derive(Debug, PartialEq, Eq)]
pub struct QuoteRequest {
    /// The collateral whose price, multiplier and revocation are needed.
    pub collateral: Option<AssetInfo>,
    /// The synthetic asset whose price is needed.
    pub asset: Option<AssetInfo>,
}

/// What an operation on the position under `idx` needs to know: of the
/// position's collateral always, of its asset where `priced` says so, and
/// nothing where there is no such position.
pub open spec fn position_quotes(
    ledger: Map<u128, Position>,
    idx: u128,
    priced: spec_fn(Position) -> bool,
) -> QuoteRequest {
    if ledger.contains_key(idx) {
        QuoteRequest {
            collateral: Some(ledger[idx].collateral.info),
            asset: if priced(ledger[idx]) {
                Some(ledger[idx].asset.info)
            } else {
                None
            },
        }
    } else {
        QuoteRequest { collateral: None, asset: None }
    }
}

/// What a request needs to know from the oracles. A deposit needs no asset
/// price, a burn needs none where the asset is deprecated, and a request
/// on settings or assets needs nothing.
pub open spec fn quotes_needed(store: Store, sender: String, msg: ExecuteMsg) -> QuoteRequest {
    match msg {
        ExecuteMsg::OpenPosition { collateral, asset_info, .. } => QuoteRequest {
            collateral: Some(collateral.info),
            asset: Some(asset_info),
        },
        ExecuteMsg::Deposit { position_idx, .. } => position_quotes(
            store.ledger@,
            position_idx,
            |p: Position| false,
        ),
        ExecuteMsg::Withdraw { position_idx, .. } => position_quotes(
            store.ledger@,
            position_idx,
            |p: Position| true,
        ),
        ExecuteMsg::Mint { position_idx, .. } => position_quotes(
            store.ledger@,
            position_idx,
            |p: Position| true,
        ),
        ExecuteMsg::Receive(m) => match m.msg {
            Cw20HookMsg::OpenPosition { asset_info, .. } => QuoteRequest {
                collateral: Some(AssetInfo::Token { contract_addr: sender }),
                asset: Some(asset_info),
            },
            Cw20HookMsg::Deposit { position_idx } => position_quotes(
                store.ledger@,
                position_idx,
                |p: Position| false,
            ),
            Cw20HookMsg::Burn { position_idx } => position_quotes(
                store.ledger@,
                position_idx,
                |p: Position|
                    !(store.assets.lookup(p.asset.info) matches Ok(c) && c.deprecated()),
            ),
            Cw20HookMsg::Auction { .. } => QuoteRequest { collateral: None, asset: None },
        },
        _ => QuoteRequest { collateral: None, asset: None },
    }
}

/// What an operation on the position under `position_idx` needs to know:
/// of its collateral, and of its asset where `priced` says so, unless the
/// asset is deprecated and `unless_deprecated` says that this counts.
fn quotes_for(store: &Store, position_idx: u128, priced: bool, unless_deprecated: bool) -> (r:
    QuoteRequest)
    requires
        store.wf(),
    ensures
        r == position_quotes(
            store.ledger@,
            position_idx,
            |p: Position|
                priced && !(unless_deprecated && (store.assets.lookup(p.asset.info) matches Ok(c)
                    && c.deprecated())),
        ),
{
    match store.ledger.read_position(position_idx) {
        Ok(p) => {
            let deprecated = match store.assets.read_for(&p.asset.info) {
                Ok(c) => c.end_price.is_some(),
                Err(_) => false,
            };
            let asset = if priced && !(unless_deprecated && deprecated) {
                Some(p.asset.info.clone())
            } else {
                None
            };
            QuoteRequest { collateral: Some(p.collateral.info.clone()), asset }
        },
        Err(_) => QuoteRequest { collateral: None, asset: None },
    }
}

/// What `execute` needs to know from the oracles to carry out `msg` for
/// `sender`.
pub fn required_quotes(store: &Store, sender: &String, msg: &ExecuteMsg) -> (r: QuoteRequest)
    requires
        store.wf(),
    ensures
        r == quotes_needed(*store, *sender, *msg),
{
    match msg {
        ExecuteMsg::OpenPosition { collateral, asset_info, .. } => QuoteRequest {
            collateral: Some(collateral.info.clone()),
            asset: Some(asset_info.clone()),
        },
        ExecuteMsg::Deposit { position_idx, .. } => quotes_for(store, *position_idx, false, false),
        ExecuteMsg::Withdraw { position_idx, .. } => quotes_for(store, *position_idx, true, false),
        ExecuteMsg::Mint { position_idx, .. } => quotes_for(store, *position_idx, true, false),
        ExecuteMsg::Receive(m) => match &m.msg {
            Cw20HookMsg::OpenPosition { asset_info, .. } => QuoteRequest {
                collateral: Some(AssetInfo::Token { contract_addr: sender.clone() }),
                asset: Some(asset_info.clone()),
            },
            Cw20HookMsg::Deposit { position_idx } => quotes_for(store, *position_idx, false, false),
            Cw20HookMsg::Burn { position_idx } => quotes_for(store, *position_idx, true, true),
            Cw20HookMsg::Auction { .. } => QuoteRequest { collateral: None, asset: None },
        },
        _ => QuoteRequest { collateral: None, asset: None },
    }
}

/// What a query is answered with.
pub open spec fn answered(store: Store, msg: QueryMsg, result: Result<QueryResponse, MintError>) -> bool {
    match msg {
        QueryMsg::Config {  } => result == Ok::<QueryResponse, MintError>(
            QueryResponse::Config(shown_config(store.config)),
        ),
        QueryMsg::AssetConfig { asset_token } => result == (if store.assets@.contains_key(
            asset_token@,
        ) {
            Ok::<QueryResponse, MintError>(
                QueryResponse::AssetConfig(shown_asset(store.assets@[asset_token@])),
            )
        } else {
            Err::<QueryResponse, MintError>(MintError::NotFound)
        }),
        QueryMsg::Position { position_idx } => result == (if store.ledger@.contains_key(
            position_idx,
        ) {
            Ok::<QueryResponse, MintError>(
                QueryResponse::Position(shown(store.ledger@[position_idx])),
            )
        } else {
            Err::<QueryResponse, MintError>(MintError::NotFound)
        }),
        QueryMsg::Positions { owner_addr, asset_token, start_after, limit, order_by } => {
            &&& result matches Ok(QueryResponse::Positions(listed))
            &&& listed.positions@ == page(
                store.ledger.ordered(),
                owner_addr,
                asset_token,
                start_after,
                page_limit(limit),
                page_order(order_by),
            ).map_values(|p: Position| shown(p))
        },
        QueryMsg::NextPositionIdx {  } => result == Ok::<QueryResponse, MintError>(
            QueryResponse::NextPositionIdx(
                NextPositionIdxResponse { next_position_idx: store.ledger.next() },
            ),
        ),
    }
}

/// Answers one query from the store.
pub fn query(store: &Store, msg: QueryMsg) -> (r: Result<QueryResponse, MintError>)
    requires
        store.wf(),
    ensures
        answered(*store, msg, r),
{
    match msg {
        QueryMsg::Config {  } => Ok(QueryResponse::Config(query_config(&store.config))),
        QueryMsg::AssetConfig { asset_token } => {
            let shown = query_asset_config(&store.assets, asset_token)?;
            Ok(QueryResponse::AssetConfig(shown))
        },
        QueryMsg::Position { position_idx } => {
            let shown = query_position(&store.ledger, position_idx)?;
            Ok(QueryResponse::Position(shown))
        },
        QueryMsg::Positions { owner_addr, asset_token, start_after, limit, order_by } => Ok(
            QueryResponse::Positions(
                query_positions(&store.ledger, owner_addr, asset_token, start_after, limit, order_by),
            ),
        ),
        QueryMsg::NextPositionIdx {  } => Ok(
            QueryResponse::NextPositionIdx(query_next_position_idx(&store.ledger)),
        ),
    }
}

/// The protocol's settings, as they are shown to a caller.
pub fn query_config(config: &Config) -> (r: ConfigResponse)
    ensures
        r == shown_config(*config),
{
    ConfigResponse {
        owner: config.owner.clone(),
        oracle: config.oracle.clone(),
        collector: config.collector.clone(),
        collateral_oracle: config.collateral_oracle.clone(),
        staking: config.staking.clone(),
        melange_factory: config.melange_factory.clone(),
        lock: config.lock.clone(),
        base_denom: config.base_denom.clone(),
        token_code_id: config.token_code_id,
        protocol_fee_rate: config.protocol_fee_rate,
    }
}

/// The settings of the asset whose token is at the given address, as they
/// are shown to a caller.
pub fn query_asset_config(assets: &AssetRegistry, asset_token: String) -> (r: Result<
    AssetConfigResponse,
    MintError,
>)
    requires
        assets.wf(),
    ensures
        r == (if assets@.contains_key(asset_token@) {
            Ok::<AssetConfigResponse, MintError>(shown_asset(assets@[asset_token@]))
        } else {
            Err::<AssetConfigResponse, MintError>(MintError::NotFound)
        }),
{
    let asset_config = assets.read_asset_config(&asset_token)?;
    Ok(
        AssetConfigResponse {
            token: asset_config.token.clone(),
            min_collateral_ratio: asset_config.min_collateral_ratio,
            end_price: asset_config.end_price,
        },
    )
}

} // verus!
