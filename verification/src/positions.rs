//! The operations on positions: open, deposit, withdraw, mint and burn, and
//! the queries on positions. Each operation is stated as a function from the
//! position and the request to the position's new state and the requests to
//! send, or to the reason for which it is rejected.

use vstd::prelude::*;
use crate::asserts::{
    assert_asset, assert_collateral, assert_migrated_asset, assert_revoked_collateral, asset_fits,
    collateral_fits,
};
use crate::asset::{Asset, AssetInfo};
use crate::decimal::{
    decimal_division, decimal_multiplication, division_spec, from_ratio_spec,
    multiplication_spec, reverse_decimal, scale, scale_spec, Decimal, FRACTIONAL,
};
use crate::error::MintError;
use crate::msg::OrderBy;
use crate::response::{
    applied, shown, Action, Attribute, Effect, NextPositionIdxResponse, PositionResponse,
    PositionsResponse, Request, Response,
};
use crate::ledger::{page, PositionLedger};
use crate::registry::AssetRegistry;
use crate::state::{AssetConfig, Config, Position};

verus! {

/// The collateral that a debt of `asset_amount` asks for: the debt's value
/// in units of the collateral, times the minimum ratio, times the
/// multiplier, each product rounded down.
pub open spec fn required_collateral(
    asset_amount: u128,
    asset_price: Decimal,
    collateral_price: Decimal,
    min_ratio: Decimal,
    multiplier: Decimal,
) -> Result<u128, MintError> {
    let rate = division_spec(asset_price, collateral_price);
    if rate is Err {
        Err(rate->Err_0)
    } else {
        let value = scale_spec(asset_amount, rate->Ok_0);
        if value is Err {
            Err(value->Err_0)
        } else {
            let floor = scale_spec(value->Ok_0, min_ratio);
            if floor is Err {
                Err(floor->Err_0)
            } else {
                scale_spec(floor->Ok_0, multiplier)
            }
        }
    }
}

/// A position is solvent at given prices where its collateral covers what
/// its debt asks for.
pub open spec fn solvent(
    position: Position,
    asset_price: Decimal,
    collateral_price: Decimal,
    min_ratio: Decimal,
    multiplier: Decimal,
) -> bool {
    let required = required_collateral(
        position.asset.amount,
        asset_price,
        collateral_price,
        min_ratio,
        multiplier,
    );
    required is Ok && required->Ok_0 <= position.collateral.amount
}

/// The protocol fee on a burn: the burnt amount's value in units of the
/// collateral, times the fee rate, each product rounded down.
pub open spec fn protocol_fee(
    burn_amount: u128,
    asset_price: Decimal,
    collateral_price: Decimal,
    fee_rate: Decimal,
) -> Result<u128, MintError> {
    let rate = division_spec(asset_price, collateral_price);
    if rate is Err {
        Err(rate->Err_0)
    } else {
        let value = scale_spec(burn_amount, rate->Ok_0);
        if value is Err {
            Err(value->Err_0)
        } else {
            scale_spec(value->Ok_0, fee_rate)
        }
    }
}

/// The collateral that a close-out burn frees, before the fee: the smaller
/// of the burnt amount's value at the end price and the burnt amount's share
/// of the position's collateral.
pub open spec fn close_out_refund(
    burn_amount: u128,
    end_price: Decimal,
    collateral_price: Decimal,
    collateral_amount: u128,
    asset_amount: u128,
) -> Result<u128, MintError> {
    let rate = division_spec(end_price, collateral_price);
    if rate is Err {
        Err(rate->Err_0)
    } else {
        let conversion = from_ratio_spec(collateral_amount, asset_amount);
        if conversion is Err {
            Err(conversion->Err_0)
        } else {
            let by_price = scale_spec(burn_amount, rate->Ok_0);
            if by_price is Err {
                Err(by_price->Err_0)
            } else {
                let by_share = scale_spec(burn_amount, conversion->Ok_0);
                if by_share is Err {
                    Err(by_share->Err_0)
                } else if by_price->Ok_0 < by_share->Ok_0 {
                    by_price
                } else {
                    by_share
                }
            }
        }
    }
}

/// The position with other amounts.
pub open spec fn with_amounts(position: Position, collateral: u128, asset: u128) -> Position {
    Position {
        idx: position.idx,
        owner: position.owner,
        collateral: Asset { info: position.collateral.info, amount: collateral },
        asset: Asset { info: position.asset.info, amount: asset },
    }
}

/// The request that pays the protocol fee to the collector, where there is a fee.
pub open spec fn fee_requests(fee: Asset, collector: String) -> Seq<Request> {
    if fee.amount > 0 {
        seq![Request::Transfer { asset: fee, recipient: collector }]
    } else {
        seq![]
    }
}

/// A burn against a deprecated asset, by anyone: the burnt amount is
/// redeemed at the end price, the fee is taken from the refund, and the
/// position leaves the ledger once it owes nothing and holds at most one
/// unit of collateral.
pub open spec fn close_out_effect(
    position: Position,
    config: Config,
    sender: String,
    asset: Asset,
    collateral_price: Decimal,
    end_price: Decimal,
    token: String,
) -> Result<Effect, MintError> {
    let refund = close_out_refund(
        asset.amount,
        end_price,
        collateral_price,
        position.collateral.amount,
        position.asset.amount,
    );
    let fee = protocol_fee(asset.amount, end_price, collateral_price, config.protocol_fee_rate);
    if refund is Err {
        Err(refund->Err_0)
    } else if refund->Ok_0 > position.collateral.amount {
        Err(MintError::Underflow)
    } else if fee is Err {
        Err(fee->Err_0)
    } else if fee->Ok_0 > refund->Ok_0 {
        Err(MintError::Underflow)
    } else {
        let collateral_left = (position.collateral.amount - refund->Ok_0) as u128;
        let asset_left = (position.asset.amount - asset.amount) as u128;
        let fee_asset = Asset { info: position.collateral.info, amount: fee->Ok_0 };
        let payout = Asset {
            info: position.collateral.info,
            amount: (refund->Ok_0 - fee->Ok_0) as u128,
        };
        Ok(
            Effect {
                position: with_amounts(position, collateral_left, asset_left),
                removed: collateral_left <= 1 && asset_left == 0,
                messages: seq![Request::BurnToken { token, amount: asset.amount }] + fee_requests(
                    fee_asset,
                    config.collector,
                ) + seq![Request::Transfer { asset: payout, recipient: sender }],
                attributes: seq![
                    Attribute::Action(Action::Burn),
                    Attribute::PositionIdx(position.idx),
                    Attribute::BurnAmount(asset),
                    Attribute::ProtocolFee(fee_asset),
                    Attribute::RefundCollateralAmount(payout),
                ],
            },
        )
    }
}

/// A burn against a live asset, by the owner: the fee is taken from the
/// position's collateral and the debt goes down by the burnt amount.
pub open spec fn ordinary_burn_effect(
    position: Position,
    config: Config,
    sender: String,
    asset: Asset,
    collateral_price: Decimal,
    asset_price: Decimal,
    token: String,
) -> Result<Effect, MintError> {
    let fee = protocol_fee(asset.amount, asset_price, collateral_price, config.protocol_fee_rate);
    if sender@ != position.owner@ {
        Err(MintError::Unauthorized)
    } else if fee is Err {
        Err(fee->Err_0)
    } else if fee->Ok_0 > position.collateral.amount {
        Err(MintError::Underflow)
    } else {
        let fee_asset = Asset { info: position.collateral.info, amount: fee->Ok_0 };
        let left = with_amounts(
            position,
            (position.collateral.amount - fee->Ok_0) as u128,
            (position.asset.amount - asset.amount) as u128,
        );
        Ok(
            Effect {
                position: left,
                removed: left.is_closed(),
                messages: seq![Request::BurnToken { token, amount: asset.amount }] + fee_requests(
                    fee_asset,
                    config.collector,
                ),
                attributes: seq![
                    Attribute::Action(Action::Burn),
                    Attribute::PositionIdx(position.idx),
                    Attribute::BurnAmount(asset),
                    Attribute::ProtocolFee(fee_asset),
                ],
            },
        )
    }
}

/// What a burn does to the position, or why it is rejected.
pub open spec fn burn_effect(
    position: Position,
    config: Config,
    sender: String,
    asset: Asset,
    collateral_price: Decimal,
    found: Result<AssetConfig, MintError>,
    asset_price: Decimal,
) -> Result<Effect, MintError> {
    let asset_config = found->Ok_0;
    if asset_fits(position, asset) is Err {
        Err(MintError::WrongAsset)
    } else if found is Err {
        Err(found->Err_0)
    } else if position.asset.amount < asset.amount {
        Err(MintError::BurnExceedsDebt)
    } else {
        match asset_config.end_price {
            Some(end_price) => close_out_effect(
                position,
                config,
                sender,
                asset,
                collateral_price,
                end_price,
                asset_config.token,
            ),
            None => ordinary_burn_effect(
                position,
                config,
                sender,
                asset,
                collateral_price,
                asset_price,
                asset_config.token,
            ),
        }
    }
}

/// What an operation on the position under `idx` is to do, where there is
/// such a position.
pub open spec fn on_position(
    ledger: Map<u128, Position>,
    idx: u128,
    effect: spec_fn(Position) -> Result<Effect, MintError>,
) -> Result<Effect, MintError> {
    if ledger.contains_key(idx) {
        effect(ledger[idx])
    } else {
        Err(MintError::NotFound)
    }
}

/// The operation did to the ledger, and handed back, what was expected of
/// it; a rejected operation changed nothing.
pub open spec fn settled(
    before: PositionLedger,
    after: PositionLedger,
    result: Result<Response, MintError>,
    expected: Result<Effect, MintError>,
) -> bool {
    match result {
        Ok(response) => {
            &&& expected is Ok
            &&& after@ == applied(before@, expected->Ok_0)
            &&& after.next() == before.next()
            &&& response.messages@ == expected->Ok_0.messages
            &&& response.attributes@ == expected->Ok_0.attributes
        },
        Err(e) => expected == Err::<Effect, MintError>(e) && after == before,
    }
}

/// Computes the collateral that a debt asks for, failing where a step fails.
fn compute_required_collateral(
    asset_amount: u128,
    asset_price: Decimal,
    collateral_price: Decimal,
    min_ratio: Decimal,
    multiplier: Decimal,
) -> (r: Result<u128, MintError>)
    ensures
        r == required_collateral(asset_amount, asset_price, collateral_price, min_ratio, multiplier),
{
    let rate = decimal_division(asset_price, collateral_price)?;
    let value: u128 = scale(asset_amount, rate)?;
    let floor: u128 = scale(value, min_ratio)?;
    scale(floor, multiplier)
}

/// Computes the protocol fee on a burn, failing where a step fails.
fn compute_protocol_fee(
    burn_amount: u128,
    asset_price: Decimal,
    collateral_price: Decimal,
    fee_rate: Decimal,
) -> (r: Result<u128, MintError>)
    ensures
        r == protocol_fee(burn_amount, asset_price, collateral_price, fee_rate),
{
    let rate = decimal_division(asset_price, collateral_price)?;
    let value: u128 = scale(burn_amount, rate)?;
    scale(value, fee_rate)
}

/// Computes what a close-out frees, failing where a step fails.
fn compute_close_out_refund(
    burn_amount: u128,
    end_price: Decimal,
    collateral_price: Decimal,
    collateral_amount: u128,
    asset_amount: u128,
) -> (r: Result<u128, MintError>)
    ensures
        r == close_out_refund(
            burn_amount,
            end_price,
            collateral_price,
            collateral_amount,
            asset_amount,
        ),
{
    let rate = decimal_division(end_price, collateral_price)?;
    let conversion = Decimal::from_ratio(collateral_amount, asset_amount)?;
    let by_price: u128 = scale(burn_amount, rate)?;
    let by_share: u128 = scale(burn_amount, conversion)?;
    if by_price < by_share {
        Ok(by_price)
    } else {
        Ok(by_share)
    }
}

/// Writes the position's new state into the ledger, or takes the position
/// out where it is to leave.
fn settle(ledger: &mut PositionLedger, position: Position, removed: bool)
    requires
        old(ledger).wf(),
        old(ledger)@.contains_key(position.idx),
    ensures
        final(ledger).wf(),
        final(ledger).next() == old(ledger).next(),
        final(ledger)@ == (if removed {
            old(ledger)@.remove(position.idx)
        } else {
            old(ledger)@.insert(position.idx, position)
        }),
{
    if removed {
        let _ = ledger.remove_position(position.idx);
    } else {
        let _ = ledger.store_position(position);
    }
}

/// Burns `asset` against the debt of the position under `position_idx`.
///
/// Against a live asset only the owner may burn: the protocol fee leaves the
/// position's collateral and the debt goes down. Against a deprecated asset
/// anyone may burn: the burnt amount is redeemed from the position's
/// collateral at the end price, less the fee. `collateral_info` is what the
/// collateral oracle says of the position's collateral, `asset_price` what
/// the price oracle says of the asset.
pub fn burn(
    ledger: &mut PositionLedger,
    config: &Config,
    sender: String,
    position_idx: u128,
    asset: Asset,
    collateral_info: (Decimal, Decimal, bool),
    assets: &AssetRegistry,
    asset_price: Decimal,
) -> (r: Result<Response, MintError>)
    requires
        old(ledger).wf(),
        assets.wf(),
    ensures
        final(ledger).wf(),
        settled(
            *old(ledger),
            *final(ledger),
            r,
            on_position(
                old(ledger)@,
                position_idx,
                |p: Position|
                    burn_effect(
                        p,
                        *config,
                        sender,
                        asset,
                        collateral_info.0,
                        assets.lookup(p.asset.info),
                        asset_price,
                    ),
            ),
        ),
{
    let burn_amount: u128 = asset.amount;
    let position: Position = match ledger.read_position(position_idx) {
        Ok(p) => p.clone(),
        Err(e) => { return Err(e); },
    };
    if assert_asset(&position, &asset).is_err() {
        return Err(MintError::WrongAsset);
    }
    let asset_config = assets.read_for(&position.asset.info)?;
    if position.asset.amount < burn_amount {
        return Err(MintError::BurnExceedsDebt);
    }
    let collateral_price = collateral_info.0;
    let token = asset_config.token.clone();
    let mut messages: Vec<Request> = Vec::new();
    let mut attributes: Vec<Attribute> = Vec::new();
    messages.push(Request::BurnToken { token, amount: burn_amount });
    attributes.push(Attribute::Action(Action::Burn));
    attributes.push(Attribute::PositionIdx(position_idx));
    attributes.push(Attribute::BurnAmount(asset));
    let asset_left: u128 = position.asset.amount - burn_amount;
    match asset_config.end_price {
        Some(end_price) => {
            let refund: u128 = compute_close_out_refund(
                burn_amount,
                end_price,
                collateral_price,
                position.collateral.amount,
                position.asset.amount,
            )?;
            if refund > position.collateral.amount {
                return Err(MintError::Underflow);
            }
            let fee: u128 = compute_protocol_fee(
                burn_amount,
                end_price,
                collateral_price,
                config.protocol_fee_rate,
            )?;
            if fee > refund {
                return Err(MintError::Underflow);
            }
            let collateral_left: u128 = position.collateral.amount - refund;
            let fee_asset = Asset { info: position.collateral.info.clone(), amount: fee };
            let payout = Asset { info: position.collateral.info.clone(), amount: refund - fee };
            if fee > 0 {
                messages.push(
                    Request::Transfer { asset: fee_asset.clone(), recipient: config.collector.clone() },
                );
            }
            messages.push(Request::Transfer { asset: payout.clone(), recipient: sender });
            attributes.push(Attribute::ProtocolFee(fee_asset));
            attributes.push(Attribute::RefundCollateralAmount(payout));
            let mut left = position;
            left.collateral.amount = collateral_left;
            left.asset.amount = asset_left;
            settle(ledger, left, collateral_left <= 1 && asset_left == 0);
            let response = Response { messages, attributes };
            proof {
                let e = close_out_effect(
                    position,
                    *config,
                    sender,
                    asset,
                    collateral_price,
                    end_price,
                    asset_config.token,
                )->Ok_0;
                assert(response.messages@ =~= e.messages);
                assert(response.attributes@ =~= e.attributes);
            }
            Ok(response)
        },
        None => {
            if !(sender == position.owner) {
                return Err(MintError::Unauthorized);
            }
            let fee: u128 = compute_protocol_fee(
                burn_amount,
                asset_price,
                collateral_price,
                config.protocol_fee_rate,
            )?;
            if fee > position.collateral.amount {
                return Err(MintError::Underflow);
            }
            let collateral_left: u128 = position.collateral.amount - fee;
            let fee_asset = Asset { info: position.collateral.info.clone(), amount: fee };
            if fee > 0 {
                messages.push(
                    Request::Transfer { asset: fee_asset.clone(), recipient: config.collector.clone() },
                );
            }
            attributes.push(Attribute::ProtocolFee(fee_asset));
            let mut left = position;
            left.collateral.amount = collateral_left;
            left.asset.amount = asset_left;
            settle(ledger, left, collateral_left == 0 && asset_left == 0);
            let response = Response { messages, attributes };
            proof {
                let e = ordinary_burn_effect(
                    position,
                    *config,
                    sender,
                    asset,
                    collateral_price,
                    asset_price,
                    asset_config.token,
                )->Ok_0;
                assert(response.messages@ =~= e.messages);
                assert(response.attributes@ =~= e.attributes);
            }
            Ok(response)
        },
    }
}


/// The multiplier that counts for a withdrawal: that of the collateral, or
/// exactly one where the synthetic asset is deprecated.
pub open spec fn withdraw_multiplier(asset_config: AssetConfig, multiplier: Decimal) -> Decimal {
    if asset_config.deprecated() {
        Decimal { atomics: FRACTIONAL }
    } else {
        multiplier
    }
}

/// A withdrawal by the owner: the asked collateral, or all of it where none
/// is named, leaves the position, as long as what stays covers the debt.
pub open spec fn withdraw_effect(
    position: Position,
    sender: String,
    collateral: Option<Asset>,
    collateral_info: (Decimal, Decimal, bool),
    found: Result<AssetConfig, MintError>,
    asset_price: Decimal,
) -> Result<Effect, MintError> {
    let asset_config = found->Ok_0;
    let withdrawn = match collateral {
        Some(c) => c,
        None => position.collateral,
    };
    let left = with_amounts(
        position,
        (position.collateral.amount - withdrawn.amount) as u128,
        position.asset.amount,
    );
    let required = required_collateral(
        position.asset.amount,
        asset_price,
        collateral_info.0,
        asset_config.min_collateral_ratio,
        withdraw_multiplier(asset_config, collateral_info.1),
    );
    if sender@ != position.owner@ {
        Err(MintError::Unauthorized)
    } else if collateral is Some && collateral_fits(position, withdrawn) is Err {
        Err(MintError::WrongCollateral)
    } else if position.collateral.amount < withdrawn.amount {
        Err(MintError::Overdraw)
    } else if found is Err {
        Err(found->Err_0)
    } else if required is Err {
        Err(required->Err_0)
    } else if required->Ok_0 > left.collateral.amount {
        Err(MintError::InsufficientCollateralRatio)
    } else {
        Ok(
            Effect {
                position: left,
                removed: left.is_closed(),
                messages: seq![Request::Transfer { asset: withdrawn, recipient: position.owner }],
                attributes: seq![
                    Attribute::Action(Action::Withdraw),
                    Attribute::PositionIdx(position.idx),
                    Attribute::WithdrawAmount(withdrawn),
                ],
            },
        )
    }
}

/// A mint by the owner: the debt goes up by the asked amount, as long as the
/// asset is live, the collateral is listed and the collateral covers the new
/// debt.
pub open spec fn mint_effect(
    position: Position,
    sender: String,
    asset: Asset,
    collateral_info: (Decimal, Decimal, bool),
    found: Result<AssetConfig, MintError>,
    asset_price: Decimal,
) -> Result<Effect, MintError> {
    let asset_config = found->Ok_0;
    let total = position.asset.amount + asset.amount;
    let required = required_collateral(
        total as u128,
        asset_price,
        collateral_info.0,
        asset_config.min_collateral_ratio,
        collateral_info.1,
    );
    if sender@ != position.owner@ {
        Err(MintError::Unauthorized)
    } else if asset_fits(position, asset) is Err {
        Err(MintError::WrongAsset)
    } else if found is Err {
        Err(found->Err_0)
    } else if asset_config.deprecated() {
        Err(MintError::AssetDeprecated)
    } else if collateral_info.2 {
        Err(MintError::RevokedCollateral)
    } else if total > u128::MAX {
        Err(MintError::Overflow)
    } else if required is Err {
        Err(required->Err_0)
    } else if required->Ok_0 > position.collateral.amount {
        Err(MintError::InsufficientCollateralRatio)
    } else {
        Ok(
            Effect {
                position: with_amounts(position, position.collateral.amount, total as u128),
                removed: false,
                messages: seq![
                    Request::MintToken {
                        token: asset_config.token,
                        recipient: position.owner,
                        amount: asset.amount,
                    },
                ],
                attributes: seq![
                    Attribute::Action(Action::Mint),
                    Attribute::PositionIdx(position.idx),
                    Attribute::MintAmount(asset),
                ],
            },
        )
    }
}

/// A deposit by the owner: the collateral goes up by the given amount, as
/// long as the collateral is listed and the asset is live.
pub open spec fn deposit_effect(
    position: Position,
    sender: String,
    collateral: Asset,
    collateral_info: (Decimal, Decimal, bool),
    found: Result<AssetConfig, MintError>,
) -> Result<Effect, MintError> {
    let asset_config = found->Ok_0;
    let total = position.collateral.amount + collateral.amount;
    if sender@ != position.owner@ {
        Err(MintError::Unauthorized)
    } else if collateral_fits(position, collateral) is Err {
        Err(MintError::WrongCollateral)
    } else if collateral_info.2 {
        Err(MintError::RevokedCollateral)
    } else if found is Err {
        Err(found->Err_0)
    } else if asset_config.deprecated() {
        Err(MintError::AssetDeprecated)
    } else if total > u128::MAX {
        Err(MintError::Overflow)
    } else {
        Ok(
            Effect {
                position: with_amounts(position, total as u128, position.asset.amount),
                removed: false,
                messages: seq![],
                attributes: seq![
                    Attribute::Action(Action::Deposit),
                    Attribute::PositionIdx(position.idx),
                    Attribute::DepositAmount(collateral),
                ],
            },
        )
    }
}

/// The debt that a new position starts with: the collateral's value in
/// units of the asset, divided by the chosen ratio, each step rounded down.
pub open spec fn open_amount(
    collateral_amount: u128,
    collateral_price: Decimal,
    asset_price: Decimal,
    collateral_ratio: Decimal,
) -> Result<u128, MintError> {
    let rate = division_spec(collateral_price, asset_price);
    if rate is Err {
        Err(rate->Err_0)
    } else {
        let value = scale_spec(collateral_amount, rate->Ok_0);
        let inverse = division_spec(Decimal { atomics: FRACTIONAL }, collateral_ratio);
        if value is Err {
            Err(value->Err_0)
        } else if inverse is Err {
            Err(inverse->Err_0)
        } else {
            scale_spec(value->Ok_0, inverse->Ok_0)
        }
    }
}

/// The debt of the position that an open creates, or why the open is
/// rejected. `next` is the index that the position would get.
pub open spec fn open_mint_amount(
    next: u128,
    collateral: Asset,
    collateral_ratio: Decimal,
    collateral_info: (Decimal, Decimal, bool),
    found: Result<AssetConfig, MintError>,
    asset_price: Decimal,
) -> Result<u128, MintError> {
    let asset_config = found->Ok_0;
    let floor = multiplication_spec(asset_config.min_collateral_ratio, collateral_info.1);
    let amount = open_amount(collateral.amount, collateral_info.0, asset_price, collateral_ratio);
    if collateral.amount == 0 {
        Err(MintError::WrongCollateral)
    } else if collateral_info.2 {
        Err(MintError::RevokedCollateral)
    } else if found is Err {
        Err(found->Err_0)
    } else if asset_config.deprecated() {
        Err(MintError::AssetDeprecated)
    } else if floor is Err {
        Err(floor->Err_0)
    } else if collateral_ratio.atomics < floor->Ok_0.atomics {
        Err(MintError::RatioTooLow)
    } else if amount is Err {
        Err(amount->Err_0)
    } else if amount->Ok_0 == 0 {
        Err(MintError::CollateralTooSmall)
    } else if next == u128::MAX {
        Err(MintError::Overflow)
    } else {
        amount
    }
}

/// The open put a new position under the next index, which is then used
/// up, and asked for the mint of the position's debt to the sender; a
/// rejected open changed nothing.
pub open spec fn opened(
    before: PositionLedger,
    after: PositionLedger,
    result: Result<Response, MintError>,
    sender: String,
    collateral: Asset,
    asset_info: AssetInfo,
    collateral_ratio: Decimal,
    collateral_info: (Decimal, Decimal, bool),
    found: Result<AssetConfig, MintError>,
    asset_price: Decimal,
) -> bool {
    let idx = before.next();
    let amount = open_mint_amount(
        idx,
        collateral,
        collateral_ratio,
        collateral_info,
        found,
        asset_price,
    );
    let minted = Asset { info: asset_info, amount: amount->Ok_0 };
    match result {
        Ok(response) => {
            &&& amount is Ok
            &&& !before@.contains_key(idx)
            &&& after.next() == idx + 1
            &&& after@ == before@.insert(
                idx,
                (Position { idx, owner: sender, collateral, asset: minted }),
            )
            &&& response.messages@ == seq![
                Request::MintToken {
                    token: found->Ok_0.token,
                    recipient: sender,
                    amount: amount->Ok_0,
                },
            ]
            &&& response.attributes@ == seq![
                Attribute::Action(Action::OpenPosition),
                Attribute::PositionIdx(idx),
                Attribute::MintAmount(minted),
                Attribute::CollateralAmount(collateral),
            ]
        },
        Err(e) => after == before && amount == Err::<u128, MintError>(e),
    }
}

/// Computes the debt that a new position starts with, failing where a step
/// fails.
fn compute_open_amount(
    collateral_amount: u128,
    collateral_price: Decimal,
    asset_price: Decimal,
    collateral_ratio: Decimal,
) -> (r: Result<u128, MintError>)
    ensures
        r == open_amount(collateral_amount, collateral_price, asset_price, collateral_ratio),
{
    let rate = decimal_division(collateral_price, asset_price)?;
    let value: u128 = scale(collateral_amount, rate)?;
    let inverse = reverse_decimal(collateral_ratio)?;
    scale(value, inverse)
}

/// Opens a position for `sender` on `collateral`, at the chosen ratio, and
/// asks for the mint of its debt to the sender. `collateral_info` is what
/// the collateral oracle says of the collateral, `asset_price` what the
/// price oracle says of the asset, `assets` the registered assets.
pub fn open_position(
    ledger: &mut PositionLedger,
    sender: String,
    collateral: Asset,
    asset_info: AssetInfo,
    collateral_ratio: Decimal,
    collateral_info: (Decimal, Decimal, bool),
    assets: &AssetRegistry,
    asset_price: Decimal,
) -> (r: Result<Response, MintError>)
    requires
        old(ledger).wf(),
        assets.wf(),
    ensures
        final(ledger).wf(),
        opened(
            *old(ledger),
            *final(ledger),
            r,
            sender,
            collateral,
            asset_info,
            collateral_ratio,
            collateral_info,
            assets.lookup(asset_info),
            asset_price,
        ),
{
    if collateral.amount == 0 {
        return Err(MintError::WrongCollateral);
    }
    let (collateral_price, collateral_multiplier) = assert_revoked_collateral(collateral_info)?;
    let asset_config = assets.read_for(&asset_info)?;
    assert_migrated_asset(asset_config)?;
    let floor = decimal_multiplication(asset_config.min_collateral_ratio, collateral_multiplier)?;
    if collateral_ratio.less_than(&floor) {
        return Err(MintError::RatioTooLow);
    }
    let mint_amount: u128 = compute_open_amount(
        collateral.amount,
        collateral_price,
        asset_price,
        collateral_ratio,
    )?;
    if mint_amount == 0 {
        return Err(MintError::CollateralTooSmall);
    }
    let minted = Asset { info: asset_info, amount: mint_amount };
    let idx: u128 = ledger.create_position(sender.clone(), collateral.clone(), minted.clone())?;
    let mut messages: Vec<Request> = Vec::new();
    messages.push(
        Request::MintToken { token: asset_config.token.clone(), recipient: sender, amount: mint_amount },
    );
    let mut attributes: Vec<Attribute> = Vec::new();
    attributes.push(Attribute::Action(Action::OpenPosition));
    attributes.push(Attribute::PositionIdx(idx));
    attributes.push(Attribute::MintAmount(minted));
    attributes.push(Attribute::CollateralAmount(collateral));
    let response = Response { messages, attributes };
    proof {
        assert(response.messages@ =~= seq![
            Request::MintToken { token: asset_config.token, recipient: sender, amount: mint_amount },
        ]);
        assert(response.attributes@ =~= seq![
            Attribute::Action(Action::OpenPosition),
            Attribute::PositionIdx(idx),
            Attribute::MintAmount(minted),
            Attribute::CollateralAmount(collateral),
        ]);
    }
    Ok(response)
}

/// Adds `collateral` to the position under `position_idx`, for its owner.
pub fn deposit(
    ledger: &mut PositionLedger,
    sender: String,
    position_idx: u128,
    collateral: Asset,
    collateral_info: (Decimal, Decimal, bool),
    assets: &AssetRegistry,
) -> (r: Result<Response, MintError>)
    requires
        old(ledger).wf(),
        assets.wf(),
    ensures
        final(ledger).wf(),
        settled(
            *old(ledger),
            *final(ledger),
            r,
            on_position(
                old(ledger)@,
                position_idx,
                |p: Position|
                    deposit_effect(
                        p,
                        sender,
                        collateral,
                        collateral_info,
                        assets.lookup(p.asset.info),
                    ),
            ),
        ),
{
    let position: Position = match ledger.read_position(position_idx) {
        Ok(p) => p.clone(),
        Err(e) => { return Err(e); },
    };
    if !(sender == position.owner) {
        return Err(MintError::Unauthorized);
    }
    assert_collateral(&position, &collateral)?;
    let _ = assert_revoked_collateral(collateral_info)?;
    let asset_config = assets.read_for(&position.asset.info)?;
    assert_migrated_asset(asset_config)?;
    let total: u128 = match position.collateral.amount.checked_add(collateral.amount) {
        Some(t) => t,
        None => { return Err(MintError::Overflow); },
    };
    let mut left = position;
    left.collateral.amount = total;
    settle(ledger, left, false);
    let mut attributes: Vec<Attribute> = Vec::new();
    attributes.push(Attribute::Action(Action::Deposit));
    attributes.push(Attribute::PositionIdx(position_idx));
    attributes.push(Attribute::DepositAmount(collateral));
    let response = Response { messages: Vec::new(), attributes };
    proof {
        let e = deposit_effect(
            position,
            sender,
            collateral,
            collateral_info,
            assets.lookup(position.asset.info),
        )->Ok_0;
        assert(response.messages@ =~= e.messages);
        assert(response.attributes@ =~= e.attributes);
    }
    Ok(response)
}

/// Pays collateral of the position under `position_idx` back to its owner:
/// the given amount, or all of it where `collateral` is `None`. The position
/// leaves the ledger where it then holds and owes nothing.
pub fn withdraw(
    ledger: &mut PositionLedger,
    sender: String,
    position_idx: u128,
    collateral: Option<Asset>,
    collateral_info: (Decimal, Decimal, bool),
    assets: &AssetRegistry,
    asset_price: Decimal,
) -> (r: Result<Response, MintError>)
    requires
        old(ledger).wf(),
        assets.wf(),
    ensures
        final(ledger).wf(),
        settled(
            *old(ledger),
            *final(ledger),
            r,
            on_position(
                old(ledger)@,
                position_idx,
                |p: Position|
                    withdraw_effect(
                        p,
                        sender,
                        collateral,
                        collateral_info,
                        assets.lookup(p.asset.info),
                        asset_price,
                    ),
            ),
        ),
{
    let position: Position = match ledger.read_position(position_idx) {
        Ok(p) => p.clone(),
        Err(e) => { return Err(e); },
    };
    if !(sender == position.owner) {
        return Err(MintError::Unauthorized);
    }
    let withdrawn: Asset = match collateral {
        Some(c) => {
            assert_collateral(&position, &c)?;
            c
        },
        None => position.collateral.clone(),
    };
    if position.collateral.amount < withdrawn.amount {
        return Err(MintError::Overdraw);
    }
    let asset_config = assets.read_for(&position.asset.info)?;
    let collateral_multiplier = if asset_config.end_price.is_some() {
        Decimal::one()
    } else {
        collateral_info.1
    };
    let collateral_amount: u128 = position.collateral.amount - withdrawn.amount;
    let required: u128 = compute_required_collateral(
        position.asset.amount,
        asset_price,
        collateral_info.0,
        asset_config.min_collateral_ratio,
        collateral_multiplier,
    )?;
    if required > collateral_amount {
        return Err(MintError::InsufficientCollateralRatio);
    }
    let mut messages: Vec<Request> = Vec::new();
    messages.push(Request::Transfer { asset: withdrawn.clone(), recipient: position.owner.clone() });
    let mut attributes: Vec<Attribute> = Vec::new();
    attributes.push(Attribute::Action(Action::Withdraw));
    attributes.push(Attribute::PositionIdx(position_idx));
    attributes.push(Attribute::WithdrawAmount(withdrawn));
    let closed = collateral_amount == 0 && position.asset.amount == 0;
    let mut left = position;
    left.collateral.amount = collateral_amount;
    settle(ledger, left, closed);
    let response = Response { messages, attributes };
    proof {
        let e = withdraw_effect(
            position,
            sender,
            collateral,
            collateral_info,
            assets.lookup(position.asset.info),
            asset_price,
        )->Ok_0;
        assert(response.messages@ =~= e.messages);
        assert(response.attributes@ =~= e.attributes);
    }
    Ok(response)
}

/// Adds `asset` to the debt of the position under `position_idx`, for its
/// owner, and asks for the mint of that amount to the owner.
pub fn mint(
    ledger: &mut PositionLedger,
    sender: String,
    position_idx: u128,
    asset: Asset,
    collateral_info: (Decimal, Decimal, bool),
    assets: &AssetRegistry,
    asset_price: Decimal,
) -> (r: Result<Response, MintError>)
    requires
        old(ledger).wf(),
        assets.wf(),
    ensures
        final(ledger).wf(),
        settled(
            *old(ledger),
            *final(ledger),
            r,
            on_position(
                old(ledger)@,
                position_idx,
                |p: Position|
                    mint_effect(
                        p,
                        sender,
                        asset,
                        collateral_info,
                        assets.lookup(p.asset.info),
                        asset_price,
                    ),
            ),
        ),
{
    let mint_amount: u128 = asset.amount;
    let position: Position = match ledger.read_position(position_idx) {
        Ok(p) => p.clone(),
        Err(e) => { return Err(e); },
    };
    if !(sender == position.owner) {
        return Err(MintError::Unauthorized);
    }
    assert_asset(&position, &asset)?;
    let asset_config = assets.read_for(&position.asset.info)?;
    assert_migrated_asset(asset_config)?;
    let (collateral_price, collateral_multiplier) = assert_revoked_collateral(collateral_info)?;
    let asset_amount: u128 = match position.asset.amount.checked_add(mint_amount) {
        Some(t) => t,
        None => { return Err(MintError::Overflow); },
    };
    let required: u128 = compute_required_collateral(
        asset_amount,
        asset_price,
        collateral_price,
        asset_config.min_collateral_ratio,
        collateral_multiplier,
    )?;
    if required > position.collateral.amount {
        return Err(MintError::InsufficientCollateralRatio);
    }
    let mut messages: Vec<Request> = Vec::new();
    messages.push(
        Request::MintToken {
            token: asset_config.token.clone(),
            recipient: position.owner.clone(),
            amount: mint_amount,
        },
    );
    let mut attributes: Vec<Attribute> = Vec::new();
    attributes.push(Attribute::Action(Action::Mint));
    attributes.push(Attribute::PositionIdx(position_idx));
    attributes.push(Attribute::MintAmount(asset));
    let mut left = position;
    left.asset.amount = asset_amount;
    settle(ledger, left, false);
    let response = Response { messages, attributes };
    proof {
        let e = mint_effect(
            position,
            sender,
            asset,
            collateral_info,
            assets.lookup(position.asset.info),
            asset_price,
        )->Ok_0;
        assert(response.messages@ =~= e.messages);
        assert(response.attributes@ =~= e.attributes);
    }
    Ok(response)
}

/// The size of a page where none is asked for.
pub const DEFAULT_LIMIT: u32 = 10;

/// The largest size of a page.
pub const MAX_LIMIT: u32 = 30;

/// The size of a page: the one asked for, but at most `MAX_LIMIT`, or
/// `DEFAULT_LIMIT` where none is asked for.
pub open spec fn page_limit(limit: Option<u32>) -> nat {
    match limit {
        Some(l) => if l < MAX_LIMIT {
            l as nat
        } else {
            MAX_LIMIT as nat
        },
        None => DEFAULT_LIMIT as nat,
    }
}

/// The order of a page: the one asked for, or descending where none is.
pub open spec fn page_order(order_by: Option<OrderBy>) -> OrderBy {
    match order_by {
        Some(o) => o,
        None => OrderBy::Desc,
    }
}

/// The position under `position_idx`, as it is shown to a caller.
pub fn query_position(ledger: &PositionLedger, position_idx: u128) -> (r: Result<
    PositionResponse,
    MintError,
>)
    requires
        ledger.wf(),
    ensures
        r == (if ledger@.contains_key(position_idx) {
            Ok::<PositionResponse, MintError>(shown(ledger@[position_idx]))
        } else {
            Err::<PositionResponse, MintError>(MintError::NotFound)
        }),
{
    let position = ledger.read_position(position_idx)?;
    Ok(
        PositionResponse {
            idx: position.idx,
            owner: position.owner.clone(),
            collateral: position.collateral.clone(),
            asset: position.asset.clone(),
        },
    )
}

/// One page of the positions, as they are shown to a caller: those of
/// `owner_addr`, where one is named, whose asset is `asset_token`, where one
/// is named, beyond the cursor `start_after`, where there is one.
pub fn query_positions(
    ledger: &PositionLedger,
    owner_addr: Option<String>,
    asset_token: Option<String>,
    start_after: Option<u128>,
    limit: Option<u32>,
    order_by: Option<OrderBy>,
) -> (r: PositionsResponse)
    ensures
        r.positions@ == page(
            ledger.ordered(),
            owner_addr,
            asset_token,
            start_after,
            page_limit(limit),
            page_order(order_by),
        ).map_values(|p: Position| shown(p)),
{
    let size: u32 = match limit {
        Some(l) => if l < MAX_LIMIT {
            l
        } else {
            MAX_LIMIT
        },
        None => DEFAULT_LIMIT,
    };
    let order = match order_by {
        Some(o) => o,
        None => OrderBy::Desc,
    };
    let found = ledger.read_positions(&owner_addr, &asset_token, start_after, size as usize, order);
    let mut positions: Vec<PositionResponse> = Vec::new();
    let mut i: usize = 0;
    while i < found.len()
        invariant
            i <= found@.len(),
            positions@.len() == i,
            forall|j: int| 0 <= j < i ==> #[trigger] positions@[j] == shown(found@[j]),
        decreases found@.len() - i,
    {
        let position = &found[i];
        positions.push(
            PositionResponse {
                idx: position.idx,
                owner: position.owner.clone(),
                collateral: position.collateral.clone(),
                asset: position.asset.clone(),
            },
        );
        i += 1;
    }
    assert(positions@ =~= found@.map_values(|p: Position| shown(p)));
    PositionsResponse { positions }
}

/// The index that the next new position gets.
pub fn query_next_position_idx(ledger: &PositionLedger) -> (r: NextPositionIdxResponse)
    ensures
        r.next_position_idx == ledger.next(),
{
    NextPositionIdxResponse { next_position_idx: ledger.read_position_idx() }
}

} // verus!
