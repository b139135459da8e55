//! The checks that gate the operations on positions.

use vstd::prelude::*;
use crate::asset::Asset;
use crate::decimal::{Decimal, FRACTIONAL};
use crate::error::MintError;
use crate::state::{AssetConfig, Position};

verus! {

/// The price and the multiplier of a collateral that is still listed.
pub open spec fn listed_collateral(info: (Decimal, Decimal, bool)) -> Result<
    (Decimal, Decimal),
    MintError,
> {
    if info.2 {
        Err(MintError::RevokedCollateral)
    } else {
        Ok((info.0, info.1))
    }
}

/// An asset may take new debt as long as it has no end price.
pub open spec fn not_migrated(asset_config: AssetConfig) -> Result<(), MintError> {
    if asset_config.deprecated() {
        Err(MintError::AssetDeprecated)
    } else {
        Ok(())
    }
}

/// The collateral is of the position's kind and its amount is not zero.
pub open spec fn collateral_fits(position: Position, collateral: Asset) -> Result<(), MintError> {
    if !collateral.info.same(position.collateral.info) || collateral.amount == 0 {
        Err(MintError::WrongCollateral)
    } else {
        Ok(())
    }
}

/// The asset is of the position's kind and its amount is not zero.
pub open spec fn asset_fits(position: Position, asset: Asset) -> Result<(), MintError> {
    if !asset.info.same(position.asset.info) || asset.amount == 0 {
        Err(MintError::WrongAsset)
    } else {
        Ok(())
    }
}

/// A protocol fee rate is a share: at most one.
pub open spec fn fee_rate_fits(rate: Decimal) -> Result<Decimal, MintError> {
    if rate.atomics > FRACTIONAL {
        Err(MintError::WrongFeeRate)
    } else {
        Ok(rate)
    }
}

/// Takes what the collateral oracle answered (price, multiplier, revoked)
/// and rejects a revoked collateral.
pub fn assert_revoked_collateral(load_collateral_res: (Decimal, Decimal, bool)) -> (r: Result<
    (Decimal, Decimal),
    MintError,
>)
    ensures
        r == listed_collateral(load_collateral_res),
{
    if load_collateral_res.2 {
        return Err(MintError::RevokedCollateral);
    }
    Ok((load_collateral_res.0, load_collateral_res.1))
}

/// Rejects a deprecated asset.
pub fn assert_migrated_asset(asset_config: &AssetConfig) -> (r: Result<(), MintError>)
    ensures
        r == not_migrated(*asset_config),
{
    if asset_config.end_price.is_some() {
        return Err(MintError::AssetDeprecated);
    }
    Ok(())
}

/// Rejects a collateral of zero amount or of another kind than the position's.
pub fn assert_collateral(position: &Position, collateral: &Asset) -> (r: Result<(), MintError>)
    ensures
        r == collateral_fits(*position, *collateral),
{
    if !collateral.info.equal(&position.collateral.info) || collateral.amount == 0 {
        return Err(MintError::WrongCollateral);
    }
    Ok(())
}

/// Rejects an asset of zero amount or of another kind than the position's.
pub fn assert_asset(position: &Position, asset: &Asset) -> (r: Result<(), MintError>)
    ensures
        r == asset_fits(*position, *asset),
{
    if !asset.info.equal(&position.asset.info) || asset.amount == 0 {
        return Err(MintError::WrongAsset);
    }
    Ok(())
}

/// Rejects a protocol fee rate above one.
pub fn assert_protocol_fee(protocol_fee_rate: Decimal) -> (r: Result<Decimal, MintError>)
    ensures
        r == fee_rate_fits(protocol_fee_rate),
{
    if protocol_fee_rate.atomics > FRACTIONAL {
        return Err(MintError::WrongFeeRate);
    }
    Ok(protocol_fee_rate)
}

} // verus!
