//! The reasons for which a request is rejected.

use vstd::prelude::*;

verus! {

/// Why an operation was rejected. A rejected operation changes nothing.
#[derive(Clone, Copy, Debug, PartialEq, Eq, Structural)]
pub enum MintError {
    /// The sender is not the owner of the position.
    Unauthorized,
    /// The collateral has a zero amount or is of another kind than the position's.
    WrongCollateral,
    /// The asset has a zero amount or is of another kind than the position's.
    WrongAsset,
    /// The synthetic asset has an end price: no new debt may be taken against it.
    AssetDeprecated,
    /// The collateral oracle marks the collateral as delisted.
    RevokedCollateral,
    /// The position would hold less collateral than its debt requires.
    InsufficientCollateralRatio,
    /// The chosen ratio of a new position is below the required minimum.
    RatioTooLow,
    /// The collateral of a new position buys no whole unit of the asset.
    CollateralTooSmall,
    /// More collateral was asked back than the position holds.
    Overdraw,
    /// More of the asset was handed in than the position owes.
    BurnExceedsDebt,
    /// A decimal division by zero.
    DivideByZero,
    /// A result too large for 128 bits.
    Overflow,
    /// A subtraction whose result would be negative.
    Underflow,
    /// The asset is registered already.
    AssetExists,
    /// A minimum collateral ratio below the protocol's floor.
    MinRatioTooLow,
    /// The attached funds do not hold the amount that the message names.
    FundsMismatch,
    /// Collateral auctions are not part of this engine.
    AuctionUnsupported,
    /// Records that are out of order, or a counter that is not above them.
    InvalidLedger,
    /// A protocol fee rate above one.
    WrongFeeRate,
    /// No position, or no asset configuration, under the given key.
    NotFound,
    /// The synthetic asset is not a token contract.
    UnsupportedAssetKind,
}

} // verus!
