//! What holds of the operations whatever the inputs: solvency, exact
//! balances, indices that are never issued twice, the gating of deprecated
//! assets, and the bounds of a close-out.

use vstd::prelude::*;
use vstd::arithmetic::div_mod::{lemma_fundamental_div_mod, lemma_mod_pos_bound};
use crate::asserts::{asset_fits, collateral_fits};
use crate::asset::{Asset, AssetInfo, Coin};
use crate::contract::{executed, Quotes, Store};
use crate::decimal::{division_spec, from_ratio_spec, scale_spec, Decimal, FRACTIONAL};
use crate::error::MintError;
use crate::ledger::{lemma_record_at, page, page_down, page_up, selected, PositionLedger};
use crate::msg::{ExecuteMsg, OrderBy};
use crate::positions::{
    burn_effect, close_out_effect, close_out_refund, deposit_effect, mint_effect,
    open_mint_amount, opened, protocol_fee, required_collateral, settled, solvent,
    withdraw_effect, withdraw_multiplier,
};
use crate::response::{Effect, Request, Response};
use crate::state::{AssetConfig, Config, Position};

verus! {

/// Rounding a quotient down never gives more than the exact quotient.
pub proof fn lemma_floor_below(x: int, d: int)
    requires
        x >= 0,
        d > 0,
    ensures
        0 <= x / d,
        (x / d) * d <= x,
{
    lemma_fundamental_div_mod(x, d);
    lemma_mod_pos_bound(x, d);
    assert((x / d) * d == d * (x / d)) by (nonlinear_arith);
    assert(x / d >= 0) by (nonlinear_arith)
        requires
            x >= 0,
            d > 0,
    ;
}

/// `((a * q) / f) * c <= a * e` where `q` is `(e * f) / c` rounded down.
proof fn lemma_two_floors(a: int, e: int, c: int, f: int, q: int, r: int)
    requires
        a >= 0,
        e >= 0,
        c > 0,
        f > 0,
        q == (e * f) / c,
        r == (a * q) / f,
    ensures
        r * c <= a * e,
{
    assert(e * f >= 0) by (nonlinear_arith)
        requires
            e >= 0,
            f > 0,
    ;
    lemma_floor_below(e * f, c);
    assert(a * q >= 0) by (nonlinear_arith)
        requires
            a >= 0,
            q >= 0,
    ;
    lemma_floor_below(a * q, f);
    assert(r * f * c <= a * q * c) by (nonlinear_arith)
        requires
            r * f <= a * q,
            c > 0,
    ;
    assert(a * q * c <= a * (e * f)) by (nonlinear_arith)
        requires
            q * c <= e * f,
            a >= 0,
    ;
    assert(r * c <= a * e) by (nonlinear_arith)
        requires
            r * f * c <= a * (e * f),
            f > 0,
    ;
}

/// The collateral that a debt asks for is rounded down at every step, so
/// it is at most the exact product of the debt, the price ratio, the minimum
/// ratio and the multiplier: a position whose collateral covers that
/// product passes the check.
pub proof fn lemma_required_collateral_rounds_down(
    asset_amount: u128,
    asset_price: Decimal,
    collateral_price: Decimal,
    min_ratio: Decimal,
    multiplier: Decimal,
)
    requires
        required_collateral(asset_amount, asset_price, collateral_price, min_ratio, multiplier)
            is Ok,
    ensures
        required_collateral(
            asset_amount,
            asset_price,
            collateral_price,
            min_ratio,
            multiplier,
        )->Ok_0 * collateral_price.atomics * FRACTIONAL * FRACTIONAL <= asset_amount
            * asset_price.atomics * min_ratio.atomics * multiplier.atomics,
{
    let f = FRACTIONAL as int;
    let a = asset_amount as int;
    let ap = asset_price.atomics as int;
    let cp = collateral_price.atomics as int;
    let m = min_ratio.atomics as int;
    let k = multiplier.atomics as int;
    let rate = division_spec(asset_price, collateral_price)->Ok_0;
    let value = scale_spec(asset_amount, rate)->Ok_0 as int;
    let floor = scale_spec(value as u128, min_ratio)->Ok_0 as int;
    let required = scale_spec(floor as u128, multiplier)->Ok_0 as int;
    lemma_two_floors(a, ap, cp, f, rate.atomics as int, value);
    assert(value * m >= 0) by (nonlinear_arith)
        requires
            value >= 0,
            m >= 0,
    ;
    lemma_floor_below(value * m, f);
    assert(floor * k >= 0) by (nonlinear_arith)
        requires
            floor >= 0,
            k >= 0,
    ;
    lemma_floor_below(floor * k, f);
    assert(required * f * f <= value * m * k) by (nonlinear_arith)
        requires
            required * f <= floor * k,
            floor * f <= value * m,
            f > 0,
            k >= 0,
            required >= 0,
            floor >= 0,
    ;
    assert(required * cp * f * f <= a * ap * m * k) by (nonlinear_arith)
        requires
            required * f * f <= value * m * k,
            value * cp <= a * ap,
            cp > 0,
            m >= 0,
            k >= 0,
            a >= 0,
            ap >= 0,
            value >= 0,
            required >= 0,
            f > 0,
    ;
}

/// After a withdrawal that went through, the position's collateral covers
/// what its debt asks for at the prices of the withdrawal.
pub proof fn lemma_withdraw_leaves_solvent(
    position: Position,
    sender: String,
    collateral: Option<Asset>,
    collateral_info: (Decimal, Decimal, bool),
    asset_config: AssetConfig,
    asset_price: Decimal,
)
    requires
        withdraw_effect(position, sender, collateral, collateral_info, Ok(asset_config), asset_price)
            is Ok,
    ensures
        solvent(
            withdraw_effect(
                position,
                sender,
                collateral,
                collateral_info,
                Ok(asset_config),
                asset_price,
            )->Ok_0.position,
            asset_price,
            collateral_info.0,
            asset_config.min_collateral_ratio,
            withdraw_multiplier(asset_config, collateral_info.1),
        ),
{
}

/// After a mint that went through, the position's collateral covers what
/// its new debt asks for at the prices of the mint.
pub proof fn lemma_mint_leaves_solvent(
    position: Position,
    sender: String,
    asset: Asset,
    collateral_info: (Decimal, Decimal, bool),
    asset_config: AssetConfig,
    asset_price: Decimal,
)
    requires
        mint_effect(position, sender, asset, collateral_info, Ok(asset_config), asset_price) is Ok,
    ensures
        solvent(
            mint_effect(
                position,
                sender,
                asset,
                collateral_info,
                Ok(asset_config),
                asset_price,
            )->Ok_0.position,
            asset_price,
            collateral_info.0,
            asset_config.min_collateral_ratio,
            collateral_info.1,
        ),
{
}

/// A deposit that went through keeps a solvent position solvent, at any
/// prices, minimum ratio and multiplier.
pub proof fn lemma_deposit_keeps_solvent(
    position: Position,
    sender: String,
    collateral: Asset,
    collateral_info: (Decimal, Decimal, bool),
    asset_config: AssetConfig,
    asset_price: Decimal,
    collateral_price: Decimal,
    min_ratio: Decimal,
    multiplier: Decimal,
)
    requires
        deposit_effect(position, sender, collateral, collateral_info, Ok(asset_config)) is Ok,
        solvent(position, asset_price, collateral_price, min_ratio, multiplier),
    ensures
        solvent(
            deposit_effect(position, sender, collateral, collateral_info, Ok(asset_config))->Ok_0.position,
            asset_price,
            collateral_price,
            min_ratio,
            multiplier,
        ),
{
}

/// No operation clamps a balance: one that goes through takes exactly what
/// was asked from balances that hold at least that much, and adds exactly
/// what was given.
pub proof fn lemma_balances_exact(
    position: Position,
    config: Config,
    sender: String,
    asset: Asset,
    collateral: Asset,
    collateral_info: (Decimal, Decimal, bool),
    asset_config: AssetConfig,
    asset_price: Decimal,
)
    ensures
        withdraw_effect(position, sender, Some(collateral), collateral_info, Ok(asset_config), asset_price)
            matches Ok(e) ==> e.position.collateral.amount + collateral.amount
            == position.collateral.amount && e.position.asset.amount == position.asset.amount,
        deposit_effect(position, sender, collateral, collateral_info, Ok(asset_config)) matches Ok(e)
            ==> e.position.collateral.amount == position.collateral.amount + collateral.amount
            && e.position.asset.amount == position.asset.amount,
        mint_effect(position, sender, asset, collateral_info, Ok(asset_config), asset_price) matches Ok(
            e,
        ) ==> e.position.asset.amount == position.asset.amount + asset.amount
            && e.position.collateral.amount == position.collateral.amount,
        burn_effect(
            position,
            config,
            sender,
            asset,
            collateral_info.0,
            Ok(asset_config),
            asset_price,
        ) matches Ok(e) ==> e.position.asset.amount + asset.amount == position.asset.amount
            && e.position.collateral.amount <= position.collateral.amount,
        position.collateral.amount < collateral.amount ==> withdraw_effect(
            position,
            sender,
            Some(collateral),
            collateral_info,
            Ok(asset_config),
            asset_price,
        ) is Err,
        position.asset.amount < asset.amount ==> burn_effect(
            position,
            config,
            sender,
            asset,
            collateral_info.0,
            Ok(asset_config),
            asset_price,
        ) is Err,
{
}

/// Against a deprecated asset no position is opened, and the rejection is
/// that of the deprecation wherever the collateral is in order.
pub proof fn lemma_deprecated_blocks_open(
    next: u128,
    collateral: Asset,
    collateral_ratio: Decimal,
    collateral_info: (Decimal, Decimal, bool),
    asset_config: AssetConfig,
    asset_price: Decimal,
)
    requires
        asset_config.deprecated(),
    ensures
        open_mint_amount(
            next,
            collateral,
            collateral_ratio,
            collateral_info,
            Ok(asset_config),
            asset_price,
        ) is Err,
        collateral.amount > 0 && !collateral_info.2 ==> open_mint_amount(
            next,
            collateral,
            collateral_ratio,
            collateral_info,
            Ok(asset_config),
            asset_price,
        ) == Err::<u128, MintError>(MintError::AssetDeprecated),
{
}

/// Against a deprecated asset no collateral is deposited, and the rejection
/// is that of the deprecation wherever the owner sends listed collateral of
/// the position's kind.
pub proof fn lemma_deprecated_blocks_deposit(
    position: Position,
    sender: String,
    collateral: Asset,
    collateral_info: (Decimal, Decimal, bool),
    asset_config: AssetConfig,
)
    requires
        asset_config.deprecated(),
    ensures
        deposit_effect(position, sender, collateral, collateral_info, Ok(asset_config)) is Err,
        sender@ == position.owner@ && collateral_fits(position, collateral) is Ok
            && !collateral_info.2 ==> deposit_effect(position, sender, collateral, collateral_info, Ok(asset_config))
            == Err::<Effect, MintError>(MintError::AssetDeprecated),
{
}

/// Against a deprecated asset no debt is minted, and the rejection is that
/// of the deprecation wherever the owner asks for the position's asset.
pub proof fn lemma_deprecated_blocks_mint(
    position: Position,
    sender: String,
    asset: Asset,
    collateral_info: (Decimal, Decimal, bool),
    asset_config: AssetConfig,
    asset_price: Decimal,
)
    requires
        asset_config.deprecated(),
    ensures
        mint_effect(position, sender, asset, collateral_info, Ok(asset_config), asset_price) is Err,
        sender@ == position.owner@ && asset_fits(position, asset) is Ok ==> mint_effect(position, sender, asset, collateral_info, Ok(asset_config), asset_price)
            == Err::<Effect, MintError>(MintError::AssetDeprecated),
{
}

/// A burn against a deprecated asset does not ask who sends it: it is never
/// rejected as unauthorised, it goes through for one sender exactly where it
/// does for another, and with the same effect on the position.
pub proof fn lemma_close_out_open_to_all(
    position: Position,
    config: Config,
    sender: String,
    other: String,
    asset: Asset,
    collateral_price: Decimal,
    asset_config: AssetConfig,
    asset_price: Decimal,
)
    requires
        asset_config.deprecated(),
    ensures
        burn_effect(position, config, sender, asset, collateral_price, Ok(asset_config), asset_price)
            != Err::<Effect, MintError>(MintError::Unauthorized),
        burn_effect(position, config, sender, asset, collateral_price, Ok(asset_config), asset_price)
            is Ok <==> burn_effect(
            position,
            config,
            other,
            asset,
            collateral_price,
            Ok(asset_config),
            asset_price,
        ) is Ok,
        burn_effect(position, config, sender, asset, collateral_price, Ok(asset_config), asset_price)
            matches Ok(e) ==> {
            let o = burn_effect(
                position,
                config,
                other,
                asset,
                collateral_price,
                Ok(asset_config),
                asset_price,
            )->Ok_0;
            e.position == o.position && e.removed == o.removed
        },
{
}

/// What a close-out frees is at most the burnt amount's value at the end
/// price, at most the burnt amount's share of the position's collateral,
/// and, for a burn within the debt, at most the position's collateral.
pub proof fn lemma_close_out_refund_bounded(
    burn_amount: u128,
    end_price: Decimal,
    collateral_price: Decimal,
    collateral_amount: u128,
    asset_amount: u128,
)
    requires
        close_out_refund(burn_amount, end_price, collateral_price, collateral_amount, asset_amount)
            is Ok,
    ensures
        ({
            let refund = close_out_refund(
                burn_amount,
                end_price,
                collateral_price,
                collateral_amount,
                asset_amount,
            )->Ok_0;
            &&& refund * collateral_price.atomics <= burn_amount * end_price.atomics
            &&& refund * asset_amount <= burn_amount * collateral_amount
            &&& burn_amount <= asset_amount ==> refund <= collateral_amount
        }),
{
    let f = FRACTIONAL as int;
    let rate = division_spec(end_price, collateral_price)->Ok_0;
    let conversion = from_ratio_spec(collateral_amount, asset_amount)->Ok_0;
    let by_price = scale_spec(burn_amount, rate)->Ok_0;
    let by_share = scale_spec(burn_amount, conversion)->Ok_0;
    let refund = close_out_refund(
        burn_amount,
        end_price,
        collateral_price,
        collateral_amount,
        asset_amount,
    )->Ok_0;
    lemma_two_floors(
        burn_amount as int,
        end_price.atomics as int,
        collateral_price.atomics as int,
        f,
        rate.atomics as int,
        by_price as int,
    );
    lemma_two_floors(
        burn_amount as int,
        collateral_amount as int,
        asset_amount as int,
        f,
        conversion.atomics as int,
        by_share as int,
    );
    let cp = collateral_price.atomics as int;
    let ep = end_price.atomics as int;
    let a = asset_amount as int;
    let c = collateral_amount as int;
    let b = burn_amount as int;
    assert(refund * cp <= b * ep) by (nonlinear_arith)
        requires
            by_price * cp <= b * ep,
            0 <= refund <= by_price,
            cp > 0,
    ;
    assert(refund * a <= b * c) by (nonlinear_arith)
        requires
            by_share * a <= b * c,
            0 <= refund <= by_share,
            a > 0,
    ;
    if b <= a {
        assert(refund <= c) by (nonlinear_arith)
            requires
                refund * a <= b * c,
                0 <= b <= a,
                a > 0,
                c >= 0,
                refund >= 0,
        ;
    }
}

/// A close-out that goes through shares the freed collateral between the
/// sender and the collector: the fee is at most what is freed, nothing is
/// lost, and the position leaves the ledger exactly where it then owes
/// nothing and holds at most one unit of collateral.
pub proof fn lemma_close_out_conserves(
    position: Position,
    config: Config,
    sender: String,
    asset: Asset,
    collateral_price: Decimal,
    end_price: Decimal,
    token: String,
)
    requires
        close_out_effect(position, config, sender, asset, collateral_price, end_price, token) is Ok,
    ensures
        ({
            let e = close_out_effect(
                position,
                config,
                sender,
                asset,
                collateral_price,
                end_price,
                token,
            )->Ok_0;
            let refund = close_out_refund(
                asset.amount,
                end_price,
                collateral_price,
                position.collateral.amount,
                position.asset.amount,
            );
            let fee = protocol_fee(
                asset.amount,
                end_price,
                collateral_price,
                config.protocol_fee_rate,
            );
            &&& refund is Ok && fee is Ok
            &&& fee->Ok_0 <= refund->Ok_0
            &&& e.position.collateral.amount + refund->Ok_0 == position.collateral.amount
            &&& e.messages.last() == (Request::Transfer {
                asset: (Asset {
                    info: position.collateral.info,
                    amount: (refund->Ok_0 - fee->Ok_0) as u128,
                }),
                recipient: sender,
            })
            &&& e.removed <==> e.position.collateral.amount <= 1 && e.position.asset.amount == 0
        }),
{
}


/// An open that goes through gives the new position an index that no
/// position has, above every index in use, and moves the counter past it.
pub proof fn lemma_open_issues_fresh_index(
    before: PositionLedger,
    after: PositionLedger,
    result: Result<Response, MintError>,
    sender: String,
    collateral: Asset,
    asset_info: AssetInfo,
    collateral_ratio: Decimal,
    collateral_info: (Decimal, Decimal, bool),
    found: Result<AssetConfig, MintError>,
    asset_price: Decimal,
)
    requires
        before.wf(),
        result is Ok,
        opened(
            before,
            after,
            result,
            sender,
            collateral,
            asset_info,
            collateral_ratio,
            collateral_info,
            found,
            asset_price,
        ),
    ensures
        !before@.contains_key(before.next()),
        forall|k: u128| #[trigger] before@.contains_key(k) ==> k < before.next(),
        after@.contains_key(before.next()),
        after@[before.next()].idx == before.next(),
        after.next() == before.next() + 1,
{
    before.lemma_indices();
}

/// An operation on one position, or a rejected one, leaves the counter
/// where it is and adds no index: the index of a position that left the
/// ledger stays below the counter and is not issued again.
pub proof fn lemma_counter_stays(
    before: PositionLedger,
    after: PositionLedger,
    result: Result<Response, MintError>,
    expected: Result<Effect, MintError>,
)
    requires
        before.wf(),
        settled(before, after, result, expected),
        expected matches Ok(e) ==> before@.contains_key(e.position.idx),
    ensures
        after.next() == before.next(),
        forall|k: u128| #[trigger] after@.contains_key(k) ==> before@.contains_key(k),
{
}

/// A position that an operation leaves in the ledger is open: it holds
/// collateral or owes debt. A withdrawal or a burn against a live asset
/// takes out exactly the positions that they close.
pub proof fn lemma_kept_positions_are_open(
    position: Position,
    config: Config,
    sender: String,
    asset: Asset,
    collateral: Asset,
    withdrawn: Option<Asset>,
    collateral_info: (Decimal, Decimal, bool),
    found: Result<AssetConfig, MintError>,
    asset_price: Decimal,
)
    ensures
        deposit_effect(position, sender, collateral, collateral_info, found) matches Ok(e)
            ==> !e.removed && !e.position.is_closed(),
        mint_effect(position, sender, asset, collateral_info, found, asset_price) matches Ok(e)
            ==> !e.removed && !e.position.is_closed(),
        withdraw_effect(position, sender, withdrawn, collateral_info, found, asset_price) matches Ok(
            e,
        ) ==> (e.removed <==> e.position.is_closed()),
        burn_effect(position, config, sender, asset, collateral_info.0, found, asset_price) matches Ok(
            e,
        ) ==> (!e.removed ==> !e.position.is_closed()),
        burn_effect(position, config, sender, asset, collateral_info.0, found, asset_price) matches Ok(
            e,
        ) ==> (found matches Ok(c) && !c.deprecated() ==> (e.removed <==> e.position.is_closed())),
{
}


/// No request takes a deprecation back, or takes an asset out of the
/// registry: an asset that is deprecated before a request is deprecated
/// after it.
pub proof fn lemma_deprecation_is_permanent(
    before: Store,
    after: Store,
    result: Result<Response, MintError>,
    sender: String,
    funds: Seq<Coin>,
    msg: ExecuteMsg,
    quotes: Quotes,
    token: Seq<char>,
)
    requires
        executed(before, after, result, sender, funds, msg, quotes),
        before.assets@.contains_key(token),
        before.assets@[token].deprecated(),
    ensures
        after.assets@.contains_key(token),
        after.assets@[token].deprecated(),
{
}


/// A page read upwards holds at most `limit` records, each accepted and
/// each one of `s`.
proof fn lemma_page_up(s: Seq<Position>, shows: spec_fn(Position) -> bool, from: int, limit: nat)
    requires
        0 <= from <= s.len(),
    ensures
        page_up(s, shows, from, limit).len() <= limit,
        forall|j: int|
            0 <= j < page_up(s, shows, from, limit).len() ==> shows(
                #[trigger] page_up(s, shows, from, limit)[j],
            ) && s.contains(page_up(s, shows, from, limit)[j]),
    decreases s.len() - from,
{
    if from < s.len() && limit > 0 {
        if shows(s[from]) {
            lemma_page_up(s, shows, from + 1, (limit - 1) as nat);
            let rest = page_up(s, shows, from + 1, (limit - 1) as nat);
            assert forall|j: int| 0 <= j < (seq![s[from]] + rest).len() implies shows(
                #[trigger] (seq![s[from]] + rest)[j],
            ) && s.contains((seq![s[from]] + rest)[j]) by {
                if j > 0 {
                    assert((seq![s[from]] + rest)[j] == rest[j - 1]);
                }
            }
        } else {
            lemma_page_up(s, shows, from + 1, limit);
        }
    }
}

/// A page read downwards holds at most `limit` records, each accepted and
/// each one of `s`.
proof fn lemma_page_down(s: Seq<Position>, shows: spec_fn(Position) -> bool, until: int, limit: nat)
    requires
        0 <= until <= s.len(),
    ensures
        page_down(s, shows, until, limit).len() <= limit,
        forall|j: int|
            0 <= j < page_down(s, shows, until, limit).len() ==> shows(
                #[trigger] page_down(s, shows, until, limit)[j],
            ) && s.contains(page_down(s, shows, until, limit)[j]),
    decreases until,
{
    if until > 0 && limit > 0 {
        if shows(s[until - 1]) {
            lemma_page_down(s, shows, until - 1, (limit - 1) as nat);
            let rest = page_down(s, shows, until - 1, (limit - 1) as nat);
            assert forall|j: int| 0 <= j < (seq![s[until - 1]] + rest).len() implies shows(
                #[trigger] (seq![s[until - 1]] + rest)[j],
            ) && s.contains((seq![s[until - 1]] + rest)[j]) by {
                if j > 0 {
                    assert((seq![s[until - 1]] + rest)[j] == rest[j - 1]);
                }
            }
        } else {
            lemma_page_down(s, shows, until - 1, limit);
        }
    }
}

/// A page holds at most `limit` positions, and each of them is a position
/// of the ledger that the listing was asked to show.
pub proof fn lemma_page_shows_what_was_asked(
    ledger: PositionLedger,
    owner: Option<String>,
    asset_token: Option<String>,
    start_after: Option<u128>,
    limit: nat,
    order_by: OrderBy,
)
    requires
        ledger.wf(),
    ensures
        page(ledger.ordered(), owner, asset_token, start_after, limit, order_by).len() <= limit,
        forall|j: int|
            0 <= j < page(ledger.ordered(), owner, asset_token, start_after, limit, order_by).len()
                ==> {
                let p = #[trigger] page(
                    ledger.ordered(),
                    owner,
                    asset_token,
                    start_after,
                    limit,
                    order_by,
                )[j];
                &&& selected(p, owner, asset_token, start_after, order_by)
                &&& ledger@.contains_key(p.idx)
                &&& ledger@[p.idx] == p
            },
{
    let s = ledger.ordered();
    let shows = |p: Position| selected(p, owner, asset_token, start_after, order_by);
    ledger.lemma_ordered();
    lemma_page_up(s, shows, 0, limit);
    lemma_page_down(s, shows, s.len() as int, limit);
    let listed = page(s, owner, asset_token, start_after, limit, order_by);
    assert forall|j: int| 0 <= j < listed.len() implies {
        let p = #[trigger] listed[j];
        &&& selected(p, owner, asset_token, start_after, order_by)
        &&& ledger@.contains_key(p.idx)
        &&& ledger@[p.idx] == p
    } by {
        let p = listed[j];
        assert(shows(p));
        assert(s.contains(p));
        let i = choose|i: int| 0 <= i < s.len() && s[i] == p;
        lemma_record_at(s, i);
    }
}

} // verus!
