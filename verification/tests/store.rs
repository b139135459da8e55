use melange_mint::asset::{Asset, AssetInfo, Coin};
use melange_mint::contract::{
    execute, instantiate, required_quotes, QuoteRequest, Quotes, Store,
};
use melange_mint::decimal::Decimal;
use melange_mint::error::MintError;
use melange_mint::msg::{Cw20HookMsg, Cw20ReceiveMsg, ExecuteMsg, InstantiateMsg, OrderBy};
use melange_mint::ledger::PositionLedger;
use melange_mint::registry::AssetRegistry;
use melange_mint::state::{AssetConfig, Position};

fn usei_info() -> AssetInfo {
    AssetInfo::NativeToken { denom: "usei".to_string() }
}

fn synth_info() -> AssetInfo {
    AssetInfo::Token { contract_addr: "asset0000".to_string() }
}

fn position(idx: u128, collateral: u128, asset: u128) -> Position {
    Position {
        idx,
        owner: "addr0000".to_string(),
        collateral: Asset { info: usei_info(), amount: collateral },
        asset: Asset { info: synth_info(), amount: asset },
    }
}

fn quotes() -> Quotes {
    Quotes { collateral: (Decimal::one(), Decimal::one(), false), asset_price: Decimal::one() }
}

fn store() -> Store {
    let mut store = instantiate(InstantiateMsg {
        owner: "owner0000".to_string(),
        oracle: "oracle0000".to_string(),
        collector: "collector0000".to_string(),
        collateral_oracle: "collateraloracle0000".to_string(),
        staking: "staking0000".to_string(),
        melange_factory: "factory0000".to_string(),
        lock: "lock0000".to_string(),
        base_denom: "usei".to_string(),
        token_code_id: 10,
        protocol_fee_rate: Decimal::permille(15),
    })
    .unwrap();
    execute(
        &mut store,
        "owner0000".to_string(),
        vec![],
        ExecuteMsg::RegisterAsset {
            asset_token: "asset0000".to_string(),
            min_collateral_ratio: Decimal::percent(150),
        },
        quotes(),
    )
    .unwrap();
    execute(
        &mut store,
        "addr0000".to_string(),
        vec![Coin { denom: "usei".to_string(), amount: 200 }],
        ExecuteMsg::OpenPosition {
            collateral: Asset { info: usei_info(), amount: 200 },
            asset_info: synth_info(),
            collateral_ratio: Decimal::percent(200),
        },
        quotes(),
    )
    .unwrap();
    store
}

#[test]
fn ledger_is_restored_from_its_records() {
    let ledger =
        PositionLedger::restore(vec![position(2, 10, 5), position(5, 20, 7)], 9).unwrap();
    assert_eq!(ledger.read_position_idx(), 9);
    assert_eq!(ledger.read_position(2).unwrap(), &position(2, 10, 5));
    assert_eq!(ledger.read_position(5).unwrap(), &position(5, 20, 7));
    assert_eq!(ledger.read_position(3).err(), Some(MintError::NotFound));
    assert_eq!(
        ledger.read_positions(&None, &None, None, 10, OrderBy::Asc),
        vec![position(2, 10, 5), position(5, 20, 7)]
    );
    assert_eq!(
        ledger.read_positions(&None, &None, None, 1, OrderBy::Desc),
        vec![position(5, 20, 7)]
    );
    let empty = PositionLedger::restore(vec![], 1).unwrap();
    assert_eq!(empty.read_position_idx(), 1);
}

#[test]
fn ledger_is_not_restored_from_bad_records() {
    let bad = |positions: Vec<Position>, next: u128| {
        PositionLedger::restore(positions, next).err()
    };
    assert_eq!(bad(vec![], 0), Some(MintError::InvalidLedger));
    assert_eq!(bad(vec![position(5, 1, 1), position(2, 1, 1)], 9), Some(MintError::InvalidLedger));
    assert_eq!(bad(vec![position(2, 1, 1), position(2, 1, 1)], 9), Some(MintError::InvalidLedger));
    assert_eq!(bad(vec![position(2, 1, 1), position(9, 1, 1)], 9), Some(MintError::InvalidLedger));
    assert_eq!(bad(vec![position(1, 1, 1)], 1), Some(MintError::InvalidLedger));
}

#[test]
fn registry_lists_its_settings() {
    let mut assets = AssetRegistry::new();
    assert_eq!(assets.read_asset_configs(), vec![]);
    let a = AssetConfig::register("asset0000".to_string(), Decimal::percent(150));
    let b = AssetConfig::register("asset0001".to_string(), Decimal::percent(130));
    assets.store_asset_config(a.clone());
    assets.store_asset_config(b.clone());
    assert_eq!(assets.read_asset_configs(), vec![a.clone(), b.clone()]);
    let mut a2 = a.clone();
    a2.register_migration(Decimal::percent(70));
    assets.store_asset_config(a2.clone());
    assert_eq!(assets.read_asset_configs(), vec![a2.clone(), b.clone()]);
    assert_eq!(assets.read_asset_config(&"asset0000".to_string()), Ok(&a2));
    assert_eq!(assets.read_for(&synth_info()), Ok(&a2));
    assert_eq!(assets.read_for(&usei_info()).err(), Some(MintError::UnsupportedAssetKind));
    assert_eq!(
        assets.read_asset_config(&"asset0002".to_string()).err(),
        Some(MintError::NotFound)
    );
}

#[test]
fn quotes_are_asked_only_where_needed() {
    let mut store = store();
    let alice = "addr0000".to_string();
    let nothing = QuoteRequest { collateral: None, asset: None };
    let both = QuoteRequest { collateral: Some(usei_info()), asset: Some(synth_info()) };
    let collateral_only = QuoteRequest { collateral: Some(usei_info()), asset: None };
    let burn = |idx: u128| {
        ExecuteMsg::Receive(Cw20ReceiveMsg {
            sender: "addr0001".to_string(),
            amount: 1,
            msg: Cw20HookMsg::Burn { position_idx: idx },
        })
    };
    assert_eq!(
        required_quotes(
            &store,
            &alice,
            &ExecuteMsg::Withdraw { position_idx: 1, collateral: None }
        ),
        both
    );
    assert_eq!(
        required_quotes(
            &store,
            &alice,
            &ExecuteMsg::Mint {
                position_idx: 1,
                asset: Asset { info: synth_info(), amount: 1 }
            }
        ),
        both
    );
    assert_eq!(
        required_quotes(
            &store,
            &alice,
            &ExecuteMsg::Deposit {
                position_idx: 1,
                collateral: Asset { info: usei_info(), amount: 1 }
            }
        ),
        collateral_only
    );
    assert_eq!(
        required_quotes(
            &store,
            &alice,
            &ExecuteMsg::Withdraw { position_idx: 7, collateral: None }
        ),
        nothing
    );
    assert_eq!(
        required_quotes(
            &store,
            &alice,
            &ExecuteMsg::OpenPosition {
                collateral: Asset { info: usei_info(), amount: 1 },
                asset_info: synth_info(),
                collateral_ratio: Decimal::percent(200),
            }
        ),
        both
    );
    assert_eq!(
        required_quotes(
            &store,
            &"collateral0000".to_string(),
            &ExecuteMsg::Receive(Cw20ReceiveMsg {
                sender: alice.clone(),
                amount: 1,
                msg: Cw20HookMsg::OpenPosition {
                    asset_info: synth_info(),
                    collateral_ratio: Decimal::percent(200),
                },
            })
        ),
        QuoteRequest {
            collateral: Some(AssetInfo::Token { contract_addr: "collateral0000".to_string() }),
            asset: Some(synth_info()),
        }
    );
    assert_eq!(
        required_quotes(
            &store,
            &alice,
            &ExecuteMsg::RegisterMigration {
                asset_token: "asset0000".to_string(),
                end_price: Decimal::one()
            }
        ),
        nothing
    );
    assert_eq!(required_quotes(&store, &alice, &burn(1)), both);
    execute(
        &mut store,
        "owner0000".to_string(),
        vec![],
        ExecuteMsg::RegisterMigration {
            asset_token: "asset0000".to_string(),
            end_price: Decimal::one(),
        },
        quotes(),
    )
    .unwrap();
    // the end price stands in for the oracle's
    assert_eq!(required_quotes(&store, &alice, &burn(1)), collateral_only);
    assert_eq!(required_quotes(&store, &alice, &burn(2)), nothing);
}

#[test]
fn close_out_refund_stays_within_its_bounds() {
    // collateral 200, debt 100; at an end price of 1.5 against a collateral
    // price of 0.7 a burn of 33 frees min(33 * 1.5 / 0.7, 33 * 200 / 100)
    let mut store = store();
    execute(
        &mut store,
        "owner0000".to_string(),
        vec![],
        ExecuteMsg::RegisterMigration {
            asset_token: "asset0000".to_string(),
            end_price: Decimal::percent(150),
        },
        quotes(),
    )
    .unwrap();
    let res = execute(
        &mut store,
        "asset0000".to_string(),
        vec![],
        ExecuteMsg::Receive(Cw20ReceiveMsg {
            sender: "addr0001".to_string(),
            amount: 33,
            msg: Cw20HookMsg::Burn { position_idx: 1 },
        }),
        Quotes {
            collateral: (Decimal::percent(70), Decimal::one(), false),
            asset_price: Decimal::zero(),
        },
    )
    .unwrap();
    // 1.5 / 0.7 = 2.142857142857142857, 33 times that is 70.71: the share of
    // 66 is the smaller; the fee is 70 * 0.015 = 1.05
    let p = store.ledger.read_position(1).unwrap();
    assert_eq!((p.collateral.amount, p.asset.amount), (134, 67));
    assert_eq!(
        res.messages[1..].to_vec(),
        vec![
            melange_mint::response::Request::Transfer {
                asset: Asset { info: usei_info(), amount: 1 },
                recipient: "collector0000".to_string()
            },
            melange_mint::response::Request::Transfer {
                asset: Asset { info: usei_info(), amount: 65 },
                recipient: "addr0001".to_string()
            },
        ]
    );
}
