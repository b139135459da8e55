use melange_mint::asset::{Asset, AssetInfo, Coin};
use melange_mint::contract::{execute, instantiate, query, Quotes, Store};
use melange_mint::decimal::Decimal;
use melange_mint::error::MintError;
use melange_mint::msg::{ExecuteMsg, InstantiateMsg, OrderBy, QueryMsg};
use melange_mint::positions::{
    query_next_position_idx, query_positions, DEFAULT_LIMIT, MAX_LIMIT,
};
use melange_mint::response::{
    AssetConfigResponse, NextPositionIdxResponse, PositionResponse, QueryResponse,
};

fn quotes() -> Quotes {
    Quotes { collateral: (Decimal::one(), Decimal::one(), false), asset_price: Decimal::one() }
}

fn usei(amount: u128) -> Asset {
    Asset { info: AssetInfo::NativeToken { denom: "usei".to_string() }, amount }
}

fn token(n: u32) -> String {
    format!("asset{:04}", n)
}

fn user(n: u32) -> String {
    format!("addr{:04}", n)
}

/// A store with two assets and `count` positions: position `i` belongs to
/// user `i % 2`, is on asset `i % 2`, holds `100 * i` and owes `50 * i`.
fn store(count: u32) -> Store {
    let mut store = instantiate(InstantiateMsg {
        owner: "owner0000".to_string(),
        oracle: "oracle0000".to_string(),
        collector: "collector0000".to_string(),
        collateral_oracle: "collateraloracle0000".to_string(),
        staking: "staking0000".to_string(),
        melange_factory: "factory0000".to_string(),
        lock: "lock0000".to_string(),
        base_denom: "usei".to_string(),
        token_code_id: 10,
        protocol_fee_rate: Decimal::permille(15),
    })
    .unwrap();
    for n in 0..2 {
        execute(
            &mut store,
            "owner0000".to_string(),
            vec![],
            ExecuteMsg::RegisterAsset {
                asset_token: token(n),
                min_collateral_ratio: Decimal::percent(150),
            },
            quotes(),
        )
        .unwrap();
    }
    for i in 1..=count {
        execute(
            &mut store,
            user(i % 2),
            vec![Coin { denom: "usei".to_string(), amount: 100 * i as u128 }],
            ExecuteMsg::OpenPosition {
                collateral: usei(100 * i as u128),
                asset_info: AssetInfo::Token { contract_addr: token(i % 2) },
                collateral_ratio: Decimal::percent(200),
            },
            quotes(),
        )
        .unwrap();
    }
    store
}

fn indices(
    store: &Store,
    owner: Option<String>,
    asset: Option<String>,
    start_after: Option<u128>,
    limit: Option<u32>,
    order_by: Option<OrderBy>,
) -> Vec<u128> {
    query_positions(&store.ledger, owner, asset, start_after, limit, order_by)
        .positions
        .iter()
        .map(|p| p.idx)
        .collect()
}

#[test]
fn pages_default_to_ten_newest_first() {
    let store = store(35);
    assert_eq!(DEFAULT_LIMIT, 10);
    assert_eq!(MAX_LIMIT, 30);
    assert_eq!(
        indices(&store, None, None, None, None, None),
        vec![35, 34, 33, 32, 31, 30, 29, 28, 27, 26]
    );
    assert_eq!(
        indices(&store, None, None, None, Some(3), Some(OrderBy::Asc)),
        vec![1, 2, 3]
    );
    assert_eq!(indices(&store, None, None, None, Some(100), Some(OrderBy::Asc)).len(), 30);
    assert_eq!(indices(&store, None, None, None, Some(0), None), Vec::<u128>::new());
}

#[test]
fn pages_follow_the_cursor() {
    let store = store(6);
    assert_eq!(
        indices(&store, None, None, Some(2), Some(3), Some(OrderBy::Asc)),
        vec![3, 4, 5]
    );
    assert_eq!(
        indices(&store, None, None, Some(5), Some(3), Some(OrderBy::Asc)),
        vec![6]
    );
    assert_eq!(
        indices(&store, None, None, Some(6), Some(3), Some(OrderBy::Asc)),
        Vec::<u128>::new()
    );
    assert_eq!(
        indices(&store, None, None, Some(5), Some(3), Some(OrderBy::Desc)),
        vec![4, 3, 2]
    );
    assert_eq!(indices(&store, None, None, Some(2), None, None), vec![1]);
    assert_eq!(indices(&store, None, None, Some(1), None, None), Vec::<u128>::new());
}

#[test]
fn pages_filter_by_owner_and_asset() {
    let store = store(6);
    assert_eq!(
        indices(&store, Some(user(1)), None, None, None, Some(OrderBy::Asc)),
        vec![1, 3, 5]
    );
    assert_eq!(indices(&store, Some(user(0)), None, None, None, None), vec![6, 4, 2]);
    assert_eq!(
        indices(&store, None, Some(token(0)), Some(2), None, Some(OrderBy::Asc)),
        vec![4, 6]
    );
    assert_eq!(
        indices(&store, Some(user(1)), Some(token(0)), None, None, None),
        Vec::<u128>::new()
    );
    assert_eq!(indices(&store, Some(user(9)), None, None, None, None), Vec::<u128>::new());
    let page = query_positions(&store.ledger, Some(user(1)), None, Some(3), Some(1), None);
    assert_eq!(
        page.positions,
        vec![PositionResponse {
            idx: 1,
            owner: user(1),
            collateral: usei(100),
            asset: Asset { info: AssetInfo::Token { contract_addr: token(1) }, amount: 50 },
        }]
    );
}

#[test]
fn query_answers_each_request() {
    let store = store(2);
    assert_eq!(
        query_next_position_idx(&store.ledger),
        NextPositionIdxResponse { next_position_idx: 3 }
    );
    assert_eq!(
        query(&store, QueryMsg::NextPositionIdx {}),
        Ok(QueryResponse::NextPositionIdx(NextPositionIdxResponse { next_position_idx: 3 }))
    );
    assert_eq!(
        query(&store, QueryMsg::AssetConfig { asset_token: token(1) }),
        Ok(QueryResponse::AssetConfig(AssetConfigResponse {
            token: token(1),
            min_collateral_ratio: Decimal::percent(150),
            end_price: None,
        }))
    );
    assert_eq!(
        query(&store, QueryMsg::AssetConfig { asset_token: token(7) }),
        Err(MintError::NotFound)
    );
    assert_eq!(
        query(&store, QueryMsg::Position { position_idx: 2 }),
        Ok(QueryResponse::Position(PositionResponse {
            idx: 2,
            owner: user(0),
            collateral: usei(200),
            asset: Asset { info: AssetInfo::Token { contract_addr: token(0) }, amount: 100 },
        }))
    );
    assert_eq!(query(&store, QueryMsg::Position { position_idx: 3 }), Err(MintError::NotFound));
    match query(&store, QueryMsg::Config {}) {
        Ok(QueryResponse::Config(c)) => {
            assert_eq!(c.owner, "owner0000".to_string());
            assert_eq!(c.protocol_fee_rate, Decimal::permille(15));
            assert_eq!(c.token_code_id, 10);
        }
        other => panic!("unexpected answer: {:?}", other),
    }
    match query(
        &store,
        QueryMsg::Positions {
            owner_addr: None,
            asset_token: None,
            start_after: None,
            limit: None,
            order_by: Some(OrderBy::Asc),
        },
    ) {
        Ok(QueryResponse::Positions(p)) => {
            assert_eq!(p.positions.iter().map(|p| p.idx).collect::<Vec<u128>>(), vec![1, 2]);
        }
        other => panic!("unexpected answer: {:?}", other),
    }
}
