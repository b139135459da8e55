use melange_mint::asset::{Asset, AssetInfo, Coin};
use melange_mint::contract::{
    assert_min_collateral_ratio, execute, instantiate, query_asset_config, query_config,
    receive_cw20, register_asset, register_migration, update_asset, update_config, Quotes, Store,
    MIN_CR_ALLOWED,
};
use melange_mint::decimal::Decimal;
use melange_mint::error::MintError;
use melange_mint::msg::{Cw20HookMsg, Cw20ReceiveMsg, ExecuteMsg, InstantiateMsg};
use melange_mint::positions::query_position;
use melange_mint::response::{
    Action, AssetConfigResponse, Attribute, ConfigResponse, Request, Response,
};

fn init_msg(fee_permille: u64) -> InstantiateMsg {
    InstantiateMsg {
        owner: "owner0000".to_string(),
        oracle: "oracle0000".to_string(),
        collector: "collector0000".to_string(),
        collateral_oracle: "collateraloracle0000".to_string(),
        staking: "staking0000".to_string(),
        melange_factory: "factory0000".to_string(),
        lock: "lock0000".to_string(),
        base_denom: "usei".to_string(),
        token_code_id: 10,
        protocol_fee_rate: Decimal::permille(fee_permille),
    }
}

fn owner() -> String {
    "owner0000".to_string()
}

fn alice() -> String {
    "addr0000".to_string()
}

fn bob() -> String {
    "addr0001".to_string()
}

fn token() -> String {
    "asset0000".to_string()
}

fn usei(amount: u128) -> Asset {
    Asset { info: AssetInfo::NativeToken { denom: "usei".to_string() }, amount }
}

fn synth(amount: u128) -> Asset {
    Asset { info: AssetInfo::Token { contract_addr: token() }, amount }
}

fn coins(amount: u128) -> Vec<Coin> {
    vec![
        Coin { denom: "uusd".to_string(), amount: 7 },
        Coin { denom: "usei".to_string(), amount },
    ]
}

fn quotes() -> Quotes {
    Quotes { collateral: (Decimal::one(), Decimal::one(), false), asset_price: Decimal::one() }
}

/// A store with one registered asset and one position of `alice`:
/// collateral 200, debt 100.
fn store() -> Store {
    let mut store = instantiate(init_msg(15)).unwrap();
    execute(
        &mut store,
        owner(),
        vec![],
        ExecuteMsg::RegisterAsset { asset_token: token(), min_collateral_ratio: Decimal::percent(150) },
        quotes(),
    )
    .unwrap();
    execute(
        &mut store,
        alice(),
        coins(200),
        ExecuteMsg::OpenPosition {
            collateral: usei(200),
            asset_info: AssetInfo::Token { contract_addr: token() },
            collateral_ratio: Decimal::percent(200),
        },
        quotes(),
    )
    .unwrap();
    store
}

fn amounts(store: &Store, idx: u128) -> (u128, u128) {
    let p = query_position(&store.ledger, idx).unwrap();
    (p.collateral.amount, p.asset.amount)
}

#[test]
fn instantiate_starts_empty() {
    let store = instantiate(init_msg(15)).unwrap();
    assert_eq!(store.ledger.read_position_idx(), 1);
    assert_eq!(
        query_config(&store.config),
        ConfigResponse {
            owner: owner(),
            oracle: "oracle0000".to_string(),
            collector: "collector0000".to_string(),
            collateral_oracle: "collateraloracle0000".to_string(),
            staking: "staking0000".to_string(),
            melange_factory: "factory0000".to_string(),
            lock: "lock0000".to_string(),
            base_denom: "usei".to_string(),
            token_code_id: 10,
            protocol_fee_rate: Decimal::permille(15),
        }
    );
    assert_eq!(query_asset_config(&store.assets, token()).err(), Some(MintError::NotFound));
    assert_eq!(query_position(&store.ledger, 1).err(), Some(MintError::NotFound));
    assert_eq!(instantiate(init_msg(1001)).err(), Some(MintError::WrongFeeRate));
    assert!(instantiate(init_msg(1000)).is_ok());
}

#[test]
fn update_config_is_for_the_owner() {
    let mut store = instantiate(init_msg(15)).unwrap();
    let before = store.config.clone();
    let res = update_config(
        &mut store.config,
        alice(),
        Some(alice()),
        None,
        None,
        None,
        None,
        None,
        None,
        None,
        None,
    );
    assert_eq!(res, Err(MintError::Unauthorized));
    assert_eq!(store.config, before);

    let res = update_config(
        &mut store.config,
        owner(),
        Some(alice()),
        None,
        None,
        None,
        None,
        None,
        Some(11),
        Some(Decimal::percent(200)),
        None,
    );
    assert_eq!(res, Err(MintError::WrongFeeRate));
    assert_eq!(store.config, before);

    let res = execute(
        &mut store,
        owner(),
        vec![],
        ExecuteMsg::UpdateConfig {
            owner: Some(alice()),
            oracle: Some("oracle0001".to_string()),
            collector: None,
            collateral_oracle: Some("co0001".to_string()),
            melange_factory: None,
            lock: Some("lock0001".to_string()),
            token_code_id: Some(11),
            protocol_fee_rate: Some(Decimal::permille(20)),
            staking: Some("staking0001".to_string()),
        },
        quotes(),
    );
    assert_eq!(
        res,
        Ok(Response { messages: vec![], attributes: vec![Attribute::Action(Action::UpdateConfig)] })
    );
    assert_eq!(
        query_config(&store.config),
        ConfigResponse {
            owner: alice(),
            oracle: "oracle0001".to_string(),
            collector: "collector0000".to_string(),
            collateral_oracle: "co0001".to_string(),
            staking: "staking0001".to_string(),
            melange_factory: "factory0000".to_string(),
            lock: "lock0001".to_string(),
            base_denom: "usei".to_string(),
            token_code_id: 11,
            protocol_fee_rate: Decimal::permille(20),
        }
    );
}

#[test]
fn assets_are_registered_once_and_above_the_floor() {
    let mut store = instantiate(init_msg(15)).unwrap();
    assert_eq!(MIN_CR_ALLOWED, Decimal::percent(120).atomics());
    assert_eq!(assert_min_collateral_ratio(Decimal::percent(120)), Ok(()));
    assert_eq!(
        assert_min_collateral_ratio(Decimal::percent(119)),
        Err(MintError::MinRatioTooLow)
    );
    assert_eq!(
        register_asset(&mut store.assets, &store.config, alice(), token(), Decimal::percent(150)),
        Err(MintError::Unauthorized)
    );
    assert_eq!(
        register_asset(&mut store.assets, &store.config, owner(), token(), Decimal::percent(119)),
        Err(MintError::MinRatioTooLow)
    );
    assert_eq!(
        register_asset(&mut store.assets, &store.config, owner(), token(), Decimal::percent(150)),
        Ok(Response {
            messages: vec![],
            attributes: vec![
                Attribute::Action(Action::RegisterAsset),
                Attribute::AssetToken(token())
            ],
        })
    );
    assert_eq!(
        register_asset(&mut store.assets, &store.config, owner(), token(), Decimal::percent(160)),
        Err(MintError::AssetExists)
    );
    assert_eq!(
        query_asset_config(&store.assets, token()),
        Ok(AssetConfigResponse {
            token: token(),
            min_collateral_ratio: Decimal::percent(150),
            end_price: None,
        })
    );
}

#[test]
fn assets_are_updated_and_migrated() {
    let mut store = store();
    assert_eq!(
        update_asset(&mut store.assets, &store.config, alice(), token(), None),
        Err(MintError::Unauthorized)
    );
    assert_eq!(
        update_asset(&mut store.assets, &store.config, owner(), "asset0001".to_string(), None),
        Err(MintError::NotFound)
    );
    assert_eq!(
        update_asset(
            &mut store.assets,
            &store.config,
            owner(),
            token(),
            Some(Decimal::percent(100))
        ),
        Err(MintError::MinRatioTooLow)
    );
    assert!(update_asset(
        &mut store.assets,
        &store.config,
        owner(),
        token(),
        Some(Decimal::percent(130))
    )
    .is_ok());
    assert_eq!(
        query_asset_config(&store.assets, token()).unwrap().min_collateral_ratio,
        Decimal::percent(130)
    );
    assert_eq!(
        register_migration(&mut store.assets, &store.config, alice(), token(), Decimal::one()),
        Err(MintError::Unauthorized)
    );
    assert_eq!(
        register_migration(
            &mut store.assets,
            &store.config,
            owner(),
            "asset0001".to_string(),
            Decimal::one()
        ),
        Err(MintError::NotFound)
    );
    let res = execute(
        &mut store,
        owner(),
        vec![],
        ExecuteMsg::RegisterMigration { asset_token: token(), end_price: Decimal::percent(50) },
        quotes(),
    );
    assert_eq!(
        res,
        Ok(Response {
            messages: vec![],
            attributes: vec![
                Attribute::Action(Action::MigrateAsset),
                Attribute::AssetToken(token()),
                Attribute::EndPrice(Decimal::percent(50)),
            ],
        })
    );
    assert_eq!(
        query_asset_config(&store.assets, token()),
        Ok(AssetConfigResponse {
            token: token(),
            min_collateral_ratio: Decimal::percent(130),
            end_price: Some(Decimal::percent(50)),
        })
    );
    // an update keeps the end price
    assert!(execute(
        &mut store,
        owner(),
        vec![],
        ExecuteMsg::UpdateAsset { asset_token: token(), min_collateral_ratio: None },
        quotes(),
    )
    .is_ok());
    assert_eq!(
        query_asset_config(&store.assets, token()).unwrap().end_price,
        Some(Decimal::percent(50))
    );
}

#[test]
fn deprecation_gates_new_debt_but_not_redemption() {
    let mut store = store();
    execute(
        &mut store,
        owner(),
        vec![],
        ExecuteMsg::RegisterMigration { asset_token: token(), end_price: Decimal::one() },
        quotes(),
    )
    .unwrap();
    let open = execute(
        &mut store,
        alice(),
        coins(200),
        ExecuteMsg::OpenPosition {
            collateral: usei(200),
            asset_info: AssetInfo::Token { contract_addr: token() },
            collateral_ratio: Decimal::percent(200),
        },
        quotes(),
    );
    assert_eq!(open, Err(MintError::AssetDeprecated));
    let dep = execute(
        &mut store,
        alice(),
        coins(5),
        ExecuteMsg::Deposit { position_idx: 1, collateral: usei(5) },
        quotes(),
    );
    assert_eq!(dep, Err(MintError::AssetDeprecated));
    let minted = execute(
        &mut store,
        alice(),
        vec![],
        ExecuteMsg::Mint { position_idx: 1, asset: synth(1) },
        quotes(),
    );
    assert_eq!(minted, Err(MintError::AssetDeprecated));
    assert_eq!(amounts(&store, 1), (200, 100));

    // anyone who holds the token may redeem it
    let res = receive_cw20(
        &mut store,
        token(),
        Cw20ReceiveMsg { sender: bob(), amount: 100, msg: Cw20HookMsg::Burn { position_idx: 1 } },
        quotes(),
    )
    .unwrap();
    assert_eq!(
        res.messages,
        vec![
            Request::BurnToken { token: token(), amount: 100 },
            Request::Transfer { asset: usei(1), recipient: "collector0000".to_string() },
            Request::Transfer { asset: usei(99), recipient: bob() },
        ]
    );
    assert_eq!(amounts(&store, 1), (100, 0));
}

#[test]
fn deposit_checks_the_attached_funds() {
    let mut store = store();
    let dep = |store: &mut Store, funds: Vec<Coin>, collateral: Asset| {
        execute(store, alice(), funds, ExecuteMsg::Deposit { position_idx: 1, collateral }, quotes())
    };
    assert_eq!(dep(&mut store, coins(5), synth(5)), Err(MintError::Unauthorized));
    assert_eq!(dep(&mut store, coins(4), usei(5)), Err(MintError::FundsMismatch));
    assert_eq!(dep(&mut store, vec![], usei(5)), Err(MintError::FundsMismatch));
    assert_eq!(dep(&mut store, vec![], usei(0)), Err(MintError::WrongCollateral));
    // the first coin of the denomination counts
    let twice = vec![
        Coin { denom: "usei".to_string(), amount: 5 },
        Coin { denom: "usei".to_string(), amount: 6 },
    ];
    assert_eq!(dep(&mut store, twice.clone(), usei(6)), Err(MintError::FundsMismatch));
    assert!(dep(&mut store, twice, usei(5)).is_ok());
    assert!(dep(&mut store, coins(5), usei(5)).is_ok());
    assert_eq!(amounts(&store, 1), (210, 100));
    assert_eq!(usei(5).assert_sent_native_token_balance(&coins(5)), Ok(()));
    assert_eq!(synth(5).assert_sent_native_token_balance(&coins(1)), Ok(()));
}

#[test]
fn open_checks_the_attached_funds() {
    let mut store = store();
    let open = |store: &mut Store, funds: Vec<Coin>, collateral: Asset| {
        execute(
            store,
            bob(),
            funds,
            ExecuteMsg::OpenPosition {
                collateral,
                asset_info: AssetInfo::Token { contract_addr: token() },
                collateral_ratio: Decimal::percent(200),
            },
            quotes(),
        )
    };
    assert_eq!(open(&mut store, coins(199), usei(200)), Err(MintError::FundsMismatch));
    assert_eq!(open(&mut store, vec![], usei(200)), Err(MintError::FundsMismatch));
    assert_eq!(open(&mut store, vec![], usei(0)), Err(MintError::WrongCollateral));
    assert_eq!(store.ledger.read_position_idx(), 2);
    assert!(open(&mut store, coins(200), usei(200)).is_ok());
    assert_eq!(amounts(&store, 2), (200, 100));
}

#[test]
fn execute_routes_withdraw_and_mint() {
    let mut store = store();
    // 100 units of debt ask for 150 units of collateral
    let res = execute(
        &mut store,
        alice(),
        vec![],
        ExecuteMsg::Withdraw { position_idx: 1, collateral: Some(usei(51)) },
        quotes(),
    );
    assert_eq!(res, Err(MintError::InsufficientCollateralRatio));
    execute(
        &mut store,
        alice(),
        vec![],
        ExecuteMsg::Withdraw { position_idx: 1, collateral: Some(usei(50)) },
        quotes(),
    )
    .unwrap();
    assert_eq!(amounts(&store, 1), (150, 100));
    let res = execute(
        &mut store,
        alice(),
        vec![],
        ExecuteMsg::Mint { position_idx: 1, asset: synth(1) },
        quotes(),
    );
    assert_eq!(res, Err(MintError::InsufficientCollateralRatio));
    let res = execute(
        &mut store,
        bob(),
        vec![],
        ExecuteMsg::Mint { position_idx: 1, asset: synth(1) },
        quotes(),
    );
    assert_eq!(res, Err(MintError::Unauthorized));
}

#[test]
fn received_tokens_open_deposit_and_burn() {
    let mut store = store();
    let collateral_token = "collateral0000".to_string();
    let res = receive_cw20(
        &mut store,
        collateral_token.clone(),
        Cw20ReceiveMsg {
            sender: bob(),
            amount: 300,
            msg: Cw20HookMsg::OpenPosition {
                asset_info: AssetInfo::Token { contract_addr: token() },
                collateral_ratio: Decimal::percent(150),
            },
        },
        quotes(),
    )
    .unwrap();
    assert_eq!(
        res.messages,
        vec![Request::MintToken { token: token(), recipient: bob(), amount: 199 }]
    );
    let p = query_position(&store.ledger, 2).unwrap();
    assert_eq!(p.owner, bob());
    assert_eq!(
        p.collateral,
        Asset { info: AssetInfo::Token { contract_addr: collateral_token.clone() }, amount: 300 }
    );
    execute(
        &mut store,
        collateral_token.clone(),
        vec![],
        ExecuteMsg::Receive(Cw20ReceiveMsg {
            sender: bob(),
            amount: 10,
            msg: Cw20HookMsg::Deposit { position_idx: 2 },
        }),
        quotes(),
    )
    .unwrap();
    assert_eq!(amounts(&store, 2), (310, 199));
    // the fee of 99 * 0.015 rounds down to 1
    execute(
        &mut store,
        token(),
        vec![],
        ExecuteMsg::Receive(Cw20ReceiveMsg {
            sender: bob(),
            amount: 99,
            msg: Cw20HookMsg::Burn { position_idx: 2 },
        }),
        quotes(),
    )
    .unwrap();
    assert_eq!(amounts(&store, 2), (309, 100));
    let res = execute(
        &mut store,
        token(),
        vec![],
        ExecuteMsg::Receive(Cw20ReceiveMsg {
            sender: bob(),
            amount: 99,
            msg: Cw20HookMsg::Auction { position_idx: 2 },
        }),
        quotes(),
    );
    assert_eq!(res, Err(MintError::AuctionUnsupported));
}
