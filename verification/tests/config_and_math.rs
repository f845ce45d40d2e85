use amm_proxy::config::{configure, new_config, set_contract_version, set_swap_opening_date};
use amm_proxy::continuations::{ContinuationLedger, ContinuationRecord, LiquidityParams, NextAction};
use amm_proxy::math::{mul_div_or_zero, net_funds};
use amm_proxy::types::{token_amount, Asset, AssetInfo, AssetPair, Coin};

#[test]
fn new_config_defaults_optional_fields() {
    let cfg = new_config(
        "token".to_string(),
        100,
        60,
        "w1".to_string(),
        200,
        120,
        "w2".to_string(),
        "auth".to_string(),
        "w3".to_string(),
        5,
        None,
        "lp_holder".to_string(),
    );
    assert_eq!(cfg.pool_pair_address, "");
    assert_eq!(cfg.liquidity_token, "");
    assert_eq!(cfg.swap_opening_date_nanos, 5);
    assert_eq!(cfg.pair_discount_rate, 100);
    assert_eq!(cfg.native_bonding_period_in_sec, 120);
}

#[test]
fn configure_keeps_unnamed_fields() {
    let mut cfg = new_config(
        "token".to_string(),
        100,
        60,
        "w1".to_string(),
        200,
        120,
        "w2".to_string(),
        "auth".to_string(),
        "w3".to_string(),
        5,
        Some("pool".to_string()),
        "lp_holder".to_string(),
    );
    configure(&mut cfg, None, Some("lp".to_string()), 99);
    assert_eq!(cfg.pool_pair_address, "pool");
    assert_eq!(cfg.liquidity_token, "lp");
    assert_eq!(cfg.swap_opening_date_nanos, 99);

    set_swap_opening_date(&mut cfg, 123);
    assert_eq!(cfg.swap_opening_date_nanos, 123);
    assert_eq!(cfg.liquidity_token, "lp");
}

#[test]
fn version_record_holds_what_was_given() {
    let v = set_contract_version("proxy".to_string(), "1.2.3".to_string());
    assert_eq!(v.contract, "proxy");
    assert_eq!(v.version, "1.2.3");
}

#[test]
fn scaled_division_truncates() {
    assert_eq!(mul_div_or_zero(1000, 10000, 9000), 1111);
    assert_eq!(mul_div_or_zero(7, 3, 2), 10);
}

#[test]
fn scaled_division_is_zero_on_degenerate_input() {
    assert_eq!(mul_div_or_zero(5, 5, 0), 0);
    assert_eq!(mul_div_or_zero(u128::MAX, 2, 1), 0);
}

#[test]
fn netting_subtracts_each_tax_in_place() {
    let funds = vec![
        Coin { denom: "uusd".to_string(), amount: 100 },
        Coin { denom: "uluna".to_string(), amount: 7 },
    ];
    let taxes: Vec<u128> = vec![1, 7];
    let net = net_funds(&funds, &taxes);
    assert_eq!(
        net,
        vec![
            Coin { denom: "uusd".to_string(), amount: 99 },
            Coin { denom: "uluna".to_string(), amount: 0 },
        ]
    );
}

#[test]
fn token_amount_picks_first_non_native_side() {
    let p = AssetPair {
        first: Asset { info: AssetInfo::NativeToken { denom: "uusd".to_string() }, amount: 3 },
        second: Asset {
            info: AssetInfo::Token { contract_addr: "tok".to_string() },
            amount: 9,
        },
    };
    assert_eq!(token_amount(&p), 9);
    let both_native = AssetPair {
        first: Asset { info: AssetInfo::NativeToken { denom: "uusd".to_string() }, amount: 3 },
        second: Asset { info: AssetInfo::NativeToken { denom: "uluna".to_string() }, amount: 4 },
    };
    assert_eq!(token_amount(&both_native), 0);
}

#[test]
fn continuation_taken_at_most_once() {
    let rec = ContinuationRecord {
        request_id: 7,
        next_action: NextAction::ProvideLiquidity,
        payload: LiquidityParams {
            assets: AssetPair {
                first: Asset {
                    info: AssetInfo::NativeToken { denom: "uusd".to_string() },
                    amount: 1,
                },
                second: Asset {
                    info: AssetInfo::Token { contract_addr: "tok".to_string() },
                    amount: 2,
                },
            },
            slippage_tolerance: None,
            auto_stake: None,
            receiver: None,
        },
        funds: Vec::new(),
        user_address: "user".to_string(),
        is_fury_provided: true,
    };
    let mut ledger = ContinuationLedger::new();
    ledger.store(rec.clone());
    assert_eq!(ledger.take(3), None);
    assert_eq!(ledger.take(7), Some(rec));
    assert_eq!(ledger.take(7), None);
    assert!(ledger.records.is_empty());
}
