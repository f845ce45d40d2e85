use amm_proxy::config::{new_config, Config};
use amm_proxy::continuations::NextAction;
use amm_proxy::engine::ProxyState;
use amm_proxy::entry::{execute, reply, CompletionOutcome, ExecuteAction};
use amm_proxy::error::ProxyError;
use amm_proxy::types::{Asset, AssetInfo, AssetPair, Attribute, Coin, Dispatch, EventRecord};
use amm_proxy::vesting::BondedRewardEntry;

const NANOS_PER_SECOND: u64 = 1_000_000_000;

fn test_config(opening_nanos: u64) -> Config {
    new_config(
        "token".to_string(),
        1000,
        86400,
        "pair_reward_wallet".to_string(),
        1000,
        86400,
        "native_reward_wallet".to_string(),
        "authorized".to_string(),
        "receive_wallet".to_string(),
        opening_nanos,
        Some("pool".to_string()),
        "lp_holder".to_string(),
    )
}

fn state_with_opening(opening_nanos: u64) -> ProxyState {
    ProxyState::init(test_config(opening_nanos))
}

fn native(amount: u128) -> Asset {
    Asset { info: AssetInfo::NativeToken { denom: "uusd".to_string() }, amount }
}

fn token(amount: u128) -> Asset {
    Asset { info: AssetInfo::Token { contract_addr: "token".to_string() }, amount }
}

fn pair(a: Asset, b: Asset) -> AssetPair {
    AssetPair { first: a, second: b }
}

#[test]
fn unauthorized_provide_liquidity_changes_nothing() {
    let mut state = state_with_opening(0);
    let mut entries: Vec<BondedRewardEntry> = Vec::new();
    let r = execute(
        &mut state,
        NANOS_PER_SECOND,
        "proxy".to_string(),
        "intruder".to_string(),
        Vec::new(),
        ExecuteAction::ProvideLiquidity {
            assets: pair(native(50), token(70)),
            slippage_tolerance: None,
            auto_stake: None,
        },
        &mut entries,
        None,
    );
    assert_eq!(r, Err(ProxyError::Unauthorized));
    assert_eq!(state.counter.value, 0);
    assert!(state.continuations.records.is_empty());
    assert!(entries.is_empty());
}

#[test]
fn authorized_provide_liquidity_starts_chain() {
    let mut state = state_with_opening(0);
    let mut entries: Vec<BondedRewardEntry> = Vec::new();
    let r = execute(
        &mut state,
        NANOS_PER_SECOND,
        "proxy".to_string(),
        "authorized".to_string(),
        vec![Coin { denom: "uusd".to_string(), amount: 50 }],
        ExecuteAction::ProvideLiquidity {
            assets: pair(native(50), token(70)),
            slippage_tolerance: None,
            auto_stake: None,
        },
        &mut entries,
        None,
    )
    .unwrap();
    assert_eq!(
        r.dispatches,
        vec![Dispatch::TransferFrom {
            token: "token".to_string(),
            owner: "authorized".to_string(),
            recipient: "proxy".to_string(),
            amount: 70,
            reply_id: 1,
        }]
    );
    assert_eq!(state.counter.value, 1);
    assert_eq!(state.continuations.records.len(), 1);
    let rec = &state.continuations.records[0];
    assert_eq!(rec.request_id, 1);
    assert_eq!(rec.next_action, NextAction::IncreaseAllowance);
    assert_eq!(rec.payload.receiver, Some("authorized".to_string()));
    assert!(rec.is_fury_provided);
}

#[test]
fn liquidity_chain_runs_to_completion() {
    let mut state = state_with_opening(0);
    let mut entries: Vec<BondedRewardEntry> = Vec::new();
    let now = NANOS_PER_SECOND;
    execute(
        &mut state,
        now,
        "proxy".to_string(),
        "authorized".to_string(),
        Vec::new(),
        ExecuteAction::ProvideLiquidity {
            assets: pair(native(50), token(70)),
            slippage_tolerance: None,
            auto_stake: None,
        },
        &mut entries,
        None,
    )
    .unwrap();

    // Completion of the pull resumes with the allowance grant.
    let success = CompletionOutcome::Success { events: Vec::new(), data: None };
    let taxes: Vec<u128> = Vec::new();
    let r2 = reply(&mut state, now, "proxy".to_string(), 1, success, &mut entries, None, &taxes)
        .unwrap();
    assert_eq!(
        r2.dispatches,
        vec![Dispatch::IncreaseAllowance {
            token: "token".to_string(),
            spender: "pool".to_string(),
            amount: 70,
            reply_id: 2,
        }]
    );
    assert_eq!(state.continuations.records.len(), 1);
    assert_eq!(state.continuations.records[0].next_action, NextAction::ProvideLiquidity);

    // Completion of the grant forwards the liquidity call; the chain ends.
    let success = CompletionOutcome::Success { events: Vec::new(), data: None };
    let r3 = reply(&mut state, now, "proxy".to_string(), 2, success, &mut entries, None, &taxes)
        .unwrap();
    assert_eq!(r3.dispatches.len(), 1);
    match &r3.dispatches[0] {
        Dispatch::ProvideLiquidity { pool, funds, reply_id, .. } => {
            assert_eq!(pool, "pool");
            assert!(funds.is_empty());
            assert_eq!(*reply_id, 3);
        }
        other => panic!("unexpected dispatch {:?}", other),
    }
    assert!(state.continuations.records.is_empty());

    // The terminal step stored nothing: its completion passes through.
    let success = CompletionOutcome::Success { events: Vec::new(), data: None };
    let r4 = reply(&mut state, now, "proxy".to_string(), 3, success, &mut entries, None, &taxes)
        .unwrap();
    assert!(r4.dispatches.is_empty());
}

#[test]
fn native_reward_contribution_credits_discounted_bond() {
    // Discount 1000bp (10%), pool balanced 10:10, so 1000 native coins are
    // worth 1000 pre-discount and bond 1000 * 10000 / 9000 = 1111 (truncated).
    let opening = 0;
    let now = 7 * NANOS_PER_SECOND;
    let mut state = state_with_opening(opening);
    let mut entries: Vec<BondedRewardEntry> = Vec::new();
    let r = execute(
        &mut state,
        now,
        "proxy".to_string(),
        "investor".to_string(),
        vec![Coin { denom: "uusd".to_string(), amount: 1000 }],
        ExecuteAction::ProvideNativeForReward {
            amount: 1000,
            slippage_tolerance: None,
            auto_stake: None,
        },
        &mut entries,
        Some(pair(native(10), token(10))),
    )
    .unwrap();
    assert_eq!(entries.len(), 1);
    assert_eq!(entries[0].bonded_amount, 1111);
    assert_eq!(entries[0].bonding_period, 86400);
    // The opening time has passed, so the lock starts now.
    assert_eq!(entries[0].bonding_start_timestamp_nanos, now);
    assert_eq!(
        r.dispatches,
        vec![Dispatch::TransferFrom {
            token: "token".to_string(),
            owner: "native_reward_wallet".to_string(),
            recipient: "proxy".to_string(),
            amount: 1111,
            reply_id: 1,
        }]
    );
    let rec = &state.continuations.records[0];
    assert_eq!(rec.next_action, NextAction::TransferToRewardWallet);
    assert!(!rec.is_fury_provided);

    // Its completion sends the leftover native funds, netted of tax, to the
    // configured receive wallet.
    let success = CompletionOutcome::Success { events: Vec::new(), data: None };
    let taxes: Vec<u128> = vec![13];
    let r2 = reply(&mut state, now, "proxy".to_string(), 1, success, &mut entries, None, &taxes)
        .unwrap();
    assert_eq!(
        r2.dispatches,
        vec![Dispatch::BankSend {
            to_address: "receive_wallet".to_string(),
            funds: vec![Coin { denom: "uusd".to_string(), amount: 987 }],
        }]
    );
    assert!(state.continuations.records.is_empty());
}

#[test]
fn bond_before_opening_has_unset_start() {
    let opening = 100 * NANOS_PER_SECOND;
    let now = 7 * NANOS_PER_SECOND;
    let mut state = state_with_opening(opening);
    let mut entries: Vec<BondedRewardEntry> = Vec::new();
    execute(
        &mut state,
        now,
        "proxy".to_string(),
        "investor".to_string(),
        Vec::new(),
        ExecuteAction::ProvideNativeForReward {
            amount: 900,
            slippage_tolerance: None,
            auto_stake: None,
        },
        &mut entries,
        Some(pair(native(10), token(10))),
    )
    .unwrap();
    assert_eq!(entries[0].bonding_start_timestamp_nanos, 0);
    assert_eq!(entries[0].bonded_amount, 900 * 10000 / 9000);
}

#[test]
fn pair_reward_contribution_consumes_both_sides() {
    // Pool values 200 native at 200 tokens; the user offered only 150 tokens,
    // so the equivalent is capped there, doubled for the pair, and grossed up.
    let mut state = state_with_opening(0);
    let mut entries: Vec<BondedRewardEntry> = Vec::new();
    let now = 7 * NANOS_PER_SECOND;
    execute(
        &mut state,
        now,
        "proxy".to_string(),
        "investor".to_string(),
        Vec::new(),
        ExecuteAction::ProvidePairForReward {
            assets: pair(native(200), token(150)),
            slippage_tolerance: None,
            auto_stake: None,
        },
        &mut entries,
        None,
    )
    .unwrap();
    let rec = &state.continuations.records[0];
    assert_eq!(rec.next_action, NextAction::TransferFromFundsOwner);
    assert_eq!(rec.payload.receiver, Some("lp_holder".to_string()));
    assert!(entries.is_empty());

    // Completion of the user's pull values the pair and credits the bond:
    // min(200, 150) * 2 * 10000 / 9000 = 333.
    let success = CompletionOutcome::Success { events: Vec::new(), data: None };
    let taxes: Vec<u128> = Vec::new();
    let r2 = reply(
        &mut state,
        now,
        "proxy".to_string(),
        1,
        success,
        &mut entries,
        Some(pair(native(10), token(10))),
        &taxes,
    )
    .unwrap();
    assert_eq!(entries.len(), 1);
    assert_eq!(entries[0].bonded_amount, 333);
    assert_eq!(
        r2.dispatches,
        vec![Dispatch::TransferFrom {
            token: "token".to_string(),
            owner: "pair_reward_wallet".to_string(),
            recipient: "proxy".to_string(),
            amount: 333,
            reply_id: 2,
        }]
    );
    assert_eq!(state.continuations.records[0].next_action, NextAction::IncreaseAllowance);
}

#[test]
fn unmatched_completion_passes_through_unchanged() {
    // A completion notification for a request id with no stored continuation
    // succeeds, forwards events and data untouched, and mutates nothing.
    let mut state = state_with_opening(0);
    let mut entries: Vec<BondedRewardEntry> = Vec::new();
    let events = vec![
        EventRecord {
            attributes: vec![
                Attribute { key: "k1".to_string(), value: "v1".to_string() },
                Attribute { key: "k2".to_string(), value: "v2".to_string() },
            ],
        },
        EventRecord {
            attributes: vec![Attribute { key: "k3".to_string(), value: "v3".to_string() }],
        },
    ];
    let outcome = CompletionOutcome::Success {
        events: events.clone(),
        data: Some(vec![1, 2, 3]),
    };
    let taxes: Vec<u128> = Vec::new();
    let r = reply(
        &mut state,
        NANOS_PER_SECOND,
        "proxy".to_string(),
        42,
        outcome,
        &mut entries,
        None,
        &taxes,
    )
    .unwrap();
    assert!(r.dispatches.is_empty());
    assert_eq!(
        r.attributes,
        vec![
            Attribute { key: "k1".to_string(), value: "v1".to_string() },
            Attribute { key: "k2".to_string(), value: "v2".to_string() },
            Attribute { key: "k3".to_string(), value: "v3".to_string() },
        ]
    );
    assert_eq!(r.data, Some(vec![1, 2, 3]));
    assert_eq!(state.counter.value, 0);
    assert!(state.continuations.records.is_empty());
    assert!(entries.is_empty());
}

#[test]
fn failed_sub_operation_aborts_invocation() {
    let mut state = state_with_opening(0);
    let mut entries: Vec<BondedRewardEntry> = Vec::new();
    let taxes: Vec<u128> = Vec::new();
    let r = reply(
        &mut state,
        NANOS_PER_SECOND,
        "proxy".to_string(),
        1,
        CompletionOutcome::Failure { error: "out of gas".to_string() },
        &mut entries,
        None,
        &taxes,
    );
    assert_eq!(r, Err(ProxyError::SubOperationFailed { error: "out of gas".to_string() }));
}

#[test]
fn swap_requires_native_offer() {
    let mut state = state_with_opening(0);
    let mut entries: Vec<BondedRewardEntry> = Vec::new();
    let r = execute(
        &mut state,
        NANOS_PER_SECOND,
        "proxy".to_string(),
        "trader".to_string(),
        Vec::new(),
        ExecuteAction::Swap {
            offer_asset: token(10),
            belief_price: None,
            max_spread: None,
            to: None,
        },
        &mut entries,
        None,
    );
    assert_eq!(r, Err(ProxyError::Unauthorized));
    assert_eq!(state.counter.value, 0);
}

#[test]
fn swap_rejected_before_opening() {
    let opening = 100 * NANOS_PER_SECOND;
    let mut state = state_with_opening(opening);
    let mut entries: Vec<BondedRewardEntry> = Vec::new();
    let r = execute(
        &mut state,
        NANOS_PER_SECOND,
        "proxy".to_string(),
        "trader".to_string(),
        Vec::new(),
        ExecuteAction::Swap {
            offer_asset: native(10),
            belief_price: None,
            max_spread: None,
            to: None,
        },
        &mut entries,
        None,
    );
    assert_eq!(r, Err(ProxyError::SwapNotOpen { opening_nanos: opening }));
}

#[test]
fn open_swap_goes_to_pool_with_funds() {
    let mut state = state_with_opening(0);
    let mut entries: Vec<BondedRewardEntry> = Vec::new();
    let r = execute(
        &mut state,
        NANOS_PER_SECOND,
        "proxy".to_string(),
        "trader".to_string(),
        vec![Coin { denom: "uusd".to_string(), amount: 10 }],
        ExecuteAction::Swap {
            offer_asset: native(10),
            belief_price: None,
            max_spread: None,
            to: None,
        },
        &mut entries,
        None,
    )
    .unwrap();
    assert_eq!(r.dispatches.len(), 1);
    match &r.dispatches[0] {
        Dispatch::PoolSwap { pool, offer_asset, to, funds, reply_id, .. } => {
            assert_eq!(pool, "pool");
            assert_eq!(offer_asset, &native(10));
            // The recipient defaults to the caller.
            assert_eq!(to, &Some("trader".to_string()));
            assert_eq!(funds, &vec![Coin { denom: "uusd".to_string(), amount: 10 }]);
            assert_eq!(*reply_id, 1);
        }
        other => panic!("unexpected dispatch {:?}", other),
    }
}

#[test]
fn wrapped_swap_defaults_recipient_to_hook_sender() {
    let mut state = state_with_opening(0);
    let mut entries: Vec<BondedRewardEntry> = Vec::new();
    let r = execute(
        &mut state,
        NANOS_PER_SECOND,
        "proxy".to_string(),
        "token".to_string(),
        Vec::new(),
        ExecuteAction::ReceiveSwap {
            hook_sender: "seller".to_string(),
            amount: 25,
            belief_price: None,
            max_spread: None,
            to: None,
        },
        &mut entries,
        None,
    )
    .unwrap();
    assert_eq!(
        r.dispatches,
        vec![Dispatch::TokenSendSwap {
            token: "token".to_string(),
            pool: "pool".to_string(),
            amount: 25,
            belief_price: None,
            max_spread: None,
            to: Some("seller".to_string()),
            funds: Vec::new(),
            reply_id: 1,
        }]
    );
}

#[test]
fn withdraw_only_from_pool_share_token() {
    let mut state = state_with_opening(0);
    let mut entries: Vec<BondedRewardEntry> = Vec::new();
    // The pool-share token is learned through a configuration action.
    execute(
        &mut state,
        NANOS_PER_SECOND,
        "proxy".to_string(),
        "admin".to_string(),
        Vec::new(),
        ExecuteAction::Configure {
            pool_pair_address: None,
            liquidity_token: Some("lp_token".to_string()),
            swap_opening_date_nanos: 0,
        },
        &mut entries,
        None,
    )
    .unwrap();

    let r = execute(
        &mut state,
        NANOS_PER_SECOND,
        "proxy".to_string(),
        "intruder".to_string(),
        Vec::new(),
        ExecuteAction::ReceiveWithdrawLiquidity { amount: 5, payload: vec![9, 9] },
        &mut entries,
        None,
    );
    assert_eq!(r, Err(ProxyError::Unauthorized));

    let ok = execute(
        &mut state,
        NANOS_PER_SECOND,
        "proxy".to_string(),
        "lp_token".to_string(),
        Vec::new(),
        ExecuteAction::ReceiveWithdrawLiquidity { amount: 5, payload: vec![9, 9] },
        &mut entries,
        None,
    )
    .unwrap();
    assert_eq!(
        ok.dispatches,
        vec![Dispatch::TokenSendWithdraw {
            token: "lp_token".to_string(),
            pool: "pool".to_string(),
            amount: 5,
            payload: vec![9, 9],
            funds: Vec::new(),
        }]
    );
}

#[test]
fn reward_claim_authorization_and_window() {
    let opening = 100 * NANOS_PER_SECOND;
    let mut state = state_with_opening(opening);
    let mut entries: Vec<BondedRewardEntry> = Vec::new();

    // Claiming for someone else is rejected.
    let r = execute(
        &mut state,
        200 * NANOS_PER_SECOND,
        "proxy".to_string(),
        "alice".to_string(),
        Vec::new(),
        ExecuteAction::RewardClaim { receiver: "bob".to_string(), withdrawal_amount: 10 },
        &mut entries,
        None,
    );
    assert_eq!(r, Err(ProxyError::Unauthorized));

    // Claiming before the opening time is rejected.
    let r2 = execute(
        &mut state,
        50 * NANOS_PER_SECOND,
        "proxy".to_string(),
        "alice".to_string(),
        Vec::new(),
        ExecuteAction::RewardClaim { receiver: "alice".to_string(), withdrawal_amount: 10 },
        &mut entries,
        None,
    );
    assert_eq!(r2, Err(ProxyError::ClaimWindowNotOpen { opening_nanos: opening }));
}

#[test]
fn reward_claim_transfers_exact_amount() {
    let mut state = state_with_opening(0);
    let mut entries = vec![BondedRewardEntry {
        user_address: "alice".to_string(),
        bonded_amount: 500,
        bonding_period: 1,
        bonding_start_timestamp_nanos: NANOS_PER_SECOND,
    }];
    let r = execute(
        &mut state,
        10 * NANOS_PER_SECOND,
        "proxy".to_string(),
        "alice".to_string(),
        Vec::new(),
        ExecuteAction::RewardClaim { receiver: "alice".to_string(), withdrawal_amount: 200 },
        &mut entries,
        None,
    )
    .unwrap();
    assert_eq!(
        r.dispatches,
        vec![Dispatch::RewardTransfer {
            token: "token".to_string(),
            recipient: "alice".to_string(),
            amount: 200,
        }]
    );
    assert_eq!(entries.len(), 1);
    assert_eq!(entries[0].bonded_amount, 300);
}

#[test]
fn configure_updates_only_named_fields() {
    let mut state = state_with_opening(5);
    let mut entries: Vec<BondedRewardEntry> = Vec::new();
    let r = execute(
        &mut state,
        NANOS_PER_SECOND,
        "proxy".to_string(),
        "anyone".to_string(),
        Vec::new(),
        ExecuteAction::Configure {
            pool_pair_address: Some("pool2".to_string()),
            liquidity_token: Some("lp2".to_string()),
            swap_opening_date_nanos: 77,
        },
        &mut entries,
        None,
    )
    .unwrap();
    assert!(r.dispatches.is_empty());
    assert_eq!(state.config.pool_pair_address, "pool2");
    assert_eq!(state.config.liquidity_token, "lp2");
    assert_eq!(state.config.swap_opening_date_nanos, 77);
    assert_eq!(state.config.custom_token_address, "token");
    assert_eq!(state.config.authorized_liquidity_provider, "authorized");
    assert_eq!(state.counter.value, 0);
}

#[test]
fn forwarded_liquidity_nets_taxes_per_coin() {
    let mut state = state_with_opening(0);
    let mut entries: Vec<BondedRewardEntry> = Vec::new();
    let now = NANOS_PER_SECOND;
    execute(
        &mut state,
        now,
        "proxy".to_string(),
        "authorized".to_string(),
        vec![
            Coin { denom: "uusd".to_string(), amount: 100 },
            Coin { denom: "uluna".to_string(), amount: 40 },
        ],
        ExecuteAction::ProvideLiquidity {
            assets: pair(native(100), token(70)),
            slippage_tolerance: None,
            auto_stake: None,
        },
        &mut entries,
        None,
    )
    .unwrap();
    let success = CompletionOutcome::Success { events: Vec::new(), data: None };
    let no_taxes: Vec<u128> = Vec::new();
    reply(&mut state, now, "proxy".to_string(), 1, success, &mut entries, None, &no_taxes)
        .unwrap();
    let success = CompletionOutcome::Success { events: Vec::new(), data: None };
    let taxes: Vec<u128> = vec![3, 1];
    let r = reply(&mut state, now, "proxy".to_string(), 2, success, &mut entries, None, &taxes)
        .unwrap();
    match &r.dispatches[0] {
        Dispatch::ProvideLiquidity { funds, .. } => {
            assert_eq!(
                funds,
                &vec![
                    Coin { denom: "uusd".to_string(), amount: 97 },
                    Coin { denom: "uluna".to_string(), amount: 39 },
                ]
            );
        }
        other => panic!("unexpected dispatch {:?}", other),
    }
}
