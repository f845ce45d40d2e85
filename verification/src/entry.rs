//! The two mutating entry points: `execute`, which turns one user action into
//! dispatches and state changes, and `reply`, which resumes a continuation
//! chain when a sub-operation's completion notification arrives.

use vstd::prelude::*;

use crate::config::{configure, configure_post};
use crate::continuations::{contains_id, index_of_id, ledger_without, record_for, NextAction};
use crate::engine::{
    claim_investment_reward, forward_provide_liquidity_to_astro, forward_provide_post,
    forward_swap_post, forward_swap_to_astro, incr_allow_for_provide_liquidity, incr_allow_post,
    is_native_reward_pair, provide_liquidity, provide_liquidity_post, provide_native_liquidity,
    reward_claim_post, swap, swap_post, transfer_custom_assets_from_funds_owner_to_proxy,
    transfer_custom_post, transfer_native_assets_to_native_investment_receive_wallet,
    transfer_native_post, withdraw_liquidity, withdraw_post, ProxyState,
};
use crate::error::ProxyError;
use crate::types::{
    spec_token_amount, Asset, AssetPair, Attribute, Coin, EventRecord, FixedDec, TransitionOutput,
};
use crate::vesting::{total_bonded, unlock_time_secs, BondedRewardEntry};

verus! {

/// One user action, decoded by the host into plain values.
pub enum ExecuteAction {
    /// Update the pool addresses and the swap-opening time.
    Configure {
        pool_pair_address: Option<String>,
        liquidity_token: Option<String>,
        swap_opening_date_nanos: u64,
    },
    /// A token-send notification wrapping a swap request; `hook_sender` is
    /// the user whose tokens arrived.
    ReceiveSwap {
        hook_sender: String,
        amount: u128,
        belief_price: Option<FixedDec>,
        max_spread: Option<FixedDec>,
        to: Option<String>,
    },
    /// A token-send notification wrapping a withdraw-liquidity request;
    /// `payload` is the encoded request, forwarded untouched.
    ReceiveWithdrawLiquidity { amount: u128, payload: Vec<u8> },
    /// Provide pool liquidity directly; restricted to the configured
    /// authorized provider.
    ProvideLiquidity {
        assets: AssetPair,
        slippage_tolerance: Option<FixedDec>,
        auto_stake: Option<bool>,
    },
    /// Provide pair liquidity and earn a time-locked reward.
    ProvidePairForReward {
        assets: AssetPair,
        slippage_tolerance: Option<FixedDec>,
        auto_stake: Option<bool>,
    },
    /// Provide native coins only and earn a time-locked reward.
    ProvideNativeForReward {
        amount: u128,
        slippage_tolerance: Option<FixedDec>,
        auto_stake: Option<bool>,
    },
    /// Swap a native offer asset against the pool.
    Swap {
        offer_asset: Asset,
        belief_price: Option<FixedDec>,
        max_spread: Option<FixedDec>,
        to: Option<String>,
    },
    /// Withdraw matured rewards to the caller.
    RewardClaim { receiver: String, withdrawal_amount: u128 },
}

/// The reported outcome of a dispatched sub-operation, decoded by the host.
pub enum CompletionOutcome {
    /// The sub-operation succeeded, possibly with events and opaque data.
    Success { events: Vec<EventRecord>, data: Option<Vec<u8>> },
    /// The sub-operation failed with a host-supplied description.
    Failure { error: String },
}

/// All attributes of a list of events, in order.
pub open spec fn flatten_attributes(evs: Seq<EventRecord>) -> Seq<Attribute>
    decreases evs.len(),
{
    if evs.len() == 0 {
        Seq::empty()
    } else {
        evs[0].attributes@ + flatten_attributes(evs.subrange(1, evs.len() as int))
    }
}

/// Collects the attributes of all events into one list, in order.
fn flatten_events(events: &Vec<EventRecord>) -> (r: Vec<Attribute>)
    ensures
        r@ == flatten_attributes(events@),
{
    let n = events.len();
    let mut r: Vec<Attribute> = Vec::new();
    let mut i: usize = 0;
    proof {
        assert(events@.subrange(0, n as int) =~= events@);
        assert(r@ + flatten_attributes(events@) =~= flatten_attributes(events@));
    }
    while i < n
        invariant
            0 <= i <= n,
            n == events@.len(),
            flatten_attributes(events@) == r@ + flatten_attributes(
                events@.subrange(i as int, n as int),
            ),
        decreases n - i,
    {
        let ghost suf = events@.subrange(i as int, n as int);
        proof {
            assert(suf[0] == events@[i as int]);
            assert(suf.subrange(1, suf.len() as int) =~= events@.subrange(i as int + 1, n as int));
        }
        let attrs = &events[i].attributes;
        let m = attrs.len();
        let ghost r_start = r@;
        let mut j: usize = 0;
        while j < m
            invariant
                0 <= j <= m,
                m == attrs@.len(),
                attrs@ == events@[i as int].attributes@,
                i < n == events@.len(),
                r@ =~= r_start + attrs@.take(j as int),
            decreases m - j,
        {
            r.push(
                Attribute { key: attrs[j].key.clone(), value: attrs[j].value.clone() },
            );
            proof {
                assert(r@ =~= r_start + attrs@.take(j as int + 1));
            }
            j = j + 1;
        }
        proof {
            assert(attrs@.take(m as int) =~= attrs@);
            assert(r@ + flatten_attributes(events@.subrange(i as int + 1, n as int)) =~= r_start
                + flatten_attributes(events@.subrange(i as int, n as int)));
        }
        i = i + 1;
    }
    proof {
        assert(events@.subrange(n as int, n as int) =~= Seq::<EventRecord>::empty());
        assert(r@ + flatten_attributes(Seq::<EventRecord>::empty()) =~= r@);
    }
    r
}

/// The mutating entry point: performs one user action against the state, the
/// caller's vesting entries and, for a native reward contribution, the pool
/// balances the host queried, and returns what to dispatch or why the whole
/// invocation is aborted with no effect.
pub fn execute(
    state: &mut ProxyState,
    now_nanos: u64,
    proxy_address: String,
    sender: String,
    funds: Vec<Coin>,
    action: ExecuteAction,
    caller_entries: &mut Vec<BondedRewardEntry>,
    pool_assets: Option<AssetPair>,
) -> (r: Result<TransitionOutput, ProxyError>)
    requires
        old(state).wf(),
        (action is ReceiveSwap || action is ProvideLiquidity || action is ProvidePairForReward
            || action is ProvideNativeForReward || action is Swap) ==> old(state).counter.value
            < u64::MAX,
        action is ProvideNativeForReward ==> pool_assets is Some && old(state).config.pair_discount_rate <= 10000 && old(state).config.native_discount_rate <= 10000,
        action is RewardClaim ==> total_bonded(old(caller_entries)@) <= u128::MAX && (forall|
            k: int,
        |
            0 <= k < old(caller_entries)@.len() ==> #[trigger] unlock_time_secs(
                old(caller_entries)@[k],
                old(state).config.swap_opening_date_nanos,
            ) <= u64::MAX),
    ensures
        final(state).wf(),
        (action matches ExecuteAction::Configure {
            pool_pair_address,
            liquidity_token,
            swap_opening_date_nanos,
        } ==> ({
            &&& r matches Ok(out) && out.dispatches@.len() == 0 && out.attributes@.len() == 0
                && out.data is None
            &&& configure_post(
                old(state).config,
                final(state).config,
                pool_pair_address,
                liquidity_token,
                swap_opening_date_nanos,
            )
            &&& final(state).counter == old(state).counter
            &&& final(state).continuations == old(state).continuations
            &&& final(caller_entries)@ == old(caller_entries)@
        })),
        (action matches ExecuteAction::ReceiveSwap {
            hook_sender,
            amount,
            belief_price,
            max_spread,
            to,
        } ==> (r matches Ok(out) && forward_swap_post(
            old(state).config,
            old(state).counter.value,
            old(state).continuations.records@,
            *final(state),
            belief_price,
            max_spread,
            (if to is Some {
                to
            } else {
                Some(hook_sender)
            }),
            amount,
            funds,
            out,
        ) && final(caller_entries)@ == old(caller_entries)@)),
        (action matches ExecuteAction::ReceiveWithdrawLiquidity { amount, payload } ==> (
        withdraw_post(old(state).config, sender, amount, payload, funds, r) && *final(state)
            == *old(state) && final(caller_entries)@ == old(caller_entries)@)),
        (action matches ExecuteAction::ProvideLiquidity {
            assets,
            slippage_tolerance,
            auto_stake,
        } ==> ({
            &&& (sender@ != old(state).config.authorized_liquidity_provider@ ==> (
            r matches Err(e) && e == ProxyError::Unauthorized && *final(state) == *old(state)
                && final(caller_entries)@ == old(caller_entries)@))
            &&& (sender@ == old(state).config.authorized_liquidity_provider@ ==> (
            r matches Ok(out) && provide_liquidity_post(
                old(state).config,
                old(state).counter.value,
                old(state).continuations.records@,
                *final(state),
                proxy_address,
                assets,
                slippage_tolerance,
                auto_stake,
                Some(old(state).config.authorized_liquidity_provider),
                NextAction::IncreaseAllowance,
                funds,
                sender,
                out,
            ) && final(caller_entries)@ == old(caller_entries)@))
        })),
        (action matches ExecuteAction::ProvidePairForReward {
            assets,
            slippage_tolerance,
            auto_stake,
        } ==> (r matches Ok(out) && provide_liquidity_post(
            old(state).config,
            old(state).counter.value,
            old(state).continuations.records@,
            *final(state),
            proxy_address,
            assets,
            slippage_tolerance,
            auto_stake,
            Some(old(state).config.pair_lp_tokens_holder),
            NextAction::TransferFromFundsOwner,
            funds,
            sender,
            out,
        ) && final(caller_entries)@ == old(caller_entries)@)),
        (action matches ExecuteAction::ProvideNativeForReward {
            amount,
            slippage_tolerance,
            auto_stake,
        } ==> (pool_assets matches Some(pool) ==> (r matches Ok(out) && (exists|p: AssetPair|
            is_native_reward_pair(p, old(state).config, amount) && transfer_custom_post(
                old(state).config,
                old(state).counter.value,
                old(state).continuations.records@,
                *final(state),
                now_nanos,
                proxy_address,
                pool,
                old(caller_entries)@,
                final(caller_entries)@,
                p,
                slippage_tolerance,
                auto_stake,
                Some(old(state).config.native_investment_receive_wallet),
                funds,
                sender,
                false,
                out,
            ))))),
        (action matches ExecuteAction::Swap { offer_asset, belief_price, max_spread, to } ==> ({
            &&& final(caller_entries)@ == old(caller_entries)@
            &&& (!offer_asset.info.spec_is_native_token() ==> (r matches Err(e) && e
                == ProxyError::Unauthorized && *final(state) == *old(state)))
            &&& (offer_asset.info.spec_is_native_token() && old(state).config.swap_opening_date_nanos
                > now_nanos ==> (r matches Err(e) && e == (ProxyError::SwapNotOpen {
                opening_nanos: old(state).config.swap_opening_date_nanos,
            }) && *final(state) == *old(state)))
            &&& (offer_asset.info.spec_is_native_token() && old(state).config.swap_opening_date_nanos
                <= now_nanos ==> (r matches Ok(out) && swap_post(
                old(state).config,
                old(state).counter.value,
                old(state).continuations.records@,
                *final(state),
                sender,
                offer_asset,
                belief_price,
                max_spread,
                to,
                out,
            )))
        })),
        (action matches ExecuteAction::RewardClaim { receiver, withdrawal_amount } ==> (
        reward_claim_post(
            old(state).config,
            old(caller_entries)@,
            final(caller_entries)@,
            now_nanos,
            receiver,
            sender,
            withdrawal_amount,
            r,
        ) && *final(state) == *old(state))),
{
    match action {
        ExecuteAction::Configure { pool_pair_address, liquidity_token, swap_opening_date_nanos } => {
            configure(&mut state.config, pool_pair_address, liquidity_token, swap_opening_date_nanos);
            Ok(TransitionOutput { dispatches: Vec::new(), attributes: Vec::new(), data: None })
        },
        ExecuteAction::ReceiveSwap { hook_sender, amount, belief_price, max_spread, to } => {
            let to_address = match to {
                Some(t) => Some(t),
                None => Some(hook_sender),
            };
            Ok(forward_swap_to_astro(state, belief_price, max_spread, to_address, amount, funds))
        },
        ExecuteAction::ReceiveWithdrawLiquidity { amount, payload } => {
            withdraw_liquidity(&state.config, sender, amount, payload, funds)
        },
        ExecuteAction::ProvideLiquidity { assets, slippage_tolerance, auto_stake } => {
            if !(sender == state.config.authorized_liquidity_provider) {
                return Err(ProxyError::Unauthorized);
            }
            let receiver = Some(state.config.authorized_liquidity_provider.clone());
            Ok(
                provide_liquidity(
                    state,
                    proxy_address,
                    assets,
                    slippage_tolerance,
                    auto_stake,
                    receiver,
                    NextAction::IncreaseAllowance,
                    funds,
                    sender,
                ),
            )
        },
        ExecuteAction::ProvidePairForReward { assets, slippage_tolerance, auto_stake } => {
            let receiver = Some(state.config.pair_lp_tokens_holder.clone());
            Ok(
                provide_liquidity(
                    state,
                    proxy_address,
                    assets,
                    slippage_tolerance,
                    auto_stake,
                    receiver,
                    NextAction::TransferFromFundsOwner,
                    funds,
                    sender,
                ),
            )
        },
        ExecuteAction::ProvideNativeForReward { amount, slippage_tolerance, auto_stake } => {
            let pool = pool_assets.unwrap();
            Ok(
                provide_native_liquidity(
                    state,
                    now_nanos,
                    proxy_address,
                    pool,
                    caller_entries,
                    amount,
                    slippage_tolerance,
                    auto_stake,
                    funds,
                    sender,
                ),
            )
        },
        ExecuteAction::Swap { offer_asset, belief_price, max_spread, to } => {
            if !offer_asset.info.is_native_token() {
                return Err(ProxyError::Unauthorized);
            }
            swap(state, now_nanos, sender, offer_asset, belief_price, max_spread, to)
        },
        ExecuteAction::RewardClaim { receiver, withdrawal_amount } => {
            claim_investment_reward(
                &state.config,
                caller_entries,
                now_nanos,
                receiver,
                sender,
                withdrawal_amount,
            )
        },
    }
}

/// The asynchronous entry point: handles the completion notification for
/// `request_id`.  A failure outcome aborts the invocation; success with no
/// stored continuation passes the notification's events and data through
/// untouched; success with a continuation consumes it — at most once — and
/// performs exactly the step it names.
pub fn reply(
    state: &mut ProxyState,
    now_nanos: u64,
    proxy_address: String,
    request_id: u64,
    outcome: CompletionOutcome,
    user_entries: &mut Vec<BondedRewardEntry>,
    pool_assets: Option<AssetPair>,
    taxes: &Vec<u128>,
) -> (r: Result<TransitionOutput, ProxyError>)
    requires
        old(state).wf(),
        contains_id(old(state).continuations.records@, request_id) ==> ({
            let rec = record_for(old(state).continuations.records@, request_id);
            &&& (rec.next_action is IncreaseAllowance ==> old(state).counter.value < u64::MAX)
            &&& (rec.next_action is ProvideLiquidity ==> old(state).counter.value < u64::MAX
                && taxes@.len() == rec.funds@.len() && (forall|i: int|
                0 <= i < rec.funds@.len() ==> #[trigger] taxes@[i] <= rec.funds@[i].amount))
            &&& (rec.next_action is TransferToRewardWallet ==> rec.payload.receiver is Some
                && taxes@.len() == rec.funds@.len() && (forall|i: int|
                0 <= i < rec.funds@.len() ==> #[trigger] taxes@[i] <= rec.funds@[i].amount))
            &&& (rec.next_action is TransferFromFundsOwner ==> old(state).counter.value < u64::MAX
                && pool_assets is Some && old(state).config.pair_discount_rate <= 10000 && old(state).config.native_discount_rate <= 10000 && (rec.is_fury_provided
                ==> spec_token_amount(rec.payload.assets) <= u128::MAX / 2))
        }),
    ensures
        final(state).wf(),
        (outcome matches CompletionOutcome::Failure { error } ==> (r matches Err(e) && e == (
        ProxyError::SubOperationFailed { error }) && *final(state) == *old(state) && final(user_entries)@ == old(user_entries)@)),
        (outcome matches CompletionOutcome::Success { events, data } ==> (!contains_id(
            old(state).continuations.records@,
            request_id,
        ) ==> (r matches Ok(out) && out.dispatches@.len() == 0 && out.attributes@
            == flatten_attributes(events@) && out.data == data && *final(state) == *old(state)
            && final(user_entries)@ == old(user_entries)@))),
        ((outcome is Success && contains_id(old(state).continuations.records@, request_id)) ==> ({
            let s = old(state).continuations.records@;
            let rec = record_for(s, request_id);
            let remaining = ledger_without(s, request_id);
            &&& (rec.next_action is IncreaseAllowance ==> (r matches Ok(out) && incr_allow_post(
                old(state).config,
                old(state).counter.value,
                remaining,
                *final(state),
                rec.payload.assets,
                rec.payload.slippage_tolerance,
                rec.payload.auto_stake,
                rec.payload.receiver,
                rec.funds,
                rec.user_address,
                rec.is_fury_provided,
                out,
            ) && final(user_entries)@ == old(user_entries)@))
            &&& (rec.next_action is ProvideLiquidity ==> (r matches Ok(out)
                && forward_provide_post(
                old(state).config,
                old(state).counter.value,
                remaining,
                *final(state),
                rec.payload.assets,
                rec.payload.slippage_tolerance,
                rec.payload.auto_stake,
                rec.payload.receiver,
                rec.funds,
                taxes@,
                out,
            ) && final(user_entries)@ == old(user_entries)@))
            &&& (rec.next_action is TransferToRewardWallet ==> (r matches Ok(out)
                && transfer_native_post(rec.payload.receiver, rec.funds, taxes@, out) && final(state).config == old(state).config && final(state).counter == old(state).counter && final(state).continuations.records@ == remaining && final(user_entries)@ == old(user_entries)@))
            &&& (rec.next_action is TransferFromFundsOwner ==> (pool_assets matches Some(pool)
                && r matches Ok(out) && transfer_custom_post(
                old(state).config,
                old(state).counter.value,
                remaining,
                *final(state),
                now_nanos,
                proxy_address,
                pool,
                old(user_entries)@,
                final(user_entries)@,
                rec.payload.assets,
                rec.payload.slippage_tolerance,
                rec.payload.auto_stake,
                rec.payload.receiver,
                rec.funds,
                rec.user_address,
                rec.is_fury_provided,
                out,
            )))
        })),
{
    match outcome {
        CompletionOutcome::Failure { error } => Err(ProxyError::SubOperationFailed { error }),
        CompletionOutcome::Success { events, data } => {
            let taken = state.continuations.take(request_id);
            match taken {
                None => {
                    let attributes = flatten_events(&events);
                    Ok(TransitionOutput { dispatches: Vec::new(), attributes, data })
                },
                Some(rec) => {
                    proof {
                        let s = old(state).continuations.records@;
                        let k = index_of_id(s, request_id);
                        assert forall|j: int|
                            0 <= j < state.continuations.records@.len() implies #[trigger] state
                            .continuations.records@[j].request_id <= state.counter.value by {
                            let jj: int = if j < k {
                                j
                            } else {
                                j + 1
                            };
                            assert(state.continuations.records@[j] == s[jj]);
                        }
                    }
                    let next_action = rec.next_action;
                    let payload = rec.payload;
                    let funds = rec.funds;
                    let user_address = rec.user_address;
                    let is_fury_provided = rec.is_fury_provided;
                    match next_action {
                        NextAction::TransferFromFundsOwner => {
                            let pool = pool_assets.unwrap();
                            Ok(
                                transfer_custom_assets_from_funds_owner_to_proxy(
                                    state,
                                    now_nanos,
                                    proxy_address,
                                    pool,
                                    user_entries,
                                    payload.assets,
                                    payload.slippage_tolerance,
                                    payload.auto_stake,
                                    payload.receiver,
                                    funds,
                                    user_address,
                                    is_fury_provided,
                                ),
                            )
                        },
                        NextAction::TransferToRewardWallet => {
                            Ok(
                                transfer_native_assets_to_native_investment_receive_wallet(
                                    payload.receiver,
                                    funds,
                                    taxes,
                                ),
                            )
                        },
                        NextAction::IncreaseAllowance => {
                            Ok(
                                incr_allow_for_provide_liquidity(
                                    state,
                                    payload.assets,
                                    payload.slippage_tolerance,
                                    payload.auto_stake,
                                    payload.receiver,
                                    funds,
                                    user_address,
                                    is_fury_provided,
                                ),
                            )
                        },
                        NextAction::ProvideLiquidity => {
                            Ok(
                                forward_provide_liquidity_to_astro(
                                    state,
                                    payload.assets,
                                    payload.slippage_tolerance,
                                    payload.auto_stake,
                                    payload.receiver,
                                    funds,
                                    taxes,
                                ),
                            )
                        },
                    }
                },
            }
        },
    }
}


} // verus!
