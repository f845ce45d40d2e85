//! The orchestration engine's building blocks: the proxy's persisted state
//! and the per-step transitions that pick one sub-operation each, write the
//! continuation its completion will resume, and hand back what to dispatch.

use vstd::prelude::*;

use crate::config::Config;
use crate::continuations::{
    contains_id, unique_ids, ContinuationLedger, ContinuationRecord, LiquidityParams, NextAction,
};
use crate::error::ProxyError;
use crate::ids::RequestIdCounter;
use crate::math::{mul_div_or_zero, net_funds, spec_min_u128, spec_mul_div_or_zero, spec_net_funds};
use crate::types::{
    spec_token_amount, token_amount, Asset, AssetInfo, AssetPair, Attribute, Coin, Dispatch,
    FixedDec, TransitionOutput,
};
use crate::vesting::{
    bonding_start, claim, matured_total, no_claim_error, record_bond, spec_bonding_start,
    surviving, total_bonded, unlock_time_secs, BondedRewardEntry,
};

verus! {

/// The proxy's persisted state apart from the per-user vesting lists: the
/// configuration, the request-id counter and the continuation ledger.
pub struct ProxyState {
    pub config: Config,
    pub counter: RequestIdCounter,
    pub continuations: ContinuationLedger,
}

impl ProxyState {
    /// Stored request ids are unique and never ahead of the counter, so the
    /// next issued id is always fresh.
    pub open spec fn wf(&self) -> bool {
        &&& unique_ids(self.continuations.records@)
        &&& forall|i: int|
            0 <= i < self.continuations.records@.len()
                ==> #[trigger] self.continuations.records@[i].request_id <= self.counter.value
    }

    /// The state right after setup: the given configuration, no issued ids,
    /// no pending continuations.
    pub fn init(config: Config) -> (s: ProxyState)
        ensures
            s.wf(),
            s.config == config,
            s.counter.value == 0,
            s.continuations.records@ == Seq::<ContinuationRecord>::empty(),
    {
        ProxyState {
            config,
            counter: RequestIdCounter::new(),
            continuations: ContinuationLedger::new(),
        }
    }
}

/// Issues the next request id; by the state invariant it is fresh in the
/// ledger.
fn allocate_id(state: &mut ProxyState) -> (id: u64)
    requires
        old(state).wf(),
        old(state).counter.value < u64::MAX,
    ensures
        final(state).wf(),
        id == old(state).counter.value + 1,
        final(state).counter.value == id,
        final(state).config == old(state).config,
        final(state).continuations == old(state).continuations,
        !contains_id(final(state).continuations.records@, id),
{
    let id = state.counter.next_id();
    proof {
        assert forall|k: int| 0 <= k < state.continuations.records@.len() implies #[trigger] state
            .continuations.records@[k].request_id != id by {}
    }
    id
}

/// Stores a continuation under an id the counter has already covered.
fn store_continuation(state: &mut ProxyState, rec: ContinuationRecord)
    requires
        old(state).wf(),
        rec.request_id <= old(state).counter.value,
        !contains_id(old(state).continuations.records@, rec.request_id),
    ensures
        final(state).wf(),
        final(state).config == old(state).config,
        final(state).counter == old(state).counter,
        final(state).continuations.records@ == old(state).continuations.records@.push(rec),
{
    let ghost c = state.counter.value;
    let ghost s = state.continuations.records@;
    state.continuations.store(rec);
    proof {
        assert forall|i: int| 0 <= i < state.continuations.records@.len() implies #[trigger] state
            .continuations.records@[i].request_id <= c by {
            if i < s.len() {
                assert(state.continuations.records@[i] == s[i]);
            }
        }
    }
}

/// Builds the single `action` attribute every step reports.
fn action_attribute(value: &str) -> (a: Attribute)
    ensures
        a.key@ == "action"@,
        a.value@ == value@,
{
    Attribute { key: "action".to_owned(), value: value.to_owned() }
}

/// What `provide_liquidity` does: issue one id, store the continuation that
/// resumes with `next_action`, and dispatch the pull of the custom-token side
/// from the user's wallet into the proxy.
pub open spec fn provide_liquidity_post(
    cfg: Config,
    old_counter: u64,
    old_ledger: Seq<ContinuationRecord>,
    post: ProxyState,
    proxy_address: String,
    assets: AssetPair,
    slippage_tolerance: Option<FixedDec>,
    auto_stake: Option<bool>,
    receiver: Option<String>,
    next_action: NextAction,
    funds: Vec<Coin>,
    user_address: String,
    out: TransitionOutput,
) -> bool {
    &&& post.config == cfg
    &&& post.counter.value == old_counter + 1
    &&& post.continuations.records@ == old_ledger.push(
        (ContinuationRecord {
            request_id: (old_counter + 1) as u64,
            next_action,
            payload: (LiquidityParams { assets, slippage_tolerance, auto_stake, receiver }),
            funds,
            user_address,
            is_fury_provided: true,
        }),
    )
    &&& out.dispatches@ == seq![
        (Dispatch::TransferFrom {
            token: cfg.custom_token_address,
            owner: user_address,
            recipient: proxy_address,
            amount: spec_token_amount(assets),
            reply_id: (old_counter + 1) as u64,
        }),
    ]
    &&& out.attributes@.len() == 1 && out.attributes@[0].key@ == "action"@
    &&& out.data is None
}

/// Starts a liquidity chain: pulls the custom-token side from the user into
/// the proxy and leaves a continuation that resumes with `next_action` when
/// the pull completes.
pub fn provide_liquidity(
    state: &mut ProxyState,
    proxy_address: String,
    assets: AssetPair,
    slippage_tolerance: Option<FixedDec>,
    auto_stake: Option<bool>,
    receiver: Option<String>,
    next_action: NextAction,
    funds: Vec<Coin>,
    user_address: String,
) -> (out: TransitionOutput)
    requires
        old(state).wf(),
        old(state).counter.value < u64::MAX,
    ensures
        final(state).wf(),
        provide_liquidity_post(
            old(state).config,
            old(state).counter.value,
            old(state).continuations.records@,
            *final(state),
            proxy_address,
            assets,
            slippage_tolerance,
            auto_stake,
            receiver,
            next_action,
            funds,
            user_address,
            out,
        ),
{
    let amount = token_amount(&assets);
    let id = allocate_id(state);
    let d = Dispatch::TransferFrom {
        token: state.config.custom_token_address.clone(),
        owner: user_address.clone(),
        recipient: proxy_address,
        amount,
        reply_id: id,
    };
    let ghost gd = d;
    store_continuation(
        state,
        ContinuationRecord {
            request_id: id,
            next_action,
            payload: LiquidityParams { assets, slippage_tolerance, auto_stake, receiver },
            funds,
            user_address,
            is_fury_provided: true,
        },
    );
    let mut dispatches: Vec<Dispatch> = Vec::new();
    dispatches.push(d);
    let mut attributes: Vec<Attribute> = Vec::new();
    attributes.push(action_attribute("Transferring tokens for Provide Liquidity"));
    proof {
        assert(dispatches@ =~= seq![gd]);
    }
    TransitionOutput { dispatches, attributes, data: None }
}

/// What `incr_allow_for_provide_liquidity` does: issue one id, store the
/// continuation that forwards the liquidity call next, and dispatch the
/// allowance grant that lets the pool spend the tokens the proxy now holds.
pub open spec fn incr_allow_post(
    cfg: Config,
    old_counter: u64,
    old_ledger: Seq<ContinuationRecord>,
    post: ProxyState,
    assets: AssetPair,
    slippage_tolerance: Option<FixedDec>,
    auto_stake: Option<bool>,
    receiver: Option<String>,
    funds: Vec<Coin>,
    user_address: String,
    is_fury_provided: bool,
    out: TransitionOutput,
) -> bool {
    &&& post.config == cfg
    &&& post.counter.value == old_counter + 1
    &&& post.continuations.records@ == old_ledger.push(
        (ContinuationRecord {
            request_id: (old_counter + 1) as u64,
            next_action: NextAction::ProvideLiquidity,
            payload: (LiquidityParams { assets, slippage_tolerance, auto_stake, receiver }),
            funds,
            user_address,
            is_fury_provided,
        }),
    )
    &&& out.dispatches@ == seq![
        (Dispatch::IncreaseAllowance {
            token: cfg.custom_token_address,
            spender: cfg.pool_pair_address,
            amount: spec_token_amount(assets),
            reply_id: (old_counter + 1) as u64,
        }),
    ]
    &&& out.attributes@.len() == 1 && out.attributes@[0].key@ == "action"@
    &&& out.data is None
}

/// Grants the pool an allowance over the custom tokens just pulled into the
/// proxy, and leaves a continuation that forwards the liquidity call when the
/// grant completes.
pub fn incr_allow_for_provide_liquidity(
    state: &mut ProxyState,
    assets: AssetPair,
    slippage_tolerance: Option<FixedDec>,
    auto_stake: Option<bool>,
    receiver: Option<String>,
    funds: Vec<Coin>,
    user_address: String,
    is_fury_provided: bool,
) -> (out: TransitionOutput)
    requires
        old(state).wf(),
        old(state).counter.value < u64::MAX,
    ensures
        final(state).wf(),
        incr_allow_post(
            old(state).config,
            old(state).counter.value,
            old(state).continuations.records@,
            *final(state),
            assets,
            slippage_tolerance,
            auto_stake,
            receiver,
            funds,
            user_address,
            is_fury_provided,
            out,
        ),
{
    let amount = token_amount(&assets);
    let id = allocate_id(state);
    let d = Dispatch::IncreaseAllowance {
        token: state.config.custom_token_address.clone(),
        spender: state.config.pool_pair_address.clone(),
        amount,
        reply_id: id,
    };
    let ghost gd = d;
    store_continuation(
        state,
        ContinuationRecord {
            request_id: id,
            next_action: NextAction::ProvideLiquidity,
            payload: LiquidityParams { assets, slippage_tolerance, auto_stake, receiver },
            funds,
            user_address,
            is_fury_provided,
        },
    );
    let mut dispatches: Vec<Dispatch> = Vec::new();
    dispatches.push(d);
    let mut attributes: Vec<Attribute> = Vec::new();
    attributes.push(
        action_attribute("Increase Allowance for proxy contract to Provide Liquidity"),
    );
    proof {
        assert(dispatches@ =~= seq![gd]);
    }
    TransitionOutput { dispatches, attributes, data: None }
}

/// What `forward_provide_liquidity_to_astro` does: issue one id and forward
/// the liquidity call to the pool with the attached funds netted of tax; the
/// chain ends here, so no continuation is stored and the completion passes
/// through.
pub open spec fn forward_provide_post(
    cfg: Config,
    old_counter: u64,
    old_ledger: Seq<ContinuationRecord>,
    post: ProxyState,
    assets: AssetPair,
    slippage_tolerance: Option<FixedDec>,
    auto_stake: Option<bool>,
    receiver: Option<String>,
    funds: Vec<Coin>,
    taxes: Seq<u128>,
    out: TransitionOutput,
) -> bool {
    &&& post.config == cfg
    &&& post.counter.value == old_counter + 1
    &&& post.continuations.records@ == old_ledger
    &&& out.dispatches@.len() == 1
    &&& (out.dispatches@[0] matches Dispatch::ProvideLiquidity {
        pool,
        assets: a2,
        slippage_tolerance: st2,
        auto_stake: as2,
        receiver: r2,
        funds: f2,
        reply_id: rid,
    } && pool == cfg.pool_pair_address && a2 == assets && st2 == slippage_tolerance && as2
        == auto_stake && r2 == receiver && f2@ == spec_net_funds(funds@, taxes) && rid == (
    old_counter + 1) as u64)
    &&& out.attributes@.len() == 1 && out.attributes@[0].key@ == "action"@
    &&& out.data is None
}

/// Forwards the liquidity call to the pool, netting each attached coin of the
/// tax the host computed for it.  Terminal: no continuation is stored, so the
/// completion notification passes through.
pub fn forward_provide_liquidity_to_astro(
    state: &mut ProxyState,
    assets: AssetPair,
    slippage_tolerance: Option<FixedDec>,
    auto_stake: Option<bool>,
    receiver: Option<String>,
    funds: Vec<Coin>,
    taxes: &Vec<u128>,
) -> (out: TransitionOutput)
    requires
        old(state).wf(),
        old(state).counter.value < u64::MAX,
        taxes@.len() == funds@.len(),
        forall|i: int| 0 <= i < funds@.len() ==> #[trigger] taxes@[i] <= funds@[i].amount,
    ensures
        final(state).wf(),
        forward_provide_post(
            old(state).config,
            old(state).counter.value,
            old(state).continuations.records@,
            *final(state),
            assets,
            slippage_tolerance,
            auto_stake,
            receiver,
            funds,
            taxes@,
            out,
        ),
{
    let funds_to_pass = net_funds(&funds, taxes);
    let id = allocate_id(state);
    let d = Dispatch::ProvideLiquidity {
        pool: state.config.pool_pair_address.clone(),
        assets,
        slippage_tolerance,
        auto_stake,
        receiver,
        funds: funds_to_pass,
        reply_id: id,
    };
    let ghost gd = d;
    let mut dispatches: Vec<Dispatch> = Vec::new();
    dispatches.push(d);
    let mut attributes: Vec<Attribute> = Vec::new();
    attributes.push(action_attribute("Sending provide liquidity message"));
    proof {
        assert(dispatches@ =~= seq![gd]);
    }
    TransitionOutput { dispatches, attributes, data: None }
}

/// What `forward_swap_to_astro` does: issue one id and wrap the sale in a
/// transfer-and-notify envelope to the pool.  Terminal: no continuation is
/// stored.
pub open spec fn forward_swap_post(
    cfg: Config,
    old_counter: u64,
    old_ledger: Seq<ContinuationRecord>,
    post: ProxyState,
    belief_price: Option<FixedDec>,
    max_spread: Option<FixedDec>,
    to: Option<String>,
    amount: u128,
    funds: Vec<Coin>,
    out: TransitionOutput,
) -> bool {
    &&& post.config == cfg
    &&& post.counter.value == old_counter + 1
    &&& post.continuations.records@ == old_ledger
    &&& out.dispatches@ == seq![
        (Dispatch::TokenSendSwap {
            token: cfg.custom_token_address,
            pool: cfg.pool_pair_address,
            amount,
            belief_price,
            max_spread,
            to,
            funds,
            reply_id: (old_counter + 1) as u64,
        }),
    ]
    &&& out.attributes@.len() == 1 && out.attributes@[0].key@ == "action"@
    &&& out.data is None
}

/// Sells custom tokens to the pool: sends them to the pool with the swap
/// request attached.  Terminal: no continuation is stored.
pub fn forward_swap_to_astro(
    state: &mut ProxyState,
    belief_price: Option<FixedDec>,
    max_spread: Option<FixedDec>,
    to: Option<String>,
    amount: u128,
    funds: Vec<Coin>,
) -> (out: TransitionOutput)
    requires
        old(state).wf(),
        old(state).counter.value < u64::MAX,
    ensures
        final(state).wf(),
        forward_swap_post(
            old(state).config,
            old(state).counter.value,
            old(state).continuations.records@,
            *final(state),
            belief_price,
            max_spread,
            to,
            amount,
            funds,
            out,
        ),
{
    let id = allocate_id(state);
    let d = Dispatch::TokenSendSwap {
        token: state.config.custom_token_address.clone(),
        pool: state.config.pool_pair_address.clone(),
        amount,
        belief_price,
        max_spread,
        to,
        funds,
        reply_id: id,
    };
    let ghost gd = d;
    let mut dispatches: Vec<Dispatch> = Vec::new();
    dispatches.push(d);
    let mut attributes: Vec<Attribute> = Vec::new();
    attributes.push(action_attribute("Forwarding swap message to pool pair address"));
    proof {
        assert(dispatches@ =~= seq![gd]);
    }
    TransitionOutput { dispatches, attributes, data: None }
}

/// What the terminal native-funds transfer does: send the attached funds,
/// netted of tax, to the configured receive wallet.  No id is issued and no
/// state changes.
pub open spec fn transfer_native_post(
    receiver: Option<String>,
    funds: Vec<Coin>,
    taxes: Seq<u128>,
    out: TransitionOutput,
) -> bool {
    &&& out.dispatches@.len() == 1
    &&& (out.dispatches@[0] matches Dispatch::BankSend { to_address, funds: f2 } && Some(to_address)
        == receiver && f2@ == spec_net_funds(funds@, taxes))
    &&& out.attributes@.len() == 0
    &&& out.data is None
}

/// Sends the leftover native funds of a native-only contribution, netted of
/// tax, to the configured receive wallet.  Terminal.
pub fn transfer_native_assets_to_native_investment_receive_wallet(
    receiver: Option<String>,
    funds: Vec<Coin>,
    taxes: &Vec<u128>,
) -> (out: TransitionOutput)
    requires
        receiver is Some,
        taxes@.len() == funds@.len(),
        forall|i: int| 0 <= i < funds@.len() ==> #[trigger] taxes@[i] <= funds@[i].amount,
    ensures
        transfer_native_post(receiver, funds, taxes@, out),
{
    let funds_to_pass = net_funds(&funds, taxes);
    let d = Dispatch::BankSend { to_address: receiver.unwrap(), funds: funds_to_pass };
    let ghost gd = d;
    let mut dispatches: Vec<Dispatch> = Vec::new();
    dispatches.push(d);
    proof {
        assert(dispatches@ =~= seq![gd]);
    }
    TransitionOutput { dispatches, attributes: Vec::new(), data: None }
}

/// What a reward claim does, over every outcome: only the user themselves may
/// claim, only once the swap window has opened, and only in full — on success
/// exactly the requested amount leaves the ledger and is transferred to the
/// caller; any failure leaves the ledger untouched and reports why.
pub open spec fn reward_claim_post(
    cfg: Config,
    old_entries: Seq<BondedRewardEntry>,
    new_entries: Seq<BondedRewardEntry>,
    now_nanos: u64,
    receiver: String,
    sender: String,
    withdrawal_amount: u128,
    r: Result<TransitionOutput, ProxyError>,
) -> bool {
    let o = cfg.swap_opening_date_nanos;
    let mt = matured_total(old_entries, o, now_nanos);
    &&& (receiver@ != sender@ ==> (r matches Err(e) && e == ProxyError::Unauthorized && new_entries
        == old_entries))
    &&& (receiver@ == sender@ && now_nanos < o ==> (r matches Err(e) && e == (
    ProxyError::ClaimWindowNotOpen { opening_nanos: o }) && new_entries == old_entries))
    &&& (receiver@ == sender@ && now_nanos >= o ==> ({
        &&& ((r is Ok) <==> (withdrawal_amount > 0 && withdrawal_amount as int <= mt))
        &&& (r matches Ok(out) ==> new_entries == surviving(
            old_entries,
            withdrawal_amount as int,
            o,
            now_nanos,
        ) && total_bonded(new_entries) == total_bonded(old_entries) - withdrawal_amount
            && out.dispatches@.len() == 1 && (
        out.dispatches@[0] matches Dispatch::RewardTransfer { token, recipient, amount } && token
            == cfg.custom_token_address && recipient == receiver && amount == withdrawal_amount)
            && out.attributes@.len() == 1 && out.attributes@[0].key@ == "action"@ && out.data
            is None)
        &&& (r is Err ==> new_entries == old_entries)
        &&& (r matches Err(e) ==> e == (if withdrawal_amount == 0 || mt == 0 {
            no_claim_error(old_entries, o)
        } else {
            ProxyError::InsufficientClaimable { available: mt as u128 }
        }))
    }))
}

/// Pays out matured rewards; see [`reward_claim_post`] for the exact
/// behaviour over every outcome.
pub fn claim_investment_reward(
    cfg: &Config,
    entries: &mut Vec<BondedRewardEntry>,
    now_nanos: u64,
    receiver: String,
    sender: String,
    withdrawal_amount: u128,
) -> (r: Result<TransitionOutput, ProxyError>)
    requires
        total_bonded(old(entries)@) <= u128::MAX,
        forall|k: int|
            0 <= k < old(entries)@.len() ==> #[trigger] unlock_time_secs(
                old(entries)@[k],
                cfg.swap_opening_date_nanos,
            ) <= u64::MAX,
    ensures
        reward_claim_post(
            *cfg,
            old(entries)@,
            final(entries)@,
            now_nanos,
            receiver,
            sender,
            withdrawal_amount,
            r,
        ),
{
    if !(receiver == sender) {
        return Err(ProxyError::Unauthorized);
    }
    if now_nanos < cfg.swap_opening_date_nanos {
        return Err(
            ProxyError::ClaimWindowNotOpen { opening_nanos: cfg.swap_opening_date_nanos },
        );
    }
    match claim(entries, cfg.swap_opening_date_nanos, now_nanos, withdrawal_amount) {
        Err(e) => Err(e),
        Ok(transferred) => {
            let d = Dispatch::RewardTransfer {
                token: cfg.custom_token_address.clone(),
                recipient: receiver,
                amount: transferred,
            };
            let ghost gd = d;
            let mut dispatches: Vec<Dispatch> = Vec::new();
            dispatches.push(d);
            let mut attributes: Vec<Attribute> = Vec::new();
            attributes.push(action_attribute("claim_investment_reward"));
            proof {
                assert(dispatches@ =~= seq![gd]);
            }
            Ok(TransitionOutput { dispatches, attributes, data: None })
        },
    }
}

/// The native-coin amount offered alongside the custom token: the amount on
/// the other side of the first non-native slot, or 0 when both sides are
/// native.
pub open spec fn spec_ust_side_amount(p: AssetPair) -> u128 {
    if !p.first.info.spec_is_native_token() {
        p.second.amount
    } else if !p.second.info.spec_is_native_token() {
        p.first.amount
    } else {
        0
    }
}

/// How many custom tokens the pool currently values `ust` native coins at:
/// the native amount scaled by the pool's token/native balance ratio, zero on
/// a degenerate pool.
pub open spec fn spec_fury_equiv(pool: AssetPair, ust: u128) -> u128 {
    if pool.first.info.spec_is_native_token() {
        spec_mul_div_or_zero(ust, pool.second.amount, pool.first.amount)
    } else {
        spec_mul_div_or_zero(ust, pool.first.amount, pool.second.amount)
    }
}

/// The bonded reward a contribution earns: the reward-equivalent in custom
/// tokens — both sides of a pair contribution count, the equivalent capped at
/// what was actually provided — grossed up by the configured discount
/// (`x * 10000 / (10000 - rate)`, truncating).
pub open spec fn spec_reward_bond_amount(
    cfg: Config,
    pool: AssetPair,
    assets: AssetPair,
    is_fury_provided: bool,
) -> u128 {
    let equiv = spec_fury_equiv(pool, spec_ust_side_amount(assets));
    if is_fury_provided {
        let capped = spec_min_u128(equiv, spec_token_amount(assets));
        spec_mul_div_or_zero(
            (capped * 2) as u128,
            10000u128,
            (10000 - cfg.pair_discount_rate) as u128,
        )
    } else {
        spec_mul_div_or_zero(equiv, 10000u128, (10000 - cfg.native_discount_rate) as u128)
    }
}

/// What the reward-funded pull does: append the bonded reward entry for the
/// user, issue one id, store the continuation that resumes the chain, and
/// dispatch the pull of the reward-equivalent custom tokens from the
/// configured funds-owner wallet into the proxy.
pub open spec fn transfer_custom_post(
    cfg: Config,
    old_counter: u64,
    old_ledger: Seq<ContinuationRecord>,
    post: ProxyState,
    now_nanos: u64,
    proxy_address: String,
    pool_assets: AssetPair,
    old_entries: Seq<BondedRewardEntry>,
    new_entries: Seq<BondedRewardEntry>,
    assets: AssetPair,
    slippage_tolerance: Option<FixedDec>,
    auto_stake: Option<bool>,
    receiver: Option<String>,
    funds: Vec<Coin>,
    user_address: String,
    is_fury_provided: bool,
    out: TransitionOutput,
) -> bool {
    let amount = spec_reward_bond_amount(cfg, pool_assets, assets, is_fury_provided);
    let period = if is_fury_provided {
        cfg.pair_bonding_period_in_sec
    } else {
        cfg.native_bonding_period_in_sec
    };
    let wallet = if is_fury_provided {
        cfg.pair_fury_reward_wallet
    } else {
        cfg.native_investment_reward_wallet
    };
    let start = spec_bonding_start(now_nanos, cfg.swap_opening_date_nanos);
    &&& post.config == cfg
    &&& post.counter.value == old_counter + 1
    &&& new_entries == old_entries.push(
        (BondedRewardEntry {
            user_address,
            bonded_amount: amount,
            bonding_period: period,
            bonding_start_timestamp_nanos: start,
        }),
    )
    &&& post.continuations.records@ == old_ledger.push(
        (ContinuationRecord {
            request_id: (old_counter + 1) as u64,
            next_action: (if is_fury_provided {
                NextAction::IncreaseAllowance
            } else {
                NextAction::TransferToRewardWallet
            }),
            payload: (LiquidityParams { assets, slippage_tolerance, auto_stake, receiver }),
            funds,
            user_address,
            is_fury_provided,
        }),
    )
    &&& out.dispatches@ == seq![
        (Dispatch::TransferFrom {
            token: cfg.custom_token_address,
            owner: wallet,
            recipient: proxy_address,
            amount,
            reply_id: (old_counter + 1) as u64,
        }),
    ]
    &&& out.attributes@.len() == 1 && out.attributes@[0].key@ == "action"@
    &&& out.data is None
}

/// Starts (or resumes) a reward-funded chain: values the contribution against
/// the current pool balances, credits the user a time-locked reward entry —
/// written before the dispatch and not rolled back by later step failures —
/// and pulls the reward-equivalent custom tokens from the funds-owner wallet.
pub fn transfer_custom_assets_from_funds_owner_to_proxy(
    state: &mut ProxyState,
    now_nanos: u64,
    proxy_address: String,
    pool_assets: AssetPair,
    entries: &mut Vec<BondedRewardEntry>,
    assets: AssetPair,
    slippage_tolerance: Option<FixedDec>,
    auto_stake: Option<bool>,
    receiver: Option<String>,
    funds: Vec<Coin>,
    user_address: String,
    is_fury_provided: bool,
) -> (out: TransitionOutput)
    requires
        old(state).wf(),
        old(state).counter.value < u64::MAX,
        old(state).config.pair_discount_rate <= 10000,
        old(state).config.native_discount_rate <= 10000,
        is_fury_provided ==> spec_token_amount(assets) <= u128::MAX / 2,
    ensures
        final(state).wf(),
        transfer_custom_post(
            old(state).config,
            old(state).counter.value,
            old(state).continuations.records@,
            *final(state),
            now_nanos,
            proxy_address,
            pool_assets,
            old(entries)@,
            final(entries)@,
            assets,
            slippage_tolerance,
            auto_stake,
            receiver,
            funds,
            user_address,
            is_fury_provided,
            out,
        ),
{
    let ust_amount = if !assets.first.info.is_native_token() {
        assets.second.amount
    } else if !assets.second.info.is_native_token() {
        assets.first.amount
    } else {
        0
    };
    let mut fury_equiv = if pool_assets.first.info.is_native_token() {
        mul_div_or_zero(ust_amount, pool_assets.second.amount, pool_assets.first.amount)
    } else {
        mul_div_or_zero(ust_amount, pool_assets.first.amount, pool_assets.second.amount)
    };
    let fury_pre_discount: u128;
    let discounted_rate: u16;
    let bonding_period: u64;
    let funds_owner: String;
    if is_fury_provided {
        let fury_provided = token_amount(&assets);
        if fury_equiv > fury_provided {
            fury_equiv = fury_provided;
        }
        fury_pre_discount = fury_equiv * 2;
        discounted_rate = 10000 - state.config.pair_discount_rate;
        bonding_period = state.config.pair_bonding_period_in_sec;
        funds_owner = state.config.pair_fury_reward_wallet.clone();
    } else {
        fury_pre_discount = fury_equiv;
        discounted_rate = 10000 - state.config.native_discount_rate;
        bonding_period = state.config.native_bonding_period_in_sec;
        funds_owner = state.config.native_investment_reward_wallet.clone();
    }
    let total_fury_amount = mul_div_or_zero(fury_pre_discount, 10000, discounted_rate as u128);

    // The reward credit is written before the pull is dispatched; a failure
    // of a later step in the chain does not roll it back.
    let start = bonding_start(now_nanos, state.config.swap_opening_date_nanos);
    record_bond(entries, user_address.clone(), total_fury_amount, bonding_period, start);

    let id = allocate_id(state);
    let d = Dispatch::TransferFrom {
        token: state.config.custom_token_address.clone(),
        owner: funds_owner,
        recipient: proxy_address,
        amount: total_fury_amount,
        reply_id: id,
    };
    let ghost gd = d;
    store_continuation(
        state,
        ContinuationRecord {
            request_id: id,
            next_action: if is_fury_provided {
                NextAction::IncreaseAllowance
            } else {
                NextAction::TransferToRewardWallet
            },
            payload: LiquidityParams { assets, slippage_tolerance, auto_stake, receiver },
            funds,
            user_address,
            is_fury_provided,
        },
    );
    let mut dispatches: Vec<Dispatch> = Vec::new();
    dispatches.push(d);
    let mut attributes: Vec<Attribute> = Vec::new();
    attributes.push(action_attribute("Transferring fury from treasury funds owner to proxy"));
    proof {
        assert(dispatches@ =~= seq![gd]);
    }
    TransitionOutput { dispatches, attributes, data: None }
}

/// The asset pair a native-only contribution is valued as: the offered native
/// coins on one side, a zero amount of the custom token on the other.
pub open spec fn is_native_reward_pair(p: AssetPair, cfg: Config, amount: u128) -> bool {
    &&& (p.first.info matches AssetInfo::NativeToken { denom } && denom@ == "uusd"@)
    &&& p.first.amount == amount
    &&& (p.second.info matches AssetInfo::Token { contract_addr } && contract_addr
        == cfg.custom_token_address)
    &&& p.second.amount == 0
}

/// A native-only reward contribution: values the offered native coins as a
/// pair with a zero custom-token side and starts the reward-funded chain,
/// with the leftover funds bound for the configured receive wallet.
pub fn provide_native_liquidity(
    state: &mut ProxyState,
    now_nanos: u64,
    proxy_address: String,
    pool_assets: AssetPair,
    entries: &mut Vec<BondedRewardEntry>,
    amount: u128,
    slippage_tolerance: Option<FixedDec>,
    auto_stake: Option<bool>,
    funds: Vec<Coin>,
    user_address: String,
) -> (out: TransitionOutput)
    requires
        old(state).wf(),
        old(state).counter.value < u64::MAX,
        old(state).config.pair_discount_rate <= 10000,
        old(state).config.native_discount_rate <= 10000,
    ensures
        final(state).wf(),
        exists|p: AssetPair|
            is_native_reward_pair(p, old(state).config, amount) && transfer_custom_post(
                old(state).config,
                old(state).counter.value,
                old(state).continuations.records@,
                *final(state),
                now_nanos,
                proxy_address,
                pool_assets,
                old(entries)@,
                final(entries)@,
                p,
                slippage_tolerance,
                auto_stake,
                Some(old(state).config.native_investment_receive_wallet),
                funds,
                user_address,
                false,
                out,
            ),
{
    let assets = AssetPair {
        first: Asset { info: AssetInfo::NativeToken { denom: "uusd".to_owned() }, amount },
        second: Asset {
            info: AssetInfo::Token { contract_addr: state.config.custom_token_address.clone() },
            amount: 0,
        },
    };
    let ghost gpair = assets;
    let ghost gcfg = state.config;
    let receiver = Some(state.config.native_investment_receive_wallet.clone());
    let out = transfer_custom_assets_from_funds_owner_to_proxy(
        state,
        now_nanos,
        proxy_address,
        pool_assets,
        entries,
        assets,
        slippage_tolerance,
        auto_stake,
        receiver,
        funds,
        user_address,
        false,
    );
    proof {
        assert(is_native_reward_pair(gpair, gcfg, amount));
    }
    out
}

/// The funds a swap sends along: the offered coins themselves when the offer
/// is native, nothing otherwise.
pub open spec fn spec_swap_funds(a: Asset) -> Seq<Coin> {
    match a.info {
        AssetInfo::NativeToken { denom } => seq![(Coin { denom, amount: a.amount })],
        AssetInfo::Token { .. } => Seq::<Coin>::empty(),
    }
}

/// What a native swap does once the window is open: issue one id and forward
/// the swap to the pool, the recipient defaulting to the caller.  Terminal.
pub open spec fn swap_post(
    cfg: Config,
    old_counter: u64,
    old_ledger: Seq<ContinuationRecord>,
    post: ProxyState,
    sender: String,
    offer_asset: Asset,
    belief_price: Option<FixedDec>,
    max_spread: Option<FixedDec>,
    to: Option<String>,
    out: TransitionOutput,
) -> bool {
    &&& post.config == cfg
    &&& post.counter.value == old_counter + 1
    &&& post.continuations.records@ == old_ledger
    &&& out.dispatches@.len() == 1
    &&& (out.dispatches@[0] matches Dispatch::PoolSwap {
        pool,
        offer_asset: oa,
        belief_price: bp2,
        max_spread: ms2,
        to: t2,
        funds: f2,
        reply_id: rid,
    } && pool == cfg.pool_pair_address && oa == offer_asset && bp2 == belief_price && ms2
        == max_spread && t2 == (if to is Some {
        to
    } else {
        Some(sender)
    }) && f2@ == spec_swap_funds(offer_asset) && rid == (old_counter + 1) as u64)
    &&& out.attributes@.len() == 1 && out.attributes@[0].key@ == "action"@
    &&& out.data is None
}

/// Swaps an offer asset against the pool.  Rejected while the swap window has
/// not opened; otherwise one id is issued and the swap forwarded, with native
/// offers carried as attached funds and the proceeds going to `to` or, when
/// unset, back to the caller.
pub fn swap(
    state: &mut ProxyState,
    now_nanos: u64,
    sender: String,
    offer_asset: Asset,
    belief_price: Option<FixedDec>,
    max_spread: Option<FixedDec>,
    to: Option<String>,
) -> (r: Result<TransitionOutput, ProxyError>)
    requires
        old(state).wf(),
        old(state).counter.value < u64::MAX,
    ensures
        final(state).wf(),
        old(state).config.swap_opening_date_nanos > now_nanos ==> (r matches Err(e) && e == (
        ProxyError::SwapNotOpen { opening_nanos: old(state).config.swap_opening_date_nanos })
            && *final(state) == *old(state)),
        old(state).config.swap_opening_date_nanos <= now_nanos ==> (r matches Ok(out) && swap_post(
            old(state).config,
            old(state).counter.value,
            old(state).continuations.records@,
            *final(state),
            sender,
            offer_asset,
            belief_price,
            max_spread,
            to,
            out,
        )),
{
    if state.config.swap_opening_date_nanos > now_nanos {
        return Err(ProxyError::SwapNotOpen { opening_nanos: state.config.swap_opening_date_nanos });
    }
    let to_address = match to {
        Some(t) => Some(t),
        None => Some(sender),
    };
    let mut funds_to_send: Vec<Coin> = Vec::new();
    match &offer_asset.info {
        AssetInfo::NativeToken { denom } => {
            funds_to_send.push(Coin { denom: denom.clone(), amount: offer_asset.amount });
        },
        AssetInfo::Token { .. } => {},
    }
    proof {
        assert(funds_to_send@ =~= spec_swap_funds(offer_asset));
    }
    let id = allocate_id(state);
    let d = Dispatch::PoolSwap {
        pool: state.config.pool_pair_address.clone(),
        offer_asset,
        belief_price,
        max_spread,
        to: to_address,
        funds: funds_to_send,
        reply_id: id,
    };
    let ghost gd = d;
    let mut dispatches: Vec<Dispatch> = Vec::new();
    dispatches.push(d);
    let mut attributes: Vec<Attribute> = Vec::new();
    attributes.push(action_attribute("Sending swap message"));
    proof {
        assert(dispatches@ =~= seq![gd]);
    }
    Ok(TransitionOutput { dispatches, attributes, data: None })
}

/// What a wrapped withdraw request does: only the configured pool-share token
/// contract itself may hand the proxy such a request; anyone else is rejected
/// with no effect, and an accepted request is forwarded to the pool whole.
pub open spec fn withdraw_post(
    cfg: Config,
    sender: String,
    amount: u128,
    payload: Vec<u8>,
    funds: Vec<Coin>,
    r: Result<TransitionOutput, ProxyError>,
) -> bool {
    &&& (sender@ != cfg.liquidity_token@ ==> (r matches Err(e) && e == ProxyError::Unauthorized))
    &&& (sender@ == cfg.liquidity_token@ ==> (r matches Ok(out) && out.dispatches@.len() == 1 && (
    out.dispatches@[0] matches Dispatch::TokenSendWithdraw {
        token,
        pool,
        amount: a2,
        payload: p2,
        funds: f2,
    } && token == cfg.liquidity_token && pool == cfg.pool_pair_address && a2 == amount && p2
        == payload && f2 == funds) && out.attributes@.len() == 1 && out.attributes@[0].key@
        == "action"@ && out.data is None))
}

/// Forwards a burn/withdraw request to the pool, through the pool-share
/// token; see [`withdraw_post`].
pub fn withdraw_liquidity(
    cfg: &Config,
    sender: String,
    amount: u128,
    payload: Vec<u8>,
    funds: Vec<Coin>,
) -> (r: Result<TransitionOutput, ProxyError>)
    ensures
        withdraw_post(*cfg, sender, amount, payload, funds, r),
{
    if !(sender == cfg.liquidity_token) {
        return Err(ProxyError::Unauthorized);
    }
    let d = Dispatch::TokenSendWithdraw {
        token: cfg.liquidity_token.clone(),
        pool: cfg.pool_pair_address.clone(),
        amount,
        payload,
        funds,
    };
    let ghost gd = d;
    let mut dispatches: Vec<Dispatch> = Vec::new();
    dispatches.push(d);
    let mut attributes: Vec<Attribute> = Vec::new();
    attributes.push(action_attribute("Forwarding withdraw message to lptoken address"));
    proof {
        assert(dispatches@ =~= seq![gd]);
    }
    Ok(TransitionOutput { dispatches, attributes, data: None })
}

} // verus!
