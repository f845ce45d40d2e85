//! Plain-value models of the assets, funds and outputs that the proxy works
//! with.  Amounts are integers; fixed-point parameters that the proxy only
//! forwards are kept as their raw atomic representation.

use vstd::prelude::*;

verus! {

/// A native coin attached to a message: denomination and amount.
#[derive(Clone, Debug, PartialEq, Eq)]
pub struct Coin {
    pub denom: String,
    pub amount: u128,
}

/// A fixed-point decimal (slippage tolerance, belief price, maximum spread)
/// that the proxy carries through to the pool untouched, held as its raw
/// atomic representation.
#[derive(Clone, Copy, Debug, PartialEq, Eq, Structural)]
pub struct FixedDec {
    pub atomics: u128,
}

/// Identifies an asset: either a native coin or a custom, contract-managed
/// token.
#[derive(Clone, Debug, PartialEq, Eq)]
pub enum AssetInfo {
    NativeToken { denom: String },
    Token { contract_addr: String },
}

impl AssetInfo {
    /// Whether this asset is a native coin rather than a custom token.
    pub open spec fn spec_is_native_token(&self) -> bool {
        self matches AssetInfo::NativeToken { .. }
    }

    #[verifier::when_used_as_spec(spec_is_native_token)]
    pub fn is_native_token(&self) -> (b: bool)
        ensures
            b == self.spec_is_native_token(),
    {
        match self {
            AssetInfo::NativeToken { .. } => true,
            AssetInfo::Token { .. } => false,
        }
    }
}

/// An asset together with an amount of it.
#[derive(Clone, Debug, PartialEq, Eq)]
pub struct Asset {
    pub info: AssetInfo,
    pub amount: u128,
}

/// The two sides of a liquidity contribution, in the order the caller gave
/// them.
#[derive(Clone, Debug, PartialEq, Eq)]
pub struct AssetPair {
    pub first: Asset,
    pub second: Asset,
}

/// The amount of the custom token in a pair: the amount of the first
/// non-native side, or 0 when both sides are native.
pub open spec fn spec_token_amount(p: AssetPair) -> u128 {
    if !p.first.info.spec_is_native_token() {
        p.first.amount
    } else if !p.second.info.spec_is_native_token() {
        p.second.amount
    } else {
        0
    }
}

/// Executable counterpart of [`spec_token_amount`].
pub fn token_amount(p: &AssetPair) -> (amount: u128)
    ensures
        amount == spec_token_amount(*p),
{
    if !p.first.info.is_native_token() {
        p.first.amount
    } else if !p.second.info.is_native_token() {
        p.second.amount
    } else {
        0
    }
}

/// One key/value attribute of an emitted event.
#[derive(Clone, Debug, PartialEq, Eq)]
pub struct Attribute {
    pub key: String,
    pub value: String,
}

/// One event reported by a completed sub-operation.
#[derive(Clone, Debug, PartialEq, Eq)]
pub struct EventRecord {
    pub attributes: Vec<Attribute>,
}

/// A sub-operation the proxy asks the host to dispatch.  Each variant is the
/// typed form of one outgoing message; the host encodes and sends it.  A
/// `reply_id` is the correlation id under which the sub-operation's
/// completion will be reported back.
#[derive(Clone, Debug, PartialEq, Eq)]
pub enum Dispatch {
    /// Pull `amount` of the custom token from `owner` to `recipient`.
    TransferFrom { token: String, owner: String, recipient: String, amount: u128, reply_id: u64 },
    /// Allow `spender` to spend `amount` of the custom token held by the proxy.
    IncreaseAllowance { token: String, spender: String, amount: u128, reply_id: u64 },
    /// Provide the paired assets to the pool.
    ProvideLiquidity {
        pool: String,
        assets: AssetPair,
        slippage_tolerance: Option<FixedDec>,
        auto_stake: Option<bool>,
        receiver: Option<String>,
        funds: Vec<Coin>,
        reply_id: u64,
    },
    /// Sell `amount` of the custom token to the pool through a
    /// transfer-and-notify envelope.
    TokenSendSwap {
        token: String,
        pool: String,
        amount: u128,
        belief_price: Option<FixedDec>,
        max_spread: Option<FixedDec>,
        to: Option<String>,
        funds: Vec<Coin>,
        reply_id: u64,
    },
    /// Swap a native offer asset directly against the pool.
    PoolSwap {
        pool: String,
        offer_asset: Asset,
        belief_price: Option<FixedDec>,
        max_spread: Option<FixedDec>,
        to: Option<String>,
        funds: Vec<Coin>,
        reply_id: u64,
    },
    /// Forward a burn/withdraw request to the pool through the pool-share
    /// token, carrying the caller's encoded request untouched.
    TokenSendWithdraw { token: String, pool: String, amount: u128, payload: Vec<u8>, funds: Vec<Coin> },
    /// Send native funds directly to a wallet.
    BankSend { to_address: String, funds: Vec<Coin> },
    /// Transfer `amount` of the custom token to `recipient`.
    RewardTransfer { token: String, recipient: String, amount: u128 },
}

/// What one invocation of the proxy produces: the sub-operations to dispatch,
/// the event attributes to emit, and opaque data to attach to the reply.
#[derive(Clone, Debug, PartialEq, Eq)]
pub struct TransitionOutput {
    pub dispatches: Vec<Dispatch>,
    pub attributes: Vec<Attribute>,
    pub data: Option<Vec<u8>>,
}

} // verus!
