//! The proxy's configuration: addresses, discount rates, bonding periods and
//! the swap-opening timestamp.  Read fresh on every invocation, mutated only
//! by an explicit configuration action.

use vstd::prelude::*;

verus! {

/// The proxy's singleton configuration.  Addresses arrive here already
/// validated by the host; timestamps are nanoseconds since the epoch.
#[derive(Clone, Debug, PartialEq, Eq)]
pub struct Config {
    /// Contract address of the custom token.
    pub custom_token_address: String,
    /// Discount rate, in basis points, for pair (token + native) reward
    /// contributions.
    pub pair_discount_rate: u16,
    /// Bonding period, in seconds, for pair reward contributions.
    pub pair_bonding_period_in_sec: u64,
    /// Wallet the custom tokens for pair reward contributions are pulled from.
    pub pair_fury_reward_wallet: String,
    /// Discount rate, in basis points, for native-only reward contributions.
    pub native_discount_rate: u16,
    /// Bonding period, in seconds, for native-only reward contributions.
    pub native_bonding_period_in_sec: u64,
    /// Wallet the custom tokens for native-only contributions are pulled from.
    pub native_investment_reward_wallet: String,
    /// The only caller allowed to provide liquidity directly.
    pub authorized_liquidity_provider: String,
    /// Wallet the leftover native funds of a native-only contribution are
    /// forwarded to.
    pub native_investment_receive_wallet: String,
    /// When swapping (and claiming) opens, in nanoseconds since the epoch.
    pub swap_opening_date_nanos: u64,
    /// The pool pair contract the proxy forwards to.
    pub pool_pair_address: String,
    /// Holder of the pool-share tokens earned by reward contributions.
    pub pair_lp_tokens_holder: String,
    /// The pool-share token contract; only it may ask to withdraw liquidity.
    pub liquidity_token: String,
}

/// Both discount rates stay within 100% (10000 basis points); a larger rate
/// has no meaning and the discount arithmetic rules it out.
pub open spec fn rates_valid(cfg: Config) -> bool {
    cfg.pair_discount_rate <= 10000 && cfg.native_discount_rate <= 10000
}

/// Builds the initial configuration from the one-time setup message.  The
/// pool pair address is optional at setup; the pool-share token is learned
/// later through a configuration action and starts empty.
pub fn new_config(
    custom_token_address: String,
    pair_discount_rate: u16,
    pair_bonding_period_in_sec: u64,
    pair_fury_reward_wallet: String,
    native_discount_rate: u16,
    native_bonding_period_in_sec: u64,
    native_investment_reward_wallet: String,
    authorized_liquidity_provider: String,
    native_investment_receive_wallet: String,
    swap_opening_date_nanos: u64,
    pool_pair_address: Option<String>,
    pair_lp_tokens_holder: String,
) -> (cfg: Config)
    ensures
        cfg.custom_token_address == custom_token_address,
        cfg.pair_discount_rate == pair_discount_rate,
        cfg.pair_bonding_period_in_sec == pair_bonding_period_in_sec,
        cfg.pair_fury_reward_wallet == pair_fury_reward_wallet,
        cfg.native_discount_rate == native_discount_rate,
        cfg.native_bonding_period_in_sec == native_bonding_period_in_sec,
        cfg.native_investment_reward_wallet == native_investment_reward_wallet,
        cfg.authorized_liquidity_provider == authorized_liquidity_provider,
        cfg.native_investment_receive_wallet == native_investment_receive_wallet,
        cfg.swap_opening_date_nanos == swap_opening_date_nanos,
        pool_pair_address matches Some(p) ==> cfg.pool_pair_address == p,
        pool_pair_address is None ==> cfg.pool_pair_address@ == Seq::<char>::empty(),
        cfg.pair_lp_tokens_holder == pair_lp_tokens_holder,
        cfg.liquidity_token@ == Seq::<char>::empty(),
{
    let pool_addr: String = match pool_pair_address {
        Some(p) => p,
        None => String::new(),
    };
    Config {
        custom_token_address,
        pair_discount_rate,
        pair_bonding_period_in_sec,
        pair_fury_reward_wallet,
        native_discount_rate,
        native_bonding_period_in_sec,
        native_investment_reward_wallet,
        authorized_liquidity_provider,
        native_investment_receive_wallet,
        swap_opening_date_nanos,
        pool_pair_address: pool_addr,
        pair_lp_tokens_holder,
        liquidity_token: String::new(),
    }
}

/// What a configuration action does: optionally replaces the pool pair
/// address and the pool-share token, always sets the swap-opening time, and
/// leaves everything else as it was.
pub open spec fn configure_post(
    pre: Config,
    post: Config,
    pool_pair_address: Option<String>,
    liquidity_token: Option<String>,
    swap_opening_date_nanos: u64,
) -> bool {
    &&& (pool_pair_address matches Some(p) ==> post.pool_pair_address == p)
    &&& (pool_pair_address is None ==> post.pool_pair_address == pre.pool_pair_address)
    &&& (liquidity_token matches Some(t) ==> post.liquidity_token == t)
    &&& (liquidity_token is None ==> post.liquidity_token == pre.liquidity_token)
    &&& post.swap_opening_date_nanos == swap_opening_date_nanos
    &&& post.custom_token_address == pre.custom_token_address
    &&& post.pair_discount_rate == pre.pair_discount_rate
    &&& post.pair_bonding_period_in_sec == pre.pair_bonding_period_in_sec
    &&& post.pair_fury_reward_wallet == pre.pair_fury_reward_wallet
    &&& post.native_discount_rate == pre.native_discount_rate
    &&& post.native_bonding_period_in_sec == pre.native_bonding_period_in_sec
    &&& post.native_investment_reward_wallet == pre.native_investment_reward_wallet
    &&& post.authorized_liquidity_provider == pre.authorized_liquidity_provider
    &&& post.native_investment_receive_wallet == pre.native_investment_receive_wallet
    &&& post.pair_lp_tokens_holder == pre.pair_lp_tokens_holder
}

/// Applies a configuration action; see [`configure_post`].
pub fn configure(
    cfg: &mut Config,
    pool_pair_address: Option<String>,
    liquidity_token: Option<String>,
    swap_opening_date_nanos: u64,
)
    ensures
        configure_post(
            *old(cfg),
            *final(cfg),
            pool_pair_address,
            liquidity_token,
            swap_opening_date_nanos,
        ),
{
    if let Some(p) = pool_pair_address {
        cfg.pool_pair_address = p;
    }
    if let Some(t) = liquidity_token {
        cfg.liquidity_token = t;
    }
    cfg.swap_opening_date_nanos = swap_opening_date_nanos;
}

/// Replaces the swap-opening time and nothing else.
pub fn set_swap_opening_date(cfg: &mut Config, swap_opening_date_nanos: u64)
    ensures
        *final(cfg) == (Config { swap_opening_date_nanos, ..*old(cfg) }),
{
    cfg.swap_opening_date_nanos = swap_opening_date_nanos;
}

/// Name and version recorded at setup so a later migration can tell what it
/// upgrades from.
#[derive(Clone, Debug, PartialEq, Eq)]
pub struct ContractVersion {
    pub contract: String,
    pub version: String,
}

/// Builds the version record stored at setup.
pub fn set_contract_version(name: String, version: String) -> (v: ContractVersion)
    ensures
        v.contract == name,
        v.version == version,
{
    ContractVersion { contract: name, version }
}

} // verus!
