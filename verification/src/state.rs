use vstd::prelude::*;

verus! {

/// The health factor every fresh position starts with.
pub const INITIAL_HEALTH_FACTOR: u64 = 100;

/// An opaque 32-byte asset identifier, held as four 64-bit words so that
/// equality in contracts coincides with executable equality.
#[derive(Clone, Copy, Debug, PartialEq, Eq, Structural)]
pub struct Pubkey {
    pub w0: u64,
    pub w1: u64,
    pub w2: u64,
    pub w3: u64,
}

impl Pubkey {
    /// The all-zero identifier, standing where no asset has been configured yet.
    pub fn zero() -> (r: Pubkey)
        ensures
            r == (Pubkey { w0: 0u64, w1: 0u64, w2: 0u64, w3: 0u64 }),
    {
        Pubkey { w0: 0, w1: 0, w2: 0, w3: 0 }
    }
}

/// The per-account position record: the current health metric together with
/// the configuration of the three optional features. One instance exists per
/// account; every mutation flows through the engine functions of this crate
/// and is all-or-nothing.
#[derive(Clone, Copy, Debug, PartialEq, Eq, Structural)]
pub struct AccountState {
    /// Current risk metric; higher is safer.
    pub health_factor: u64,
    /// Health level at or below which automatic restoration fires.
    pub trigger_health_factor: u64,
    /// Health level automatic restoration restores to.
    pub target_health_factor: u64,
    /// Whether automatic restoration is configured.
    pub automation_enabled: bool,
    /// Recurring-purchase period in seconds.
    pub dca_interval: u64,
    /// Asset bought by the recurring purchase.
    pub token_address: Pubkey,
    /// Amount bought by the recurring purchase.
    pub token_amount: u64,
    /// Whether the recurring purchase is configured.
    pub dca_enabled: bool,
    /// Price at or below which the one-shot purchase fires.
    pub target_price: u64,
    /// Asset bought by the price-triggered purchase.
    pub price_token_address: Pubkey,
    /// Amount bought by the price-triggered purchase.
    pub price_token_amount: u64,
    /// Whether the price-triggered purchase is configured.
    pub price_trading_enabled: bool,
}

impl AccountState {
    /// The record's invariant: every enabled feature carries parameters that
    /// passed its validation. It holds of a fresh record and every operation
    /// preserves it.
    pub open spec fn wf(self) -> bool {
        &&& self.automation_enabled ==> self.target_health_factor > self.trigger_health_factor
        &&& self.dca_enabled ==> self.dca_interval > 0 && self.token_amount > 0
        &&& self.price_trading_enabled ==> self.target_price > 0 && self.price_token_amount > 0
    }
}

/// The record a fresh position holds: the starting health factor, every
/// feature disabled, and every parameter zeroed.
pub open spec fn initial_state() -> AccountState {
    AccountState {
        health_factor: INITIAL_HEALTH_FACTOR,
        trigger_health_factor: 0u64,
        target_health_factor: 0u64,
        automation_enabled: false,
        dca_interval: 0u64,
        token_address: Pubkey { w0: 0u64, w1: 0u64, w2: 0u64, w3: 0u64 },
        token_amount: 0u64,
        dca_enabled: false,
        target_price: 0u64,
        price_token_address: Pubkey { w0: 0u64, w1: 0u64, w2: 0u64, w3: 0u64 },
        price_token_amount: 0u64,
        price_trading_enabled: false,
    }
}

/// Creates a fresh position record. It starts at the initial health factor
/// with no feature configured, so the invariant holds from the start.
pub fn initialize() -> (account: AccountState)
    ensures
        account == initial_state(),
        account.wf(),
{
    AccountState {
        health_factor: INITIAL_HEALTH_FACTOR,
        trigger_health_factor: 0,
        target_health_factor: 0,
        automation_enabled: false,
        dca_interval: 0,
        token_address: Pubkey::zero(),
        token_amount: 0,
        dca_enabled: false,
        target_price: 0,
        price_token_address: Pubkey::zero(),
        price_token_amount: 0,
        price_trading_enabled: false,
    }
}

} // verus!
