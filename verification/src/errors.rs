use vstd::prelude::*;

verus! {

/// Every way an operation can refuse a request. Each failing precondition
/// maps to exactly one variant; a failed operation leaves the account
/// record untouched.
#[derive(Clone, Copy, Debug, PartialEq, Eq, Structural)]
pub enum ErrorCode {
    /// The target health factor must be greater than the trigger health factor.
    InvalidHealthFactors,
    /// Automation is not enabled.
    AutomationNotEnabled,
    /// The health factor is above the trigger threshold.
    NoTriggerNeeded,
    /// The recurring-purchase interval must be positive.
    InvalidInterval,
    /// The token amount must be positive.
    InvalidAmount,
    /// The recurring-purchase feature is not enabled.
    DCANotEnabled,
    /// The requested token does not match the configured token.
    TokenMismatch,
    /// The target price must be positive.
    InvalidPrice,
    /// Price-triggered trading is not enabled.
    PriceTradingNotEnabled,
    /// The current price is still above the target price.
    PriceNotMet,
}

} // verus!
