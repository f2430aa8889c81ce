use vstd::prelude::*;

use crate::errors::ErrorCode;

verus! {

/// The three optional features a position can enable. Used to pick the
/// error reported when an operation needs a feature that is switched off.
#[derive(Clone, Copy, Debug, PartialEq, Eq, Structural)]
pub enum Feature {
    /// Automatic restoration of the health factor.
    Automation,
    /// The recurring purchase.
    Schedule,
    /// The price-triggered purchase.
    PriceTrading,
}

/// The error an operation reports when the given feature is not enabled.
pub open spec fn feature_disabled_error(kind: Feature) -> ErrorCode {
    match kind {
        Feature::Automation => ErrorCode::AutomationNotEnabled,
        Feature::Schedule => ErrorCode::DCANotEnabled,
        Feature::PriceTrading => ErrorCode::PriceTradingNotEnabled,
    }
}

/// Checks the ordering of the automation thresholds: the target must lie
/// strictly above the trigger, else restoring would not leave the fired
/// region.
pub fn validate_automation_params(trigger_health_factor: u64, target_health_factor: u64) -> (r: Result<
    (),
    ErrorCode,
>)
    ensures
        r is Ok <==> target_health_factor > trigger_health_factor,
        target_health_factor <= trigger_health_factor ==> r == Err::<(), ErrorCode>(
            ErrorCode::InvalidHealthFactors,
        ),
{
    if target_health_factor > trigger_health_factor {
        Ok(())
    } else {
        Err(ErrorCode::InvalidHealthFactors)
    }
}

/// Checks the recurring-purchase parameters: the interval is examined
/// first, then the amount; both must be positive.
pub fn validate_schedule_params(interval: u64, token_amount: u64) -> (r: Result<(), ErrorCode>)
    ensures
        r is Ok <==> interval > 0 && token_amount > 0,
        interval == 0 ==> r == Err::<(), ErrorCode>(ErrorCode::InvalidInterval),
        interval > 0 && token_amount == 0 ==> r == Err::<(), ErrorCode>(ErrorCode::InvalidAmount),
{
    if interval == 0 {
        Err(ErrorCode::InvalidInterval)
    } else if token_amount == 0 {
        Err(ErrorCode::InvalidAmount)
    } else {
        Ok(())
    }
}

/// Checks the price-trigger parameters: the target price is examined first,
/// then the amount; both must be positive.
pub fn validate_price_params(target_price: u64, token_amount: u64) -> (r: Result<(), ErrorCode>)
    ensures
        r is Ok <==> target_price > 0 && token_amount > 0,
        target_price == 0 ==> r == Err::<(), ErrorCode>(ErrorCode::InvalidPrice),
        target_price > 0 && token_amount == 0 ==> r == Err::<(), ErrorCode>(
            ErrorCode::InvalidAmount,
        ),
{
    if target_price == 0 {
        Err(ErrorCode::InvalidPrice)
    } else if token_amount == 0 {
        Err(ErrorCode::InvalidAmount)
    } else {
        Ok(())
    }
}

/// Checks that a feature flag is switched on, reporting the feature's own
/// not-enabled error otherwise.
pub fn validate_feature_enabled(flag: bool, kind: Feature) -> (r: Result<(), ErrorCode>)
    ensures
        r is Ok <==> flag,
        !flag ==> r == Err::<(), ErrorCode>(feature_disabled_error(kind)),
{
    if flag {
        Ok(())
    } else {
        Err(
            match kind {
                Feature::Automation => ErrorCode::AutomationNotEnabled,
                Feature::Schedule => ErrorCode::DCANotEnabled,
                Feature::PriceTrading => ErrorCode::PriceTradingNotEnabled,
            },
        )
    }
}

} // verus!
