use sifttt::auto_repay;
use sifttt::borrow;
use sifttt::initialize;
use sifttt::repay;
use sifttt::set_automation;
use sifttt::ErrorCode;

#[test]
fn fresh_account_starts_at_one_hundred() {
    let account = initialize();
    assert_eq!(account.health_factor, 100);
    assert_eq!(account.trigger_health_factor, 0);
    assert_eq!(account.target_health_factor, 0);
    assert!(!account.automation_enabled);
    assert!(!account.dca_enabled);
    assert!(!account.price_trading_enabled);
    assert_eq!(account.dca_interval, 0);
    assert_eq!(account.token_amount, 0);
    assert_eq!(account.target_price, 0);
    assert_eq!(account.price_token_amount, 0);
}

#[test]
fn set_automation_accepts_target_above_trigger() {
    let mut account = initialize();
    assert_eq!(set_automation(&mut account, 50, 80), Ok(()));
    assert!(account.automation_enabled);
    assert_eq!(account.trigger_health_factor, 50);
    assert_eq!(account.target_health_factor, 80);
    assert_eq!(account.health_factor, 100);
}

#[test]
fn set_automation_rejects_target_equal_to_trigger() {
    let mut account = initialize();
    assert_eq!(
        set_automation(&mut account, 50, 50),
        Err(ErrorCode::InvalidHealthFactors)
    );
    assert_eq!(account, initialize());
}

#[test]
fn set_automation_rejects_target_below_trigger() {
    let mut account = initialize();
    assert_eq!(
        set_automation(&mut account, 80, 50),
        Err(ErrorCode::InvalidHealthFactors)
    );
    assert!(!account.automation_enabled);
    assert_eq!(account.trigger_health_factor, 0);
    assert_eq!(account.target_health_factor, 0);
}

#[test]
fn evaluation_without_condition_never_mutates() {
    let mut account = initialize();
    assert_eq!(set_automation(&mut account, 50, 80), Ok(()));
    let before = account;
    assert!(!account.check_automation());
    assert_eq!(account, before);
    assert!(!account.check_automation());
    assert_eq!(account, before);
}

#[test]
fn evaluation_restores_exactly_to_target() {
    let mut account = initialize();
    assert_eq!(set_automation(&mut account, 50, 80), Ok(()));
    account.health_factor = 12;
    assert!(account.check_automation());
    assert_eq!(account.health_factor, 80);
}

#[test]
fn evaluation_fires_exactly_at_the_trigger_boundary() {
    let mut account = initialize();
    assert_eq!(set_automation(&mut account, 50, 80), Ok(()));
    account.health_factor = 50;
    assert!(account.check_automation());
    assert_eq!(account.health_factor, 80);
}

#[test]
fn evaluation_stays_quiet_just_above_the_trigger() {
    let mut account = initialize();
    assert_eq!(set_automation(&mut account, 50, 80), Ok(()));
    account.health_factor = 51;
    assert!(!account.check_automation());
    assert_eq!(account.health_factor, 51);
}

#[test]
fn evaluation_with_zero_trigger_never_fires() {
    let mut account = initialize();
    assert_eq!(set_automation(&mut account, 0, 1), Ok(()));
    account.health_factor = 0;
    assert!(!account.check_automation());
    assert_eq!(account.health_factor, 0);
}

#[test]
fn borrow_without_automation_just_debits() {
    let mut account = initialize();
    let fired = borrow(&mut account);
    assert!(!fired);
    assert_eq!(account.health_factor, 90);
}

#[test]
fn borrow_saturates_at_zero() {
    let mut account = initialize();
    account.health_factor = 3;
    let fired = borrow(&mut account);
    assert!(!fired);
    assert_eq!(account.health_factor, 0);
}

#[test]
fn repeated_borrows_trigger_restoration_at_the_threshold() {
    let mut account = initialize();
    assert_eq!(set_automation(&mut account, 50, 80), Ok(()));
    for expected in [90u64, 80, 70, 60] {
        let fired = borrow(&mut account);
        assert!(!fired);
        assert_eq!(account.health_factor, expected);
    }
    let fired = borrow(&mut account);
    assert!(fired);
    assert_eq!(account.health_factor, 80);
    assert!(account.automation_enabled);
    assert_eq!(account.trigger_health_factor, 50);
    assert_eq!(account.target_health_factor, 80);
}

#[test]
fn repay_credits_five() {
    let mut account = initialize();
    repay(&mut account);
    assert_eq!(account.health_factor, 105);
}

#[test]
fn repay_saturates_at_the_ceiling() {
    let mut account = initialize();
    account.health_factor = u64::MAX - 2;
    repay(&mut account);
    assert_eq!(account.health_factor, u64::MAX);
}

#[test]
fn auto_repay_requires_the_feature() {
    let mut account = initialize();
    account.health_factor = 10;
    assert_eq!(auto_repay(&mut account), Err(ErrorCode::AutomationNotEnabled));
    assert_eq!(account.health_factor, 10);
}

#[test]
fn auto_repay_refuses_while_above_the_trigger() {
    let mut account = initialize();
    assert_eq!(set_automation(&mut account, 50, 80), Ok(()));
    assert_eq!(auto_repay(&mut account), Err(ErrorCode::NoTriggerNeeded));
    assert_eq!(account.health_factor, 100);
}

#[test]
fn auto_repay_restores_at_or_below_the_trigger() {
    let mut account = initialize();
    assert_eq!(set_automation(&mut account, 50, 80), Ok(()));
    account.health_factor = 50;
    assert_eq!(auto_repay(&mut account), Ok(()));
    assert_eq!(account.health_factor, 80);
}

#[test]
fn auto_repay_accepts_a_zero_trigger_at_zero_health() {
    let mut account = initialize();
    assert_eq!(set_automation(&mut account, 0, 1), Ok(()));
    account.health_factor = 0;
    assert_eq!(auto_repay(&mut account), Ok(()));
    assert_eq!(account.health_factor, 1);
}
