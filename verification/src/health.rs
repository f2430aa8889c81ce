use vstd::prelude::*;

use crate::errors::ErrorCode;
use crate::state::AccountState;
use crate::validate::validate_automation_params;
use crate::validate::validate_feature_enabled;
use crate::validate::Feature;

verus! {

/// Health lost by one borrow.
pub const BORROW_DEBIT: u64 = 10;

/// Health gained by one repayment.
pub const REPAY_CREDIT: u64 = 5;

/// Subtraction on the health scale: the result stops at zero instead of
/// underflowing.
pub open spec fn debit_saturating(health: u64, debit: u64) -> u64 {
    if health >= debit {
        (health - debit) as u64
    } else {
        0u64
    }
}

/// Addition on the health scale: the result stops at the numeric ceiling
/// instead of wrapping.
pub open spec fn credit_saturating(health: u64, credit: u64) -> u64 {
    if health + credit <= u64::MAX {
        (health + credit) as u64
    } else {
        u64::MAX
    }
}

/// The automation condition: restoration is configured, armed with a
/// positive trigger, and health stands at or below the trigger (at the
/// boundary included).
pub open spec fn automation_fires(s: AccountState) -> bool {
    s.automation_enabled && s.trigger_health_factor > 0 && s.health_factor
        <= s.trigger_health_factor
}

/// The record after one evaluation of the automation condition: health is
/// restored exactly to the target when the condition holds, and nothing
/// changes otherwise.
pub open spec fn after_automation(s: AccountState) -> AccountState {
    if automation_fires(s) {
        AccountState { health_factor: s.target_health_factor, ..s }
    } else {
        s
    }
}

/// The record right after a borrow's debit, before automation is evaluated.
pub open spec fn debited(s: AccountState) -> AccountState {
    AccountState { health_factor: debit_saturating(s.health_factor, BORROW_DEBIT), ..s }
}

impl AccountState {
    /// Restores the health factor to the configured target: the one
    /// mutation automation performs, shared by the implicit evaluation on
    /// borrow and the explicit `auto_repay` command.
    fn restore_to_target(&mut self)
        ensures
            *final(self) == (AccountState {
                health_factor: old(self).target_health_factor,
                ..*old(self)
            }),
    {
        self.health_factor = self.target_health_factor;
    }

    /// Evaluates the automation condition once and, when it holds, restores
    /// the health factor to the target. Configuration fields are never
    /// touched, and nothing changes when the condition does not hold.
    pub fn check_automation(&mut self) -> (fired: bool)
        ensures
            fired == automation_fires(*old(self)),
            *final(self) == after_automation(*old(self)),
            old(self).wf() ==> final(self).wf(),
    {
        if self.automation_enabled && self.health_factor <= self.trigger_health_factor
            && self.trigger_health_factor > 0 {
            self.restore_to_target();
            true
        } else {
            false
        }
    }
}

/// Configures automatic restoration. Succeeds exactly when the target lies
/// strictly above the trigger, recording both thresholds and enabling the
/// feature atomically; otherwise fails with `InvalidHealthFactors` and
/// leaves the record untouched.
pub fn set_automation(
    account: &mut AccountState,
    trigger_health_factor: u64,
    target_health_factor: u64,
) -> (r: Result<(), ErrorCode>)
    ensures
        r is Ok <==> target_health_factor > trigger_health_factor,
        r is Ok ==> *final(account) == (AccountState {
            trigger_health_factor: trigger_health_factor,
            target_health_factor: target_health_factor,
            automation_enabled: true,
            ..*old(account)
        }),
        r is Err ==> r == Err::<(), ErrorCode>(ErrorCode::InvalidHealthFactors) && *final(account)
            == *old(account),
        old(account).wf() ==> final(account).wf(),
{
    match validate_automation_params(trigger_health_factor, target_health_factor) {
        Ok(()) => {
            account.trigger_health_factor = trigger_health_factor;
            account.target_health_factor = target_health_factor;
            account.automation_enabled = true;
            Ok(())
        },
        Err(e) => Err(e),
    }
}

/// Borrowing raises risk: the health factor drops by `BORROW_DEBIT`,
/// saturating at zero, and the automation condition is then evaluated once
/// as part of the same operation. Returns whether restoration fired.
pub fn borrow(account: &mut AccountState) -> (fired: bool)
    ensures
        fired == automation_fires(debited(*old(account))),
        *final(account) == after_automation(debited(*old(account))),
        old(account).wf() ==> final(account).wf(),
{
    account.health_factor = if account.health_factor >= BORROW_DEBIT {
        account.health_factor - BORROW_DEBIT
    } else {
        0
    };
    account.check_automation()
}

/// Repaying lowers risk: the health factor rises by `REPAY_CREDIT`. The
/// credit saturates at the numeric ceiling rather than wrapping or
/// failing, mirroring the saturating debit on the borrow path.
pub fn repay(account: &mut AccountState)
    ensures
        *final(account) == (AccountState {
            health_factor: credit_saturating(old(account).health_factor, REPAY_CREDIT),
            ..*old(account)
        }),
        old(account).wf() ==> final(account).wf(),
{
    account.health_factor = if account.health_factor <= u64::MAX - REPAY_CREDIT {
        account.health_factor + REPAY_CREDIT
    } else {
        u64::MAX
    };
}

/// The explicit restoration command. Fails with `AutomationNotEnabled`
/// when the feature is off, with `NoTriggerNeeded` when health still
/// stands above the trigger; otherwise restores the health factor to the
/// target, exactly as the implicit evaluation would. A failure leaves the
/// record untouched.
pub fn auto_repay(account: &mut AccountState) -> (r: Result<(), ErrorCode>)
    ensures
        r is Ok <==> old(account).automation_enabled && old(account).health_factor <= old(
            account,
        ).trigger_health_factor,
        !old(account).automation_enabled ==> r == Err::<(), ErrorCode>(
            ErrorCode::AutomationNotEnabled,
        ),
        old(account).automation_enabled && old(account).health_factor > old(
            account,
        ).trigger_health_factor ==> r == Err::<(), ErrorCode>(ErrorCode::NoTriggerNeeded),
        r is Ok ==> *final(account) == (AccountState {
            health_factor: old(account).target_health_factor,
            ..*old(account)
        }),
        r is Err ==> *final(account) == *old(account),
        old(account).wf() ==> final(account).wf(),
{
    match validate_feature_enabled(account.automation_enabled, Feature::Automation) {
        Ok(()) => {},
        Err(e) => {
            return Err(e);
        },
    }
    if account.health_factor > account.trigger_health_factor {
        return Err(ErrorCode::NoTriggerNeeded);
    }
    account.restore_to_target();
    Ok(())
}

} // verus!
