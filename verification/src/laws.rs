use vstd::prelude::*;

use crate::health::after_automation;
use crate::health::automation_fires;
use crate::state::AccountState;

verus! {

/// Evaluating the automation condition while it does not hold changes
/// nothing, so evaluating twice in a row changes nothing either.
pub proof fn lemma_automation_quiet_is_noop(s: AccountState)
    requires
        !automation_fires(s),
    ensures
        after_automation(s) == s,
        after_automation(after_automation(s)) == s,
{
}

/// Monotonic restore: whenever the automation condition holds, one
/// evaluation sets the health factor exactly to the configured target —
/// never above it, never below it.
pub proof fn lemma_automation_restores_target(s: AccountState)
    requires
        automation_fires(s),
    ensures
        after_automation(s).health_factor == s.target_health_factor,
{
}

/// An evaluation never touches the configuration: both thresholds and all
/// feature settings come out as they went in, whether or not it fired.
pub proof fn lemma_automation_preserves_config(s: AccountState)
    ensures
        after_automation(s) == (AccountState { health_factor: after_automation(s).health_factor, ..s }),
{
}

/// Boundary: the condition compares with `<=`, so a health factor standing
/// exactly at the trigger fires and is restored to the target.
pub proof fn lemma_automation_fires_at_boundary(s: AccountState)
    requires
        s.automation_enabled,
        s.trigger_health_factor > 0,
        s.health_factor == s.trigger_health_factor,
    ensures
        automation_fires(s),
        after_automation(s).health_factor == s.target_health_factor,
{
}

/// Under the record's invariant a restore lands strictly above the trigger
/// and disarms the condition, so evaluation is idempotent on every
/// well-formed record: a second evaluation never fires and never mutates.
pub proof fn lemma_automation_idempotent(s: AccountState)
    requires
        s.wf(),
    ensures
        !automation_fires(after_automation(s)),
        after_automation(after_automation(s)) == after_automation(s),
{
}

} // verus!
