use vstd::prelude::*;

use crate::errors::ErrorCode;
use crate::state::AccountState;
use crate::state::Pubkey;
use crate::validate::validate_schedule_params;

verus! {

/// Configures the recurring purchase. Fails with `InvalidInterval` when the
/// interval is zero, then with `InvalidAmount` when the amount is zero; a
/// failure leaves the record untouched, so an existing schedule is never
/// partially overwritten. On success the period, asset and amount are
/// recorded and the feature is enabled, all atomically.
///
/// Only the configuration lives here: firing on a timer is driven from
/// outside, by a clock that invokes the purchase confirmation when due.
pub fn set_dca(
    account: &mut AccountState,
    interval: u64,
    token_address: Pubkey,
    token_amount: u64,
) -> (r: Result<(), ErrorCode>)
    ensures
        r is Ok <==> interval > 0 && token_amount > 0,
        interval == 0 ==> r == Err::<(), ErrorCode>(ErrorCode::InvalidInterval),
        interval > 0 && token_amount == 0 ==> r == Err::<(), ErrorCode>(ErrorCode::InvalidAmount),
        r is Ok ==> *final(account) == (AccountState {
            dca_interval: interval,
            token_address: token_address,
            token_amount: token_amount,
            dca_enabled: true,
            ..*old(account)
        }),
        r is Err ==> *final(account) == *old(account),
        old(account).wf() ==> final(account).wf(),
{
    match validate_schedule_params(interval, token_amount) {
        Ok(()) => {
            account.dca_interval = interval;
            account.token_address = token_address;
            account.token_amount = token_amount;
            account.dca_enabled = true;
            Ok(())
        },
        Err(e) => Err(e),
    }
}

} // verus!
