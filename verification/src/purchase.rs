use vstd::prelude::*;

use crate::errors::ErrorCode;
use crate::state::AccountState;
use crate::state::Pubkey;
use crate::validate::validate_feature_enabled;
use crate::validate::Feature;

verus! {

/// The purchase confirmation hook: the action invoked when a schedule or a
/// price trigger decides to buy. It performs no transfer — real asset
/// movement is an external collaborator's job — and only confirms that the
/// request matches the configured recurring purchase. Fails with
/// `DCANotEnabled` when no recurring purchase is configured, and with
/// `TokenMismatch` when the requested asset differs from the configured
/// one. Never mutates the record.
pub fn mock_buy(account: &AccountState, token_address: Pubkey, token_amount: u64) -> (r: Result<
    (),
    ErrorCode,
>)
    ensures
        r is Ok <==> account.dca_enabled && token_address == account.token_address,
        !account.dca_enabled ==> r == Err::<(), ErrorCode>(ErrorCode::DCANotEnabled),
        account.dca_enabled && token_address != account.token_address ==> r == Err::<
            (),
            ErrorCode,
        >(ErrorCode::TokenMismatch),
{
    match validate_feature_enabled(account.dca_enabled, Feature::Schedule) {
        Ok(()) => {},
        Err(e) => {
            return Err(e);
        },
    }
    if token_address != account.token_address {
        return Err(ErrorCode::TokenMismatch);
    }
    Ok(())
}

} // verus!
