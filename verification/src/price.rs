use vstd::prelude::*;

use crate::errors::ErrorCode;
use crate::purchase::mock_buy;
use crate::state::AccountState;
use crate::state::Pubkey;
use crate::validate::validate_feature_enabled;
use crate::validate::validate_price_params;
use crate::validate::Feature;

verus! {

/// Configures the price-triggered one-shot purchase. Fails with
/// `InvalidPrice` when the target price is zero, then with `InvalidAmount`
/// when the amount is zero; a failure leaves the record untouched. On
/// success the target price, asset and amount are recorded and the feature
/// is enabled, all atomically.
pub fn set_price_trading(
    account: &mut AccountState,
    target_price: u64,
    token_address: Pubkey,
    token_amount: u64,
) -> (r: Result<(), ErrorCode>)
    ensures
        r is Ok <==> target_price > 0 && token_amount > 0,
        target_price == 0 ==> r == Err::<(), ErrorCode>(ErrorCode::InvalidPrice),
        target_price > 0 && token_amount == 0 ==> r == Err::<(), ErrorCode>(
            ErrorCode::InvalidAmount,
        ),
        r is Ok ==> *final(account) == (AccountState {
            target_price: target_price,
            price_token_address: token_address,
            price_token_amount: token_amount,
            price_trading_enabled: true,
            ..*old(account)
        }),
        r is Err ==> *final(account) == *old(account),
        old(account).wf() ==> final(account).wf(),
{
    match validate_price_params(target_price, token_amount) {
        Ok(()) => {
            account.target_price = target_price;
            account.price_token_address = token_address;
            account.price_token_amount = token_amount;
            account.price_trading_enabled = true;
            Ok(())
        },
        Err(e) => Err(e),
    }
}

/// Evaluates a supplied price against the configured target and, when the
/// price condition is met, hands the configured asset and amount to the
/// purchase confirmation. The price comes from an external feed and is
/// trusted as given. Fails with `PriceTradingNotEnabled` when the feature
/// is off, with `PriceNotMet` when the current price still stands above
/// the target; the confirmation step can then still refuse with
/// `DCANotEnabled` or `TokenMismatch`. Never mutates the record.
pub fn execute_price_trade(account: &AccountState, current_price: u64) -> (r: Result<
    (),
    ErrorCode,
>)
    ensures
        r is Ok <==> account.price_trading_enabled && current_price <= account.target_price
            && account.dca_enabled && account.price_token_address == account.token_address,
        !account.price_trading_enabled ==> r == Err::<(), ErrorCode>(
            ErrorCode::PriceTradingNotEnabled,
        ),
        account.price_trading_enabled && current_price > account.target_price ==> r == Err::<
            (),
            ErrorCode,
        >(ErrorCode::PriceNotMet),
        account.price_trading_enabled && current_price <= account.target_price
            && !account.dca_enabled ==> r == Err::<(), ErrorCode>(ErrorCode::DCANotEnabled),
        account.price_trading_enabled && current_price <= account.target_price
            && account.dca_enabled && account.price_token_address != account.token_address ==> r
            == Err::<(), ErrorCode>(ErrorCode::TokenMismatch),
{
    match validate_feature_enabled(account.price_trading_enabled, Feature::PriceTrading) {
        Ok(()) => {},
        Err(e) => {
            return Err(e);
        },
    }
    if current_price > account.target_price {
        return Err(ErrorCode::PriceNotMet);
    }
    mock_buy(account, account.price_token_address, account.price_token_amount)
}

} // verus!
