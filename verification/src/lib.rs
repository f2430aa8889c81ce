//! An automated position manager for a simplified lending-style position.
//!
//! Each account owns one [`state::AccountState`] record holding a health
//! metric and the configuration of three optional features: automatic
//! restoration when health degrades, a recurring-purchase schedule, and a
//! price-triggered purchase. The engine functions here validate every
//! request, mutate the record atomically (all or nothing), and report each
//! failing precondition as one distinguishable [`errors::ErrorCode`].
//!
//! Identity checks, storage, price feeds and real asset transfers are the
//! host's concern: callers load the record, invoke one operation, and
//! persist the result.

pub mod errors;
pub mod health;
pub mod laws;
pub mod price;
pub mod purchase;
pub mod schedule;
pub mod state;
pub mod validate;

pub use errors::ErrorCode;
pub use health::auto_repay;
pub use health::borrow;
pub use health::repay;
pub use health::set_automation;
pub use price::execute_price_trade;
pub use price::set_price_trading;
pub use purchase::mock_buy;
pub use schedule::set_dca;
pub use state::initialize;
pub use state::AccountState;
pub use state::Pubkey;
pub use validate::Feature;
