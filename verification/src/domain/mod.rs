pub mod errors;
pub mod events;
pub mod laws;
pub mod ledger;
pub mod money;
pub mod types;

pub use money::{Currency, Money, MoneyError, MoneyView};
