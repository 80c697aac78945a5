//! Position accounting and settlement rules of a binary-outcome prediction
//! market.
//!
//! A market (a [`Vow`]) escrows value before a deadline, hands out long and
//! short position tokens, is resolved once after the deadline, and pays long
//! holders double on success. Every instruction is a pure decision: it reads a
//! snapshot of the accounts it concerns and either rejects the call or returns
//! the ordered list of ledger [`Effect`]s that carry it out. [`Ledger`] is the
//! book those effects are applied to, all or nothing.

pub mod errors;
pub mod instructions;
pub mod ledger;
pub mod market;
pub mod state;

pub use errors::AkashicErrors;
pub use instructions::admin_init::AdminInit;
pub use instructions::buy_short::BuyShort;
pub use instructions::claim::Claim;
pub use instructions::initialise::{Bumps, Initialise};
pub use instructions::long::Long;
pub use instructions::sell_short::SellShort;
pub use instructions::submit_result::SubmitResult;
pub use ledger::{Effect, Ledger, LedgerError};
pub use market::{
    admin_init, buy_short, claim, initialize, long, sell_short, submit_result, Failure, Market,
};
pub use state::{Address, Config, Vow, VowResult};
