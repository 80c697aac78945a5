//! The instructions of the market, one module each.

pub mod admin_init;
pub mod buy_short;
pub mod claim;
pub mod initialise;
pub mod long;
pub mod sell_short;
pub mod submit_result;
