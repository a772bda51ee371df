//! A fractional-ownership ledger: an operator splits an asset into a fixed
//! number of units, sells them, later shares out dividends and the proceeds of
//! a final sale among the holders, and lets holders vote on proposals.

pub mod account;
pub mod address;
pub mod state;
pub mod checks;
pub mod team;
pub mod registry;
pub mod liquidation;
pub mod shares;
pub mod dividends;
pub mod governance;
pub mod property_contract;
pub mod books;
