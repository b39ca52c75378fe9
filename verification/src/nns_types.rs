//! The types of the governance and ledger services that commands name.
pub mod account;
pub mod governance;
pub mod utils;
