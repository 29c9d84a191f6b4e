//! The endpoints: builders of requests and the handlers that address them.
pub mod deposit;
pub mod sub_account;
pub mod trades;
pub mod transfer;
pub mod withdrawals;
