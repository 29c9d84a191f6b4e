//! The records of a deposit history.
pub use crate::types::deposit::{Deposit, DepositList, DepositStatus};
