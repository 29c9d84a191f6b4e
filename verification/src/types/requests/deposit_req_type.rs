//! A deposit query whose currency is mandatory.
use vstd::prelude::*;

pub use crate::types::deposit::DepositStatus;

verus! {

#[derive(Debug)]
pub struct DepositQuery {
    /// currency
    pub currency: String,
    /// Current request page.
    pub current_page: Option<i64>,
    /// End time (milliseconds)
    pub end_at: Option<i64>,
    /// Number of results per request. Minimum is 10, maximum is 500.
    pub page_size: Option<i64>,
    /// Start time (milliseconds)
    pub start_at: Option<i64>,
    /// Status. Available value: PROCESSING, SUCCESS, and FAILURE
    pub status: Option<DepositStatus>,
}

} // verus!
