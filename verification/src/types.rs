//! Request and response types of the API.
use vstd::prelude::*;

pub mod deposit;
pub mod requests;
pub mod responses;
pub mod spot;
pub mod sup_account;
pub mod withdraw;

verus! {

/// The envelope that every response of the API comes in.
#[derive(Debug, Clone)]
pub struct KuCoinResponse<T> {
    pub code: String,
    /// Error message
    pub msg: Option<String>,
    pub data: Option<T>,
}

} // verus!
