//! Response types, one module for each kind of response.
pub mod deposit_res_type;
pub mod spot_cancel_res_type;
pub mod transfer_res_type;

pub use crate::types::KuCoinResponse;
