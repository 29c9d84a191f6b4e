//! The receipt of a transfer.
use vstd::prelude::*;

verus! {

#[derive(Debug)]
pub struct TransferData {
    /// Transfer order ID
    pub order_id: String,
}

} // verus!
