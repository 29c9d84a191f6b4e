//! Request types, one module for each kind of request.
pub mod deposit_req_type;
pub mod transfer_req_type;
