//! Signing primitives, the clock and the error type.
pub mod auth;
pub mod errors;
pub mod oid;
pub mod text;
pub mod time;
