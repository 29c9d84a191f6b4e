//! Authenticated request signing and dispatch for the KuCoin trading API.
//!
//! The crate turns a method, a path and a serialized body into a signed
//! request, and a raw response into a typed outcome.  Every executable
//! function carries a contract that Verus proves; the few calls into other
//! crates are isolated in small functions whose contracts are assumed and
//! documented as such.
pub mod client;
pub mod endpoints;
pub mod types;
pub mod utils;
