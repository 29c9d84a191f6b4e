//! The client: credentials, request signing and response handling.
pub mod rest;
