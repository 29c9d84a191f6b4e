//! The result of a partial cancellation.
pub use crate::types::spot::SpotCanceledData;
