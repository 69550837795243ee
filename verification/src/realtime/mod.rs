//! Shared pieces of the real-time services: their error type and the
//! messages they publish.

pub mod error;
pub mod provider;
