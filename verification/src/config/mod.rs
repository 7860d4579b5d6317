//! Where a service reads its configuration from.

pub mod provider;

pub use provider::{Error, Provider};
