//! An HTTP server: where it listens, which routes it serves, and how its errors answer.

pub mod config;
pub mod error;
pub mod provider;
pub mod routing;
pub mod types;

pub use config::Config;
pub use error::Error;
pub use provider::Provider;
