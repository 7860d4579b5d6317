//! A client for HTTP services: where requests go, how they authenticate and which
//! headers they carry, read from a configuration.

pub mod config;
pub mod error;
pub mod headers;
pub mod provider;
pub mod types;
pub mod url_path;

pub use config::{Auth, AuthBasic, Config, Proxy};
pub use error::Error;
pub use provider::{Provider, RequestBuilderProvider};
