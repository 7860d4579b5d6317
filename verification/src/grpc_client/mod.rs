//! A client for gRPC services: the channel configuration and the metadata each request
//! carries.

pub mod config;
pub mod interceptors;
pub mod provider;
pub mod types;

pub use config::Config;
pub use interceptors::Metadata;
pub use provider::{ChannelProviderFromConfig, Provider};
