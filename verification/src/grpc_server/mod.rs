//! A gRPC server: where it listens, its routes, and the file descriptor sets it reflects.

pub mod config;
pub mod error;
pub mod provider;

pub use config::Config;
pub use error::Error;
pub use provider::Provider;
pub use tonic::service::RoutesBuilder;
