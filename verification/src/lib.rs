//! Building blocks for small services: configuration, HTTP and gRPC clients and
//! servers, and an observer that drives their lifecycle and delivers signals.

pub mod config;
pub mod grpc_client;
pub mod grpc_server;
pub mod http_client;
pub mod http_server;
pub mod listen;
pub mod service;
pub mod text;
