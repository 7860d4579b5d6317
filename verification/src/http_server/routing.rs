//! What routes are written with: the router, its state extractors and the method routers.

pub use axum::extract::{FromRef, State};
pub use axum::routing::{any, connect, delete, get, head, options, patch, post, put, trace};
pub use axum::Router;
