//! The types handlers answer with.

pub use axum::body::Body;
pub use axum::response::{Response, Result};
pub use http::StatusCode;
