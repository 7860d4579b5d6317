//! The types calls are made of and answered with.

pub use tonic::{Request, Response, Status};
