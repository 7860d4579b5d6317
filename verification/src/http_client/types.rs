//! The types requests are made of and answered with.

pub use http::Uri;
pub use reqwest::{IntoUrl, Method, Request, RequestBuilder, Response};
