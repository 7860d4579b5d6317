//! The service runtime: signals, errors and the observer of the registered observables.

pub mod error;
pub mod observer;
pub mod shutdown;
pub mod signal;

pub use error::Error;
pub use observer::{Observable, Observer, Resource};
pub use signal::Signal;
