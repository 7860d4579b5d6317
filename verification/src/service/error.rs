use vstd::prelude::*;

verus! {

#[verifier::external_type_specification]
#[verifier::external_body]
pub struct ExJoinError(tokio::task::JoinError);

#[verifier::external_type_specification]
#[verifier::external_body]
pub struct ExIoError(std::io::Error);

/// What can stop a service.
#[derive(Debug)]
pub enum Error {
    /// An error of an observable, kept as its message.
    Unknown(String),
    /// A task of the service could not be joined.
    JoinError(tokio::task::JoinError),
    /// The service could not install its signal handlers.
    StdIoError(std::io::Error),
}

/// Whether a join error records a panic of the task rather than its cancellation: a property
/// of the error value, fixed when the error was made.
pub uninterp spec fn join_error_panicked(e: tokio::task::JoinError) -> bool;

/// `tokio::task::JoinError::is_panic`: whether the task ended by a panic rather than by
/// being cancelled. Its result is named, `join_error_panicked` of the error.
#[verifier::external_body]
pub(crate) fn join_error_is_panic(e: &tokio::task::JoinError) -> (r: bool)
    ensures
        r == join_error_panicked(*e),
{
    e.is_panic()
}

} // verus!
