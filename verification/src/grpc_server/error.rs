use tonic::transport::Error as TransportError;
use tonic_reflection::server::Error as ReflectionError;
use vstd::prelude::*;

use crate::service::error::Error as ServiceError;

verus! {

#[verifier::external_type_specification]
#[verifier::external_body]
pub struct ExReflectionError(ReflectionError);

#[verifier::external_type_specification]
#[verifier::external_body]
pub struct ExTransportError(TransportError);

/// What can go wrong in the gRPC server.
#[derive(Debug)]
pub enum Error {
    /// A listen address that could not be read, kept as its message.
    AddrParseError(String),
    /// The reflection service could not be built.
    TonicReflectionError(ReflectionError),
    /// The transport failed while serving.
    TransportError(TransportError),
}

/// The text `Display` writes of a reflection error: a fixed text for a set that could not
/// be decoded, and `invalid FileDescriptorSet - ` with the reason for one that is invalid.
pub uninterp spec fn reflection_error_message(e: ReflectionError) -> Seq<char>;

/// The text `Display` writes of a transport error: the description of its kind.
pub uninterp spec fn transport_error_message(e: TransportError) -> Seq<char>;

/// The text of `tonic_reflection::server::Error`'s `Display`, named `reflection_error_message`.
#[verifier::external_body]
fn reflection_error_text(e: &ReflectionError) -> (r: String)
    ensures
        r@ == reflection_error_message(*e),
{
    e.to_string()
}

/// The text of `tonic::transport::Error`'s `Display`, named `transport_error_message`.
#[verifier::external_body]
fn transport_error_text(e: &TransportError) -> (r: String)
    ensures
        r@ == transport_error_message(*e),
{
    e.to_string()
}

impl Error {
    /// The error as an error of the service, which keeps the message of the error it stands
    /// for.
    pub fn into_service_error(self) -> (e: ServiceError)
        ensures
            e is Unknown,
            self matches Error::AddrParseError(m) ==> e->Unknown_0@ == m@,
            self matches Error::TonicReflectionError(r) ==> e->Unknown_0@ == reflection_error_message(r),
            self matches Error::TransportError(t) ==> e->Unknown_0@ == transport_error_message(t),
    {
        match self {
            Error::AddrParseError(message) => ServiceError::Unknown(message),
            Error::TonicReflectionError(error) => ServiceError::Unknown(reflection_error_text(&error)),
            Error::TransportError(error) => ServiceError::Unknown(transport_error_text(&error)),
        }
    }
}

} // verus!
