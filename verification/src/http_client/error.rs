use reqwest::Error as ReqwestError;
use vstd::prelude::*;

verus! {

#[verifier::external_type_specification]
#[verifier::external_body]
pub struct ExInvalidUri(http::uri::InvalidUri);

#[verifier::external_type_specification]
#[verifier::external_body]
pub struct ExReqwestError(ReqwestError);

#[verifier::external_type_specification]
#[verifier::external_body]
pub struct ExInvalidHeaderValue(http::header::InvalidHeaderValue);

#[verifier::external_type_specification]
#[verifier::external_body]
pub struct ExUrlParseError(url::ParseError);

/// What can go wrong while a client is built or a request is prepared.
#[derive(Debug)]
pub enum Error {
    InvalidUri(http::uri::InvalidUri),
    ReqwestError(ReqwestError),
    InvalidHeaderValue(http::header::InvalidHeaderValue),
    UrlParseError(url::ParseError),
}

} // verus!
