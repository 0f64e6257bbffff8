//! The one error type of the library, and the test of a response's status.

use crate::request::Header;
use crate::response::Response;
use vstd::prelude::*;

verus! {

/// A response whose status is not the one that the call expects.
#[derive(Debug, PartialEq, Eq)]
pub struct UnexpectedHTTPResult {
    pub expected: u16,
    pub received: u16,
    pub body: Vec<u8>,
}

/// Why a call failed.
#[derive(Debug, PartialEq, Eq)]
pub enum AzureError {
    /// The request could not be sent, or no complete response came back.
    TransportError(String),
    /// The service answered with another status than the expected one.
    UnexpectedHTTPResult(UnexpectedHTTPResult),
    /// The response had the expected status, but could not be understood.
    ResponseParsingError(String),
}

/// The error that answers `response` where `expected_status_code` was
/// expected and another status came: it records both statuses and the body.
pub open spec fn unexpected_status(response: Response, expected_status_code: u16) -> AzureError {
    AzureError::UnexpectedHTTPResult(
        UnexpectedHTTPResult {
            expected: expected_status_code,
            received: response.status,
            body: response.body,
        },
    )
}

/// Lets the headers and the body of `response` through where its status is
/// `expected_status_code`, and answers any other status with
/// [`AzureError::UnexpectedHTTPResult`]. Neither the headers nor the body are
/// looked at.
pub fn check_status_extract_headers_and_body(
    response: Response,
    expected_status_code: u16,
) -> (checked: Result<(Vec<Header>, Vec<u8>), AzureError>)
    ensures
        response.status == expected_status_code ==> checked == Ok::<
            (Vec<Header>, Vec<u8>),
            AzureError,
        >((response.headers, response.body)),
        response.status != expected_status_code ==> checked == Err::<
            (Vec<Header>, Vec<u8>),
            AzureError,
        >(unexpected_status(response, expected_status_code)),
{
    if response.status == expected_status_code {
        Ok((response.headers, response.body))
    } else {
        Err(
            AzureError::UnexpectedHTTPResult(
                UnexpectedHTTPResult {
                    expected: expected_status_code,
                    received: response.status,
                    body: response.body,
                },
            ),
        )
    }
}

} // verus!
