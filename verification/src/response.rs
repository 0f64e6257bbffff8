//! What comes back: a status, headers and a body, as plain values.

use crate::request::Header;
use vstd::prelude::*;

verus! {

/// A response that has been received in full.
#[derive(Debug, PartialEq, Eq)]
pub struct Response {
    pub status: u16,
    pub headers: Vec<Header>,
    pub body: Vec<u8>,
}

/// The number of the status `hyper::StatusCode::OK`: what
/// `StatusCode::as_u16` gives for that constant, which is 200.
#[verifier::external_body]
pub(crate) fn ok_status_code() -> (code: u16)
    ensures
        code == 200,
{
    hyper::StatusCode::OK.as_u16()
}

} // verus!
