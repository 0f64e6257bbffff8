//! The request side and the response side of the "Get Container ACL" call of
//! the Azure blob service, without the transport in between.
//!
//! A [`GetACLBuilder`] collects the parameters of the call. The container
//! name is required: only a builder whose type says that the name was given
//! has `finalize`, which turns the parameters into a [`Request`]: the URL, the
//! method and the headers to send. Whoever performs the request hands the
//! [`Response`] to [`process_response`], which lets the headers and the body
//! through to a parser on status 200 and answers every other status, and
//! every transport failure, with an [`AzureError`].
//!
//! What the requests look like for every choice of parameters is stated and
//! proved in [`laws`].

pub mod client;
pub mod decimal;
pub mod errors;
pub mod get_acl_builder;
pub mod laws;
pub mod lease;
pub mod request;
pub mod response;
pub mod typestate;

pub use client::Client;
pub use errors::{AzureError, UnexpectedHTTPResult};
pub use get_acl_builder::{process_response, GetACLBuilder};
pub use lease::LeaseId;
pub use request::{Header, Request};
pub use response::Response;
pub use typestate::{No, ToAssign, Yes};
