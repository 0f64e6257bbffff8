//! The builder of the "Get Container ACL" request.

use crate::client::Client;
use crate::decimal::{append_decimal, decimal};
use crate::errors::{check_status_extract_headers_and_body, unexpected_status, AzureError};
use crate::lease::LeaseId;
use crate::request::{get_method_name, header_views, Header, HeaderView, Request, RequestView};
use crate::response::{ok_status_code, Response};
use crate::typestate::{No, ToAssign, Yes};
use std::marker::PhantomData;
use vstd::prelude::*;

verus! {

/// The name of the header that carries the client request id.
pub const CLIENT_REQUEST_ID: &'static str = "x-ms-client-request-id";

/// The name of the header that carries the lease id.
pub const LEASE_ID: &'static str = "x-ms-lease-id";

/// The parameters of a "Get Container ACL" call, as texts and numbers.
pub struct GetACLBuilderView {
    pub account: Seq<char>,
    pub container_name: Option<Seq<char>>,
    pub timeout: Option<u64>,
    pub client_request_id: Option<Seq<char>>,
    pub lease_id: Option<Seq<char>>,
}

/// The query parameter that carries a timeout.
pub open spec fn timeout_parameter(timeout: u64) -> Seq<char> {
    "timeout="@ + decimal(timeout as nat)
}

/// The URL of a container's ACL, before any optional parameter.
pub open spec fn base_uri(account: Seq<char>, container_name: Seq<char>) -> Seq<char> {
    "https://"@ + account + ".blob.core.windows.net/"@ + container_name
        + "?restype=container&comp=acl"@
}

impl GetACLBuilderView {
    /// The parameters of a call for `account` with nothing else set.
    pub open spec fn new(account: Seq<char>) -> GetACLBuilderView {
        GetACLBuilderView {
            account,
            container_name: None,
            timeout: None,
            client_request_id: None,
            lease_id: None,
        }
    }

    /// The parameters with the container name set to `container_name`.
    pub open spec fn with_container_name(self, container_name: Seq<char>) -> GetACLBuilderView {
        GetACLBuilderView { container_name: Some(container_name), ..self }
    }

    /// The parameters with the timeout set to `timeout`.
    pub open spec fn with_timeout(self, timeout: u64) -> GetACLBuilderView {
        GetACLBuilderView { timeout: Some(timeout), ..self }
    }

    /// The parameters with the client request id set to `client_request_id`.
    pub open spec fn with_client_request_id(
        self,
        client_request_id: Seq<char>,
    ) -> GetACLBuilderView {
        GetACLBuilderView { client_request_id: Some(client_request_id), ..self }
    }

    /// The parameters with the lease id set to `lease_id`.
    pub open spec fn with_lease_id(self, lease_id: Seq<char>) -> GetACLBuilderView {
        GetACLBuilderView { lease_id: Some(lease_id), ..self }
    }

    /// The URL to ask: the container's ACL, then the timeout where one is set.
    pub open spec fn uri(self) -> Seq<char>
        recommends
            self.container_name is Some,
    {
        let base = base_uri(self.account, self.container_name->0);
        match self.timeout {
            Some(timeout) => base + "&"@ + timeout_parameter(timeout),
            None => base,
        }
    }

    /// The header of the client request id, where one is set.
    pub open spec fn client_request_id_headers(self) -> Seq<HeaderView> {
        match self.client_request_id {
            Some(id) => seq![HeaderView { name: CLIENT_REQUEST_ID@, value: id }],
            None => Seq::empty(),
        }
    }

    /// The header of the lease id, where one is set.
    pub open spec fn lease_id_headers(self) -> Seq<HeaderView> {
        match self.lease_id {
            Some(id) => seq![HeaderView { name: LEASE_ID@, value: id }],
            None => Seq::empty(),
        }
    }

    /// The headers to send: the client request id first, then the lease id,
    /// each only where it is set.
    pub open spec fn headers(self) -> Seq<HeaderView> {
        self.client_request_id_headers() + self.lease_id_headers()
    }

    /// The request that these parameters make.
    pub open spec fn request(self) -> RequestView
        recommends
            self.container_name is Some,
    {
        RequestView { uri: self.uri(), method: "GET"@, headers: self.headers() }
    }
}

/// Collects the parameters of a "Get Container ACL" call. The marker
/// `ContainerNameSet` tells whether the container name, which the call cannot
/// do without, has been given.
#[derive(Debug)]
pub struct GetACLBuilder<'a, ContainerNameSet>
where
    ContainerNameSet: ToAssign,
{
    p_container_name: PhantomData<ContainerNameSet>,
    client: &'a Client,
    container_name: Option<&'a str>,
    timeout: Option<u64>,
    client_request_id: Option<&'a str>,
    lease_id: Option<&'a LeaseId>,
}

impl<'a, ContainerNameSet> View for GetACLBuilder<'a, ContainerNameSet>
where
    ContainerNameSet: ToAssign,
{
    type V = GetACLBuilderView;

    closed spec fn view(&self) -> GetACLBuilderView {
        GetACLBuilderView {
            account: self.client@.account,
            container_name: match self.container_name {
                Some(name) => Some(name@),
                None => None,
            },
            timeout: self.timeout,
            client_request_id: match self.client_request_id {
                Some(id) => Some(id@),
                None => None,
            },
            lease_id: match self.lease_id {
                Some(id) => Some(id@),
                None => None,
            },
        }
    }
}

impl<'a, ContainerNameSet> Clone for GetACLBuilder<'a, ContainerNameSet>
where
    ContainerNameSet: ToAssign,
{
    fn clone(&self) -> (copy: Self)
        ensures
            copy == *self,
    {
        proof {
            use_type_invariant(self);
        }
        GetACLBuilder {
            p_container_name: PhantomData,
            client: self.client,
            container_name: self.container_name,
            timeout: self.timeout,
            client_request_id: self.client_request_id,
            lease_id: self.lease_id,
        }
    }
}

impl<'a> GetACLBuilder<'a, No> {
    /// A builder for `client`'s account with no parameter set.
    pub fn new(client: &'a Client) -> (builder: GetACLBuilder<'a, No>)
        ensures
            builder@ == GetACLBuilderView::new(client@.account),
    {
        GetACLBuilder {
            p_container_name: PhantomData,
            client,
            container_name: None,
            timeout: None,
            client_request_id: None,
            lease_id: None,
        }
    }
}

impl<'a> GetACLBuilder<'a, Yes> {
    /// The container name that was given.
    pub fn container_name(&self) -> (container_name: &'a str)
        ensures
            self@.container_name == Some(container_name@),
    {
        proof {
            use_type_invariant(self);
        }
        self.container_name.unwrap()
    }

    /// The request to send: a GET of the container's ACL, with the timeout in
    /// the query and the client request id and the lease id as headers, each
    /// where it was set.
    pub fn finalize(self) -> (request: Request)
        ensures
            self@.container_name is Some,
            request@ == self@.request(),
    {
        let mut uri = String::from_str("https://");
        uri.append(self.client.account());
        uri.append(".blob.core.windows.net/");
        uri.append(self.container_name());
        uri.append("?restype=container&comp=acl");
        if let Some(parameter) = self.to_uri_parameter() {
            uri.append("&");
            uri.append(parameter.as_str());
        }
        let mut headers: Vec<Header> = Vec::new();
        self.add_client_request_id_header(&mut headers);
        self.add_lease_id_header(&mut headers);
        let request = Request { uri, method: get_method_name(), headers };
        assert(request@.uri =~= self@.uri());
        assert(request@.headers =~= self@.headers());
        request
    }
}

impl<'a, ContainerNameSet> GetACLBuilder<'a, ContainerNameSet>
where
    ContainerNameSet: ToAssign,
{
    /// Whether the marker and the parameters agree on the container name.
    #[verifier::type_invariant]
    spec fn name_follows_marker(self) -> bool {
        ContainerNameSet::assigned() == self.container_name.is_some()
    }

    /// Whether the container name has been given. The marker in the
    /// builder's type says the same: a builder marked [`Yes`] always holds a
    /// name, and one marked [`No`] never does.
    pub fn has_container_name(&self) -> (given: bool)
        ensures
            given == ContainerNameSet::assigned(),
            given == (self@.container_name is Some),
    {
        proof {
            use_type_invariant(self);
        }
        self.container_name.is_some()
    }

    /// The client that the builder was made for.
    pub fn client(&self) -> (client: &'a Client)
        ensures
            client@.account == self@.account,
    {
        self.client
    }

    /// The timeout, where one is set.
    pub fn timeout(&self) -> (timeout: Option<u64>)
        ensures
            timeout == self@.timeout,
    {
        self.timeout
    }

    /// The client request id, where one is set.
    pub fn client_request_id(&self) -> (client_request_id: Option<&'a str>)
        ensures
            match client_request_id {
                Some(id) => self@.client_request_id == Some(id@),
                None => self@.client_request_id is None,
            },
    {
        self.client_request_id
    }

    /// The lease id, where one is set.
    pub fn lease_id(&self) -> (lease_id: Option<&'a LeaseId>)
        ensures
            match lease_id {
                Some(id) => self@.lease_id == Some(id@),
                None => self@.lease_id is None,
            },
    {
        self.lease_id
    }

    /// The same parameters with the container name set to `container_name`.
    /// From here on the builder can be finalized.
    pub fn with_container_name(self, container_name: &'a str) -> (builder: GetACLBuilder<'a, Yes>)
        ensures
            builder@ == self@.with_container_name(container_name@),
    {
        GetACLBuilder {
            p_container_name: PhantomData,
            client: self.client,
            container_name: Some(container_name),
            timeout: self.timeout,
            client_request_id: self.client_request_id,
            lease_id: self.lease_id,
        }
    }

    /// The same parameters with the timeout set to `timeout`.
    pub fn with_timeout(self, timeout: u64) -> (builder: GetACLBuilder<'a, ContainerNameSet>)
        ensures
            builder@ == self@.with_timeout(timeout),
    {
        proof {
            use_type_invariant(&self);
        }
        GetACLBuilder {
            p_container_name: PhantomData,
            client: self.client,
            container_name: self.container_name,
            timeout: Some(timeout),
            client_request_id: self.client_request_id,
            lease_id: self.lease_id,
        }
    }

    /// The same parameters with the client request id set to
    /// `client_request_id`.
    pub fn with_client_request_id(self, client_request_id: &'a str) -> (builder: GetACLBuilder<
        'a,
        ContainerNameSet,
    >)
        ensures
            builder@ == self@.with_client_request_id(client_request_id@),
    {
        proof {
            use_type_invariant(&self);
        }
        GetACLBuilder {
            p_container_name: PhantomData,
            client: self.client,
            container_name: self.container_name,
            timeout: self.timeout,
            client_request_id: Some(client_request_id),
            lease_id: self.lease_id,
        }
    }

    /// The same parameters with the lease id set to `lease_id`.
    pub fn with_lease_id(self, lease_id: &'a LeaseId) -> (builder: GetACLBuilder<
        'a,
        ContainerNameSet,
    >)
        ensures
            builder@ == self@.with_lease_id(lease_id@),
    {
        proof {
            use_type_invariant(&self);
        }
        GetACLBuilder {
            p_container_name: PhantomData,
            client: self.client,
            container_name: self.container_name,
            timeout: self.timeout,
            client_request_id: self.client_request_id,
            lease_id: Some(lease_id),
        }
    }

    /// The timeout as a query parameter, where one is set.
    pub fn to_uri_parameter(&self) -> (parameter: Option<String>)
        ensures
            match self@.timeout {
                Some(timeout) => parameter matches Some(p) && p@ == timeout_parameter(timeout),
                None => parameter is None,
            },
    {
        match self.timeout {
            Some(timeout) => {
                let mut parameter = String::from_str("timeout=");
                append_decimal(&mut parameter, timeout);
                Some(parameter)
            },
            None => None,
        }
    }

    /// Appends the header of the client request id, where one is set.
    pub fn add_client_request_id_header(&self, headers: &mut Vec<Header>)
        ensures
            header_views(final(headers)@) == header_views(old(headers)@)
                + self@.client_request_id_headers(),
    {
        if let Some(id) = self.client_request_id {
            headers.push(Header::new(CLIENT_REQUEST_ID, id));
        }
        assert(header_views(headers@) =~= header_views(old(headers)@)
            + self@.client_request_id_headers());
    }

    /// Appends the header of the lease id, where one is set.
    pub fn add_lease_id_header(&self, headers: &mut Vec<Header>)
        ensures
            header_views(final(headers)@) == header_views(old(headers)@)
                + self@.lease_id_headers(),
    {
        if let Some(id) = self.lease_id {
            headers.push(Header::new(LEASE_ID, id.as_str()));
        }
        assert(header_views(headers@) =~= header_views(old(headers)@) + self@.lease_id_headers());
    }
}

/// The status that answers a "Get Container ACL" call that went well.
pub const EXPECTED_STATUS: u16 = 200;

/// Whether what came back is handed to the parser: a response with status
/// 200 is, and nothing else.
pub open spec fn is_parsed(received: Result<Response, AzureError>) -> bool {
    received matches Ok(response) && response.status == EXPECTED_STATUS
}

/// The error of a call whose answer is not handed to the parser: the
/// transport's own failure, or the unexpected status with the body that came
/// with it.
pub open spec fn refusal(received: Result<Response, AzureError>) -> AzureError
    recommends
        !is_parsed(received),
{
    match received {
        Err(error) => error,
        Ok(response) => unexpected_status(response, EXPECTED_STATUS),
    }
}

/// Turns what came back for a request made by [`GetACLBuilder::finalize`]
/// into the call's result.
///
/// A transport failure is handed on as it is. A response with a status other
/// than 200 is answered with [`AzureError::UnexpectedHTTPResult`]; `parse` is
/// not called then, so it need not be able to cope with what such a response
/// holds. On status 200 the result is whatever `parse` makes of the headers
/// and the body, so the call succeeds only on a 200 response that `parse`
/// accepts.
pub fn process_response<R, P>(received: Result<Response, AzureError>, parse: P) -> (result: Result<
    R,
    AzureError,
>) where P: FnOnce(Vec<Header>, Vec<u8>) -> Result<R, AzureError>
    requires
        is_parsed(received) ==> parse.requires((received->Ok_0.headers, received->Ok_0.body)),
    ensures
        is_parsed(received) ==> parse.ensures(
            (received->Ok_0.headers, received->Ok_0.body),
            result,
        ),
        !is_parsed(received) ==> result == Err::<R, AzureError>(refusal(received)),
        result is Ok ==> is_parsed(received),
{
    match received {
        Err(error) => Err(error),
        Ok(response) => {
            match check_status_extract_headers_and_body(response, ok_status_code()) {
                Err(error) => Err(error),
                Ok((headers, body)) => parse(headers, body),
            }
        },
    }
}

} // verus!
