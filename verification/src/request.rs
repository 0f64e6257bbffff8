//! What is sent: a URL, a method and headers, as plain values.

use vstd::prelude::*;

verus! {

/// One header of a request or of a response.
#[derive(Debug, PartialEq, Eq)]
pub struct Header {
    pub name: String,
    pub value: String,
}

/// A header as a pair of texts.
pub struct HeaderView {
    pub name: Seq<char>,
    pub value: Seq<char>,
}

impl View for Header {
    type V = HeaderView;

    open spec fn view(&self) -> HeaderView {
        HeaderView { name: self.name@, value: self.value@ }
    }
}

impl Clone for Header {
    fn clone(&self) -> (copy: Self)
        ensures
            copy@ == self@,
    {
        Header { name: self.name.clone(), value: self.value.clone() }
    }
}

impl Header {
    /// The header `name: value`.
    pub fn new(name: &str, value: &str) -> (header: Header)
        ensures
            header@ == (HeaderView { name: name@, value: value@ }),
    {
        Header { name: String::from_str(name), value: String::from_str(value) }
    }
}

/// The headers of a list, each as a pair of texts, in the list's order.
pub open spec fn header_views(headers: Seq<Header>) -> Seq<HeaderView> {
    headers.map_values(|h: Header| h@)
}

/// A request that is ready to be sent.
#[derive(Debug, PartialEq, Eq)]
pub struct Request {
    pub uri: String,
    pub method: String,
    pub headers: Vec<Header>,
}

/// A request as texts.
pub struct RequestView {
    pub uri: Seq<char>,
    pub method: Seq<char>,
    pub headers: Seq<HeaderView>,
}

impl View for Request {
    type V = RequestView;

    open spec fn view(&self) -> RequestView {
        RequestView {
            uri: self.uri@,
            method: self.method@,
            headers: header_views(self.headers@),
        }
    }
}

/// The name of the GET method as `hyper::Method::GET` spells it: the text
/// that `Method::as_str` gives for that constant, which is `GET`.
#[verifier::external_body]
pub(crate) fn get_method_name() -> (name: String)
    ensures
        name@ == "GET"@,
{
    hyper::Method::GET.as_str().to_string()
}

} // verus!
