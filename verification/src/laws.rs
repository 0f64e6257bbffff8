//! What holds of every request that the builder makes, whatever the order in
//! which its parameters were set.

use crate::decimal::{decimal, is_digit, lemma_decimal_is_digits};
use crate::get_acl_builder::{
    base_uri, timeout_parameter, GetACLBuilderView, CLIENT_REQUEST_ID, LEASE_ID,
};
use crate::request::{HeaderView, RequestView};
use vstd::prelude::*;

verus! {

/// Whether `needle` stands in `text` at position `at`.
pub open spec fn occurs_at(text: Seq<char>, needle: Seq<char>, at: int) -> bool {
    &&& 0 <= at
    &&& at + needle.len() <= text.len()
    &&& text.subrange(at, at + needle.len()) == needle
}

/// Whether `text` ends with `suffix`.
pub open spec fn ends_with(text: Seq<char>, suffix: Seq<char>) -> bool {
    occurs_at(text, suffix, text.len() - suffix.len())
}

/// The headers of `headers` that are named `name`, in their order.
pub open spec fn headers_named(headers: Seq<HeaderView>, name: Seq<char>) -> Seq<HeaderView> {
    headers.filter(|h: HeaderView| h.name == name)
}

/// A builder that was given a container name and nothing else asks for
/// `https://{account}.blob.core.windows.net/{name}?restype=container&comp=acl`
/// with the method GET and without headers.
pub proof fn lemma_request_without_options(account: Seq<char>, container_name: Seq<char>)
    ensures
        GetACLBuilderView::new(account).with_container_name(container_name).request() == (
        RequestView {
            uri: "https://"@ + account + ".blob.core.windows.net/"@ + container_name
                + "?restype=container&comp=acl"@,
            method: "GET"@,
            headers: Seq::empty(),
        }),
{
    let request = GetACLBuilderView::new(account).with_container_name(container_name).request();
    assert(request.headers =~= Seq::empty());
}

/// Without a timeout nothing follows `comp=acl` in the URL, whatever else is
/// set.
pub proof fn lemma_uri_without_timeout_ends_the_query(builder: GetACLBuilderView)
    requires
        builder.container_name is Some,
        builder.timeout is None,
    ensures
        builder.uri() == base_uri(builder.account, builder.container_name->0),
        ends_with(builder.uri(), "comp=acl"@),
{
    reveal_strlit("comp=acl");
    reveal_strlit("?restype=container&comp=acl");
    let uri = builder.uri();
    let tail = "comp=acl"@;
    assert(uri.subrange(uri.len() - tail.len(), uri.len() as int) =~= tail);
}

/// With a timeout the URL is the URL without it, then `&timeout=` and the
/// timeout in decimal, and nothing more.
pub proof fn lemma_uri_with_timeout(builder: GetACLBuilderView, timeout: u64)
    requires
        builder.container_name is Some,
    ensures
        builder.with_timeout(timeout).uri() == base_uri(
            builder.account,
            builder.container_name->0,
        ) + "&timeout="@ + decimal(timeout as nat),
{
    reveal_strlit("&timeout=");
    reveal_strlit("&");
    reveal_strlit("timeout=");
    assert("&timeout="@ =~= "&"@ + "timeout="@);
    let base = base_uri(builder.account, builder.container_name->0);
    assert(base + "&"@ + timeout_parameter(timeout) =~= base + "&timeout="@ + decimal(
        timeout as nat,
    ));
}

/// Setting the timeout comes to the same whether it is done before or after
/// setting the container name, the client request id or the lease id.
pub proof fn lemma_timeout_order_is_irrelevant(
    builder: GetACLBuilderView,
    timeout: u64,
    container_name: Seq<char>,
    client_request_id: Seq<char>,
    lease_id: Seq<char>,
)
    ensures
        builder.with_timeout(timeout).with_container_name(container_name)
            == builder.with_container_name(container_name).with_timeout(timeout),
        builder.with_timeout(timeout).with_client_request_id(client_request_id)
            == builder.with_client_request_id(client_request_id).with_timeout(timeout),
        builder.with_timeout(timeout).with_lease_id(lease_id) == builder.with_lease_id(
            lease_id,
        ).with_timeout(timeout),
{
}

/// A timeout that is set again replaces the one before: the request holds
/// the last one only.
pub proof fn lemma_last_timeout_counts(builder: GetACLBuilderView, first: u64, last: u64)
    ensures
        builder.with_timeout(first).with_timeout(last) == builder.with_timeout(last),
{
}

/// In the URL of a container's ACL the only `&` is the one before
/// `comp=acl`, where neither the account nor the container name holds one.
proof fn lemma_ampersand_in_base_uri(account: Seq<char>, container_name: Seq<char>)
    requires
        !account.contains('&'),
        !container_name.contains('&'),
    ensures
        base_uri(account, container_name).len() >= 9,
        base_uri(account, container_name)[base_uri(account, container_name).len() - 8] == 'c',
        forall|i: int|
            0 <= i < base_uri(account, container_name).len() && base_uri(
                account,
                container_name,
            )[i] == '&' ==> i == base_uri(account, container_name).len() - 9,
{
    reveal_strlit("https://");
    reveal_strlit(".blob.core.windows.net/");
    reveal_strlit("?restype=container&comp=acl");
    let scheme = "https://"@;
    let host = ".blob.core.windows.net/"@;
    let query = "?restype=container&comp=acl"@;
    let base = base_uri(account, container_name);
    let before_query = scheme + account + host + container_name;
    assert(base == before_query + query);
    assert forall|i: int| 0 <= i < before_query.len() implies before_query[i] != '&' by {
        if i < scheme.len() {
            assert(before_query[i] == scheme[i]);
        } else if i < scheme.len() + account.len() {
            assert(account.contains(account[i - scheme.len()]));
        } else if i < scheme.len() + account.len() + host.len() {
            assert(before_query[i] == host[i - scheme.len() - account.len()]);
        } else {
            assert(container_name.contains(
                container_name[i - scheme.len() - account.len() - host.len()],
            ));
        }
    }
    assert forall|i: int| 0 <= i < base.len() && base[i] == '&' implies i == base.len() - 9 by {
        if i >= before_query.len() {
            assert(base[i] == query[i - before_query.len()]);
        }
    }
    assert(base[base.len() - 8] == query[19]);
}

/// Behind its first character, `&timeout=` followed by a decimal numeral
/// holds no `&`.
proof fn lemma_ampersand_in_timeout_suffix(timeout: u64)
    ensures
        forall|i: int|
            0 <= i < ("&timeout="@ + decimal(timeout as nat)).len() && ("&timeout="@ + decimal(
                timeout as nat,
            ))[i] == '&' ==> i == 0,
{
    reveal_strlit("&timeout=");
    let needle = "&timeout="@;
    let digits = decimal(timeout as nat);
    let suffix = needle + digits;
    lemma_decimal_is_digits(timeout as nat);
    assert forall|i: int| 0 <= i < suffix.len() && suffix[i] == '&' implies i == 0 by {
        if i >= needle.len() {
            assert(is_digit(digits[i - needle.len()]));
        }
    }
}

/// Where neither the account nor the container name holds a `&`, the text
/// `&timeout=` stands in the URL of a request with a timeout exactly once:
/// right behind `comp=acl`, and at no other place.
pub proof fn lemma_timeout_appears_once(builder: GetACLBuilderView, timeout: u64)
    requires
        builder.container_name is Some,
        !builder.account.contains('&'),
        !(builder.container_name->0).contains('&'),
    ensures
        occurs_at(
            builder.with_timeout(timeout).uri(),
            "&timeout="@,
            base_uri(builder.account, builder.container_name->0).len() as int,
        ),
        forall|at: int|
            occurs_at(builder.with_timeout(timeout).uri(), "&timeout="@, at) ==> at == base_uri(
                builder.account,
                builder.container_name->0,
            ).len(),
{
    let base = base_uri(builder.account, builder.container_name->0);
    let needle = "&timeout="@;
    let suffix = needle + decimal(timeout as nat);
    let uri = builder.with_timeout(timeout).uri();
    lemma_uri_with_timeout(builder, timeout);
    lemma_ampersand_in_base_uri(builder.account, builder.container_name->0);
    lemma_ampersand_in_timeout_suffix(timeout);
    reveal_strlit("&timeout=");
    assert(uri =~= base + suffix);
    assert(uri.subrange(base.len() as int, (base.len() + needle.len()) as int) =~= needle);
    assert forall|at: int| occurs_at(uri, needle, at) implies at == base.len() by {
        let found = uri.subrange(at, at + needle.len());
        assert(uri[at] == found[0] && found[0] == '&');
        assert(uri[at + 1] == found[1] && found[1] == 't');
        if at < base.len() {
            assert(uri[at] == base[at]);
            assert(uri[at + 1] == base[at + 1]);
        } else {
            assert(uri[at] == suffix[at - base.len()]);
        }
    }
}

/// Setting the client request id or the lease id leaves the URL as it was.
pub proof fn lemma_ids_leave_the_uri(
    builder: GetACLBuilderView,
    client_request_id: Seq<char>,
    lease_id: Seq<char>,
)
    ensures
        builder.with_client_request_id(client_request_id).uri() == builder.uri(),
        builder.with_lease_id(lease_id).uri() == builder.uri(),
{
}

/// Once the client request id is set, the request holds exactly one header
/// named `x-ms-client-request-id`, and its value is that id. The headers of
/// other names are as they were.
pub proof fn lemma_one_client_request_id_header(
    builder: GetACLBuilderView,
    client_request_id: Seq<char>,
)
    ensures
        headers_named(
            builder.with_client_request_id(client_request_id).headers(),
            CLIENT_REQUEST_ID@,
        ) == seq![HeaderView { name: CLIENT_REQUEST_ID@, value: client_request_id }],
        headers_named(builder.with_client_request_id(client_request_id).headers(), LEASE_ID@)
            == headers_named(builder.headers(), LEASE_ID@),
{
    lemma_header_names_differ();
    let set = builder.with_client_request_id(client_request_id);
    let is_id = |h: HeaderView| h.name == CLIENT_REQUEST_ID@;
    let is_lease = |h: HeaderView| h.name == LEASE_ID@;
    reveal_with_fuel(Seq::filter, 3);
    assert(set.headers().filter(is_id) =~= seq![
        HeaderView { name: CLIENT_REQUEST_ID@, value: client_request_id },
    ]);
    assert(set.headers().filter(is_lease) =~= builder.headers().filter(is_lease));
}

/// Once the lease id is set, the request holds exactly one header named
/// `x-ms-lease-id`, and its value is that id. The headers of other names are
/// as they were.
pub proof fn lemma_one_lease_id_header(builder: GetACLBuilderView, lease_id: Seq<char>)
    ensures
        headers_named(builder.with_lease_id(lease_id).headers(), LEASE_ID@) == seq![
            HeaderView { name: LEASE_ID@, value: lease_id },
        ],
        headers_named(builder.with_lease_id(lease_id).headers(), CLIENT_REQUEST_ID@)
            == headers_named(builder.headers(), CLIENT_REQUEST_ID@),
{
    lemma_header_names_differ();
    let set = builder.with_lease_id(lease_id);
    let is_id = |h: HeaderView| h.name == CLIENT_REQUEST_ID@;
    let is_lease = |h: HeaderView| h.name == LEASE_ID@;
    reveal_with_fuel(Seq::filter, 3);
    assert(set.headers().filter(is_lease) =~= seq![HeaderView { name: LEASE_ID@, value: lease_id }]);
    assert(set.headers().filter(is_id) =~= builder.headers().filter(is_id));
}

/// A request holds no header of an id that was never set.
pub proof fn lemma_no_header_without_id(builder: GetACLBuilderView)
    ensures
        builder.client_request_id is None ==> headers_named(
            builder.headers(),
            CLIENT_REQUEST_ID@,
        ).len() == 0,
        builder.lease_id is None ==> headers_named(builder.headers(), LEASE_ID@).len() == 0,
{
    lemma_header_names_differ();
    reveal_with_fuel(Seq::filter, 3);
}

/// The two header names are different texts.
pub proof fn lemma_header_names_differ()
    ensures
        CLIENT_REQUEST_ID@ != LEASE_ID@,
{
    reveal_strlit("x-ms-client-request-id");
    reveal_strlit("x-ms-lease-id");
    assert(CLIENT_REQUEST_ID@.len() == 22);
    assert(LEASE_ID@.len() == 13);
}

} // verus!
