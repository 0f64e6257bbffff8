use azure_container_acl::client::Client;
use azure_container_acl::get_acl_builder::GetACLBuilder;
use azure_container_acl::lease::LeaseId;
use azure_container_acl::request::{Header, Request};

fn count_of(text: &str, needle: &str) -> usize {
    text.matches(needle).count()
}

fn headers_named<'a>(request: &'a Request, name: &str) -> Vec<&'a Header> {
    request.headers.iter().filter(|h| h.name == name).collect()
}

#[test]
fn url_without_options() {
    let client = Client::new("myaccount");
    let request = GetACLBuilder::new(&client).with_container_name("photos").finalize();
    assert_eq!(
        request.uri,
        "https://myaccount.blob.core.windows.net/photos?restype=container&comp=acl"
    );
    assert!(request.uri.ends_with("comp=acl"));
    assert!(request.headers.is_empty());
}

#[test]
fn method_is_get() {
    let client = Client::new("myaccount");
    let request = GetACLBuilder::new(&client).with_container_name("photos").finalize();
    assert_eq!(request.method, "GET");
    assert_eq!(request.method, hyper::Method::GET.as_str());
}

#[test]
fn url_with_timeout() {
    let client = Client::new("myaccount");
    let request =
        GetACLBuilder::new(&client).with_container_name("photos").with_timeout(30).finalize();
    assert_eq!(
        request.uri,
        "https://myaccount.blob.core.windows.net/photos?restype=container&comp=acl&timeout=30"
    );
    assert_eq!(count_of(&request.uri, "&timeout="), 1);
}

#[test]
fn timeout_zero_and_largest() {
    let client = Client::new("a");
    let request = GetACLBuilder::new(&client).with_container_name("c").with_timeout(0).finalize();
    assert_eq!(request.uri, "https://a.blob.core.windows.net/c?restype=container&comp=acl&timeout=0");
    let request =
        GetACLBuilder::new(&client).with_container_name("c").with_timeout(u64::MAX).finalize();
    assert_eq!(
        request.uri,
        "https://a.blob.core.windows.net/c?restype=container&comp=acl&timeout=18446744073709551615"
    );
}

#[test]
fn timeout_is_appended_once_in_any_order() {
    let client = Client::new("myaccount");
    let lease = LeaseId::new("lease-a");
    let expected =
        "https://myaccount.blob.core.windows.net/photos?restype=container&comp=acl&timeout=45";
    let first = GetACLBuilder::new(&client)
        .with_timeout(45)
        .with_container_name("photos")
        .with_client_request_id("trace-1")
        .with_lease_id(&lease)
        .finalize();
    let middle = GetACLBuilder::new(&client)
        .with_container_name("photos")
        .with_client_request_id("trace-1")
        .with_timeout(45)
        .with_lease_id(&lease)
        .finalize();
    let last = GetACLBuilder::new(&client)
        .with_lease_id(&lease)
        .with_client_request_id("trace-1")
        .with_container_name("photos")
        .with_timeout(45)
        .finalize();
    assert_eq!(first.uri, expected);
    assert_eq!(middle.uri, expected);
    assert_eq!(last.uri, expected);
    assert_eq!(count_of(&first.uri, "timeout="), 1);
    assert_eq!(first, middle);
    assert_eq!(middle, last);
}

#[test]
fn the_last_timeout_counts() {
    let client = Client::new("myaccount");
    let request = GetACLBuilder::new(&client)
        .with_timeout(10)
        .with_container_name("photos")
        .with_timeout(20)
        .finalize();
    assert_eq!(
        request.uri,
        "https://myaccount.blob.core.windows.net/photos?restype=container&comp=acl&timeout=20"
    );
    assert_eq!(count_of(&request.uri, "&timeout="), 1);
}

#[test]
fn client_request_id_becomes_one_header() {
    let client = Client::new("myaccount");
    let plain = GetACLBuilder::new(&client).with_container_name("photos").finalize();
    let request = GetACLBuilder::new(&client)
        .with_container_name("photos")
        .with_client_request_id("trace-1")
        .finalize();
    assert_eq!(request.uri, plain.uri);
    assert_eq!(request.headers, vec![Header::new("x-ms-client-request-id", "trace-1")]);
    assert_eq!(headers_named(&request, "x-ms-client-request-id").len(), 1);
    assert_eq!(headers_named(&request, "x-ms-lease-id").len(), 0);
}

#[test]
fn lease_id_becomes_one_header() {
    let client = Client::new("myaccount");
    let lease = LeaseId::new("6ac4b1d5-1a3e-4f0c-9d53-0d6f5c0a1b2e");
    let plain = GetACLBuilder::new(&client).with_container_name("photos").finalize();
    let request =
        GetACLBuilder::new(&client).with_container_name("photos").with_lease_id(&lease).finalize();
    assert_eq!(request.uri, plain.uri);
    assert_eq!(
        request.headers,
        vec![Header::new("x-ms-lease-id", "6ac4b1d5-1a3e-4f0c-9d53-0d6f5c0a1b2e")]
    );
    assert_eq!(headers_named(&request, "x-ms-lease-id").len(), 1);
    assert_eq!(headers_named(&request, "x-ms-client-request-id").len(), 0);
}

#[test]
fn both_ids_give_two_headers_in_a_fixed_order() {
    let client = Client::new("myaccount");
    let lease = LeaseId::new("lease-a");
    let expected =
        vec![Header::new("x-ms-client-request-id", "trace-1"), Header::new("x-ms-lease-id", "lease-a")];
    let one = GetACLBuilder::new(&client)
        .with_container_name("photos")
        .with_client_request_id("trace-1")
        .with_lease_id(&lease)
        .finalize();
    let other = GetACLBuilder::new(&client)
        .with_lease_id(&lease)
        .with_client_request_id("trace-1")
        .with_container_name("photos")
        .finalize();
    assert_eq!(one.headers, expected);
    assert_eq!(other.headers, expected);
    assert_eq!(one.uri, "https://myaccount.blob.core.windows.net/photos?restype=container&comp=acl");
}

#[test]
fn an_id_set_twice_gives_one_header() {
    let client = Client::new("myaccount");
    let old_lease = LeaseId::new("lease-a");
    let new_lease = LeaseId::new("lease-b");
    let request = GetACLBuilder::new(&client)
        .with_container_name("photos")
        .with_client_request_id("trace-1")
        .with_lease_id(&old_lease)
        .with_client_request_id("trace-2")
        .with_lease_id(&new_lease)
        .finalize();
    assert_eq!(
        request.headers,
        vec![Header::new("x-ms-client-request-id", "trace-2"), Header::new("x-ms-lease-id", "lease-b")]
    );
}

#[test]
fn names_are_taken_as_they_are() {
    let client = Client::new("");
    let request = GetACLBuilder::new(&client).with_container_name("").finalize();
    assert_eq!(request.uri, "https://.blob.core.windows.net/?restype=container&comp=acl");
    let client = Client::new("dev-account");
    let request = GetACLBuilder::new(&client)
        .with_container_name("$root")
        .with_client_request_id("")
        .finalize();
    assert_eq!(
        request.uri,
        "https://dev-account.blob.core.windows.net/$root?restype=container&comp=acl"
    );
    assert_eq!(request.headers, vec![Header::new("x-ms-client-request-id", "")]);
}

#[test]
fn an_ampersand_in_a_name_is_not_escaped() {
    let client = Client::new("myaccount");
    let request = GetACLBuilder::new(&client)
        .with_container_name("a&timeout=1")
        .with_timeout(2)
        .finalize();
    assert_eq!(
        request.uri,
        "https://myaccount.blob.core.windows.net/a&timeout=1?restype=container&comp=acl&timeout=2"
    );
    assert_eq!(count_of(&request.uri, "&timeout="), 2);
    assert!(request.uri.ends_with("&comp=acl&timeout=2"));
}
