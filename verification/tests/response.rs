use azure_container_acl::errors::{
    check_status_extract_headers_and_body, AzureError, UnexpectedHTTPResult,
};
use azure_container_acl::get_acl_builder::{process_response, EXPECTED_STATUS};
use azure_container_acl::request::Header;
use azure_container_acl::response::Response;
use std::cell::Cell;

fn response(status: u16) -> Response {
    Response {
        status,
        headers: vec![
            Header::new("x-ms-blob-public-access", "container"),
            Header::new("etag", "\"0x8D5\""),
        ],
        body: b"<SignedIdentifiers />".to_vec(),
    }
}

fn public_access(headers: Vec<Header>, _body: Vec<u8>) -> Result<String, AzureError> {
    match headers.into_iter().find(|h| h.name == "x-ms-blob-public-access") {
        Some(h) => Ok(h.value),
        None => Err(AzureError::ResponseParsingError(String::from("no access level"))),
    }
}

#[test]
fn expected_status_is_ok() {
    assert_eq!(EXPECTED_STATUS, 200);
    assert_eq!(EXPECTED_STATUS, hyper::StatusCode::OK.as_u16());
}

#[test]
fn status_check_lets_the_expected_status_through() {
    let checked = check_status_extract_headers_and_body(response(200), 200);
    assert_eq!(checked, Ok((response(200).headers, response(200).body)));
    let checked = check_status_extract_headers_and_body(response(201), 201);
    assert_eq!(checked, Ok((response(201).headers, response(201).body)));
}

#[test]
fn status_check_refuses_another_status() {
    let checked = check_status_extract_headers_and_body(response(404), 200);
    assert_eq!(
        checked,
        Err(AzureError::UnexpectedHTTPResult(UnexpectedHTTPResult {
            expected: 200,
            received: 404,
            body: b"<SignedIdentifiers />".to_vec(),
        }))
    );
    let checked = check_status_extract_headers_and_body(response(200), 201);
    assert_eq!(
        checked,
        Err(AzureError::UnexpectedHTTPResult(UnexpectedHTTPResult {
            expected: 201,
            received: 200,
            body: b"<SignedIdentifiers />".to_vec(),
        }))
    );
}

#[test]
fn ok_response_is_parsed() {
    let result = process_response(Ok(response(200)), public_access);
    assert_eq!(result, Ok(String::from("container")));
}

#[test]
fn parser_gets_headers_and_body_unchanged() {
    let result = process_response(Ok(response(200)), |headers, body| {
        Ok::<(Vec<Header>, Vec<u8>), AzureError>((headers, body))
    });
    assert_eq!(result, Ok((response(200).headers, response(200).body)));
}

#[test]
fn parse_failure_is_handed_on() {
    let bare = Response { status: 200, headers: Vec::new(), body: Vec::new() };
    let result = process_response(Ok(bare), public_access);
    assert_eq!(result, Err(AzureError::ResponseParsingError(String::from("no access level"))));
}

#[test]
fn other_status_is_an_error_and_nothing_is_parsed() {
    let statuses: [u16; 9] = [0, 100, 199, 201, 204, 304, 404, 500, 65535];
    for status in statuses.iter() {
        let calls = Cell::new(0u32);
        let result = process_response(Ok(response(*status)), |_headers, _body| {
            calls.set(calls.get() + 1);
            Ok::<u8, AzureError>(1)
        });
        assert_eq!(
            result,
            Err(AzureError::UnexpectedHTTPResult(UnexpectedHTTPResult {
                expected: 200,
                received: *status,
                body: b"<SignedIdentifiers />".to_vec(),
            }))
        );
        assert_eq!(calls.get(), 0);
    }
}

#[test]
fn ok_response_is_parsed_once() {
    let calls = Cell::new(0u32);
    let result = process_response(Ok(response(200)), |_headers, body| {
        calls.set(calls.get() + 1);
        Ok::<usize, AzureError>(body.len())
    });
    assert_eq!(result, Ok(21));
    assert_eq!(calls.get(), 1);
}

#[test]
fn transport_failure_is_handed_on() {
    let calls = Cell::new(0u32);
    let failure = AzureError::TransportError(String::from("connection reset"));
    let result = process_response(Err(failure), |_headers, _body| {
        calls.set(calls.get() + 1);
        Ok::<u8, AzureError>(1)
    });
    assert_eq!(result, Err(AzureError::TransportError(String::from("connection reset"))));
    assert_eq!(calls.get(), 0);
}

#[test]
fn malformed_body_of_a_failed_call_is_kept_as_it_came() {
    let broken = Response { status: 403, headers: Vec::new(), body: vec![0xff, 0xfe, 0x00] };
    let result =
        process_response(Ok(broken), |_headers, _body| -> Result<u8, AzureError> { panic!() });
    match result {
        Err(AzureError::UnexpectedHTTPResult(unexpected)) => {
            assert_eq!(unexpected.expected, 200);
            assert_eq!(unexpected.received, 403);
            assert_eq!(unexpected.body, vec![0xff, 0xfe, 0x00]);
        }
        _ => panic!(),
    }
}
