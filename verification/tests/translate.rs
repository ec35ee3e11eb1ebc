use warp_reverse_proxy::errors::Error;
use warp_reverse_proxy::hop::Header;
use warp_reverse_proxy::message::{OutboundRequest, Reply, Request, Response};
use warp_reverse_proxy::syntax::are_valid_headers;
use warp_reverse_proxy::translate::{
    accept_reply, accept_request, filtered_data_to_request, is_representable_reply,
    is_well_formed_request, outbound_request, reply_to, response_to_reply,
};

fn line(name: &str, value: &[u8]) -> Header {
    Header { name: name.to_string(), value: value.to_vec() }
}

fn inbound(method: &str, query: Option<&str>, headers: Vec<Header>) -> Request {
    Request {
        path: "/foo/bar".to_string(),
        query: query.map(|q| q.to_string()),
        method: method.to_string(),
        headers,
        body: b"foo bar".to_vec(),
    }
}

fn outbound(url: &str, method: &str, headers: Vec<Header>) -> OutboundRequest {
    OutboundRequest {
        url: url.to_string(),
        method: method.to_string(),
        headers,
        body: b"foo bar".to_vec(),
    }
}

#[test]
fn request_keeps_method_and_body_and_gets_the_query() {
    let request = inbound("POST", Some("foo=bar"), vec![line("foo", b"bar")]);
    let out = filtered_data_to_request("http://127.0.0.1:4040/foo/bar".to_string(), request);
    assert_eq!(
        out,
        Ok(outbound("http://127.0.0.1:4040/foo/bar?foo=bar", "POST", vec![line("foo", b"bar")]))
    );
}

#[test]
fn request_without_query_keeps_the_url() {
    let request = inbound("GET", None, Vec::new());
    let out = filtered_data_to_request("http://x/leaf".to_string(), request);
    assert_eq!(out, Ok(outbound("http://x/leaf", "GET", Vec::new())));
}

#[test]
fn request_loses_its_hop_headers() {
    let request = inbound(
        "GET",
        None,
        vec![
            line("connection", b"keep-alive"),
            line("accept", b"*/*"),
            line("Upgrade", b"h2c"),
            line("accept", b"text/plain"),
        ],
    );
    let out = filtered_data_to_request("http://x/".to_string(), request).unwrap();
    assert_eq!(out.headers, vec![line("accept", b"*/*"), line("accept", b"text/plain")]);
}

#[test]
fn url_that_does_not_parse_is_a_malformed_request() {
    for url in ["", "not a url", "/only/a/path", "http://", "http://[::1", "http://x:99999/"] {
        let request = inbound("GET", None, Vec::new());
        assert_eq!(
            filtered_data_to_request(url.to_string(), request),
            Err(Error::MalformedRequest),
            "{}",
            url
        );
    }
}

#[test]
fn url_without_a_host_is_a_malformed_request() {
    for url in ["mailto:someone@example.com", "data:text/plain,hello", "unix:/run/socket"] {
        let request = inbound("GET", None, Vec::new());
        assert_eq!(
            filtered_data_to_request(url.to_string(), request),
            Err(Error::MalformedRequest),
            "{}",
            url
        );
    }
}

#[test]
fn method_that_is_no_token_is_a_malformed_request() {
    for method in ["", "GE T", "GET\r\n", "G\u{e9}T"] {
        let request = inbound(method, None, Vec::new());
        assert_eq!(
            filtered_data_to_request("http://x/".to_string(), request),
            Err(Error::MalformedRequest),
            "{:?}",
            method
        );
    }
}

#[test]
fn extension_methods_are_accepted() {
    for method in ["PROPFIND", "PURGE", "get", "A-VERY-LONG-EXTENSION-METHOD-NAME"] {
        let request = inbound(method, None, Vec::new());
        let out = filtered_data_to_request("http://x/".to_string(), request).unwrap();
        assert_eq!(out.method, method);
    }
}

#[test]
fn header_that_cannot_be_sent_is_a_malformed_request() {
    for bad in [line("bad name", b"v"), line("", b"v"), line("x", b"line\nbreak"), line("x", &[0x7f])] {
        let request = inbound("GET", None, vec![line("ok", b"fine"), bad.clone()]);
        assert_eq!(
            filtered_data_to_request("http://x/".to_string(), request),
            Err(Error::MalformedRequest),
            "{:?}",
            bad
        );
    }
}

#[test]
fn hop_header_is_not_asked_whether_it_can_be_sent() {
    let request = inbound("GET", None, vec![line("connection", b"line\nbreak"), line("a", b"b")]);
    let out = filtered_data_to_request("http://x/".to_string(), request).unwrap();
    assert_eq!(out.headers, vec![line("a", b"b")]);
}

#[test]
fn header_values_may_hold_tabs_and_high_bytes() {
    assert!(are_valid_headers(&vec![line("x", b"a\tb"), line("y", &[0x20, 0x80, 0xfa, 0xff])]));
    assert!(are_valid_headers(&vec![line("x", b"")]));
    assert!(are_valid_headers(&Vec::new()));
}

#[test]
fn header_values_may_not_hold_control_bytes() {
    for byte in [0x00u8, 0x08, 0x0a, 0x0d, 0x1f, 0x7f] {
        assert!(!are_valid_headers(&vec![line("x", &[b'a', byte])]), "{}", byte);
    }
    assert!(are_valid_headers(&vec![line("x", &[b'a', 0x09])]));
    assert!(are_valid_headers(&vec![line("x", &[b'a', 0x20])]));
    assert!(are_valid_headers(&vec![line("x", &[b'a', 0x7e])]));
}

#[test]
fn header_names_are_tokens() {
    assert!(are_valid_headers(&vec![line("X-Custom_1", b"v")]));
    for name in ["", "a b", "a:b", "caf\u{e9}", "a\n"] {
        assert!(!are_valid_headers(&vec![line(name, b"v")]), "{:?}", name);
    }
}

#[test]
fn outbound_request_is_built_whatever_it_holds() {
    let request = inbound("GE T", Some("q"), vec![line("te", b"x"), line("bad name", b"y")]);
    let out = outbound_request("nowhere".to_string(), request);
    assert_eq!(out, outbound("nowhere?q", "GE T", vec![line("bad name", b"y")]));
    assert!(!is_well_formed_request(&out));
}

#[test]
fn well_formed_request_is_recognised() {
    assert!(is_well_formed_request(&outbound("http://x/a?b", "GET", vec![line("a", b"b")])));
    assert!(!is_well_formed_request(&outbound("x/a", "GET", Vec::new())));
    assert!(!is_well_formed_request(&outbound("http://x/a", "", Vec::new())));
    assert!(!is_well_formed_request(&outbound("http://x/a", "GET", vec![line("a", b"\n")])));
}

#[test]
fn request_is_handed_on_or_rejected() {
    let out = outbound("http://x/", "GET", Vec::new());
    assert_eq!(accept_request(out.clone(), true), Ok(out.clone()));
    assert_eq!(accept_request(out, false), Err(Error::MalformedRequest));
}

#[test]
fn reply_keeps_status_and_body_and_loses_hop_headers() {
    let response = Response {
        status: 200,
        headers: vec![
            line("content-type", b"text/plain"),
            line("transfer-encoding", b"chunked"),
            line("keep-alive", b"timeout=5"),
            line("set-cookie", b"a=1"),
        ],
        body: b"foo bar".to_vec(),
    };
    assert_eq!(
        response_to_reply(response),
        Ok(Reply {
            status: 200,
            headers: vec![line("content-type", b"text/plain"), line("set-cookie", b"a=1")],
            body: b"foo bar".to_vec(),
        })
    );
}

#[test]
fn every_three_digit_status_is_copied() {
    for status in [100u16, 204, 404, 500, 599, 999] {
        let response = Response { status, headers: Vec::new(), body: Vec::new() };
        assert_eq!(response_to_reply(response).unwrap().status, status);
    }
}

#[test]
fn status_outside_three_digits_is_a_malformed_response() {
    for status in [0u16, 99, 1000, 65535] {
        let response = Response { status, headers: Vec::new(), body: Vec::new() };
        assert_eq!(response_to_reply(response), Err(Error::MalformedResponse), "{}", status);
    }
}

#[test]
fn header_that_cannot_be_relayed_is_a_malformed_response() {
    let response = Response { status: 200, headers: vec![line("x", b"a\rb")], body: Vec::new() };
    assert_eq!(response_to_reply(response), Err(Error::MalformedResponse));
    let response = Response { status: 200, headers: vec![line("x y", b"ab")], body: Vec::new() };
    assert_eq!(response_to_reply(response), Err(Error::MalformedResponse));
}

#[test]
fn reply_is_built_whatever_it_holds() {
    let response = Response { status: 7, headers: vec![line("upgrade", b"x")], body: vec![1, 2] };
    let reply = reply_to(response);
    assert_eq!(reply, Reply { status: 7, headers: Vec::new(), body: vec![1, 2] });
    assert!(!is_representable_reply(&reply));
    assert!(is_representable_reply(&Reply { status: 200, headers: Vec::new(), body: Vec::new() }));
}

#[test]
fn reply_is_handed_on_or_rejected() {
    let reply = Reply { status: 200, headers: Vec::new(), body: vec![1] };
    assert_eq!(accept_reply(reply.clone(), true), Ok(reply.clone()));
    assert_eq!(accept_reply(reply, false), Err(Error::MalformedResponse));
}

#[test]
fn errors_describe_themselves() {
    assert_eq!(Error::MalformedRequest.message(), "malformed request");
    assert_eq!(Error::UpstreamUnreachable.message(), "upstream unreachable");
    assert_eq!(Error::MalformedResponse.message(), "malformed response");
    assert_ne!(Error::MalformedRequest, Error::MalformedResponse);
}
