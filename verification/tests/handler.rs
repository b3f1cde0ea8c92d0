use relic_hyper_server::handler::handle;
use relic_hyper_server::message::{Header, Request, Response};

fn request(method: &str, path: &str, headers: Vec<Header>, body: &[u8]) -> Request {
    Request { method: method.to_string(), path: path.to_string(), headers, body: body.to_vec() }
}

fn header(name: &str, value: &[u8]) -> Header {
    Header { name: name.to_string(), value: value.to_vec() }
}

fn greeting() -> Response {
    Response { status: 200, headers: Vec::new(), body: b"Hello, World!".to_vec() }
}

#[test]
fn get_of_the_root_is_greeted() {
    let response = handle(request("GET", "/", Vec::new(), b""));
    assert_eq!(response.status, 200);
    assert_eq!(response.body, b"Hello, World!".to_vec());
    assert!(response.headers.is_empty());
}

#[test]
fn the_body_is_thirteen_bytes_of_ascii() {
    let response = handle(request("GET", "/", Vec::new(), b""));
    assert_eq!(
        response.body,
        vec![72u8, 101, 108, 108, 111, 44, 32, 87, 111, 114, 108, 100, 33]
    );
    assert_eq!(String::from_utf8(response.body), Ok("Hello, World!".to_string()));
}

#[test]
fn every_method_is_greeted() {
    for method in ["GET", "HEAD", "POST", "PUT", "DELETE", "OPTIONS", "PATCH", "TRACE", "BREW"] {
        assert_eq!(handle(request(method, "/", Vec::new(), b"")), greeting());
    }
}

#[test]
fn every_path_is_greeted() {
    for path in ["/", "/index.html", "/a/b/c?d=e&f=g", "*", "/%20", "/missing", ""] {
        assert_eq!(handle(request("GET", path, Vec::new(), b"")), greeting());
    }
}

#[test]
fn headers_of_the_request_change_nothing() {
    let headers = vec![
        header("host", b"127.0.0.1:3000"),
        header("accept", b"application/json"),
        header("content-type", b"text/plain"),
        header("x-raw", &[0xff, 0xfe, 0x00]),
    ];
    assert_eq!(handle(request("GET", "/", headers, b"")), greeting());
}

#[test]
fn the_body_of_the_request_changes_nothing() {
    assert_eq!(handle(request("POST", "/submit", Vec::new(), b"name=value")), greeting());
    assert_eq!(handle(request("PUT", "/blob", Vec::new(), &[0u8; 4096])), greeting());
    assert_eq!(handle(request("POST", "/", Vec::new(), b"Hello, World!")), greeting());
}

#[test]
fn an_empty_request_is_greeted() {
    assert_eq!(handle(request("", "", Vec::new(), b"")), greeting());
}

#[test]
fn the_response_has_no_header_of_its_own() {
    let headers = vec![header("x-echo", b"me")];
    let response = handle(request("GET", "/", headers, b""));
    assert_eq!(response.headers, Vec::<Header>::new());
}

#[test]
fn the_response_is_no_copy_of_the_request_body() {
    let sent = b"something else".to_vec();
    let response = handle(request("POST", "/", Vec::new(), &sent));
    assert_ne!(response.body, sent);
    assert_eq!(response.body, b"Hello, World!".to_vec());
}

#[test]
fn requests_in_a_row_are_answered_one_for_one() {
    let requests = vec![
        request("GET", "/first", Vec::new(), b""),
        request("POST", "/second", vec![header("content-length", b"1")], b"2"),
        request("DELETE", "/third", Vec::new(), b""),
    ];
    let mut responses = Vec::new();
    let asked = requests.len();
    for one in requests {
        responses.push(handle(one));
    }
    assert_eq!(responses.len(), asked);
    assert_eq!(responses, vec![greeting(), greeting(), greeting()]);
}

#[test]
fn the_same_request_gets_the_same_response_again() {
    let asked = request("GET", "/", Vec::new(), b"");
    assert_eq!(handle(asked.clone()), handle(asked));
}

#[test]
fn requests_of_two_connections_are_each_greeted() {
    let first = vec![request("GET", "/a", Vec::new(), b""), request("GET", "/b", Vec::new(), b"")];
    let second = vec![request("POST", "/c", Vec::new(), b"x"), request("PUT", "/d", Vec::new(), b"y")];
    let mut to_first = Vec::new();
    let mut to_second = Vec::new();
    for (one, other) in first.into_iter().zip(second) {
        to_second.push(handle(other));
        to_first.push(handle(one));
    }
    assert_eq!(to_first, vec![greeting(), greeting()]);
    assert_eq!(to_second, vec![greeting(), greeting()]);
}
