use sert::errors::RequestParseError;
use sert::request::{HeaderBlock, HttpMethod, Request};
use std::io::BufRead;

fn block(lines: &[&str]) -> HeaderBlock {
    HeaderBlock::from_lines(lines.iter().map(|l| l.to_string()).collect())
}

#[test]
fn every_known_method_parses() {
    let methods = [
        ("POST", HttpMethod::POST),
        ("GET", HttpMethod::GET),
        ("HEAD", HttpMethod::HEAD),
        ("PUT", HttpMethod::PUT),
        ("DELETE", HttpMethod::DELETE),
        ("CONNECT", HttpMethod::CONNECT),
        ("OPTIONS", HttpMethod::OPTIONS),
        ("TRACE", HttpMethod::TRACE),
        ("PATCH", HttpMethod::PATCH),
    ];
    for (token, method) in methods {
        assert_eq!(HttpMethod::from_token(token), Some(method));
        let line = format!("{} /some/page.html HTTP/1.1", token);
        assert_eq!(
            Request::from_request_line(&line),
            Ok(Request { method, content: String::from("/some/page.html") })
        );
    }
}

#[test]
fn method_tokens_are_case_sensitive() {
    assert_eq!(HttpMethod::from_token("get"), None);
    assert_eq!(HttpMethod::from_token("Get"), None);
    assert_eq!(HttpMethod::from_token(""), None);
    assert_eq!(HttpMethod::from_token("GET "), None);
}

#[test]
fn unknown_method_carries_the_token() {
    assert_eq!(
        Request::from_request_line("FETCH / HTTP/1.1"),
        Err(RequestParseError::InvalidMethodError(String::from("FETCH")))
    );
    assert_eq!(
        Request::from_request_line(" / HTTP/1.1"),
        Err(RequestParseError::InvalidMethodError(String::new()))
    );
}

#[test]
fn wrong_token_count_is_a_malformed_header() {
    for line in ["GET /", "GET", "GET / HTTP/1.1 extra", "GET  / HTTP/1.1", "GET / HTTP/1.1 "] {
        assert_eq!(
            Request::from_request_line(line),
            Err(RequestParseError::InvalidRequestHeader),
            "line {:?}",
            line
        );
    }
}

#[test]
fn token_count_is_checked_before_the_method() {
    assert_eq!(
        Request::from_request_line("FETCH /"),
        Err(RequestParseError::InvalidRequestHeader)
    );
}

#[test]
fn version_is_not_looked_at() {
    assert_eq!(
        Request::from_request_line("GET / whatever"),
        Ok(Request { method: HttpMethod::GET, content: String::from("/") })
    );
}

#[test]
fn empty_payload_is_an_empty_request() {
    assert_eq!(Request::try_from(&HeaderBlock::new()), Err(RequestParseError::EmptyRequestError));
    assert_eq!(Request::try_from(&block(&[])), Err(RequestParseError::EmptyRequestError));
}

#[test]
fn blank_first_line_is_an_empty_request() {
    assert_eq!(
        Request::try_from(&block(&["", "GET / HTTP/1.1"])),
        Err(RequestParseError::EmptyRequestError)
    );
}

#[test]
fn request_is_read_from_the_first_line() {
    let lines = ["GET /a.html HTTP/1.1", "Host: example", "Accept: */*", "", "body"];
    assert_eq!(
        Request::try_from(&block(&lines)),
        Ok(Request { method: HttpMethod::GET, content: String::from("/a.html") })
    );
}

#[test]
fn header_block_stops_at_the_first_blank_line() {
    let collected = block(&["GET / HTTP/1.1", "Host: x", "", "later", ""]);
    assert_eq!(collected.len(), 2);
    assert_eq!(collected.line(0), "GET / HTTP/1.1");
    assert_eq!(collected.line(1), "Host: x");
}

#[test]
fn header_block_says_when_to_stop_reading() {
    let mut collected = HeaderBlock::new();
    assert!(collected.offer(String::from("GET / HTTP/1.1")));
    assert!(collected.offer(String::from("Host: x")));
    assert!(!collected.offer(String::new()));
    assert!(!collected.offer(String::from("ignored")));
    assert_eq!(collected.len(), 2);
}

#[test]
fn header_block_without_blank_line_keeps_everything() {
    let collected = block(&["GET / HTTP/1.1", "Host: x"]);
    assert_eq!(collected.len(), 2);
}

#[test]
fn request_error_messages() {
    assert_eq!(
        RequestParseError::InvalidMethodError(String::from("FETCH")).message(),
        "Invalid request method: FETCH"
    );
    assert_eq!(RequestParseError::EmptyRequestError.message(), "Request was empty");
    assert_eq!(
        RequestParseError::InvalidRequestHeader.message(),
        "Request header was not formatted correctly"
    );
}

fn std_header_lines(payload: &[u8]) -> Vec<String> {
    payload
        .lines()
        .map(|line| line.unwrap_or_default())
        .take_while(|line| !line.is_empty())
        .collect()
}

fn collected(block: &HeaderBlock) -> Vec<String> {
    (0..block.len()).map(|i| block.line(i).to_string()).collect()
}

#[test]
fn header_block_from_bytes_agrees_with_std_line_reading() {
    let payloads: [&[u8]; 16] = [
        b"",
        b"GET / HTTP/1.1\r\nHost: x\r\n\r\n",
        b"GET / HTTP/1.1\nHost: x\n\nbody\n",
        b"GET / HTTP/1.1",
        b"GET / HTTP/1.1\r",
        b"GET / HTTP/1.1\r\r\n",
        b"\r\nGET / HTTP/1.1\r\n",
        b"\n",
        b"\r",
        b"a\rb\nc",
        b"GET /caf\xc3\xa9 HTTP/1.1\r\n\r\n",
        b"GET /\xff HTTP/1.1\r\nHost: x\r\n\r\n",
        b"GET / HTTP/1.1\r\nX: \xc3\r\nY: z\r\n\r\n",
        b"one\ntwo\nthree",
        b"one\n\xe4\xb8\x96\n",
        b"\xe4\xb8\n",
    ];
    for payload in payloads {
        assert_eq!(
            collected(&HeaderBlock::from_bytes(payload)),
            std_header_lines(payload),
            "payload {:?}",
            payload
        );
    }
}

#[test]
fn raw_lines_are_taken_one_by_one() {
    let mut block = HeaderBlock::new();
    assert!(block.offer_bytes(b"GET / HTTP/1.1\r\n"));
    assert!(block.offer_bytes(b"Host: \xc3\xa9\n"));
    assert!(block.offer_bytes(b"\r"));
    assert!(!block.offer_bytes(b"\r\n"));
    assert!(!block.offer_bytes(b"Late: x\r\n"));
    assert_eq!(collected(&block), vec!["GET / HTTP/1.1", "Host: \u{e9}", "\r"]);
}

#[test]
fn raw_line_that_is_no_text_ends_the_block() {
    let mut block = HeaderBlock::new();
    assert!(block.offer_bytes(b"GET / HTTP/1.1\r\n"));
    assert!(!block.offer_bytes(b"Host: \xff\r\n"));
    assert_eq!(block.len(), 1);
}

#[test]
fn request_is_read_from_the_bytes_of_a_connection() {
    assert_eq!(
        Request::from_bytes(b"GET /index.html HTTP/1.1\r\nHost: localhost\r\n\r\n"),
        Ok(Request { method: HttpMethod::GET, content: String::from("/index.html") })
    );
    assert_eq!(
        Request::from_bytes(b"DELETE /caf\xc3\xa9 HTTP/1.1\n"),
        Ok(Request { method: HttpMethod::DELETE, content: String::from("/caf\u{e9}") })
    );
}

#[test]
fn empty_payload_is_an_empty_request_at_the_byte_level() {
    assert_eq!(Request::from_bytes(b""), Err(RequestParseError::EmptyRequestError));
    assert_eq!(Request::from_bytes(b"\r\n"), Err(RequestParseError::EmptyRequestError));
    assert_eq!(Request::from_bytes(b"\xff\xfe\r\n"), Err(RequestParseError::EmptyRequestError));
}
