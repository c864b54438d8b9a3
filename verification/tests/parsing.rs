use web::models::http::{
    HTTPHeaderType, HTTPMethod, HTTPParseError, HTTPRequest, HTTPVersion,
};

fn read(text: &str) -> Result<HTTPRequest, HTTPParseError> {
    HTTPRequest::new(text.to_string())
}

#[test]
fn parse_recovers_every_part() {
    let req = read("POST /items?kind=a HTTP/1.1\r\nHost: example.org\r\n\r\nBODY").unwrap();
    assert_eq!(req.method, HTTPMethod::POST);
    assert_eq!(req.method(), HTTPMethod::POST);
    assert_eq!(req.url, "/items?kind=a");
    assert_eq!(req.version, HTTPVersion::HTTP1_1);
    assert_eq!(req.headers.len(), 1);
    assert_eq!(req.headers.get(&HTTPHeaderType::Host), Some(&"example.org".to_string()));
    assert_eq!(req.body, Some("BODY".to_string()));
}

#[test]
fn parse_rejects_unknown_method() {
    assert_eq!(read("FOO /x HTTP/1.1").unwrap_err(), HTTPParseError::UnsupportedMethod);
    assert_eq!(read("FOO /x HTTP/1.1\r\n\r\n").unwrap_err(), HTTPParseError::UnsupportedMethod);
}

#[test]
fn parse_rejects_unknown_version() {
    assert_eq!(read("GET /x HTTP/9\r\n\r\n").unwrap_err(), HTTPParseError::UnsupportedVersion);
    assert_eq!(read("GET /x FTP\r\n\r\n").unwrap_err(), HTTPParseError::UnsupportedVersion);
}

#[test]
fn parse_rejects_short_request_line() {
    assert_eq!(read("").unwrap_err(), HTTPParseError::MalformedRequestLine);
    assert_eq!(read("GET").unwrap_err(), HTTPParseError::MalformedRequestLine);
    assert_eq!(read("GET /x\r\n\r\n").unwrap_err(), HTTPParseError::MalformedRequestLine);
    assert_eq!(read("FOO /x\r\n").unwrap_err(), HTTPParseError::MalformedRequestLine);
    assert_eq!(read("\r\nGET /x HTTP/1.1\r\n").unwrap_err(), HTTPParseError::MalformedRequestLine);
}

#[test]
fn parse_accepts_every_method_and_version() {
    assert_eq!(read("GET / HTTP/1.1").unwrap().method, HTTPMethod::GET);
    assert_eq!(read("POST / HTTP/1.1").unwrap().method, HTTPMethod::POST);
    assert_eq!(read("PATCH / HTTP/1.1").unwrap().method, HTTPMethod::PATCH);
    assert_eq!(read("DELETE / HTTP/1.1").unwrap().method, HTTPMethod::DELETE);
    assert_eq!(read("GET / HTTP/1.1").unwrap().version, HTTPVersion::HTTP1_1);
    assert_eq!(read("GET / HTTP/2").unwrap().version, HTTPVersion::HTTP2);
    assert_eq!(read("GET / HTTP/3").unwrap().version, HTTPVersion::HTTP3);
}

#[test]
fn version_is_matched_without_regard_to_case() {
    assert_eq!(read("GET / http/1.1\r\n").unwrap().version, HTTPVersion::HTTP1_1);
    assert_eq!(read("GET / Http/2\r\n").unwrap().version, HTTPVersion::HTTP2);
    assert_eq!(HTTPVersion::from_str("hTTp/3"), Ok(HTTPVersion::HTTP3));
    assert_eq!(HTTPVersion::from_str("HTTP/1.0"), Err(HTTPParseError::UnsupportedVersion));
}

#[test]
fn method_is_matched_exactly() {
    assert_eq!(HTTPMethod::from_str("GET"), Ok(HTTPMethod::GET));
    assert_eq!(HTTPMethod::from_str("get"), Err(HTTPParseError::UnsupportedMethod));
    assert_eq!(HTTPMethod::from_str("GETS"), Err(HTTPParseError::UnsupportedMethod));
    assert_eq!(HTTPMethod::from_str(""), Err(HTTPParseError::UnsupportedMethod));
    assert_eq!(read("get / HTTP/1.1").unwrap_err(), HTTPParseError::UnsupportedMethod);
}

#[test]
fn tokens_behind_the_third_are_ignored() {
    let req = read("GET /x HTTP/1.1 extra words\r\n\r\n").unwrap();
    assert_eq!(req.url, "/x");
    assert_eq!(req.version, HTTPVersion::HTTP1_1);
}

#[test]
fn two_spaces_make_an_empty_token() {
    assert_eq!(read("GET  /x HTTP/1.1").unwrap_err(), HTTPParseError::UnsupportedVersion);
    let req = read("GET  HTTP/1.1").unwrap();
    assert_eq!(req.url, "");
}

#[test]
fn empty_body_is_no_body() {
    assert_eq!(read("GET / HTTP/1.1\r\nHost: a\r\n\r\n").unwrap().body, None);
    assert_eq!(read("GET / HTTP/1.1\r\nHost: a\r\n").unwrap().body, None);
    assert_eq!(read("GET / HTTP/1.1").unwrap().body, None);
}

#[test]
fn body_is_taken_as_it_is() {
    let req = read("GET / HTTP/1.1\r\n\r\n  two\r\n\r\nlines \n").unwrap();
    assert_eq!(req.body, Some("  two\r\n\r\nlines \n".to_string()));
    assert!(req.headers.is_empty());
}

#[test]
fn bare_line_feeds_end_lines_too() {
    let req = read("GET /a HTTP/1.1\nHost: h\n\nrest").unwrap();
    assert_eq!(req.url, "/a");
    assert_eq!(req.headers.get(&HTTPHeaderType::Host), Some(&"h".to_string()));
    assert_eq!(req.body, Some("rest".to_string()));
}

#[test]
fn a_line_of_white_space_ends_the_headers() {
    let req = read("GET / HTTP/1.1\r\nHost: h\r\n \t \r\nX: y\r\n").unwrap();
    assert_eq!(req.headers.len(), 1);
    assert_eq!(req.body, Some("X: y\r\n".to_string()));
}

#[test]
fn header_values_are_trimmed() {
    let req = read("GET / HTTP/1.1\r\nAccept: \t text/html  \r\n\r\n").unwrap();
    assert_eq!(req.headers.get(&HTTPHeaderType::Accept), Some(&"text/html".to_string()));
}

#[test]
fn header_value_is_cut_at_the_first_colon() {
    let req = read("GET / HTTP/1.1\r\nHost: localhost:3000\r\n\r\n").unwrap();
    assert_eq!(req.headers.get(&HTTPHeaderType::Host), Some(&"localhost:3000".to_string()));
}

#[test]
fn header_line_without_colon_is_skipped() {
    let req = read("GET / HTTP/1.1\r\nnonsense\r\nHost: h\r\n\r\n").unwrap();
    assert_eq!(req.headers.len(), 1);
    assert!(req.headers.contains_key(&HTTPHeaderType::Host));
}

#[test]
fn later_header_line_wins() {
    let req = read("GET / HTTP/1.1\r\nHost: a\r\nhost: b\r\nHOST: c\r\n\r\n").unwrap();
    assert_eq!(req.headers.len(), 1);
    assert_eq!(req.headers.get(&HTTPHeaderType::Host), Some(&"c".to_string()));
}

#[test]
fn unknown_header_names_are_kept() {
    let req = read("GET / HTTP/1.1\r\nX-Trace-Id: 7\r\n\r\n").unwrap();
    let name = HTTPHeaderType::Other("X-Trace-Id".to_string());
    assert_eq!(req.headers.get(&name), Some(&"7".to_string()));
    let folded = HTTPHeaderType::Other("x-trace-id".to_string());
    assert_eq!(req.headers.get(&folded), Some(&"7".to_string()));
    assert_eq!(req.headers.get(&HTTPHeaderType::Host), None);
}

#[test]
fn parsing_is_a_function_of_the_text() {
    let text = "PATCH /a/b?x=1 HTTP/2\r\nContent-Type: text/plain\r\n\r\nhello";
    let one = read(text).unwrap();
    let two = read(text).unwrap();
    assert_eq!(one.method, two.method);
    assert_eq!(one.url, two.url);
    assert_eq!(one.version, two.version);
    assert_eq!(one.body, two.body);
    assert_eq!(
        one.headers.get(&HTTPHeaderType::ContentType),
        two.headers.get(&HTTPHeaderType::ContentType)
    );
}

#[test]
fn error_messages() {
    assert_eq!(HTTPParseError::MalformedRequestLine.to_string(), "Malformed request line");
    assert_eq!(HTTPParseError::UnsupportedMethod.to_string(), "Invalid HTTP method");
    assert_eq!(HTTPParseError::UnsupportedVersion.to_string(), "Invalid HTTP version");
}

#[test]
fn text_outside_ascii_is_read_by_characters() {
    let req = read("GET /caf\u{e9}?q=\u{4f60}\u{597d} HTTP/1.1\r\nX-N\u{e4}me: v\u{e4}l\u{3000}\r\n\r\nb\u{f6}dy").unwrap();
    assert_eq!(req.url, "/caf\u{e9}?q=\u{4f60}\u{597d}");
    let name = HTTPHeaderType::Other("X-N\u{e4}me".to_string());
    assert_eq!(req.headers.get(&name), Some(&"v\u{e4}l".to_string()));
    assert_eq!(req.body, Some("b\u{f6}dy".to_string()));
    assert_eq!(req.query_params().get("q"), Some(&"\u{4f60}\u{597d}".to_string()));
}

#[test]
fn tokens_parse_through_the_standard_trait() {
    assert_eq!("DELETE".parse::<HTTPMethod>(), Ok(HTTPMethod::DELETE));
    assert_eq!("delete".parse::<HTTPMethod>(), Err(HTTPParseError::UnsupportedMethod));
    assert_eq!("http/1.1".parse::<HTTPVersion>(), Ok(HTTPVersion::HTTP1_1));
    assert_eq!("HTTP".parse::<HTTPVersion>(), Err(HTTPParseError::UnsupportedVersion));
    assert_eq!(HTTPMethod::PATCH.to_string(), "PATCH");
    assert_eq!(HTTPMethod::GET.as_str(), "GET");
    assert_eq!(HTTPVersion::HTTP1_1.to_string(), "HTTP/1.1");
    assert_eq!(HTTPVersion::HTTP3.as_str(), "HTTP/3");
}
