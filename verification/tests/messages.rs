use std::collections::HashMap;
use web::httpserver::{respond, HTTPServer};
use web::models::http::{
    HTTPHeaderType, HTTPMethod, HTTPRequest, HTTPResponse, HTTPStatus, Headers,
};
use web::router::Router;

#[test]
fn default_response() {
    let res = HTTPResponse::default();
    assert_eq!(res.status, HTTPStatus::OK);
    assert!(res.headers.is_empty());
    assert_eq!(res.body, Some("hello world".to_string()));
}

#[test]
fn error_response() {
    let res = HTTPResponse::error(HTTPStatus::NotFound, "Route not found");
    assert_eq!(res.status, HTTPStatus::NotFound);
    assert!(res.headers.is_empty());
    assert_eq!(res.body, Some("Route not found".to_string()));
}

#[test]
fn serialize_default_response() {
    assert_eq!(HTTPResponse::default().to_string(), "HTTP/1.1 200 OK\r\n\r\nhello world");
}

#[test]
fn serialize_error_response() {
    let res = HTTPResponse::error(HTTPStatus::InternalServerError, "boom");
    assert_eq!(res.to_string(), "HTTP/1.1 500 Internal Server Error\r\n\r\nboom");
}

#[test]
fn serialize_without_body() {
    let mut res = HTTPResponse::default();
    res.status = HTTPStatus::NoContent;
    res.body = None;
    assert_eq!(res.to_string(), "HTTP/1.1 204 No Content\r\n\r\n");
}

#[test]
fn serialize_headers_in_order() {
    let mut res = HTTPResponse::default();
    res.headers.insert(HTTPHeaderType::ContentType, "text/plain".to_string());
    res.headers.insert(HTTPHeaderType::Other("X-Id".to_string()), "7".to_string());
    res.headers.insert(HTTPHeaderType::ContentLength, "2".to_string());
    res.body = Some("hi".to_string());
    assert_eq!(
        res.to_string(),
        "HTTP/1.1 200 OK\r\nContent-Type: text/plain\r\nX-Id: 7\r\nContent-Length: 2\r\n\r\nhi"
    );
}

#[test]
fn headers_are_held_once_whatever_the_case() {
    let mut headers = Headers::new();
    assert_eq!(headers.insert(HTTPHeaderType::Host, "a".to_string()), None);
    assert_eq!(
        headers.insert(HTTPHeaderType::Other("HOST".to_string()), "b".to_string()),
        Some("a".to_string())
    );
    assert_eq!(headers.len(), 1);
    assert_eq!(headers.get(&HTTPHeaderType::Host), Some(&"b".to_string()));
    assert_eq!(headers.get(&HTTPHeaderType::Other("host".to_string())), Some(&"b".to_string()));
    assert_eq!(headers.get(&HTTPHeaderType::Accept), None);
    assert!(headers.contains_key(&HTTPHeaderType::Host));
    assert!(!headers.contains_key(&HTTPHeaderType::Accept));
    let copy = headers.clone();
    assert_eq!(copy.len(), 1);
    assert_eq!(copy.get(&HTTPHeaderType::Host), Some(&"b".to_string()));
}

#[test]
fn replaced_header_keeps_its_place() {
    let mut res = HTTPResponse::default();
    res.body = None;
    res.headers.insert(HTTPHeaderType::Host, "a".to_string());
    res.headers.insert(HTTPHeaderType::Accept, "b".to_string());
    res.headers.insert(HTTPHeaderType::Other("host".to_string()), "c".to_string());
    assert_eq!(res.to_string(), "HTTP/1.1 200 OK\r\nhost: c\r\nAccept: b\r\n\r\n");
}

#[test]
fn status_codes_and_reasons() {
    assert_eq!(HTTPStatus::Continue.code(), 100);
    assert_eq!(HTTPStatus::OK.code(), 200);
    assert_eq!(HTTPStatus::ImUsed.code(), 226);
    assert_eq!(HTTPStatus::PermanentRedirect.code(), 308);
    assert_eq!(HTTPStatus::NotFound.code(), 404);
    assert_eq!(HTTPStatus::ImATeapot.code(), 418);
    assert_eq!(HTTPStatus::UnavailableForLegalReasons.code(), 451);
    assert_eq!(HTTPStatus::NetworkAuthenticationRequired.code(), 511);
    assert_eq!(HTTPStatus::OK.to_string(), "OK");
    assert_eq!(HTTPStatus::ImATeapot.to_string(), "I'm a teapot");
    assert_eq!(HTTPStatus::NonAuthoritativeInformation.as_str(), "Non Authoritative Information");
    assert_eq!(HTTPStatus::MultiStatus.as_str(), "Multi-Status");
    assert_eq!(HTTPStatus::UriTooLong.as_str(), "URI Too Long");
}

#[test]
fn header_names_round_trip() {
    for i in 0..web::models::http::header::KNOWN_HEADERS {
        let known = HTTPHeaderType::known_at(i);
        let spelled = known.to_string();
        let back = HTTPHeaderType::from_name(&spelled);
        assert_eq!(back.as_str(), known.as_str());
        assert!(!matches!(back, HTTPHeaderType::Other(_)));
        let lower = HTTPHeaderType::from_name(&spelled.to_ascii_lowercase());
        assert_eq!(lower.as_str(), known.as_str());
        let upper = HTTPHeaderType::from_name(&spelled.to_ascii_uppercase());
        assert_eq!(upper.as_str(), known.as_str());
        assert!(upper.same_header(&known));
    }
}

#[test]
fn header_names_are_recognised() {
    assert!(matches!(HTTPHeaderType::from_name("content-type"), HTTPHeaderType::ContentType));
    assert!(matches!(HTTPHeaderType::from_name("ETAG"), HTTPHeaderType::ETag));
    assert!(matches!(HTTPHeaderType::from_name("www-authenticate"), HTTPHeaderType::WWWAuthenticate));
    assert!(matches!(HTTPHeaderType::from_name("Dnt"), HTTPHeaderType::DNT));
    assert_eq!(HTTPHeaderType::ContentType.to_string(), "Content-Type");
    assert_eq!(HTTPHeaderType::XXSSProtection.as_str(), "X-XSS-Protection");
    assert_eq!(HTTPHeaderType::SecCHUAPlatform.as_str(), "Sec-CH-UA-Platform");
}

#[test]
fn other_header_names_are_kept_as_written() {
    match HTTPHeaderType::from_name("X-Custom") {
        HTTPHeaderType::Other(raw) => assert_eq!(raw, "X-Custom"),
        _ => panic!("a name that is not well known"),
    }
    match HTTPHeaderType::from_name("") {
        HTTPHeaderType::Other(raw) => assert_eq!(raw, ""),
        _ => panic!("a name that is not well known"),
    }
    match HTTPHeaderType::from_name("Host ") {
        HTTPHeaderType::Other(raw) => assert_eq!(raw, "Host "),
        _ => panic!("a name that is not well known"),
    }
    assert!(HTTPHeaderType::Other("x-y".to_string())
        .same_header(&HTTPHeaderType::Other("X-Y".to_string())));
    assert!(HTTPHeaderType::Other("accept".to_string()).same_header(&HTTPHeaderType::Accept));
    assert!(!HTTPHeaderType::Host.same_header(&HTTPHeaderType::Accept));
}

fn table() -> Router<Box<dyn Fn(&HTTPRequest, &mut HTTPResponse, &str) + Send + Sync>> {
    let mut router: Router<Box<dyn Fn(&HTTPRequest, &mut HTTPResponse, &str) + Send + Sync>> =
        Router::new();
    router.bind(
        (HTTPMethod::GET, "/posts/{id}".to_string()),
        Box::new(|req, res, pattern| {
            let params = req.path_params(pattern).unwrap();
            res.body = Some(format!("Post {}", params["id"]));
        }),
    );
    router
}

#[test]
fn respond_answers_a_served_request() {
    let out = respond(&table(), "GET /posts/42 HTTP/1.1\r\nHost: localhost\r\n\r\n");
    assert_eq!(out, "HTTP/1.1 200 OK\r\n\r\nPost 42");
}

#[test]
fn respond_answers_an_unrouted_request_with_404() {
    let out = respond(&table(), "GET /users HTTP/1.1\r\n\r\n");
    assert_eq!(out, "HTTP/1.1 404 Not Found\r\n\r\nRoute not found");
    let out = respond(&table(), "POST /posts/42 HTTP/1.1\r\n\r\n");
    assert_eq!(out, "HTTP/1.1 404 Not Found\r\n\r\nRoute not found");
}

#[test]
fn respond_answers_an_unreadable_message_with_400() {
    let out = respond(&table(), "FOO /posts/42 HTTP/1.1\r\n\r\n");
    assert_eq!(out, "HTTP/1.1 400 Bad Request\r\n\r\nInvalid HTTP method");
    let out = respond(&table(), "GET /posts/42 HTTP/0.9\r\n\r\n");
    assert_eq!(out, "HTTP/1.1 400 Bad Request\r\n\r\nInvalid HTTP version");
    let out = respond(&table(), "");
    assert_eq!(out, "HTTP/1.1 400 Bad Request\r\n\r\nMalformed request line");
}

#[test]
fn server_keeps_port_and_table() {
    let server = HTTPServer::new(3000, table(), HashMap::new());
    assert_eq!(server.port_number(), 3000);
    let router = server.router();
    assert_eq!(router.len(), 1);
    assert_eq!(
        respond(&router, "GET /posts/1 HTTP/1.1\r\n\r\n"),
        "HTTP/1.1 200 OK\r\n\r\nPost 1"
    );
}

#[test]
fn header_names_are_equal_whatever_the_case() {
    assert_eq!(HTTPHeaderType::Host, HTTPHeaderType::Other("HOST".to_string()));
    assert_eq!(HTTPHeaderType::Other("x-a".to_string()), HTTPHeaderType::Other("X-A".to_string()));
    assert_ne!(HTTPHeaderType::Host, HTTPHeaderType::Accept);
    assert_ne!(HTTPHeaderType::Other("x-a".to_string()), HTTPHeaderType::Other("x-b".to_string()));
    assert_eq!("content-length".parse::<HTTPHeaderType>(), Ok(HTTPHeaderType::ContentLength));
    match "X-Custom".parse::<HTTPHeaderType>() {
        Ok(HTTPHeaderType::Other(raw)) => assert_eq!(raw, "X-Custom"),
        _ => panic!("a name that is not well known"),
    }
    match "".parse::<HTTPHeaderType>() {
        Ok(HTTPHeaderType::Other(raw)) => assert_eq!(raw, ""),
        _ => panic!("a name that is not well known"),
    }
}

#[test]
fn mappings_are_equal_whatever_the_order() {
    let mut a = Headers::new();
    a.insert(HTTPHeaderType::Host, "h".to_string());
    a.insert(HTTPHeaderType::Accept, "x".to_string());
    let mut b = Headers::new();
    b.insert(HTTPHeaderType::Other("accept".to_string()), "x".to_string());
    b.insert(HTTPHeaderType::Other("host".to_string()), "h".to_string());
    assert_eq!(a, b);
    b.insert(HTTPHeaderType::Host, "other".to_string());
    assert_ne!(a, b);
    b.insert(HTTPHeaderType::Host, "h".to_string());
    b.insert(HTTPHeaderType::Age, "1".to_string());
    assert_ne!(a, b);
    assert_ne!(b, a);
    assert_eq!(Headers::new(), Headers::new());
}

#[test]
fn messages_are_equal_part_for_part() {
    let text = "GET /a HTTP/1.1\r\nHost: h\r\nAccept: x\r\n\r\nbody";
    let one = HTTPRequest::new(text.to_string()).unwrap();
    let two = HTTPRequest::new("GET /a HTTP/1.1\r\naccept: x\r\nhost: h\r\n\r\nbody".to_string())
        .unwrap();
    assert_eq!(one, two);
    assert_eq!(one, one.clone());
    let three = HTTPRequest::new("GET /a HTTP/1.1\r\nHost: h\r\nAccept: x\r\n\r\n".to_string())
        .unwrap();
    assert_ne!(one, three);
    let four = HTTPRequest::new("GET /b HTTP/1.1\r\nHost: h\r\nAccept: x\r\n\r\nbody".to_string())
        .unwrap();
    assert_ne!(one, four);

    assert_eq!(HTTPResponse::default(), HTTPResponse::default());
    assert_ne!(HTTPResponse::default(), HTTPResponse::error(HTTPStatus::OK, "hello"));
    assert_eq!(
        HTTPResponse::error(HTTPStatus::NotFound, "m"),
        HTTPResponse::error(HTTPStatus::NotFound, "m")
    );
    assert_ne!(
        HTTPResponse::error(HTTPStatus::NotFound, "m"),
        HTTPResponse::error(HTTPStatus::BadRequest, "m")
    );
}
