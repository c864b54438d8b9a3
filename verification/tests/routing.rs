use web::models::http::{HTTPMethod, HTTPRequest, HTTPResponse, HTTPStatus, HTTPVersion, Headers};
use web::params::Params;
use web::router::{match_route, parse_url, RouteNotFound, Router};

fn request(method: HTTPMethod, url: &str) -> HTTPRequest {
    HTTPRequest {
        method,
        url: url.to_string(),
        version: HTTPVersion::HTTP1_1,
        headers: Headers::new(),
        body: None,
    }
}

#[test]
fn placeholder_captures_segment() {
    let params = match_route("/posts/{id}", "/posts/42").unwrap();
    assert_eq!(params.len(), 1);
    assert_eq!(params.get("id"), Some(&"42".to_string()));
    assert_eq!(params["id"], "42");
}

#[test]
fn segment_count_must_agree() {
    assert!(match_route("/posts/{id}", "/posts/42/extra").is_none());
    assert!(match_route("/posts/{id}", "/posts").is_none());
    assert!(match_route("/posts/{id}/comments", "/posts/42").is_none());
}

#[test]
fn literal_route_matches_with_no_parameters() {
    let params = match_route("/users", "/users").unwrap();
    assert!(params.is_empty());
    assert_eq!(params.len(), 0);
}

#[test]
fn literal_segments_are_compared_exactly() {
    assert!(match_route("/users", "/Users").is_none());
    assert!(match_route("/users", "/user").is_none());
    assert!(match_route("/a/b", "/a/c").is_none());
    assert!(match_route("/a/{x}/c", "/a/1/d").is_none());
}

#[test]
fn slashes_at_the_ends_are_set_aside() {
    assert!(match_route("/users/", "users").unwrap().is_empty());
    assert!(match_route("users", "///users//").unwrap().is_empty());
    assert_eq!(match_route("posts/{id}/", "/posts/7").unwrap().get("id"), Some(&"7".to_string()));
}

#[test]
fn root_matches_root() {
    assert!(match_route("/", "/").unwrap().is_empty());
    assert!(match_route("", "/").unwrap().is_empty());
    assert!(match_route("/", "").unwrap().is_empty());
    assert!(match_route("/", "/x").is_none());
    assert!(match_route("/x", "/").is_none());
}

#[test]
fn placeholder_needs_a_segment_that_is_not_empty() {
    assert!(match_route("/{id}", "/").is_none());
    assert!(match_route("/a/{x}/b", "/a//b").is_none());
    assert!(match_route("/a//b", "/a//b").unwrap().is_empty());
}

#[test]
fn captures_are_taken_as_written() {
    let params = match_route("/files/{name}", "/files/007").unwrap();
    assert_eq!(params.get("name"), Some(&"007".to_string()));
    let params = match_route("/files/{name}", "/files/{name}").unwrap();
    assert_eq!(params.get("name"), Some(&"{name}".to_string()));
}

#[test]
fn several_placeholders() {
    let params = match_route("/u/{user}/p/{post}", "/u/ann/p/9").unwrap();
    assert_eq!(params.len(), 2);
    assert_eq!(params.get("user"), Some(&"ann".to_string()));
    assert_eq!(params.get("post"), Some(&"9".to_string()));
    assert_eq!(params.get("other"), None);
    assert!(params.contains_key("user"));
    assert!(!params.contains_key("User"));
}

#[test]
fn repeated_placeholder_keeps_the_later_capture() {
    let params = match_route("/{a}/{a}", "/1/2").unwrap();
    assert_eq!(params.len(), 1);
    assert_eq!(params.get("a"), Some(&"2".to_string()));
}

#[test]
fn braces_alone_are_no_placeholder() {
    assert!(match_route("/{", "/x").is_none());
    assert!(match_route("/{", "/{").unwrap().is_empty());
    assert!(match_route("/}", "/}").unwrap().is_empty());
    assert!(match_route("/{id", "/5").is_none());
    let params = match_route("/{}", "/5").unwrap();
    assert_eq!(params.get(""), Some(&"5".to_string()));
}

#[test]
fn query_is_cut_at_ampersand_and_equals() {
    let (path, query) = parse_url("/users?name=bob&age=10");
    assert_eq!(path, "/users");
    assert_eq!(query.len(), 2);
    assert_eq!(query.get("name"), Some(&"bob".to_string()));
    assert_eq!(query.get("age"), Some(&"10".to_string()));
}

#[test]
fn target_without_query_has_no_parameters() {
    let (path, query) = parse_url("/test");
    assert_eq!(path, "/test");
    assert!(query.is_empty());
    let (path, query) = parse_url("/test?");
    assert_eq!(path, "/test");
    assert!(query.is_empty());
}

#[test]
fn query_piece_without_equals_is_dropped() {
    let (_, query) = parse_url("/s?flag&x=1&&y");
    assert_eq!(query.len(), 1);
    assert_eq!(query.get("x"), Some(&"1".to_string()));
    assert_eq!(query.get("flag"), None);
}

#[test]
fn later_query_key_wins() {
    let (_, query) = parse_url("/s?k=1&j=2&k=3");
    assert_eq!(query.len(), 2);
    assert_eq!(query.get("k"), Some(&"3".to_string()));
    assert_eq!(query.get("j"), Some(&"2".to_string()));
}

#[test]
fn query_piece_is_cut_at_its_first_equals() {
    let (_, query) = parse_url("/s?a=b=c&=v&e=");
    assert_eq!(query.get("a"), Some(&"b=c".to_string()));
    assert_eq!(query.get(""), Some(&"v".to_string()));
    assert_eq!(query.get("e"), Some(&"".to_string()));
}

#[test]
fn target_is_cut_at_its_first_question_mark() {
    let (path, query) = parse_url("/s?a=1?b=2");
    assert_eq!(path, "/s");
    assert_eq!(query.get("a"), Some(&"1?b=2".to_string()));
}

#[test]
fn request_parameters() {
    let req = request(HTTPMethod::GET, "/posts/42?sort=asc");
    assert_eq!(req.query_params().get("sort"), Some(&"asc".to_string()));
    assert_eq!(req.path_params("/posts/{id}").unwrap().get("id"), Some(&"42".to_string()));
    assert!(req.path_params("/users/{id}").is_none());
}

#[test]
fn params_insert_replaces() {
    let mut params = Params::new();
    assert!(params.is_empty());
    assert_eq!(params.insert("a".to_string(), "1".to_string()), None);
    assert_eq!(params.insert("b".to_string(), "2".to_string()), None);
    assert_eq!(params.insert("a".to_string(), "3".to_string()), Some("1".to_string()));
    assert_eq!(params.len(), 2);
    assert_eq!(params.get("a"), Some(&"3".to_string()));
    let copy = params.clone();
    assert_eq!(copy.get("b"), Some(&"2".to_string()));
    assert_eq!(copy.len(), 2);
}

#[test]
fn dispatch_runs_the_bound_handler() {
    let mut router = Router::new();
    router.bind(
        (HTTPMethod::GET, "/posts/{id}".to_string()),
        |req: &HTTPRequest, res: &mut HTTPResponse, pattern: &str| {
            let id = req.path_params(pattern).unwrap();
            res.body = Some(format!("Post {}", id["id"]));
        },
    );
    let mut res = HTTPResponse::default();
    let out = router.handle(HTTPMethod::GET, &request(HTTPMethod::GET, "/posts/42"), &mut res);
    assert_eq!(out, Ok(()));
    assert_eq!(res.body, Some("Post 42".to_string()));
    assert_eq!(res.status, HTTPStatus::OK);
}

#[test]
fn dispatch_hands_over_the_pattern() {
    let mut router = Router::new();
    router.bind(
        (HTTPMethod::GET, "/a/{x}".to_string()),
        |_req: &HTTPRequest, res: &mut HTTPResponse, pattern: &str| {
            res.body = Some(pattern.to_string());
        },
    );
    let mut res = HTTPResponse::default();
    router.handle(HTTPMethod::GET, &request(HTTPMethod::GET, "/a/1?q=2"), &mut res).unwrap();
    assert_eq!(res.body, Some("/a/{x}".to_string()));
}

#[test]
fn dispatch_without_match_calls_nothing() {
    let mut router = Router::new();
    router.bind(
        (HTTPMethod::GET, "/x".to_string()),
        |_req: &HTTPRequest, res: &mut HTTPResponse, _pattern: &str| {
            res.body = Some("called".to_string());
            res.status = HTTPStatus::Accepted;
        },
    );
    let mut res = HTTPResponse::default();
    let out = router.handle(HTTPMethod::GET, &request(HTTPMethod::GET, "/y"), &mut res);
    assert_eq!(out, Err(RouteNotFound));
    assert_eq!(res.body, Some("hello world".to_string()));
    assert_eq!(res.status, HTTPStatus::OK);

    let out = router.handle(HTTPMethod::POST, &request(HTTPMethod::POST, "/x"), &mut res);
    assert_eq!(out, Err(RouteNotFound));
    assert_eq!(res.body, Some("hello world".to_string()));
    assert_eq!(RouteNotFound.to_string(), "Route not found");
}

#[test]
fn dispatch_on_empty_table() {
    let router: Router<fn(&HTTPRequest, &mut HTTPResponse, &str)> = Router::new();
    let mut res = HTTPResponse::default();
    assert_eq!(router.len(), 0);
    assert_eq!(
        router.handle(HTTPMethod::GET, &request(HTTPMethod::GET, "/"), &mut res),
        Err(RouteNotFound)
    );
    assert_eq!(router.find_route(HTTPMethod::GET, "/"), None);
}

#[test]
fn dispatch_goes_by_the_given_method() {
    let mut router: Router<Box<dyn Fn(&HTTPRequest, &mut HTTPResponse, &str)>> = Router::new();
    router.bind(
        (HTTPMethod::GET, "/x".to_string()),
        Box::new(|_req, res, _p| res.body = Some("get".to_string())),
    );
    router.bind(
        (HTTPMethod::POST, "/x".to_string()),
        Box::new(|_req, res, _p| res.body = Some("post".to_string())),
    );
    let mut res = HTTPResponse::default();
    router.handle(HTTPMethod::POST, &request(HTTPMethod::GET, "/x"), &mut res).unwrap();
    assert_eq!(res.body, Some("post".to_string()));
    router.handle(HTTPMethod::GET, &request(HTTPMethod::GET, "/x"), &mut res).unwrap();
    assert_eq!(res.body, Some("get".to_string()));
    assert_eq!(router.find_route(HTTPMethod::POST, "/x"), Some(1));
    assert_eq!(router.find_route(HTTPMethod::DELETE, "/x"), None);
}

#[test]
fn rebinding_replaces_the_handler() {
    let mut router: Router<Box<dyn Fn(&HTTPRequest, &mut HTTPResponse, &str)>> = Router::new();
    router.bind(
        (HTTPMethod::GET, "/x".to_string()),
        Box::new(|_req, res, _p| res.body = Some("first".to_string())),
    );
    router.bind(
        (HTTPMethod::GET, "/x".to_string()),
        Box::new(|_req, res, _p| res.body = Some("second".to_string())),
    );
    assert_eq!(router.len(), 1);
    let mut res = HTTPResponse::default();
    router.handle(HTTPMethod::GET, &request(HTTPMethod::GET, "/x"), &mut res).unwrap();
    assert_eq!(res.body, Some("second".to_string()));
}

#[test]
fn first_bound_route_wins_among_matching_patterns() {
    let mut router: Router<Box<dyn Fn(&HTTPRequest, &mut HTTPResponse, &str)>> = Router::new();
    router.bind(
        (HTTPMethod::GET, "/posts/{id}".to_string()),
        Box::new(|_req, res, _p| res.body = Some("by id".to_string())),
    );
    router.bind(
        (HTTPMethod::GET, "/posts/new".to_string()),
        Box::new(|_req, res, _p| res.body = Some("new".to_string())),
    );
    router.bind(
        (HTTPMethod::GET, "/posts/{id}".to_string()),
        Box::new(|_req, res, _p| res.body = Some("by id, again".to_string())),
    );
    assert_eq!(router.len(), 2);
    let mut res = HTTPResponse::default();
    router.handle(HTTPMethod::GET, &request(HTTPMethod::GET, "/posts/new"), &mut res).unwrap();
    assert_eq!(res.body, Some("by id, again".to_string()));
    assert_eq!(router.find_route(HTTPMethod::GET, "/posts/new"), Some(0));
}

#[test]
fn patterns_are_keys_as_written() {
    let mut router: Router<Box<dyn Fn(&HTTPRequest, &mut HTTPResponse, &str)>> = Router::new();
    router.bind((HTTPMethod::GET, "/x".to_string()), Box::new(|_r, res, _p| res.body = None));
    router.bind((HTTPMethod::GET, "/x/".to_string()), Box::new(|_r, res, _p| res.body = None));
    assert_eq!(router.len(), 2);
}

#[test]
fn params_are_equal_whatever_the_order() {
    let (_, a) = parse_url("/s?x=1&y=2");
    let (_, b) = parse_url("/t?y=2&x=1");
    let (_, c) = parse_url("/t?y=2&x=3");
    let (_, d) = parse_url("/t?y=2");
    assert_eq!(a, b);
    assert_ne!(a, c);
    assert_ne!(a, d);
    assert_ne!(d, a);
    assert_eq!(Params::new(), Params::new());
}
