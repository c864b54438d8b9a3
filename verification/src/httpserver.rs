//! The server's part in a connection that needs no socket: from the bytes
//! that were read to the bytes that are to be written.

use crate::models::http::error::HTTPParseError;
use crate::models::http::request::{parse, HTTPRequest};
use crate::models::http::response::{placeholder_body, serialize, HTTPResponse, ResponseView};
use crate::models::http::status::HTTPStatus;
use crate::router::{lemma_selected, path_of, selected, RouteNotFound, Router};
use std::collections::HashMap;
use std::sync::Arc;
use vstd::prelude::*;

verus! {

/// The response to a message that could not be read: a client error, with
/// the description of the failure as the body.
pub open spec fn unreadable(error: HTTPParseError) -> ResponseView {
    ResponseView { status: HTTPStatus::BadRequest, headers: Seq::empty(), body: Some(error.message()) }
}

/// The response to a request that no route serves.
pub open spec fn unrouted() -> ResponseView {
    ResponseView {
        status: HTTPStatus::NotFound,
        headers: Seq::empty(),
        body: Some(RouteNotFound::message()),
    }
}

/// The response that a handler starts from.
pub open spec fn untouched() -> ResponseView {
    ResponseView { status: HTTPStatus::OK, headers: Seq::empty(), body: Some(placeholder_body()) }
}

/// Answers one buffered message: reads the request, dispatches it by its
/// own method, and writes the response out.
///
/// A message that cannot be read is answered with status 400 and the
/// description of the failure. A request that no route serves is answered
/// with status 404. Otherwise the answer is the response as the handler
/// of the first serving route left it, having started from the default
/// response.
pub fn respond<F: Fn(&HTTPRequest, &mut HTTPResponse, &str)>(router: &Router<F>, data: &str) -> (out:
    String)
    ensures
        match parse(data@) {
            Err(error) => out@ == serialize(unreadable(error)),
            Ok(read) => {
                let i = selected(router@, read.method, path_of(read.url));
                if i == router@.len() {
                    out@ == serialize(unrouted())
                } else {
                    exists|request: &HTTPRequest, filled: &mut HTTPResponse, pattern: &str|
                        #[trigger] call_ensures(router@[i].handler, (request, filled, pattern), ())
                            && request@ == read && pattern@ == router@[i].pattern && (*filled)@
                            == untouched() && out@ == serialize((*final(filled))@)
                }
            },
        },
{
    let request = match HTTPRequest::new(data.to_owned()) {
        Ok(request) => request,
        Err(error) => {
            let message = error.to_string();
            return HTTPResponse::error(HTTPStatus::BadRequest, message.as_str()).to_string();
        },
    };
    let mut response = HTTPResponse::default();
    let ghost i = selected(router@, request.method, path_of(request.url@));
    let ghost before = response;
    proof {
        lemma_selected(router@, request.method, path_of(request.url@));
    }
    match router.handle(request.method, &request, &mut response) {
        Ok(()) => {
            let out = response.to_string();
            proof {
                let (filled, pattern) = choose|filled: &mut HTTPResponse, pattern: &str|
                    #[trigger] call_ensures(router@[i].handler, (&request, filled, pattern), ())
                        && pattern@ == router@[i].pattern && *filled == before && *final(filled)
                        == response;
                assert(call_ensures(router@[i].handler, (&request, filled, pattern), ()));
            }
            out
        },
        Err(error) => {
            let message = error.to_string();
            HTTPResponse::error(HTTPStatus::NotFound, message.as_str()).to_string()
        },
    }
}

/// A server: the port it listens on and the dispatch table it serves
/// from. The table is built before the server is made and is read only
/// from then on.
pub struct HTTPServer<F: Fn(&HTTPRequest, &mut HTTPResponse, &str)> {
    port: i32,
    router: Arc<Router<F>>,
    _context: HashMap<String, String>,
}

impl<F: Fn(&HTTPRequest, &mut HTTPResponse, &str)> HTTPServer<F> {
    /// A server for `port` that serves from `router`.
    pub fn new(port: i32, router: Router<F>, context: HashMap<String, String>) -> (server: Self)
        ensures
            server.port() == port,
            server.routes() == router@,
    {
        Self { port, router: Arc::new(router), _context: context }
    }

    /// The port that the server listens on.
    pub closed spec fn port(&self) -> i32 {
        self.port
    }

    /// The entries of the dispatch table that the server serves from.
    pub closed spec fn routes(&self) -> Seq<crate::router::RouteView<F>> {
        (*self.router)@
    }

    /// The port that the server listens on.
    pub fn port_number(&self) -> (port: i32)
        ensures
            port == self.port(),
    {
        self.port
    }

    /// The dispatch table, shared: each connection reads it, none changes
    /// it.
    pub fn router(&self) -> (router: Arc<Router<F>>)
        ensures
            (*router)@ == self.routes(),
    {
        self.router.clone()
    }
}

} // verus!
