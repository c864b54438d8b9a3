//! Responses, and their form on the wire.

use crate::models::http::headers::{header_lines, Headers};
use crate::models::http::status::HTTPStatus;
use crate::text::{decimal, push_decimal};
use vstd::prelude::*;
use vstd::string::StringExecFns;

verus! {

/// A response. A handler makes one, or one is made for an error; none is
/// ever read from the wire.
#[derive(Debug, Clone)]
pub struct HTTPResponse {
    /// The status.
    pub status: HTTPStatus,
    /// The headers.
    pub headers: Headers,
    /// The body, where there is one.
    pub body: Option<String>,
}

impl PartialEq for HTTPResponse {
    /// Two responses are equal where they agree in every part; the headers
    /// are compared as mappings.
    fn eq(&self, other: &HTTPResponse) -> (r: bool) {
        let bodies = match (&self.body, &other.body) {
            (Some(a), Some(b)) => *a == *b,
            (None, None) => true,
            _ => false,
        };
        self.status == other.status && self.headers == other.headers && bodies
    }
}

impl Eq for HTTPResponse {

}

impl vstd::std_specs::cmp::PartialEqSpecImpl for HTTPResponse {
    open spec fn obeys_eq_spec() -> bool {
        true
    }

    open spec fn eq_spec(&self, other: &HTTPResponse) -> bool {
        &&& self.status == other.status
        &&& self.headers@ == other.headers@
        &&& self@.body == other@.body
    }
}

/// What a response holds, as plain values.
pub ghost struct ResponseView {
    pub status: HTTPStatus,
    pub headers: Seq<(Seq<char>, Seq<char>)>,
    pub body: Option<Seq<char>>,
}

impl View for HTTPResponse {
    type V = ResponseView;

    open spec fn view(&self) -> ResponseView {
        ResponseView {
            status: self.status,
            headers: self.headers.entries(),
            body: match self.body {
                Some(body) => Some(body@),
                None => None,
            },
        }
    }
}

/// The body that a response has until a handler gives it another.
pub open spec fn placeholder_body() -> Seq<char> {
    "hello world"@
}

/// The status line of a response: the version, the code, the reason phrase
/// and the end of the line.
pub open spec fn status_line(status: HTTPStatus) -> Seq<char> {
    "HTTP/1.1 "@ + decimal(status.code() as nat) + seq![' '] + status.reason() + seq!['\r', '\n']
}

/// A response as it stands on the wire: the status line, one line for each
/// header in the order of the mapping, a blank line, and the body where
/// there is one.
pub open spec fn serialize(response: ResponseView) -> Seq<char> {
    status_line(response.status) + header_lines(response.headers) + seq!['\r', '\n']
        + match response.body {
        Some(body) => body,
        None => Seq::empty(),
    }
}

impl HTTPResponse {
    /// The response that stands before a handler has run: status 200, no
    /// header, and a placeholder for the body.
    pub fn default() -> (r: HTTPResponse)
        ensures
            r@ == (ResponseView {
                status: HTTPStatus::OK,
                headers: Seq::empty(),
                body: Some(placeholder_body()),
            }),
    {
        let mut body = String::new();
        body.append("hello world");
        assert(body@ =~= placeholder_body());
        HTTPResponse { status: HTTPStatus::OK, headers: Headers::new(), body: Some(body) }
    }

    /// The response for an error: the given status, the message as the body,
    /// and no header. In particular no length and no type of the content is
    /// stated.
    pub fn error(status: HTTPStatus, message: &str) -> (r: HTTPResponse)
        ensures
            r@ == (ResponseView { status, headers: Seq::empty(), body: Some(message@) }),
    {
        let mut body = String::new();
        body.append(message);
        assert(body@ =~= message@);
        HTTPResponse { status, headers: Headers::new(), body: Some(body) }
    }

    /// The response as it stands on the wire; see [`serialize`].
    pub fn to_string(&self) -> (s: String)
        ensures
            s@ == serialize(self@),
    {
        let mut s = String::new();
        s.append("HTTP/1.1 ");
        push_decimal(&mut s, self.status.code());
        s.push(' ');
        s.append(self.status.as_str());
        s.push('\r');
        s.push('\n');
        assert(s@ =~= status_line(self.status));
        self.headers.push_lines(&mut s);
        s.push('\r');
        s.push('\n');
        match &self.body {
            Some(body) => {
                s.append(body.as_str());
            },
            None => {},
        }
        assert(s@ =~= serialize(self@));
        s
    }
}

} // verus!
