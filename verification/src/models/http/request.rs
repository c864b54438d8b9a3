//! Requests, and the parser that reads one from a buffered message.

use crate::models::http::error::HTTPParseError;
use crate::models::http::header::HTTPHeaderType;
use crate::models::http::headers::{put, Headers};
use crate::models::http::method::HTTPMethod;
use crate::models::http::version::HTTPVersion;
use crate::params::Params;
use crate::router::{match_route, parse_url, path_of, query_params, route_params};
use crate::text::{all_whitespace, chars_of, find, index_of, is_whitespace, lemma_index_of, lemma_index_of_behind, lemma_split_first, lemma_split_whole, lemma_trim_end, lemma_trim_end_behind, lemma_trim_end_padded, lemma_trim_padded, lemma_trim_start, lower_seq, split, split_on, string_of, texts, trim, trim_end, trim_end_of, trim_of, trim_start};
use vstd::prelude::*;

verus! {

/// A request as the parser reads it.
#[derive(Debug, Clone)]
pub struct HTTPRequest {
    /// The method of the request line.
    pub method: HTTPMethod,
    /// The target of the request line: the path and, behind a `?`, the query.
    pub url: String,
    /// The version of the request line.
    pub version: HTTPVersion,
    /// The headers; of two lines for one header the later decides.
    pub headers: Headers,
    /// The body, where there is one. A request never has an empty body: it
    /// has none.
    pub body: Option<String>,
}

impl PartialEq for HTTPRequest {
    /// Two requests are equal where they agree in every part; the headers
    /// are compared as mappings.
    fn eq(&self, other: &HTTPRequest) -> (r: bool) {
        let bodies = match (&self.body, &other.body) {
            (Some(a), Some(b)) => *a == *b,
            (None, None) => true,
            _ => false,
        };
        self.method == other.method && self.url == other.url && self.version == other.version
            && self.headers == other.headers && bodies
    }
}

impl Eq for HTTPRequest {

}

impl vstd::std_specs::cmp::PartialEqSpecImpl for HTTPRequest {
    open spec fn obeys_eq_spec() -> bool {
        true
    }

    open spec fn eq_spec(&self, other: &HTTPRequest) -> bool {
        &&& self.method == other.method
        &&& self.url@ == other.url@
        &&& self.version == other.version
        &&& self.headers@ == other.headers@
        &&& self@.body == other@.body
    }
}

/// What a request holds, as plain values.
pub ghost struct RequestView {
    pub method: HTTPMethod,
    pub url: Seq<char>,
    pub version: HTTPVersion,
    pub headers: Seq<(Seq<char>, Seq<char>)>,
    pub body: Option<Seq<char>>,
}

impl View for HTTPRequest {
    type V = RequestView;

    open spec fn view(&self) -> RequestView {
        RequestView {
            method: self.method,
            url: self.url@,
            version: self.version,
            headers: self.headers.entries(),
            body: match self.body {
                Some(body) => Some(body@),
                None => None,
            },
        }
    }
}

/// Where the line that starts at `from` ends: behind its line feed, or at
/// the end of the text where no line feed follows.
pub open spec fn line_end(text: Seq<char>, from: int) -> int {
    let feed = from + index_of(text.skip(from), '\n');
    if feed < text.len() {
        feed + 1
    } else {
        text.len() as int
    }
}

/// The tokens of the request line: the first line without its trailing
/// white space, cut at every space.
pub open spec fn request_line(text: Seq<char>) -> Seq<Seq<char>> {
    split(trim_end(text.take(line_end(text, 0))), ' ')
}

/// Whether a line holds nothing but white space.
pub open spec fn is_blank(line: Seq<char>) -> bool {
    trim(line).len() == 0
}

/// The spelling under which the header that `key` names is kept: that of
/// the well-known header which `key` spells, or `key` itself.
pub open spec fn spelling_of(key: Seq<char>) -> Seq<char> {
    match HTTPHeaderType::recognized(key) {
        Some(known) => known.name(),
        None => key,
    }
}

/// `headers` after one header line was read. A line is cut at its first
/// `:` into the name and, without the white space around it, the value; a
/// line without `:` changes nothing.
pub open spec fn with_line(headers: Seq<(Seq<char>, Seq<char>)>, line: Seq<char>) -> Seq<
    (Seq<char>, Seq<char>),
> {
    let content = trim_end(line);
    let colon = index_of(content, ':');
    if colon < content.len() {
        put(headers, spelling_of(content.take(colon)), trim(content.skip(colon + 1)))
    } else {
        headers
    }
}

/// The headers read from `from` on, added to `headers`, and the place where
/// the body starts: behind the first blank line, or at the end of the text
/// where no blank line comes.
pub open spec fn read_headers(text: Seq<char>, from: int, headers: Seq<(Seq<char>, Seq<char>)>) -> (
    Seq<(Seq<char>, Seq<char>)>,
    int,
)
    decreases text.len() - from,
{
    if 0 <= from < text.len() {
        let end = line_end(text, from);
        let line = text.subrange(from, end);
        if is_blank(line) || end <= from {
            (headers, end)
        } else {
            read_headers(text, end, with_line(headers, line))
        }
    } else {
        (headers, text.len() as int)
    }
}

/// What reading `text` as a request gives.
///
/// The request line must have at least three tokens, of which the first
/// is the method, the second the target and the third the version. The
/// lines that follow are header lines, up to the first blank line. What
/// stands behind that line is the body; where nothing stands there, the
/// request has no body.
pub open spec fn parse(text: Seq<char>) -> Result<RequestView, HTTPParseError> {
    let tokens = request_line(text);
    if tokens.len() < 3 {
        Err(HTTPParseError::MalformedRequestLine)
    } else {
        match (HTTPMethod::named(tokens[0]), HTTPVersion::named(tokens[2])) {
            (None, _) => Err(HTTPParseError::UnsupportedMethod),
            (Some(_), None) => Err(HTTPParseError::UnsupportedVersion),
            (Some(method), Some(version)) => {
                let (headers, start) = read_headers(text, line_end(text, 0), Seq::empty());
                Ok(
                    RequestView {
                        method,
                        url: tokens[1],
                        version,
                        headers,
                        body: if start < text.len() {
                            Some(text.skip(start))
                        } else {
                            None
                        },
                    },
                )
            },
        }
    }
}

/// A line ends behind where it starts, and within the text.
pub proof fn lemma_line_end(text: Seq<char>, from: int)
    requires
        0 <= from <= text.len(),
    ensures
        from <= line_end(text, from) <= text.len(),
        from < text.len() ==> from < line_end(text, from),
{
    lemma_index_of(text.skip(from), '\n');
}

/// A request with one header as it stands on the wire: the request line,
/// the header line, a blank line, and the body.
pub open spec fn one_header_message(
    method: HTTPMethod,
    target: Seq<char>,
    version: HTTPVersion,
    name: Seq<char>,
    value: Seq<char>,
    body: Seq<char>,
) -> Seq<char> {
    method.name() + seq![' '] + target + seq![' '] + version.name() + line_break() + name + seq![
        ':',
        ' ',
    ] + value + line_break() + line_break() + body
}

/// The first line of a message ends behind its first line feed.
proof fn lemma_first_line(line: Seq<char>, rest: Seq<char>, from: int, text: Seq<char>)
    requires
        !line.contains('\n'),
        0 <= from <= text.len(),
        text.skip(from) == line + seq!['\n'] + rest,
    ensures
        line_end(text, from) == from + line.len() + 1,
        text.subrange(from, line_end(text, from)) == line + seq!['\n'],
        text.skip(line_end(text, from)) == rest,
{
    lemma_index_of_behind(line, '\n', rest);
    let tail = text.skip(from);
    let end = from + line.len() + 1;
    let cut = line.len() as int + 1;
    assert(tail.len() == cut + rest.len());
    assert(text.subrange(from, end) =~= tail.take(cut));
    assert(tail.take(cut) =~= line + seq!['\n']);
    assert(text.skip(end) =~= tail.skip(cut));
    assert(tail.skip(cut) =~= rest);
}

/// A sequence is without a character where both of its parts are.
proof fn lemma_concat_without(a: Seq<char>, b: Seq<char>, c: char)
    requires
        !a.contains(c),
        !b.contains(c),
    ensures
        !(a + b).contains(c),
{
    let s = a + b;
    if s.contains(c) {
        let i = choose|i: int| 0 <= i < s.len() && s[i] == c;
        if i < a.len() {
            assert(a[i] == c);
        } else {
            assert(b[i - a.len()] == c);
        }
    }
}

/// The end of a line: a carriage return and a line feed.
pub open spec fn line_break() -> Seq<char> {
    seq!['\r', '\n']
}

/// A request line of three tokens that hold no space is cut into those
/// tokens.
proof fn lemma_request_line(method: Seq<char>, target: Seq<char>, version: Seq<char>, rest: Seq<char>)
    requires
        !method.contains(' '),
        !method.contains('\n'),
        !target.contains(' '),
        !target.contains('\n'),
        !version.contains(' '),
        !version.contains('\n'),
        version.len() > 0,
        !is_whitespace(version.last()),
    ensures
        ({
            let text = method + seq![' '] + target + seq![' '] + version + line_break() + rest;
            &&& request_line(text) == seq![method, target, version]
            &&& 0 <= line_end(text, 0) <= text.len()
            &&& text.skip(line_end(text, 0)) == rest
        }),
{
    let words = method + seq![' '] + target + seq![' '] + version;
    let text = words + line_break() + rest;
    let first = words + seq!['\r'];
    assert(!seq![' '].contains('\n')) by {
        assert(seq![' '][0] == ' ');
    }
    assert(!seq!['\r'].contains('\n')) by {
        assert(seq!['\r'][0] == '\r');
    }
    assert(!first.contains('\n')) by {
        lemma_concat_without(method, seq![' '], '\n');
        lemma_concat_without(method + seq![' '], target, '\n');
        lemma_concat_without(method + seq![' '] + target, seq![' '], '\n');
        lemma_concat_without(method + seq![' '] + target + seq![' '], version, '\n');
        lemma_concat_without(words, seq!['\r'], '\n');
    }
    assert(text.skip(0) =~= text);
    assert(text =~= first + seq!['\n'] + rest);
    lemma_first_line(first, rest, 0, text);
    assert(text.subrange(0, line_end(text, 0)) =~= text.take(line_end(text, 0)));
    assert(first + seq!['\n'] =~= words + line_break());
    assert(all_whitespace(line_break()));
    lemma_trim_end_padded(words, line_break());
    assert(trim_end(words) == words) by {
        assert(words.last() == version.last());
    }
    assert(words =~= method + seq![' '] + (target + seq![' '] + version));
    lemma_split_first(method, ' ', target + seq![' '] + version);
    lemma_split_first(target, ' ', version);
    lemma_split_whole(version, ' ');
    assert(seq![method] + (seq![target] + seq![version]) =~= seq![method, target, version]);
}

/// A header line gives the header that it names the value that it holds,
/// trimmed; and it is not blank.
proof fn lemma_header_line(name: Seq<char>, value: Seq<char>)
    requires
        !name.contains(':'),
    ensures
        ({
            let line = name + seq![':', ' '] + value + line_break();
            &&& !is_blank(line)
            &&& with_line(Seq::empty(), line) == seq![(spelling_of(name), trim(value))]
        }),
{
    let line = name + seq![':', ' '] + value + line_break();
    let named = name + seq![':'];
    let tail = seq![' '] + value + line_break();
    assert(line =~= named + tail);
    lemma_trim_end_behind(named, tail);
    let content = trim_end(line);
    assert(content =~= name + seq![':'] + trim_end(tail));
    lemma_index_of_behind(name, ':', trim_end(tail));
    assert(content.take(name.len() as int) =~= name);
    assert(content.skip(name.len() as int + 1) =~= trim_end(tail));
    lemma_trim_end(tail);
    assert(trim(trim_end(tail)) == trim(tail));
    assert(all_whitespace(seq![' ']));
    assert(all_whitespace(line_break()));
    lemma_trim_padded(seq![' '], value, line_break());
    assert(!is_blank(line)) by {
        lemma_trim_start(content);
        let kept = trim_start(content);
        if kept.len() == 0 {
            let dropped = content.take(content.len() - kept.len());
            assert(dropped =~= content);
            assert(is_whitespace(dropped[name.len() as int]));
            assert(content[name.len() as int] == ':');
        }
    }
    assert(crate::models::http::headers::canonical_names(
        Seq::<(Seq<char>, Seq<char>)>::empty(),
    ).len() == 0);
    assert(with_line(Seq::empty(), line) =~= seq![(spelling_of(name), trim(value))]);
}

/// One header line, a blank line and a body are read as that header and
/// that body.
proof fn lemma_read_one_header(text: Seq<char>, from: int, name: Seq<char>, value: Seq<char>, body: Seq<char>)
    requires
        0 <= from <= text.len(),
        !name.contains(':'),
        !name.contains('\n'),
        !value.contains('\n'),
        text.skip(from) == name + seq![':', ' '] + value + line_break() + line_break() + body,
    ensures
        ({
            let (headers, start) = read_headers(text, from, Seq::empty());
            &&& headers == seq![(spelling_of(name), trim(value))]
            &&& 0 <= start <= text.len()
            &&& text.skip(start) == body
        }),
{
    let header = name + seq![':', ' '] + value + seq!['\r'];
    assert(!seq!['\r'].contains('\n')) by {
        assert(seq!['\r'][0] == '\r');
    }
    assert(!seq![':', ' '].contains('\n')) by {
        assert(seq![':', ' '][0] == ':' && seq![':', ' '][1] == ' ');
    }
    assert(!header.contains('\n')) by {
        lemma_concat_without(name, seq![':', ' '], '\n');
        lemma_concat_without(name + seq![':', ' '], value, '\n');
        lemma_concat_without(name + seq![':', ' '] + value, seq!['\r'], '\n');
    }
    let behind = line_break() + body;
    assert(text.skip(from) =~= header + seq!['\n'] + behind);
    lemma_first_line(header, behind, from, text);
    let header_end = line_end(text, from);
    let line = text.subrange(from, header_end);
    assert(line =~= name + seq![':', ' '] + value + line_break());
    lemma_header_line(name, value);
    assert(behind =~= seq!['\r'] + seq!['\n'] + body);
    lemma_first_line(seq!['\r'], body, header_end, text);
    let start = line_end(text, header_end);
    let blank = text.subrange(header_end, start);
    assert(blank =~= line_break());
    assert(is_blank(blank)) by {
        assert(all_whitespace(line_break()));
        assert(line_break() =~= Seq::<char>::empty() + line_break());
        lemma_trim_end_padded(Seq::empty(), line_break());
    }
    assert(from < text.len()) by {
        assert(text.skip(from).len() > 0);
    }
    assert(header_end < text.len()) by {
        assert(text.skip(header_end).len() > 0);
    }
    reveal_with_fuel(read_headers, 3);
}

/// A well-formed message is read back part for part: the method, the
/// target as one string, the version, the header under the spelling of its
/// name and with its value trimmed, and the body, which is absent where it
/// is empty.
///
/// The message is well formed where the target holds no space and no line
/// feed, the header name no colon and no line feed, and the header value
/// no line feed.
pub proof fn lemma_parse_well_formed(
    method: HTTPMethod,
    target: Seq<char>,
    version: HTTPVersion,
    name: Seq<char>,
    value: Seq<char>,
    body: Seq<char>,
)
    requires
        !target.contains(' '),
        !target.contains('\n'),
        !name.contains(':'),
        !name.contains('\n'),
        !value.contains('\n'),
    ensures
        parse(one_header_message(method, target, version, name, value, body)) == Ok::<
            RequestView,
            HTTPParseError,
        >(
            RequestView {
                method,
                url: target,
                version,
                headers: seq![(spelling_of(name), trim(value))],
                body: if body.len() > 0 {
                    Some(body)
                } else {
                    None
                },
            },
        ),
        lower_seq(spelling_of(name)) == lower_seq(name),
{
    HTTPMethod::lemma_named_name(method);
    HTTPVersion::lemma_named_name(version);
    let text = one_header_message(method, target, version, name, value, body);
    let rest = name + seq![':', ' '] + value + line_break() + line_break() + body;
    lemma_request_line(method.name(), target, version.name(), rest);
    assert(text =~= method.name() + seq![' '] + target + seq![' '] + version.name() + line_break()
        + rest);
    let first_end = line_end(text, 0);
    lemma_read_one_header(text, first_end, name, value, body);
    let (headers, start) = read_headers(text, first_end, Seq::empty());
    assert(text.len() == start + body.len()) by {
        assert(text.skip(start).len() == body.len());
    }
    let tokens = request_line(text);
    assert(tokens[0] == method.name() && tokens[1] == target && tokens[2] == version.name());
    match HTTPHeaderType::recognized(name) {
        Some(known) => {
            let i = choose|i: int| HTTPHeaderType::first_spelled(name, i);
            assert(HTTPHeaderType::spelled(name, i));
        },
        None => {},
    }
}

/// Where the line that starts at `from` ends.
fn next_line(text: &[char], from: usize) -> (end: usize)
    requires
        from <= text.len(),
    ensures
        end == line_end(text@, from as int),
        from <= end <= text.len(),
        from < text.len() ==> from < end,
{
    let rest = vstd::slice::slice_subrange(text, from, text.len());
    assert(rest@ == text@.skip(from as int));
    let feed = from + find(rest, '\n');
    if feed < text.len() {
        feed + 1
    } else {
        text.len()
    }
}

/// Adds what one header line says to `headers`.
fn read_line(headers: &mut Headers, line: &[char])
    ensures
        final(headers).entries() == with_line(old(headers).entries(), line@),
{
    let content = trim_end_of(line);
    let colon = find(content, ':');
    if colon < content.len() {
        let key = vstd::slice::slice_subrange(content, 0, colon);
        let value = trim_of(vstd::slice::slice_subrange(content, colon + 1, content.len()));
        let name = HTTPHeaderType::from_chars(key);
        headers.insert(name, string_of(value));
    }
}

/// Whether `line` holds nothing but white space.
fn blank(line: &[char]) -> (r: bool)
    ensures
        r == is_blank(line@),
{
    trim_of(line).len() == 0
}

impl HTTPRequest {
    /// Reads a request from one fully buffered message.
    ///
    /// Fails with [`HTTPParseError::MalformedRequestLine`] where the
    /// request line has fewer than three tokens, else with
    /// [`HTTPParseError::UnsupportedMethod`] where the first token is no
    /// method, else with [`HTTPParseError::UnsupportedVersion`] where the
    /// third token is no version. Header lines never fail: a name that is
    /// not well known is kept as it is written. See [`parse`].
    pub fn new(data: String) -> (r: Result<HTTPRequest, HTTPParseError>)
        ensures
            match parse(data@) {
                Ok(request) => r matches Ok(read) && read@ == request,
                Err(error) => r matches Err(e) && e == error,
            },
    {
        let chars = chars_of(data.as_str());
        let text = chars.as_slice();
        let first_end = next_line(text, 0);
        let first = trim_end_of(vstd::slice::slice_subrange(text, 0, first_end));
        assert(text@.subrange(0, first_end as int) == text@.take(first_end as int));
        let tokens = split_on(first, ' ');
        if tokens.len() < 3 {
            return Err(HTTPParseError::MalformedRequestLine);
        }
        assert(texts(tokens@)[0] == tokens@[0]@);
        assert(texts(tokens@)[1] == tokens@[1]@);
        assert(texts(tokens@)[2] == tokens@[2]@);
        let method = match HTTPMethod::from_chars(tokens[0].as_slice()) {
            Ok(method) => method,
            Err(error) => {
                return Err(error);
            },
        };
        let version = match HTTPVersion::from_chars(tokens[2].as_slice()) {
            Ok(version) => version,
            Err(error) => {
                return Err(error);
            },
        };
        let url = string_of(tokens[1].as_slice());
        let mut headers = Headers::new();
        let mut from: usize = first_end;
        let mut start: usize = text.len();
        let ghost wanted = read_headers(text@, first_end as int, Seq::empty());
        while from < text.len()
            invariant_except_break
                from <= text.len(),
                start == text.len(),
                read_headers(text@, from as int, headers.entries()) == wanted,
            ensures
                start <= text.len(),
                (headers.entries(), start as int) == wanted,
            decreases text.len() - from,
        {
            let end = next_line(text, from);
            let line = vstd::slice::slice_subrange(text, from, end);
            if blank(line) {
                start = end;
                break;
            }
            read_line(&mut headers, line);
            from = end;
        }
        let body = if start < text.len() {
            let rest = vstd::slice::slice_subrange(text, start, text.len());
            assert(rest@ == text@.skip(start as int));
            Some(string_of(rest))
        } else {
            None
        };
        Ok(HTTPRequest { method, url, version, headers, body })
    }

    /// The method of the request.
    pub fn method(&self) -> (m: HTTPMethod)
        ensures
            m == self.method,
    {
        self.method
    }

    /// The query parameters of the target; see [`query_params`].
    pub fn query_params(&self) -> (params: Params)
        ensures
            params@ == query_params(self.url@),
    {
        parse_url(self.url.as_str()).1
    }

    /// The parameters that `pattern` captures from the path of the target,
    /// or `None` where the path does not match the pattern; see
    /// [`route_params`].
    pub fn path_params(&self, pattern: &str) -> (r: Option<Params>)
        ensures
            match route_params(pattern@, path_of(self.url@)) {
                Some(params) => r matches Some(found) && found@ == params,
                None => r is None,
            },
    {
        let path = parse_url(self.url.as_str()).0;
        match_route(pattern, path.as_str())
    }
}

} // verus!
