//! Routing: query strings, route patterns with named segments, and the
//! table that finds the handler for a request.

use crate::assoc::{distinct, lemma_position, lemma_position_is, position};
use crate::models::http::method::HTTPMethod;
use crate::models::http::request::HTTPRequest;
use crate::models::http::response::HTTPResponse;
use crate::params::Params;
use crate::text::{chars_of, find, index_of, same, split, split_on, string_of, strip, strip_of, texts};
use vstd::prelude::*;
use vstd::string::StringExecFns;

verus! {

/// The path of a request target: what stands before its first `?`.
pub open spec fn path_of(target: Seq<char>) -> Seq<char> {
    target.take(index_of(target, '?'))
}

/// The query string of a request target: what stands behind its first `?`,
/// where it has one.
pub open spec fn query_of(target: Seq<char>) -> Option<Seq<char>> {
    let i = index_of(target, '?');
    if i < target.len() {
        Some(target.skip(i + 1))
    } else {
        None
    }
}

/// `params` after one piece of a query string was read: a piece `key=value`,
/// cut at its first `=`, gives `key` that value; a piece without `=` changes
/// nothing.
pub open spec fn with_pair(params: Map<Seq<char>, Seq<char>>, piece: Seq<char>) -> Map<
    Seq<char>,
    Seq<char>,
> {
    let i = index_of(piece, '=');
    if i < piece.len() {
        params.insert(piece.take(i), piece.skip(i + 1))
    } else {
        params
    }
}

/// The parameters that the pieces of a query string give, read in order, so
/// that of two pieces with one key the later decides.
pub open spec fn pairs(pieces: Seq<Seq<char>>) -> Map<Seq<char>, Seq<char>>
    decreases pieces.len(),
{
    if pieces.len() == 0 {
        Map::empty()
    } else {
        with_pair(pairs(pieces.drop_last()), pieces.last())
    }
}

/// The query parameters of a request target: the pieces of its query string
/// between the `&`, read by [`pairs`]; none where the target has no `?`.
pub open spec fn query_params(target: Seq<char>) -> Map<Seq<char>, Seq<char>> {
    match query_of(target) {
        Some(query) => pairs(split(query, '&')),
        None => Map::empty(),
    }
}

/// The segments of a path or of a pattern: what stands between the `/`,
/// once the `/` at either end are taken off.
pub open spec fn segments(path: Seq<char>) -> Seq<Seq<char>> {
    split(strip(path, '/'), '/')
}

/// Whether a pattern segment is a placeholder: a name wrapped in `{` and `}`.
pub open spec fn is_placeholder(segment: Seq<char>) -> bool {
    segment.len() >= 2 && segment.first() == '{' && segment.last() == '}'
}

/// The name that a placeholder gives to what it captures.
pub open spec fn placeholder_name(segment: Seq<char>) -> Seq<char>
    recommends
        is_placeholder(segment),
{
    segment.subrange(1, segment.len() - 1)
}

/// Whether one segment of a path fits one segment of a pattern: a
/// placeholder fits every segment that is not empty, and any other pattern
/// segment fits the segment equal to it.
pub open spec fn segment_fits(pattern: Seq<char>, segment: Seq<char>) -> bool {
    if is_placeholder(pattern) {
        segment.len() > 0
    } else {
        pattern == segment
    }
}

/// What the placeholders among `patterns` capture from `segments`, place by
/// place; of two placeholders with one name the later decides.
pub open spec fn captured(patterns: Seq<Seq<char>>, segments: Seq<Seq<char>>) -> Map<
    Seq<char>,
    Seq<char>,
>
    recommends
        patterns.len() == segments.len(),
    decreases patterns.len(),
{
    if patterns.len() == 0 || segments.len() == 0 {
        Map::empty()
    } else {
        let before = captured(patterns.drop_last(), segments.drop_last());
        if is_placeholder(patterns.last()) {
            before.insert(placeholder_name(patterns.last()), segments.last())
        } else {
            before
        }
    }
}

/// Whether `path` matches `pattern`: both have the same number of segments,
/// and each segment of the path fits the pattern segment at its place.
pub open spec fn route_matches(pattern: Seq<char>, path: Seq<char>) -> bool {
    let patterns = segments(pattern);
    let parts = segments(path);
    &&& patterns.len() == parts.len()
    &&& forall|i: int| 0 <= i < patterns.len() ==> segment_fits(#[trigger] patterns[i], parts[i])
}

/// The parameters that `pattern` captures from `path`, where the path
/// matches the pattern.
pub open spec fn route_params(pattern: Seq<char>, path: Seq<char>) -> Option<
    Map<Seq<char>, Seq<char>>,
> {
    if route_matches(pattern, path) {
        Some(captured(segments(pattern), segments(path)))
    } else {
        None
    }
}

/// The query parameters that `pieces` give.
fn read_pairs(pieces: &Vec<Vec<char>>) -> (params: Params)
    ensures
        params@ == pairs(texts(pieces@)),
{
    let mut params = Params::new();
    let mut i: usize = 0;
    assert(texts(pieces@).take(0) =~= Seq::empty());
    while i < pieces.len()
        invariant
            i <= pieces.len(),
            params@ == pairs(texts(pieces@).take(i as int)),
        decreases pieces.len() - i,
    {
        let piece = pieces[i].as_slice();
        let cut = find(piece, '=');
        proof {
            let taken = texts(pieces@).take(i + 1);
            assert(taken.drop_last() =~= texts(pieces@).take(i as int));
            assert(taken.last() == piece@);
        }
        if cut < piece.len() {
            let key = string_of(vstd::slice::slice_subrange(piece, 0, cut));
            let value = string_of(vstd::slice::slice_subrange(piece, cut + 1, piece.len()));
            params.insert(key, value);
        }
        i += 1;
    }
    assert(texts(pieces@).take(pieces.len() as int) =~= texts(pieces@));
    params
}

/// Splits a request target into its path and its query parameters.
///
/// The path is what stands before the first `?`. What stands behind it is
/// cut at every `&`; each piece is cut at its first `=` into a key and a
/// value; a piece without `=` is dropped; of two pieces with one key the
/// later decides.
pub fn parse_url(url: &str) -> (r: (String, Params))
    ensures
        r.0@ == path_of(url@),
        r.1@ == query_params(url@),
{
    let chars = chars_of(url);
    let cut = find(chars.as_slice(), '?');
    let path = string_of(vstd::slice::slice_subrange(chars.as_slice(), 0, cut));
    if cut < chars.len() {
        let query = vstd::slice::slice_subrange(chars.as_slice(), cut + 1, chars.len());
        let pieces = split_on(query, '&');
        (path, read_pairs(&pieces))
    } else {
        (path, Params::new())
    }
}

/// Whether `segment` is a placeholder.
fn placeholder(segment: &[char]) -> (r: bool)
    ensures
        r == is_placeholder(segment@),
{
    segment.len() >= 2 && segment[0] == '{' && segment[segment.len() - 1] == '}'
}

/// Matches a path against a route pattern such as `/posts/{id}`.
///
/// Both are cut into segments at `/`, the `/` at either end set aside. The
/// path matches where it has as many segments as the pattern and each fits:
/// a placeholder `{name}` fits any segment that is not empty and captures it
/// under `name`, as it is written; any other pattern segment fits only the
/// segment equal to it. The result is the captured parameters, or `None`
/// where the path does not match.
pub fn match_route(pattern: &str, path: &str) -> (r: Option<Params>)
    ensures
        match route_params(pattern@, path@) {
            Some(params) => r matches Some(found) && found@ == params,
            None => r is None,
        },
{
    let pattern_chars = chars_of(pattern);
    let path_chars = chars_of(path);
    let patterns = split_on(strip_of(pattern_chars.as_slice(), '/'), '/');
    let parts = split_on(strip_of(path_chars.as_slice(), '/'), '/');
    if patterns.len() != parts.len() {
        assert(texts(patterns@).len() != texts(parts@).len());
        return None;
    }
    let mut params = Params::new();
    let mut i: usize = 0;
    assert(texts(patterns@).take(0) =~= Seq::empty());
    while i < patterns.len()
        invariant
            i <= patterns.len(),
            patterns.len() == parts.len(),
            texts(patterns@) == segments(pattern@),
            texts(parts@) == segments(path@),
            forall|j: int| 0 <= j < i ==> segment_fits(#[trigger] texts(patterns@)[j], texts(parts@)[j]),
            params@ == captured(texts(patterns@).take(i as int), texts(parts@).take(i as int)),
        decreases patterns.len() - i,
    {
        let wanted = patterns[i].as_slice();
        let given = parts[i].as_slice();
        proof {
            let taken = texts(patterns@).take(i + 1);
            let given_taken = texts(parts@).take(i + 1);
            assert(taken.drop_last() =~= texts(patterns@).take(i as int));
            assert(given_taken.drop_last() =~= texts(parts@).take(i as int));
            assert(taken.last() == wanted@);
            assert(given_taken.last() == given@);
            assert(texts(patterns@)[i as int] == wanted@);
            assert(texts(parts@)[i as int] == given@);
        }
        if placeholder(wanted) {
            if given.len() == 0 {
                assert(!segment_fits(texts(patterns@)[i as int], texts(parts@)[i as int]));
                return None;
            }
            let name = string_of(vstd::slice::slice_subrange(wanted, 1, wanted.len() - 1));
            let value = string_of(given);
            params.insert(name, value);
        } else if !same(wanted, given) {
            assert(!segment_fits(texts(patterns@)[i as int], texts(parts@)[i as int]));
            return None;
        }
        i += 1;
    }
    assert(texts(patterns@).take(patterns.len() as int) =~= texts(patterns@));
    assert(texts(parts@).take(parts.len() as int) =~= texts(parts@));
    Some(params)
}

/// The key of a table entry: a method and a route pattern.
pub type HTTPRoute = (HTTPMethod, String);

/// The failure of a dispatch: no entry of the table is for the method and
/// matches the path.
#[derive(Debug, Clone, Copy, PartialEq, Eq, Hash, Structural)]
pub struct RouteNotFound;

impl RouteNotFound {
    /// A short description of the failure.
    pub open spec fn message() -> Seq<char> {
        "Route not found"@
    }

    /// A copy of the description of the failure.
    pub fn to_string(&self) -> (s: String)
        ensures
            s@ == Self::message(),
    {
        let mut s = String::new();
        s.append("Route not found");
        assert(s@ =~= Self::message());
        s
    }
}

/// One entry of the table.
struct Route<F> {
    method: HTTPMethod,
    pattern: String,
    handler: F,
}

/// One entry of the table, as plain values.
pub ghost struct RouteView<F> {
    pub method: HTTPMethod,
    pub pattern: Seq<char>,
    pub handler: F,
}

/// The keys of `routes`, place by place.
pub open spec fn keys_of<F>(routes: Seq<RouteView<F>>) -> Seq<(HTTPMethod, Seq<char>)> {
    Seq::new(routes.len(), |i: int| (routes[i].method, routes[i].pattern))
}

/// `routes` after `handler` was bound to the key: where the key is held,
/// the handler takes the place of the one held for it; otherwise the new
/// entry comes last.
pub open spec fn bound<F>(
    routes: Seq<RouteView<F>>,
    method: HTTPMethod,
    pattern: Seq<char>,
    handler: F,
) -> Seq<RouteView<F>> {
    let i = position(keys_of(routes), (method, pattern));
    let route = RouteView { method, pattern, handler };
    if i < routes.len() {
        routes.update(i, route)
    } else {
        routes.push(route)
    }
}

/// Whether an entry serves a request: it is for the method, and the path
/// matches its pattern.
pub open spec fn serves<F>(route: RouteView<F>, method: HTTPMethod, path: Seq<char>) -> bool {
    route.method == method && route_matches(route.pattern, path)
}

/// The place of the entry that a request is dispatched to: the first, in
/// the order of the table, that serves it; or `routes.len()` where none
/// does.
pub open spec fn selected<F>(routes: Seq<RouteView<F>>, method: HTTPMethod, path: Seq<char>) -> int
    decreases routes.len(),
{
    if routes.len() == 0 || serves(routes[0], method, path) {
        0
    } else {
        1 + selected(routes.drop_first(), method, path)
    }
}

/// [`selected`] names the first entry that serves the request and none
/// before it.
pub proof fn lemma_selected<F>(routes: Seq<RouteView<F>>, method: HTTPMethod, path: Seq<char>)
    ensures
        0 <= selected(routes, method, path) <= routes.len(),
        forall|j: int| 0 <= j < selected(routes, method, path) ==> !serves(routes[j], method, path),
        selected(routes, method, path) < routes.len() ==> serves(
            routes[selected(routes, method, path)],
            method,
            path,
        ),
    decreases routes.len(),
{
    if routes.len() == 0 || serves(routes[0], method, path) {
    } else {
        let rest = routes.drop_first();
        lemma_selected(rest, method, path);
        assert forall|j: int| 0 <= j < selected(routes, method, path) implies !serves(
            routes[j],
            method,
            path,
        ) by {
            if j > 0 {
                assert(routes[j] == rest[j - 1]);
            }
        }
    }
}

/// Whatever entry is the first to serve the request is the one [`selected`]
/// names.
pub proof fn lemma_selected_is<F>(
    routes: Seq<RouteView<F>>,
    method: HTTPMethod,
    path: Seq<char>,
    i: int,
)
    requires
        0 <= i <= routes.len(),
        forall|j: int| 0 <= j < i ==> !serves(routes[j], method, path),
        i < routes.len() ==> serves(routes[i], method, path),
    ensures
        selected(routes, method, path) == i,
{
    lemma_selected(routes, method, path);
    let k = selected(routes, method, path);
    if k < i {
        assert(!serves(routes[k], method, path));
    } else if k > i {
        assert(!serves(routes[i], method, path));
    }
}

/// Binding keeps the keys of the table distinct, and leaves the handler
/// that was bound as the only one held for its key.
pub proof fn lemma_bound<F>(routes: Seq<RouteView<F>>, method: HTTPMethod, pattern: Seq<char>, handler: F)
    requires
        distinct(keys_of(routes)),
    ensures
        distinct(keys_of(bound(routes, method, pattern, handler))),
        position(keys_of(bound(routes, method, pattern, handler)), (method, pattern)) == position(
            keys_of(routes),
            (method, pattern),
        ),
        position(keys_of(routes), (method, pattern)) < bound(routes, method, pattern, handler).len(),
        forall|i: int|
            0 <= i < bound(routes, method, pattern, handler).len() ==> {
                let route = #[trigger] bound(routes, method, pattern, handler)[i];
                if route.method == method && route.pattern == pattern {
                    route.handler == handler && i == position(keys_of(routes), (method, pattern))
                } else {
                    i < routes.len() && route == routes[i]
                }
            },
{
    let keys = keys_of(routes);
    let key = (method, pattern);
    let after = bound(routes, method, pattern, handler);
    let i = position(keys, key);
    lemma_position(keys, key);
    if i < routes.len() {
        assert(keys_of(after) =~= keys);
    } else {
        assert(keys_of(after) =~= keys.push(key));
        lemma_position_is(keys_of(after), key, i);
    }
    assert forall|j: int| 0 <= j < after.len() implies {
        let route = #[trigger] after[j];
        if route.method == method && route.pattern == pattern {
            route.handler == handler && j == i
        } else {
            j < routes.len() && route == routes[j]
        }
    } by {
        if j != i {
            assert(keys_of(after)[j] != key) by {
                if j < i {
                    assert(keys[j] != key);
                } else {
                    assert(keys[i] == key);
                    assert(keys[j] == keys_of(after)[j]);
                }
            }
        }
    }
}

/// Binding one key twice leaves the table as binding it the second time
/// alone would: one entry for the key, which holds the second handler, so
/// that no dispatch reaches the first.
pub proof fn lemma_rebind<F>(
    routes: Seq<RouteView<F>>,
    method: HTTPMethod,
    pattern: Seq<char>,
    first: F,
    second: F,
)
    requires
        distinct(keys_of(routes)),
    ensures
        bound(bound(routes, method, pattern, first), method, pattern, second) == bound(
            routes,
            method,
            pattern,
            second,
        ),
        forall|i: int|
            0 <= i < bound(routes, method, pattern, second).len() ==> {
                let route = #[trigger] bound(routes, method, pattern, second)[i];
                route.method == method && route.pattern == pattern ==> route.handler == second
            },
{
    let once = bound(routes, method, pattern, first);
    lemma_bound(routes, method, pattern, first);
    lemma_bound(routes, method, pattern, second);
    lemma_position(keys_of(routes), (method, pattern));
    assert(bound(once, method, pattern, second) =~= bound(routes, method, pattern, second));
}

/// The dispatch table: handlers bound to methods and route patterns, in the
/// order in which their keys were first bound.
///
/// A handler is called with the request, the response to fill in, and the
/// pattern of its entry. It must accept every request: what it cannot
/// serve, it answers with an error status in the response.
pub struct Router<F: Fn(&HTTPRequest, &mut HTTPResponse, &str)> {
    routes: Vec<Route<F>>,
}

impl<F: Fn(&HTTPRequest, &mut HTTPResponse, &str)> View for Router<F> {
    type V = Seq<RouteView<F>>;

    /// The entries of the table, in its order.
    closed spec fn view(&self) -> Seq<RouteView<F>> {
        Self::routes_view(self.routes@)
    }
}

/// Whether `handler` accepts every request, response and pattern.
pub open spec fn accepts_all<F: Fn(&HTTPRequest, &mut HTTPResponse, &str)>(handler: F) -> bool {
    forall|request: &HTTPRequest, response: &mut HTTPResponse, pattern: &str|
        call_requires(handler, (request, response, pattern))
}

impl<F: Fn(&HTTPRequest, &mut HTTPResponse, &str)> Router<F> {
    #[verifier::type_invariant]
    spec fn well_formed(&self) -> bool {
        &&& distinct(keys_of(self@))
        &&& forall|i: int| 0 <= i < self@.len() ==> accepts_all(#[trigger] self@[i].handler)
    }

    /// An empty table.
    pub fn new() -> (router: Router<F>)
        ensures
            router@ == Seq::<RouteView<F>>::empty(),
    {
        let router = Router { routes: Vec::new() };
        assert(router@ =~= Seq::empty());
        router
    }

    /// How many entries the table holds. No two of them have one key.
    pub fn len(&self) -> (n: usize)
        ensures
            n == self@.len(),
            distinct(keys_of(self@)),
    {
        proof {
            use_type_invariant(self);
        }
        self.routes.len()
    }

    /// The place of the key among the entries, or the number of entries
    /// where it is not among them.
    fn find_key(routes: &Vec<Route<F>>, method: HTTPMethod, pattern: &String) -> (i: usize)
        ensures
            i == position(keys_of(Self::routes_view(routes@)), (method, pattern@)),
            i <= routes@.len(),
    {
        let ghost keys = keys_of(Self::routes_view(routes@));
        let mut i: usize = 0;
        while i < routes.len() && !(routes[i].method == method && routes[i].pattern == *pattern)
            invariant
                i <= routes@.len(),
                keys == keys_of(Self::routes_view(routes@)),
                forall|j: int| 0 <= j < i ==> keys[j] != (method, pattern@),
            decreases routes@.len() - i,
        {
            i += 1;
        }
        proof {
            lemma_position_is(keys, (method, pattern@), i as int);
        }
        i
    }

    /// The entries as plain values.
    spec fn routes_view(routes: Seq<Route<F>>) -> Seq<RouteView<F>> {
        Seq::new(
            routes.len(),
            |i: int|
                RouteView {
                    method: routes[i].method,
                    pattern: routes[i].pattern@,
                    handler: routes[i].handler,
                },
        )
    }

    /// Binds `handler` to the key `route`. Where the key is bound already,
    /// the handler replaces the one bound to it, at the same place in the
    /// order of the table; this is no error.
    pub fn bind(&mut self, route: HTTPRoute, handler: F)
        requires
            accepts_all(handler),
        ensures
            final(self)@ == bound(old(self)@, route.0, route.1@, handler),
    {
        proof {
            use_type_invariant(&*self);
        }
        let ghost before = self@;
        let (method, pattern) = route;
        let mut routes: Vec<Route<F>> = Vec::new();
        assert(keys_of(Self::routes_view(routes@)) =~= Seq::empty());
        core::mem::swap(&mut self.routes, &mut routes);
        assert(Self::routes_view(routes@) =~= before);
        let i = Self::find_key(&routes, method, &pattern);
        let ghost key = (method, pattern@);
        proof {
            lemma_position(keys_of(before), key);
        }
        let entry = Route { method, pattern, handler };
        if i < routes.len() {
            routes.set(i, entry);
            assert(Self::routes_view(routes@) =~= bound(before, key.0, key.1, handler));
            assert(keys_of(Self::routes_view(routes@)) =~= keys_of(before));
        } else {
            routes.push(entry);
            assert(Self::routes_view(routes@) =~= bound(before, key.0, key.1, handler));
            assert(keys_of(Self::routes_view(routes@)) =~= keys_of(before).push(key));
        }
        core::mem::swap(&mut self.routes, &mut routes);
        assert(self@ =~= bound(before, key.0, key.1, handler));
    }

    /// The place of the entry that serves a request for `method` and
    /// `path`, or `None` where no entry does; see [`selected`].
    pub fn find_route(&self, method: HTTPMethod, path: &str) -> (r: Option<usize>)
        ensures
            match r {
                Some(i) => i < self@.len() && i == selected(self@, method, path@),
                None => selected(self@, method, path@) == self@.len(),
            },
    {
        let mut i: usize = 0;
        while i < self.routes.len()
            invariant
                i <= self@.len(),
                self@.len() == self.routes@.len(),
                forall|j: int| 0 <= j < i ==> !serves(self@[j], method, path@),
            decreases self.routes@.len() - i,
        {
            if self.routes[i].method == method {
                let found = match_route(self.routes[i].pattern.as_str(), path);
                if found.is_some() {
                    proof {
                        lemma_selected_is(self@, method, path@, i as int);
                    }
                    return Some(i);
                }
            }
            i += 1;
        }
        proof {
            lemma_selected_is(self@, method, path@, i as int);
        }
        None
    }

    /// Dispatches a request: finds the first entry, in the order of the
    /// table, that is for `method` and whose pattern matches the path of
    /// the request, and calls its handler once, with the request, the
    /// response and the pattern of the entry.
    ///
    /// Where no entry serves the request, no handler is called: the result
    /// is [`RouteNotFound`], and the response is as it was.
    pub fn handle(&self, method: HTTPMethod, request: &HTTPRequest, response: &mut HTTPResponse) -> (r:
        Result<(), RouteNotFound>)
        ensures
            selected(self@, method, path_of(request.url@)) == self@.len() ==> r is Err
                && *final(response) == *old(response),
            selected(self@, method, path_of(request.url@)) < self@.len() ==> r is Ok
                && exists|filled: &mut HTTPResponse, pattern: &str|
                #[trigger] call_ensures(
                    self@[selected(self@, method, path_of(request.url@))].handler,
                    (request, filled, pattern),
                    (),
                ) && pattern@ == self@[selected(self@, method, path_of(request.url@))].pattern
                    && *filled == *old(response) && *final(filled) == *final(response),
    {
        proof {
            use_type_invariant(self);
            lemma_selected(self@, method, path_of(request.url@));
        }
        let path = parse_url(request.url.as_str()).0;
        match self.find_route(method, path.as_str()) {
            Some(i) => {
                let route = &self.routes[i];
                assert(self@[i as int].handler == route.handler);
                assert(accepts_all(self@[i as int].handler));
                (route.handler)(request, response, route.pattern.as_str());
                Ok(())
            },
            None => Err(RouteNotFound),
        }
    }
}

} // verus!
