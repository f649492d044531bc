//! One request, from its method, `Host` header and path to its response.
//!
//! A request is handled in two steps with one file read between them. `router`
//! decides whether the request is served at all and names the file; the caller
//! reads that file; `complete` builds the response from what the read gave.
//!
//! A request that is not a `GET`, whose path has a `..` segment, or whose host
//! is rejected, ends at once in `Route::NotFound`. Otherwise the host and the
//! path are resolved and the request waits in `Route::Serve` for its file.
//! Content that is missing ends in "not found"; content that was loaded ends
//! in the success response, or in the internal error response where a header
//! of that response cannot be sent. Each request goes through these steps
//! once; nothing is retried.

use vstd::prelude::*;
use crate::config::{headers_view, Config, Header, HostView};
use crate::decimal::{decimal_round_trip, decimal_value};
use crate::host::{first_named_is_first, header_host, matched_host, resolve_host, text_of};
use crate::mime::guessed_mime;
use crate::path::{
    candidate, contains_parent_segment, has_parent_segment, index_name, joined,
    resolve_file_path, resolved,
};
use crate::response::{
    bytes_of, internal_server_error, internal_server_error_view, not_found, not_found_view,
    resolve_file_data, respond, sent_accepted, sent_view, success_view, Response,
    ResponseView,
};

verus! {

/// What `router` decides for a request.
#[derive(Debug, Clone, PartialEq, Eq)]
pub enum Route {
    /// The request is answered with "not found"; nothing is read.
    NotFound,
    /// The file at `path` is to be read and sent for the host at index `host`.
    Serve { host: usize, path: String },
}

/// A route as plain values.
pub ghost enum RouteView {
    NotFound,
    Serve { host: int, path: Seq<char> },
}

impl View for Route {
    type V = RouteView;

    open spec fn view(&self) -> RouteView {
        match *self {
            Route::NotFound => RouteView::NotFound,
            Route::Serve { host, path } => RouteView::Serve { host: host as int, path: path@ },
        }
    }
}

/// The only method that is served.
pub open spec fn get_method() -> Seq<char> {
    "GET"@
}

/// The route of a request, given the host part of its `Host` header and
/// whether the candidate path is a directory. Only `GET` is served, and no
/// path with a `..` segment; then the host must be configured; then the path
/// is resolved under that host's root.
pub open spec fn route_of(
    hosts: Seq<HostView>,
    method: Seq<char>,
    parsed_host: Option<Seq<char>>,
    path: Seq<char>,
    is_dir: bool,
) -> RouteView {
    if method != get_method() || has_parent_segment(path) {
        RouteView::NotFound
    } else {
        match matched_host(hosts, parsed_host) {
            Some(i) => RouteView::Serve { host: i, path: resolved(hosts[i].root, path, is_dir) },
            None => RouteView::NotFound,
        }
    }
}

/// The response at the end of a route, given the content type of the file,
/// what reading it gave, and whether the headers of a success can be sent.
pub open spec fn completed(
    hosts: Seq<HostView>,
    route: RouteView,
    mime: Seq<char>,
    content: Option<Seq<u8>>,
    accepted: bool,
) -> ResponseView {
    match route {
        RouteView::NotFound => not_found_view(),
        RouteView::Serve { host, path } => if 0 <= host < hosts.len() {
            sent_view(mime, content, hosts[host].extra_headers, accepted)
        } else {
            internal_server_error_view()
        },
    }
}

/// The response to a request, from everything it depends on.
pub open spec fn response_of(
    hosts: Seq<HostView>,
    method: Seq<char>,
    parsed_host: Option<Seq<char>>,
    path: Seq<char>,
    is_dir: bool,
    mime: Seq<char>,
    content: Option<Seq<u8>>,
    accepted: bool,
) -> ResponseView {
    completed(hosts, route_of(hosts, method, parsed_host, path, is_dir), mime, content, accepted)
}

/// The content type of the file that a route names.
pub open spec fn route_mime(route: RouteView) -> Seq<char> {
    match route {
        RouteView::Serve { path, .. } => guessed_mime(path),
        RouteView::NotFound => Seq::empty(),
    }
}

/// Whether the headers of the response at the end of a route can all be sent.
pub open spec fn route_accepted(
    hosts: Seq<HostView>,
    route: RouteView,
    content: Option<Seq<u8>>,
) -> bool {
    match route {
        RouteView::Serve { host, path } => 0 <= host < hosts.len() ==> sent_accepted(
            guessed_mime(path),
            content,
            hosts[host].extra_headers,
        ),
        RouteView::NotFound => true,
    }
}

/// Whether `method` is `GET`, written exactly so.
pub fn is_get(method: &str) -> (r: bool)
    ensures
        r == (method@ == get_method()),
{
    method.to_owned() == "GET".to_owned()
}

/// Decides what becomes of a request: its method, the value of its `Host`
/// header if it has one, and the path of its target.
///
/// The candidate path is looked up on disk once; the route is the one that
/// `route_of` gives for one of the two possible answers.
pub fn router(config: &Config, method: &str, host_header: Option<&str>, path: &str) -> (r: Route)
    ensures
        r@ == route_of(config@.hosts, method@, header_host(text_of(host_header)), path@, false)
            || r@ == route_of(
            config@.hosts,
            method@,
            header_host(text_of(host_header)),
            path@,
            true,
        ),
        r matches Route::Serve { host, .. } ==> host < config.hosts.len(),
{
    if !is_get(method) {
        return Route::NotFound;
    }
    if contains_parent_segment(path) {
        return Route::NotFound;
    }
    match resolve_host(&config.hosts, host_header) {
        Ok(i) => {
            let full_path = resolve_file_path(config.hosts[i].root.as_str(), path);
            Route::Serve { host: i, path: full_path }
        },
        Err(_) => Route::NotFound,
    }
}

/// The response for the file at `file_path`, from what reading it gave: the
/// file with the headers `res_headers` after its own; the internal error
/// response where one of these headers cannot be sent; "not found" where the
/// file could not be read.
pub fn simple_file_send(file_path: &str, read: Option<Vec<u8>>, res_headers: &Vec<Header>) -> (r:
    Response)
    ensures
        r@ == sent_view(
            guessed_mime(file_path@),
            bytes_of(read),
            headers_view(res_headers@),
            sent_accepted(guessed_mime(file_path@), bytes_of(read), headers_view(res_headers@)),
        ),
{
    let loaded = resolve_file_data(file_path, read);
    respond(loaded, res_headers)
}

/// The response at the end of `route`, from what reading its file gave (`None`
/// where there was nothing to read or the read failed). A route that names a
/// host the configuration does not have ends in the internal error response.
pub fn complete(config: &Config, route: &Route, read: Option<Vec<u8>>) -> (r: Response)
    ensures
        r@ == completed(
            config@.hosts,
            route@,
            route_mime(route@),
            bytes_of(read),
            route_accepted(config@.hosts, route@, bytes_of(read)),
        ),
{
    match route {
        Route::NotFound => not_found(),
        Route::Serve { host, path } => {
            if *host < config.hosts.len() {
                simple_file_send(path.as_str(), read, &config.hosts[*host].extra_headers)
            } else {
                internal_server_error()
            }
        },
    }
}

/// A `GET` request whose `Host` header names a configured host, for a path
/// without `..` segments and a file that could be read, is answered with status
/// 200, the file's content type, its length in decimal, the extra headers of
/// the first host of that name, and the file's bytes, provided these headers
/// can be sent. The file read is the one resolved under that host's root.
pub proof fn existing_file_is_served(
    hosts: Seq<HostView>,
    name: Seq<char>,
    path: Seq<char>,
    is_dir: bool,
    mime: Seq<char>,
    bytes: Seq<u8>,
)
    requires
        exists|j: int| 0 <= j < hosts.len() && (#[trigger] hosts[j]).host_name == name,
        !has_parent_segment(path),
    ensures
        matched_host(hosts, Some(name)) is Some,
        ({
            let i = matched_host(hosts, Some(name))->0;
            let r = response_of(
                hosts,
                get_method(),
                Some(name),
                path,
                is_dir,
                mime,
                Some(bytes),
                true,
            );
            &&& 0 <= i < hosts.len()
            &&& hosts[i].host_name == name
            &&& route_of(hosts, get_method(), Some(name), path, is_dir) == (RouteView::Serve {
                host: i,
                path: resolved(hosts[i].root, path, is_dir),
            })
            &&& r == success_view(mime, bytes, hosts[i].extra_headers)
            &&& r.status == 200
            &&& r.body == bytes
            &&& r.headers.len() == 2 + hosts[i].extra_headers.len()
            &&& r.headers[0] == ("content-type"@, mime)
            &&& r.headers[1].0 == "content-length"@
            &&& decimal_value(r.headers[1].1) == bytes.len()
        }),
{
    first_named_is_first(hosts, name);
    decimal_round_trip(bytes.len());
}

/// A file that was read but whose headers cannot all be sent is answered with
/// the internal error response: status 500, no headers, the fixed text.
pub proof fn rejected_header_is_internal_error(
    hosts: Seq<HostView>,
    parsed_host: Option<Seq<char>>,
    path: Seq<char>,
    is_dir: bool,
    mime: Seq<char>,
    bytes: Seq<u8>,
)
    requires
        matched_host(hosts, parsed_host) is Some,
        !has_parent_segment(path),
    ensures
        response_of(hosts, get_method(), parsed_host, path, is_dir, mime, Some(bytes), false)
            == internal_server_error_view(),
        response_of(
            hosts,
            get_method(),
            parsed_host,
            path,
            is_dir,
            mime,
            Some(bytes),
            false,
        ).status == 500,
{
    if let Some(name) = parsed_host {
        first_named_is_first(hosts, name);
    }
}

/// A request whose `Host` header is absent, malformed, or names no configured
/// host is answered with "not found", whatever its method and path and
/// whatever is on disk.
pub proof fn unknown_host_is_not_found(
    hosts: Seq<HostView>,
    method: Seq<char>,
    parsed_host: Option<Seq<char>>,
    path: Seq<char>,
    is_dir: bool,
    mime: Seq<char>,
    content: Option<Seq<u8>>,
    accepted: bool,
)
    requires
        parsed_host matches Some(name) ==> forall|j: int|
            0 <= j < hosts.len() ==> (#[trigger] hosts[j]).host_name != name,
    ensures
        response_of(hosts, method, parsed_host, path, is_dir, mime, content, accepted)
            == not_found_view(),
{
    if let Some(name) = parsed_host {
        first_named_is_first(hosts, name);
    }
}

/// A request whose path has a `..` segment is answered with "not found",
/// whatever else it carries: no file outside a host's root is ever asked for
/// by climbing out of it.
pub proof fn parent_segment_is_not_found(
    hosts: Seq<HostView>,
    method: Seq<char>,
    parsed_host: Option<Seq<char>>,
    path: Seq<char>,
    is_dir: bool,
    mime: Seq<char>,
    content: Option<Seq<u8>>,
    accepted: bool,
)
    requires
        has_parent_segment(path),
    ensures
        route_of(hosts, method, parsed_host, path, is_dir) == RouteView::NotFound,
        response_of(hosts, method, parsed_host, path, is_dir, mime, content, accepted)
            == not_found_view(),
{
}

/// Where the candidate path of a served request is a directory, the file asked
/// for is the index file inside it; where that file cannot be read, the answer
/// is "not found".
pub proof fn directory_serves_index_or_not_found(
    hosts: Seq<HostView>,
    parsed_host: Option<Seq<char>>,
    path: Seq<char>,
    mime: Seq<char>,
    accepted: bool,
)
    requires
        matched_host(hosts, parsed_host) is Some,
        !has_parent_segment(path),
    ensures
        route_of(hosts, get_method(), parsed_host, path, true) == (RouteView::Serve {
            host: matched_host(hosts, parsed_host)->0,
            path: joined(
                candidate(hosts[matched_host(hosts, parsed_host)->0].root, path),
                index_name(),
            ),
        }),
        response_of(hosts, get_method(), parsed_host, path, true, mime, None, accepted)
            == not_found_view(),
{
    if let Some(name) = parsed_host {
        first_named_is_first(hosts, name);
    }
}

/// A file that cannot be read is answered with "not found", whichever host was
/// matched.
pub proof fn missing_file_is_not_found(
    hosts: Seq<HostView>,
    method: Seq<char>,
    parsed_host: Option<Seq<char>>,
    path: Seq<char>,
    is_dir: bool,
    mime: Seq<char>,
    accepted: bool,
)
    ensures
        response_of(hosts, method, parsed_host, path, is_dir, mime, None, accepted)
            == not_found_view(),
{
    if let Some(name) = parsed_host {
        first_named_is_first(hosts, name);
    }
}

/// The same request against the same configuration and the same disk gets the
/// same route and the same response.
pub proof fn handling_is_repeatable(
    hosts: Seq<HostView>,
    method: Seq<char>,
    parsed_host: Option<Seq<char>>,
    path: Seq<char>,
    is_dir1: bool,
    mime1: Seq<char>,
    content1: Option<Seq<u8>>,
    accepted1: bool,
    is_dir2: bool,
    mime2: Seq<char>,
    content2: Option<Seq<u8>>,
    accepted2: bool,
)
    requires
        is_dir1 == is_dir2,
        mime1 == mime2,
        content1 == content2,
        accepted1 == accepted2,
    ensures
        route_of(hosts, method, parsed_host, path, is_dir1) == route_of(
            hosts,
            method,
            parsed_host,
            path,
            is_dir2,
        ),
        response_of(hosts, method, parsed_host, path, is_dir1, mime1, content1, accepted1)
            == response_of(hosts, method, parsed_host, path, is_dir2, mime2, content2, accepted2),
{
}

/// Every response that carries a file has, after its two content headers,
/// exactly the extra headers of the host the request was matched to, in their
/// configured order. No header of another host is among them unless the
/// matched host configures the same one.
pub proof fn extra_headers_follow_in_order(
    hosts: Seq<HostView>,
    parsed_host: Option<Seq<char>>,
    path: Seq<char>,
    is_dir: bool,
    mime: Seq<char>,
    bytes: Seq<u8>,
)
    requires
        matched_host(hosts, parsed_host) is Some,
        !has_parent_segment(path),
    ensures
        ({
            let i = matched_host(hosts, parsed_host)->0;
            let r = response_of(
                hosts,
                get_method(),
                parsed_host,
                path,
                is_dir,
                mime,
                Some(bytes),
                true,
            );
            &&& 0 <= i < hosts.len()
            &&& r.status == 200
            &&& r.headers.subrange(2, r.headers.len() as int) == hosts[i].extra_headers
            &&& forall|k: int|
                0 <= k < hosts[i].extra_headers.len() ==> r.headers[2 + k]
                    == #[trigger] hosts[i].extra_headers[k]
        }),
{
    if let Some(name) = parsed_host {
        first_named_is_first(hosts, name);
    }
    let i = matched_host(hosts, parsed_host)->0;
    let r = response_of(hosts, get_method(), parsed_host, path, is_dir, mime, Some(bytes), true);
    assert(r.headers.subrange(2, r.headers.len() as int) =~= hosts[i].extra_headers);
}

/// Every response has one of three statuses, and only a response with status
/// 200 carries headers.
pub proof fn status_is_one_of_three(
    hosts: Seq<HostView>,
    method: Seq<char>,
    parsed_host: Option<Seq<char>>,
    path: Seq<char>,
    is_dir: bool,
    mime: Seq<char>,
    content: Option<Seq<u8>>,
    accepted: bool,
)
    ensures
        ({
            let r = response_of(hosts, method, parsed_host, path, is_dir, mime, content, accepted);
            &&& r.status == 200 || r.status == 404 || r.status == 500
            &&& r.status != 200 ==> r.headers.len() == 0
            &&& r.status == 500 ==> content is Some && !accepted
        }),
{
    if let Some(name) = parsed_host {
        first_named_is_first(hosts, name);
    }
}

/// A request with any method but `GET` is answered with "not found", status
/// 404, whatever else it carries.
pub proof fn other_methods_are_not_found(
    hosts: Seq<HostView>,
    method: Seq<char>,
    parsed_host: Option<Seq<char>>,
    path: Seq<char>,
    is_dir: bool,
    mime: Seq<char>,
    content: Option<Seq<u8>>,
    accepted: bool,
)
    requires
        method != get_method(),
    ensures
        response_of(hosts, method, parsed_host, path, is_dir, mime, content, accepted)
            == not_found_view(),
        response_of(hosts, method, parsed_host, path, is_dir, mime, content, accepted).status
            == 404,
{
}

} // verus!
