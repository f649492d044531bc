//! Which configured host a request is for.
//!
//! The `Host` header is read as a URI authority, so a port after the name is
//! left out of the comparison. The name that remains must equal a configured
//! `host_name` character for character; where several entries carry it, the
//! first one is taken.

use vstd::prelude::*;
use crate::config::{hosts_view, Host, HostView};

verus! {

/// Why no host was chosen for a request.
#[derive(Debug, Clone, Copy, PartialEq, Eq)]
pub enum ResolveError {
    /// The header is absent, is no valid authority, or names no configured host.
    NoMatchingHost,
}

/// The host part that `hyper::Uri` finds in a header value: `None` where the
/// value does not parse as a URI or the URI has no authority.
pub uninterp spec fn authority_host(value: Seq<char>) -> Option<Seq<char>>;

/// Parses `value` with `hyper::Uri`'s `FromStr` and reads `Uri::host` of the
/// outcome. Trusted: the result is the one that `authority_host` names for
/// this value, `None` standing both for a parse error and for a URI without a
/// host. Both calls depend on the characters of `value` alone.
#[verifier::external_body]
fn parse_authority_host(value: &str) -> (r: Option<String>)
    ensures
        r is Some ==> authority_host(value@) == Some(r->0@),
        r is None ==> authority_host(value@) is None,
{
    match value.parse::<hyper::Uri>() {
        Ok(uri) => uri.host().map(|h| h.to_string()),
        Err(_) => None,
    }
}

/// The characters of an optional string.
pub open spec fn text_of(s: Option<&str>) -> Option<Seq<char>> {
    match s {
        Some(s) => Some(s@),
        None => None,
    }
}

/// The index of the first host at or after `from` whose name is `name`.
pub open spec fn first_named_from(hosts: Seq<HostView>, name: Seq<char>, from: int) -> Option<int>
    decreases hosts.len() - from,
{
    if from < 0 || from >= hosts.len() {
        None
    } else if hosts[from].host_name == name {
        Some(from)
    } else {
        first_named_from(hosts, name, from + 1)
    }
}

/// The index of the first host whose name is `name`.
pub open spec fn first_named(hosts: Seq<HostView>, name: Seq<char>) -> Option<int> {
    first_named_from(hosts, name, 0)
}

/// The index of the host that a request belongs to, given the host part of its
/// `Host` header (`None` where the header is absent or malformed).
pub open spec fn matched_host(hosts: Seq<HostView>, parsed: Option<Seq<char>>) -> Option<int> {
    match parsed {
        Some(name) => first_named(hosts, name),
        None => None,
    }
}

/// The host part of an optional header value.
pub open spec fn header_host(header: Option<Seq<char>>) -> Option<Seq<char>> {
    match header {
        Some(value) => authority_host(value),
        None => None,
    }
}

/// What `first_named_from` finds is the least index from `from` on that carries
/// the name; it finds nothing exactly when no index from `from` on carries it.
pub proof fn first_named_from_is_least(hosts: Seq<HostView>, name: Seq<char>, from: int)
    requires
        0 <= from,
    ensures
        match first_named_from(hosts, name, from) {
            Some(i) => {
                &&& from <= i < hosts.len()
                &&& hosts[i].host_name == name
                &&& forall|j: int| from <= j < i ==> (#[trigger] hosts[j]).host_name != name
            },
            None => forall|j: int|
                from <= j < hosts.len() ==> (#[trigger] hosts[j]).host_name != name,
        },
    decreases hosts.len() - from,
{
    if from < hosts.len() && hosts[from].host_name != name {
        first_named_from_is_least(hosts, name, from + 1);
    }
}

/// A name is matched exactly when some configured host carries it, and the
/// match is the first such host.
pub proof fn first_named_is_first(hosts: Seq<HostView>, name: Seq<char>)
    ensures
        first_named(hosts, name) is Some <==> exists|j: int|
            0 <= j < hosts.len() && (#[trigger] hosts[j]).host_name == name,
        first_named(hosts, name) matches Some(i) ==> {
            &&& 0 <= i < hosts.len()
            &&& hosts[i].host_name == name
            &&& forall|j: int| 0 <= j < i ==> (#[trigger] hosts[j]).host_name != name
        },
{
    first_named_from_is_least(hosts, name, 0);
}

/// Finds the first host named `name`.
pub fn find_host(hosts: &Vec<Host>, name: &str) -> (r: Option<usize>)
    ensures
        r is Some <==> first_named(hosts_view(hosts@), name@) is Some,
        r matches Some(i) ==> i < hosts.len() && first_named(hosts_view(hosts@), name@) == Some(
            i as int,
        ),
{
    let wanted = name.to_owned();
    let mut i: usize = 0;
    while i < hosts.len()
        invariant
            i <= hosts.len(),
            wanted@ == name@,
            first_named(hosts_view(hosts@), name@) == first_named_from(
                hosts_view(hosts@),
                name@,
                i as int,
            ),
        decreases hosts.len() - i,
    {
        if hosts[i].host_name == wanted {
            return Some(i);
        }
        i += 1;
    }
    None
}

/// Chooses the host for a request from the host part of its `Host` header.
pub fn select_host(hosts: &Vec<Host>, parsed: Option<&str>) -> (r: Result<usize, ResolveError>)
    ensures
        r is Ok <==> matched_host(hosts_view(hosts@), text_of(parsed)) is Some,
        r matches Ok(i) ==> i < hosts.len() && matched_host(hosts_view(hosts@), text_of(parsed))
            == Some(i as int),
        r matches Err(e) ==> e == ResolveError::NoMatchingHost,
{
    match parsed {
        Some(name) => match find_host(hosts, name) {
            Some(i) => Ok(i),
            None => Err(ResolveError::NoMatchingHost),
        },
        None => Err(ResolveError::NoMatchingHost),
    }
}

/// The host part of a `Host` header value, or `None` where the value is no
/// valid authority.
pub fn host_of_header(value: &str) -> (r: Option<String>)
    ensures
        r is Some <==> authority_host(value@) is Some,
        r matches Some(name) ==> authority_host(value@) == Some(name@),
{
    parse_authority_host(value)
}

/// Chooses the host for a request from its `Host` header, if it has one.
pub fn resolve_host(hosts: &Vec<Host>, header: Option<&str>) -> (r: Result<usize, ResolveError>)
    ensures
        r is Ok <==> matched_host(hosts_view(hosts@), header_host(text_of(header))) is Some,
        r matches Ok(i) ==> i < hosts.len() && matched_host(
            hosts_view(hosts@),
            header_host(text_of(header)),
        ) == Some(i as int),
        r matches Err(e) ==> e == ResolveError::NoMatchingHost,
{
    match header {
        Some(value) => match host_of_header(value) {
            Some(name) => select_host(hosts, Some(name.as_str())),
            None => Err(ResolveError::NoMatchingHost),
        },
        None => Err(ResolveError::NoMatchingHost),
    }
}

} // verus!
