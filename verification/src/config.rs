//! The configuration that the server runs on: a port and the hosts it serves.

use vstd::prelude::*;

verus! {

/// One header line: a name and its value, kept as written.
#[derive(Debug, Clone, PartialEq, Eq)]
pub struct Header {
    pub name: String,
    pub value: String,
}

impl View for Header {
    type V = (Seq<char>, Seq<char>);

    open spec fn view(&self) -> (Seq<char>, Seq<char>) {
        (self.name@, self.value@)
    }
}

impl Header {
    /// A header of the given name and value.
    pub fn new(name: &str, value: &str) -> (r: Header)
        ensures
            r@ == (name@, value@),
    {
        Header { name: name.to_owned(), value: value.to_owned() }
    }

    /// A copy of this header.
    pub fn duplicate(&self) -> (r: Header)
        ensures
            r@ == self@,
    {
        Header { name: self.name.clone(), value: self.value.clone() }
    }
}

/// The headers of a list, each by its view, in the list's order.
pub open spec fn headers_view(headers: Seq<Header>) -> Seq<(Seq<char>, Seq<char>)> {
    headers.map_values(|h: Header| h@)
}

/// One virtual site: the name a request's `Host` header must carry, the
/// directory its files live in, and the headers added to each of its files.
#[derive(Debug, Clone, PartialEq, Eq)]
pub struct Host {
    pub host_name: String,
    pub root: String,
    pub extra_headers: Vec<Header>,
}

/// A host as plain values.
pub ghost struct HostView {
    pub host_name: Seq<char>,
    pub root: Seq<char>,
    pub extra_headers: Seq<(Seq<char>, Seq<char>)>,
}

impl View for Host {
    type V = HostView;

    open spec fn view(&self) -> HostView {
        HostView {
            host_name: self.host_name@,
            root: self.root@,
            extra_headers: headers_view(self.extra_headers@),
        }
    }
}

/// The hosts of a list, each by its view, in the list's order.
pub open spec fn hosts_view(hosts: Seq<Host>) -> Seq<HostView> {
    hosts.map_values(|h: Host| h@)
}

/// What the server listens on and serves.
#[derive(Debug, Clone, PartialEq, Eq)]
pub struct Config {
    pub port: u16,
    pub root: String,
    pub hosts: Vec<Host>,
}

/// A configuration as plain values.
pub ghost struct ConfigView {
    pub port: u16,
    pub root: Seq<char>,
    pub hosts: Seq<HostView>,
}

impl View for Config {
    type V = ConfigView;

    open spec fn view(&self) -> ConfigView {
        ConfigView { port: self.port, root: self.root@, hosts: hosts_view(self.hosts@) }
    }
}

/// Appends a copy of each header of `extra` to `headers`, in order.
pub fn append_headers(headers: &mut Vec<Header>, extra: &Vec<Header>)
    ensures
        headers_view(final(headers)@) == headers_view(old(headers)@) + headers_view(extra@),
{
    let mut i: usize = 0;
    while i < extra.len()
        invariant
            i <= extra.len(),
            headers_view(headers@) == headers_view(old(headers)@) + headers_view(
                extra@.subrange(0, i as int),
            ),
        decreases extra.len() - i,
    {
        let ghost before = headers@;
        let h = extra[i].duplicate();
        headers.push(h);
        proof {
            assert(headers_view(headers@) =~= headers_view(before).push(h@));
            assert(headers_view(extra@.subrange(0, i + 1)) =~= headers_view(
                extra@.subrange(0, i as int),
            ).push(extra@[i as int]@));
        }
        i += 1;
    }
    proof {
        assert(extra@.subrange(0, i as int) =~= extra@);
    }
}

} // verus!
