//! What is sent back: a file with its content headers, or one of two fixed
//! error responses.
//!
//! A header that cannot be sent is a fault of the server, not of the request:
//! the response for a file whose headers are not all accepted is the internal
//! error response.

use vstd::prelude::*;
use vstd::string::*;
use crate::config::{append_headers, headers_view, Header};
use crate::decimal::{decimal, to_decimal};
use crate::mime::{guessed_mime, mime_type_of};

verus! {

/// A file as read for one request.
#[derive(Debug, Clone, PartialEq, Eq)]
pub struct FileData {
    pub content: Vec<u8>,
    pub mime_type: String,
    pub content_length: usize,
}

impl FileData {
    /// The recorded length is the length of the content.
    pub open spec fn wf(&self) -> bool {
        self.content_length == self.content@.len()
    }

    /// The data of a file with the given content and content type.
    pub fn new(content: Vec<u8>, mime_type: String) -> (r: FileData)
        ensures
            r.wf(),
            r.content@ == content@,
            r.mime_type@ == mime_type@,
    {
        let content_length = content.len();
        FileData { content, mime_type, content_length }
    }
}

/// Why a file's data could not be had.
#[derive(Debug, Clone, Copy, PartialEq, Eq)]
pub enum LoadError {
    /// The file is missing, unreadable, or a directory.
    FileUnavailable,
}

/// A response, ready to be written out.
#[derive(Debug, Clone, PartialEq, Eq)]
pub struct Response {
    pub status: u16,
    pub headers: Vec<Header>,
    pub body: Vec<u8>,
}

/// A response as plain values.
pub ghost struct ResponseView {
    pub status: int,
    pub headers: Seq<(Seq<char>, Seq<char>)>,
    pub body: Seq<u8>,
}

impl View for Response {
    type V = ResponseView;

    open spec fn view(&self) -> ResponseView {
        ResponseView {
            status: self.status as int,
            headers: headers_view(self.headers@),
            body: self.body@,
        }
    }
}

/// Whether `hyper` takes a text as a header's name.
pub uninterp spec fn header_name_accepted(name: Seq<char>) -> bool;

/// Whether `hyper` takes a text as a header's value.
pub uninterp spec fn header_value_accepted(value: Seq<char>) -> bool;

/// Asks `hyper::header::HeaderName::from_bytes`, on the bytes of `name`,
/// whether it makes a header name of them. Trusted: the answer is the one that
/// `header_name_accepted` names for this text. It is what a response builder
/// applies to a name given as text, and depends on the text alone.
#[verifier::external_body]
fn accepts_name(name: &str) -> (r: bool)
    ensures
        r == header_name_accepted(name@),
{
    hyper::header::HeaderName::from_bytes(name.as_bytes()).is_ok()
}

/// Asks `hyper::header::HeaderValue::from_str` whether it makes a header value
/// of `value`. Trusted: the answer is the one that `header_value_accepted`
/// names for this text. It is what a response builder applies to a value given
/// as text, and depends on the text alone.
#[verifier::external_body]
fn accepts_value(value: &str) -> (r: bool)
    ensures
        r == header_value_accepted(value@),
{
    hyper::header::HeaderValue::from_str(value).is_ok()
}

/// Whether a header can be sent: both its name and its value are accepted.
pub open spec fn header_accepted(header: (Seq<char>, Seq<char>)) -> bool {
    header_name_accepted(header.0) && header_value_accepted(header.1)
}

/// Whether every header of a list can be sent.
pub open spec fn all_accepted(headers: Seq<(Seq<char>, Seq<char>)>) -> bool {
    forall|i: int| 0 <= i < headers.len() ==> header_accepted(#[trigger] headers[i])
}

/// The response for anything that is not served: status 404, no headers, the
/// text `Not Found`.
pub open spec fn not_found_view() -> ResponseView {
    ResponseView { status: 404, headers: Seq::empty(), body: "Not Found".spec_bytes() }
}

/// The response for a fault of the server itself: status 500, no headers, the
/// text `Internal Server Error`.
pub open spec fn internal_server_error_view() -> ResponseView {
    ResponseView {
        status: 500,
        headers: Seq::empty(),
        body: "Internal Server Error".spec_bytes(),
    }
}

/// The response that carries a file: status 200, its content type, its length
/// in decimal, then the host's extra headers in their order, and the content.
pub open spec fn success_view(
    mime: Seq<char>,
    content: Seq<u8>,
    extra: Seq<(Seq<char>, Seq<char>)>,
) -> ResponseView {
    ResponseView {
        status: 200,
        headers: seq![("content-type"@, mime), ("content-length"@, decimal(content.len()))]
            + extra,
        body: content,
    }
}

/// What assembling the response for a file gives, by whether all its headers
/// can be sent: the success response, or else the internal error response.
pub open spec fn assembled_view(
    mime: Seq<char>,
    content: Seq<u8>,
    extra: Seq<(Seq<char>, Seq<char>)>,
    accepted: bool,
) -> ResponseView {
    if accepted {
        success_view(mime, content, extra)
    } else {
        internal_server_error_view()
    }
}

/// The response for a file that was read, or for one that was not.
pub open spec fn sent_view(
    mime: Seq<char>,
    content: Option<Seq<u8>>,
    extra: Seq<(Seq<char>, Seq<char>)>,
    accepted: bool,
) -> ResponseView {
    match content {
        Some(bytes) => assembled_view(mime, bytes, extra, accepted),
        None => not_found_view(),
    }
}

/// Whether the headers of the success response for a file can all be sent.
pub open spec fn success_accepted(
    mime: Seq<char>,
    content: Seq<u8>,
    extra: Seq<(Seq<char>, Seq<char>)>,
) -> bool {
    all_accepted(success_view(mime, content, extra).headers)
}

/// Whether the headers of the response for a read can all be sent; a failed
/// read has none.
pub open spec fn sent_accepted(
    mime: Seq<char>,
    content: Option<Seq<u8>>,
    extra: Seq<(Seq<char>, Seq<char>)>,
) -> bool {
    match content {
        Some(bytes) => success_accepted(mime, bytes, extra),
        None => true,
    }
}

/// The bytes of an optional buffer.
pub open spec fn bytes_of(content: Option<Vec<u8>>) -> Option<Seq<u8>> {
    match content {
        Some(v) => Some(v@),
        None => None,
    }
}

/// The canonical "not found" response.
pub fn not_found() -> (r: Response)
    ensures
        r@ == not_found_view(),
        r.status == 404,
        r.headers@.len() == 0,
{
    let r = Response { status: 404, headers: Vec::new(), body: "Not Found".as_bytes_vec() };
    assert(r@.headers =~= Seq::empty());
    r
}

/// The canonical "internal error" response.
pub fn internal_server_error() -> (r: Response)
    ensures
        r@ == internal_server_error_view(),
        r.status == 500,
        r.headers@.len() == 0,
{
    let r = Response {
        status: 500,
        headers: Vec::new(),
        body: "Internal Server Error".as_bytes_vec(),
    };
    assert(r@.headers =~= Seq::empty());
    r
}

/// Whether `header` can be sent.
pub fn accepts_header(header: &Header) -> (r: bool)
    ensures
        r == header_accepted(header@),
{
    accepts_name(header.name.as_str()) && accepts_value(header.value.as_str())
}

/// Whether every header of `headers` can be sent.
pub fn accepts_all(headers: &Vec<Header>) -> (r: bool)
    ensures
        r == all_accepted(headers_view(headers@)),
{
    let mut i: usize = 0;
    while i < headers.len()
        invariant
            i <= headers.len(),
            forall|j: int| 0 <= j < i ==> header_accepted(#[trigger] headers_view(headers@)[j]),
        decreases headers.len() - i,
    {
        if !accepts_header(&headers[i]) {
            assert(!header_accepted(headers_view(headers@)[i as int]));
            return false;
        }
        i += 1;
    }
    true
}

/// The response that carries `file`, with `extra` after the content headers;
/// the internal error response where one of these headers cannot be sent.
pub fn success(file: FileData, extra: &Vec<Header>) -> (r: Response)
    requires
        file.wf(),
    ensures
        r@ == assembled_view(
            file.mime_type@,
            file.content@,
            headers_view(extra@),
            success_accepted(file.mime_type@, file.content@, headers_view(extra@)),
        ),
{
    let mut headers: Vec<Header> = Vec::new();
    headers.push(Header::new("content-type", file.mime_type.as_str()));
    headers.push(Header::new("content-length", to_decimal(file.content_length).as_str()));
    proof {
        assert(headers_view(headers@) =~= seq![
            ("content-type"@, file.mime_type@),
            ("content-length"@, decimal(file.content@.len())),
        ]);
    }
    append_headers(&mut headers, extra);
    if accepts_all(&headers) {
        Response { status: 200, headers, body: file.content }
    } else {
        internal_server_error()
    }
}

/// The response for the outcome of loading a file: what assembling the file
/// with `extra` gives, or "not found" where there is no file.
pub fn respond(loaded: Result<FileData, LoadError>, extra: &Vec<Header>) -> (r: Response)
    requires
        loaded matches Ok(file) ==> file.wf(),
    ensures
        r@ == match loaded {
            Ok(file) => assembled_view(
                file.mime_type@,
                file.content@,
                headers_view(extra@),
                success_accepted(file.mime_type@, file.content@, headers_view(extra@)),
            ),
            Err(_) => not_found_view(),
        },
{
    match loaded {
        Ok(file) => success(file, extra),
        Err(_) => not_found(),
    }
}

/// The data of the file at `path`, from what reading it gave: its bytes, or
/// `None` where it could not be read. The content type goes by the path.
pub fn resolve_file_data(path: &str, read: Option<Vec<u8>>) -> (r: Result<FileData, LoadError>)
    ensures
        r is Ok <==> read is Some,
        r matches Ok(file) ==> file.wf() && Some(file.content@) == bytes_of(read)
            && file.mime_type@ == guessed_mime(path@),
        r matches Err(e) ==> e == LoadError::FileUnavailable,
{
    let mime_type = mime_type_of(path);
    match read {
        Some(content) => Ok(FileData::new(content, mime_type)),
        None => Err(LoadError::FileUnavailable),
    }
}

} // verus!
