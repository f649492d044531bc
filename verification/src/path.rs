//! From a host's root and a request's path to the file to serve.
//!
//! The request path loses one leading separator, so that it is always taken
//! relative to the root; an empty remainder stands for the index file. The
//! remainder is appended to the root as it is: segments are not rewritten and
//! links are not followed. Where the outcome is a directory, the index file
//! inside it is taken.
//!
//! Resolution itself never fails. A request path with a `..` segment could
//! climb out of the root once the file system reads it, so
//! `contains_parent_segment` finds such paths and the router refuses them
//! before anything is resolved.

use vstd::prelude::*;
use vstd::std_specs::iter::IteratorSpec;
use vstd::string::*;

verus! {

/// The name of the file served for a directory.
pub open spec fn index_name() -> Seq<char> {
    "index.html"@
}

/// `path` without its first character, if that is a separator.
pub open spec fn strip_leading(path: Seq<char>) -> Seq<char> {
    if path.len() > 0 && path[0] == '/' {
        path.subrange(1, path.len() as int)
    } else {
        path
    }
}

/// The part of a request path that is looked up under the root.
pub open spec fn relative_part(request: Seq<char>) -> Seq<char> {
    if strip_leading(request).len() == 0 {
        index_name()
    } else {
        strip_leading(request)
    }
}

/// `rel` appended to `root`, with one separator between them unless `root` is
/// empty or already ends in one.
pub open spec fn joined(root: Seq<char>, rel: Seq<char>) -> Seq<char> {
    if root.len() == 0 || root.last() == '/' {
        root + rel
    } else {
        root.push('/') + rel
    }
}

/// Whether the two characters from index `i` on are a `..` segment of `path`:
/// two dots with a separator, or an end of the path, on either side.
pub open spec fn parent_segment_at(path: Seq<char>, i: int) -> bool {
    &&& 0 <= i && i + 2 <= path.len()
    &&& path[i] == '.' && path[i + 1] == '.'
    &&& (i == 0 || path[i - 1] == '/')
    &&& (i + 2 == path.len() || path[i + 2] == '/')
}

/// Whether some segment of `path` is `..`.
pub open spec fn has_parent_segment(path: Seq<char>) -> bool {
    exists|i: int| parent_segment_at(path, i)
}

/// The path that a request names under a root, before any look at the disk.
pub open spec fn candidate(root: Seq<char>, request: Seq<char>) -> Seq<char> {
    joined(root, relative_part(request))
}

/// A candidate path after the index file is put in for a directory.
pub open spec fn with_index(candidate: Seq<char>, is_dir: bool) -> Seq<char> {
    if is_dir {
        joined(candidate, index_name())
    } else {
        candidate
    }
}

/// The file that a request names under a root, given whether the candidate path
/// is a directory.
pub open spec fn resolved(root: Seq<char>, request: Seq<char>, is_dir: bool) -> Seq<char> {
    with_index(candidate(root, request), is_dir)
}

/// A joined path begins with the root it was joined onto and ends with what
/// was appended.
pub proof fn joined_keeps_root(root: Seq<char>, rel: Seq<char>)
    ensures
        root.is_prefix_of(joined(root, rel)),
        rel.is_suffix_of(joined(root, rel)),
        joined(root, rel).len() <= root.len() + 1 + rel.len(),
{
    let j = joined(root, rel);
    assert(j.subrange(0, root.len() as int) =~= root);
    assert(j.subrange(j.len() - rel.len(), j.len() as int) =~= rel);
}

/// Whatever the request path and whatever is on disk, the resolved path begins
/// with the host's root: no step of the resolution replaces the root.
pub proof fn resolved_stays_under_root(root: Seq<char>, request: Seq<char>, is_dir: bool)
    ensures
        root.is_prefix_of(resolved(root, request, is_dir)),
{
    let c = candidate(root, request);
    joined_keeps_root(root, relative_part(request));
    joined_keeps_root(c, index_name());
    let r = resolved(root, request, is_dir);
    assert(r.subrange(0, root.len() as int) =~= c.subrange(0, root.len() as int));
}

/// The root path `/` and the empty path both name the index file directly
/// under the root.
pub proof fn root_request_names_index(root: Seq<char>)
    ensures
        candidate(root, seq!['/']) == joined(root, index_name()),
        candidate(root, Seq::empty()) == joined(root, index_name()),
{
    assert(strip_leading(seq!['/']) =~= Seq::<char>::empty());
}

/// A request path made of a separator and a file's name relative to the root
/// names that file under the root.
pub proof fn file_request_names_file(root: Seq<char>, file: Seq<char>)
    requires
        file.len() > 0,
    ensures
        candidate(root, seq!['/'] + file) == joined(root, file),
{
    assert(strip_leading(seq!['/'] + file) =~= file);
}

/// For a candidate that is a directory the index file inside it is taken; any
/// other candidate is taken as it is.
pub proof fn directory_takes_index(root: Seq<char>, request: Seq<char>)
    ensures
        resolved(root, request, true) == joined(candidate(root, request), index_name()),
        resolved(root, request, false) == candidate(root, request),
        index_name().is_suffix_of(resolved(root, request, true)),
{
    joined_keeps_root(candidate(root, request), index_name());
}

/// Resolution depends on the root, the request path and the state of the
/// candidate on disk, and on nothing else: the same three give the same path.
pub proof fn resolution_is_repeatable(
    root1: Seq<char>,
    request1: Seq<char>,
    is_dir1: bool,
    root2: Seq<char>,
    request2: Seq<char>,
    is_dir2: bool,
)
    requires
        root1 == root2,
        request1 == request2,
        is_dir1 == is_dir2,
    ensures
        candidate(root1, request1) == candidate(root2, request2),
        resolved(root1, request1, is_dir1) == resolved(root2, request2, is_dir2),
{
}

/// The characters of `text`, one by one.
pub fn chars_of(text: &str) -> (r: Vec<char>)
    ensures
        r@ == text@,
{
    broadcast use vstd::string::group_string_axioms;

    let mut out: Vec<char> = Vec::new();
    let mut it = text.chars();
    loop
        invariant
            out@ + it.remaining() == text@,
            it.decrease() is Some,
        decreases it.decrease()->0,
    {
        match it.next() {
            Some(c) => {
                out.push(c);
                assert(out@ + it.remaining() =~= text@);
            },
            None => {
                assert(out@ =~= text@);
                return out;
            },
        }
    }
}

/// Whether some segment of `path` is `..`.
pub fn contains_parent_segment(path: &str) -> (r: bool)
    ensures
        r == has_parent_segment(path@),
{
    let chars = chars_of(path);
    let n = chars.len();
    let mut i: usize = 0;
    while i < n && n - i >= 2
        invariant
            n == chars.len(),
            chars@ == path@,
            i <= n,
            forall|j: int| 0 <= j < i ==> !parent_segment_at(path@, j),
        decreases n - i,
    {
        if chars[i] == '.' && chars[i + 1] == '.' && (i == 0 || chars[i - 1] == '/') && (i + 2 == n
            || chars[i + 2] == '/') {
            assert(parent_segment_at(path@, i as int));
            return true;
        }
        i += 1;
    }
    assert(forall|j: int| !parent_segment_at(path@, j));
    false
}

/// Removes one leading separator from `path`, if it has one.
pub fn strip_leading_separator(path: &str) -> (r: &str)
    ensures
        r@ == strip_leading(path@),
{
    let n = path.unicode_len();
    if n > 0 && path.get_char(0) == '/' {
        path.substring_char(1, n)
    } else {
        path
    }
}

/// Appends `rel` to `root`, separating the two where needed.
pub fn join_path(root: &str, rel: &str) -> (r: String)
    ensures
        r@ == joined(root@, rel@),
{
    let n = root.unicode_len();
    let mut out = String::from_str(root);
    if n > 0 && root.get_char(n - 1) != '/' {
        proof {
            reveal_strlit("/");
        }
        out.append("/");
        assert(out@ =~= root@.push('/'));
    }
    out.append(rel);
    out
}

/// The path that `request` names under `root`.
pub fn candidate_path(root: &str, request: &str) -> (r: String)
    ensures
        r@ == candidate(root@, request@),
{
    let rel = strip_leading_separator(request);
    if rel.unicode_len() == 0 {
        join_path(root, "index.html")
    } else {
        join_path(root, rel)
    }
}

/// Puts the index file in for a candidate that is a directory.
pub fn with_directory_index(candidate: String, is_dir: bool) -> (r: String)
    ensures
        r@ == with_index(candidate@, is_dir),
{
    if is_dir {
        join_path(candidate.as_str(), "index.html")
    } else {
        candidate
    }
}

/// The file that `request` names under `root`, where the caller knows whether
/// the candidate path is a directory.
pub fn resolve_with(root: &str, request: &str, is_dir: bool) -> (r: String)
    ensures
        r@ == resolved(root@, request@, is_dir),
{
    with_directory_index(candidate_path(root, request), is_dir)
}

/// Asks `std::path::Path::is_dir` whether `path` is a directory on disk now.
/// Trusted, and nothing is claimed of the answer: it depends on the file
/// system, and a path that cannot be read counts as no directory.
#[verifier::external_body]
fn is_directory(path: &str) -> (r: bool) {
    std::path::Path::new(path).is_dir()
}

/// The file that the request path `relative_path` names under `root_path`.
///
/// The candidate path is looked up on disk once, to learn whether it is a
/// directory. The outcome is the resolution for one of the two answers, and in
/// either case it begins with the root.
pub fn resolve_file_path(root_path: &str, relative_path: &str) -> (r: String)
    ensures
        r@ == resolved(root_path@, relative_path@, false) || r@ == resolved(
            root_path@,
            relative_path@,
            true,
        ),
        root_path@.is_prefix_of(r@),
{
    let full_path = candidate_path(root_path, relative_path);
    let is_dir = is_directory(full_path.as_str());
    proof {
        resolved_stays_under_root(root_path@, relative_path@, is_dir);
    }
    with_directory_index(full_path, is_dir)
}

} // verus!
