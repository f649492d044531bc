//! The content type that a file's name suggests.

use vstd::prelude::*;

verus! {

/// The media type that `mime_guess` assigns to a path by its extension, written
/// out as text; `application/octet-stream` where it knows none.
pub uninterp spec fn guessed_mime(path: Seq<char>) -> Seq<char>;

/// Calls `mime_guess::from_path`, takes `MimeGuess::first_or_octet_stream` of
/// the guess and writes the media type out. Trusted: the text is the one that
/// `guessed_mime` names for this path. The guess is a lookup of the path's
/// extension in a table compiled into the crate; the file is not touched.
#[verifier::external_body]
fn guess(path: &str) -> (r: String)
    ensures
        r@ == guessed_mime(path@),
{
    mime_guess::from_path(path).first_or_octet_stream().to_string()
}

/// The content type to announce for the file at `path`.
pub fn mime_type_of(path: &str) -> (r: String)
    ensures
        r@ == guessed_mime(path@),
{
    guess(path)
}

} // verus!
