//! Content types by file extension, as the `mime_guess` crate knows them.

use vstd::prelude::*;

verus! {

/// Content type of a file whose extension is missing or unknown.
pub const OCTET_STREAM: &'static str = "application/octet-stream";

/// `mime_guess::MimeGuess`: the media types guessed for one path. Carried
/// from one call into the crate to the next, never looked into.
#[verifier::external_type_specification]
#[verifier::external_body]
pub struct ExMimeGuess(mime_guess::MimeGuess);

/// The media types that a guess yields, each as its text, the preferred one first.
pub uninterp spec fn guessed_types(guess: mime_guess::MimeGuess) -> Seq<Seq<char>>;

/// The media types that `mime_guess` lists for the extension of `path`, each
/// as its text, the preferred one first. Empty where the path has no
/// extension or the table does not know it.
pub uninterp spec fn types_of_path(path: Seq<char>) -> Seq<Seq<char>>;

/// Calls `mime_guess::from_path`. Trusted: the guess depends on the text of
/// `path` alone; the call looks at the extension and reads no file.
#[verifier::external_body]
fn from_path(path: &str) -> (guess: mime_guess::MimeGuess)
    ensures
        guessed_types(guess) == types_of_path(path@),
{
    mime_guess::from_path(path)
}

/// Calls `MimeGuess::first_or_octet_stream` and hands out the text of the
/// media type it returns. Trusted: that is the first media type of the guess,
/// or `application/octet-stream` where the guess is empty.
#[verifier::external_body]
fn first_or_octet_stream(guess: &mime_guess::MimeGuess) -> (r: String)
    ensures
        r@ == first_or(guessed_types(*guess), OCTET_STREAM@),
{
    String::from(guess.first_or_octet_stream().as_ref())
}

/// The first of `types`, or `fallback` where there is none.
pub open spec fn first_or(types: Seq<Seq<char>>, fallback: Seq<char>) -> Seq<char> {
    if types.len() > 0 {
        types[0]
    } else {
        fallback
    }
}

/// The content type sent with the file stored under `path`: the preferred
/// media type of its extension, or `application/octet-stream`.
pub open spec fn content_type_of(path: Seq<char>) -> Seq<char> {
    first_or(types_of_path(path), OCTET_STREAM@)
}

/// The content type to send with the file stored under `path`.
pub fn mime_for_extension(path: &str) -> (r: String)
    ensures
        r@ == content_type_of(path@),
{
    let guess = from_path(path);
    first_or_octet_stream(&guess)
}

} // verus!
