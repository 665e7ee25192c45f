//! Which reply answers a request path: a bundled file, the index document in
//! its place, or nothing.

use vstd::prelude::*;
use vstd::string::*;
use vstd::std_specs::iter::IteratorSpec;
use crate::assets::AssetSet;
use crate::media::{content_type_of, mime_for_extension};
use crate::response::{lemma_not_found_body, Reply, Response, Status, TEXT_HTML};

verus! {

/// Path of the index document in the bundle.
pub const INDEX_HTML: &'static str = "index.html";

/// The request path without its one leading slash, if it has one.
pub open spec fn request_key(uri_path: Seq<char>) -> Seq<char> {
    if uri_path.len() > 0 && uri_path[0] == '/' {
        uri_path.subrange(1, uri_path.len() as int)
    } else {
        uri_path
    }
}

/// The request path under which a client asks for the bundle path `path`.
pub open spec fn uri_of(path: Seq<char>) -> Seq<char> {
    seq!['/'] + path
}

/// The reply that serves the index document: the document as HTML, or not
/// found where the bundle lacks it.
pub open spec fn index_reply(assets: Map<Seq<char>, Seq<u8>>) -> Reply {
    if assets.contains_key(INDEX_HTML@) {
        Reply::success(TEXT_HTML@, assets[INDEX_HTML@])
    } else {
        Reply::not_found()
    }
}

/// The reply to a request for `uri_path`. The empty key and the index
/// document's name serve the index document. Any other key serves the file
/// stored under exactly that key. A key that is not stored is not found if a
/// dot occurs anywhere in it, and serves the index document otherwise.
pub open spec fn resolve(assets: Map<Seq<char>, Seq<u8>>, uri_path: Seq<char>) -> Reply {
    let key = request_key(uri_path);
    if key.len() == 0 || key == INDEX_HTML@ {
        index_reply(assets)
    } else if assets.contains_key(key) {
        Reply::success(content_type_of(key), assets[key])
    } else if key.contains('.') {
        Reply::not_found()
    } else {
        index_reply(assets)
    }
}

/// Strips the one leading slash of a request path.
pub fn strip_leading_slash(uri_path: &str) -> (key: &str)
    ensures
        key@ == request_key(uri_path@),
{
    let len = uri_path.unicode_len();
    if len > 0 && uri_path.get_char(0) == '/' {
        uri_path.substring_char(1, len)
    } else {
        uri_path
    }
}

/// Whether a dot occurs anywhere in `key`.
pub fn contains_dot(key: &str) -> (r: bool)
    ensures
        r == key@.contains('.'),
{
    broadcast use group_string_axioms;

    for c in it: key.chars()
        invariant
            it.seq() == key@,
            forall|j: int| 0 <= j < it.index() ==> key@[j] != '.',
    {
        if c == '.' {
            return true;
        }
    }
    false
}

/// Whether `key` names the index document.
pub fn is_index(key: &str) -> (r: bool)
    ensures
        r == (key@ == INDEX_HTML@),
{
    // `==` has a meaning to the verifier between two `String`s only.
    key.to_owned() == INDEX_HTML.to_owned()
}

/// The reply to a request that matches nothing.
pub fn not_found() -> (r: Response)
    ensures
        r@ == Reply::not_found(),
{
    Response::not_found()
}

/// Serves the index document.
pub fn index_html(assets: &AssetSet) -> (r: Response)
    ensures
        r@ == index_reply(assets@),
{
    match assets.get(INDEX_HTML) {
        Some(data) => Response::success(TEXT_HTML.to_owned(), data.clone()),
        None => not_found(),
    }
}

/// Answers a request for `uri_path` from the bundle.
pub fn static_handler(assets: &AssetSet, uri_path: &str) -> (r: Response)
    ensures
        r@ == resolve(assets@, uri_path@),
{
    let key = strip_leading_slash(uri_path);
    if key.is_empty() || is_index(key) {
        return index_html(assets);
    }
    match assets.get(key) {
        Some(data) => Response::success(mime_for_extension(key), data.clone()),
        None => {
            if contains_dot(key) {
                return not_found();
            }
            index_html(assets)
        },
    }
}

/// A client that asks for a bundle path is looked up under exactly that path.
pub proof fn lemma_key_of_uri(path: Seq<char>)
    ensures
        request_key(uri_of(path)) == path,
{
    assert(uri_of(path).subrange(1, uri_of(path).len() as int) =~= path);
}

/// A request for a stored file is answered with exactly its bytes, and with
/// the content type of its extension; the index document goes out as HTML.
pub proof fn lemma_stored_file_is_served(assets: Map<Seq<char>, Seq<u8>>, path: Seq<char>)
    requires
        assets.contains_key(path),
        path.len() > 0,
    ensures
        resolve(assets, uri_of(path)) == Reply::success(
            if path == INDEX_HTML@ {
                TEXT_HTML@
            } else {
                content_type_of(path)
            },
            assets[path],
        ),
{
    lemma_key_of_uri(path);
}

/// Where the bundle holds the index document, the root path and the index
/// document's own path are both answered with its bytes, as HTML.
pub proof fn lemma_index_is_served(assets: Map<Seq<char>, Seq<u8>>)
    requires
        assets.contains_key(INDEX_HTML@),
    ensures
        resolve(assets, "/"@) == Reply::success(TEXT_HTML@, assets[INDEX_HTML@]),
        resolve(assets, "/index.html"@) == Reply::success(TEXT_HTML@, assets[INDEX_HTML@]),
{
    reveal_strlit("/");
    reveal_strlit("/index.html");
    reveal_strlit("index.html");
    assert("/"@ =~= uri_of(Seq::<char>::empty()));
    assert("/index.html"@ =~= uri_of(INDEX_HTML@));
    lemma_key_of_uri(Seq::<char>::empty());
    lemma_key_of_uri(INDEX_HTML@);
}

/// A request for a path that is not stored, that is not the index document's
/// and that holds a dot is not found, and the body of the reply is the text
/// `404`.
pub proof fn lemma_missing_file_is_not_found(assets: Map<Seq<char>, Seq<u8>>, path: Seq<char>)
    requires
        !assets.contains_key(path),
        path.len() > 0,
        path != INDEX_HTML@,
        path.contains('.'),
    ensures
        resolve(assets, uri_of(path)) == Reply::not_found(),
        resolve(assets, uri_of(path)).status == Status::NotFound,
        resolve(assets, uri_of(path)).body == seq![0x34u8, 0x30u8, 0x34u8],
{
    lemma_key_of_uri(path);
    lemma_not_found_body();
}

/// Where the bundle holds the index document, a request for a path that is
/// not stored and holds no dot is answered with the index document.
pub proof fn lemma_route_falls_back_to_index(assets: Map<Seq<char>, Seq<u8>>, path: Seq<char>)
    requires
        assets.contains_key(INDEX_HTML@),
        !assets.contains_key(path),
        !path.contains('.'),
    ensures
        resolve(assets, uri_of(path)) == Reply::success(TEXT_HTML@, assets[INDEX_HTML@]),
{
    lemma_key_of_uri(path);
}

} // verus!
