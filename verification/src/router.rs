//! The routing table: two fixed paths lead to the QR endpoint, every other
//! path to the bundled assets.

use vstd::prelude::*;
use crate::assets::AssetSet;
use crate::media::content_type_of;
use crate::qr::{address_view, qr_reply, qrcode_for, qrcode_gen, searched, QrError};
use crate::resolver::{
    lemma_index_is_served, lemma_missing_file_is_not_found, lemma_route_falls_back_to_index,
    lemma_stored_file_is_served, resolve, static_handler, uri_of, INDEX_HTML,
};
use crate::response::{Reply, Response, Status, TEXT_HTML};

verus! {

/// Where the server listens: every interface, one fixed port.
pub const LISTEN_ADDRESS: &'static str = "0.0.0.0:8080";

/// The line printed once the server listens.
pub const ANNOUNCEMENT: &'static str = "Server run on: http://localhost:8080";

/// First path of the QR endpoint.
pub const QRCODE_PATH: &'static str = "/qrcode";

/// Second path of the QR endpoint.
pub const QRCODE_PNG_PATH: &'static str = "/qrcode.png";

/// Where a request is handled.
#[derive(Clone, Copy, Debug, PartialEq, Eq, Structural)]
pub enum Route {
    /// The QR endpoint.
    QrCode,
    /// The bundled assets, which take every request that nothing else takes.
    Assets,
}

/// The route of a request path: the fixed paths are matched first, letter
/// for letter, and the assets come last.
pub open spec fn route_of(uri_path: Seq<char>) -> Route {
    if uri_path == QRCODE_PATH@ || uri_path == QRCODE_PNG_PATH@ {
        Route::QrCode
    } else {
        Route::Assets
    }
}

/// The reply to a request for `uri_path`, where a search for the machine's
/// local address would end with `address`.
pub open spec fn reply_to(
    assets: Map<Seq<char>, Seq<u8>>,
    uri_path: Seq<char>,
    address: Result<Seq<char>, QrError>,
) -> Reply {
    match route_of(uri_path) {
        Route::QrCode => qr_reply(address),
        Route::Assets => resolve(assets, uri_path),
    }
}

/// Finds the route of a request path.
pub fn route(uri_path: &str) -> (r: Route)
    ensures
        r == route_of(uri_path@),
{
    // `==` has a meaning to the verifier between two `String`s only.
    let path = uri_path.to_owned();
    if path == QRCODE_PATH.to_owned() || path == QRCODE_PNG_PATH.to_owned() {
        Route::QrCode
    } else {
        Route::Assets
    }
}

/// Answers a request for `uri_path`, given how the search for the machine's
/// local address ended.
pub fn respond(
    assets: &AssetSet,
    uri_path: &str,
    address: Result<String, QrError>,
) -> (r: Response)
    ensures
        r@ == reply_to(assets@, uri_path@, address_view(address)),
{
    match route(uri_path) {
        Route::QrCode => qrcode_for(address),
        Route::Assets => static_handler(assets, uri_path),
    }
}

/// Answers a request for `uri_path`. The machine's local address is looked
/// up only for the QR endpoint, and anew for each request.
pub fn handle(assets: &AssetSet, uri_path: &str) -> (r: Response)
    ensures
        exists|address: Result<Seq<char>, QrError>|
            searched(address) && r@ == #[trigger] reply_to(assets@, uri_path@, address),
        route_of(uri_path@) == Route::Assets ==> r@ == resolve(assets@, uri_path@),
{
    match route(uri_path) {
        Route::QrCode => {
            let reply = qrcode_gen();
            let ghost address = choose|address: Result<Seq<char>, QrError>|
                searched(address) && reply@ == #[trigger] qr_reply(address);
            assert(searched(address) && reply@ == reply_to(assets@, uri_path@, address));
            reply
        },
        Route::Assets => {
            let reply = static_handler(assets, uri_path);
            let ghost address = Err::<Seq<char>, QrError>(QrError::NoLocalAddressFound);
            assert(searched(address) && reply@ == reply_to(assets@, uri_path@, address));
            reply
        },
    }
}

/// Both paths of the QR endpoint get the same reply, and the bundle has no
/// part in it.
pub proof fn lemma_qrcode_paths_agree(
    assets: Map<Seq<char>, Seq<u8>>,
    address: Result<Seq<char>, QrError>,
)
    ensures
        reply_to(assets, QRCODE_PATH@, address) == qr_reply(address),
        reply_to(assets, QRCODE_PNG_PATH@, address) == qr_reply(address),
{
}

/// A request outside the QR endpoint is answered from the bundle whether or
/// not the machine's local address can be found.
pub proof fn lemma_assets_do_not_need_address(
    assets: Map<Seq<char>, Seq<u8>>,
    uri_path: Seq<char>,
    address: Result<Seq<char>, QrError>,
)
    requires
        route_of(uri_path) == Route::Assets,
    ensures
        reply_to(assets, uri_path, address) == resolve(assets, uri_path),
{
}

/// A request for a stored file, on a path that is not the QR endpoint's, is
/// answered with exactly the stored bytes and with the content type of the
/// file's extension; the index document goes out as HTML.
pub proof fn lemma_get_stored_file(
    assets: Map<Seq<char>, Seq<u8>>,
    path: Seq<char>,
    address: Result<Seq<char>, QrError>,
)
    requires
        assets.contains_key(path),
        path.len() > 0,
        route_of(uri_of(path)) == Route::Assets,
    ensures
        reply_to(assets, uri_of(path), address) == Reply::success(
            if path == INDEX_HTML@ {
                TEXT_HTML@
            } else {
                content_type_of(path)
            },
            assets[path],
        ),
{
    lemma_stored_file_is_served(assets, path);
}

/// Where the bundle holds the index document, a request for the root path or
/// for the index document's own path is answered with its bytes, as HTML.
pub proof fn lemma_get_index(assets: Map<Seq<char>, Seq<u8>>, address: Result<Seq<char>, QrError>)
    requires
        assets.contains_key(INDEX_HTML@),
    ensures
        reply_to(assets, "/"@, address) == Reply::success(TEXT_HTML@, assets[INDEX_HTML@]),
        reply_to(assets, "/index.html"@, address) == Reply::success(
            TEXT_HTML@,
            assets[INDEX_HTML@],
        ),
{
    reveal_strlit("/");
    reveal_strlit("/index.html");
    reveal_strlit("/qrcode");
    reveal_strlit("/qrcode.png");
    assert("/"@.len() != QRCODE_PATH@.len());
    assert("/"@.len() != QRCODE_PNG_PATH@.len());
    assert("/index.html"@.len() != QRCODE_PATH@.len());
    assert("/index.html"@[1] != QRCODE_PNG_PATH@[1]);
    lemma_index_is_served(assets);
}

/// A request for a path that is not stored, that is neither the index
/// document's nor the QR endpoint's, and that holds a dot is not found, and
/// the body of the reply is the text `404`.
pub proof fn lemma_get_missing_file(
    assets: Map<Seq<char>, Seq<u8>>,
    path: Seq<char>,
    address: Result<Seq<char>, QrError>,
)
    requires
        !assets.contains_key(path),
        path.len() > 0,
        path != INDEX_HTML@,
        path.contains('.'),
        route_of(uri_of(path)) == Route::Assets,
    ensures
        reply_to(assets, uri_of(path), address).status == Status::NotFound,
        reply_to(assets, uri_of(path), address).body == seq![0x34u8, 0x30u8, 0x34u8],
{
    lemma_missing_file_is_not_found(assets, path);
}

/// Where the bundle holds the index document, a request for a path that is
/// not stored, that is not the QR endpoint's and that holds no dot is
/// answered with the index document.
pub proof fn lemma_get_client_route(
    assets: Map<Seq<char>, Seq<u8>>,
    path: Seq<char>,
    address: Result<Seq<char>, QrError>,
)
    requires
        assets.contains_key(INDEX_HTML@),
        !assets.contains_key(path),
        !path.contains('.'),
        route_of(uri_of(path)) == Route::Assets,
    ensures
        reply_to(assets, uri_of(path), address) == Reply::success(
            TEXT_HTML@,
            assets[INDEX_HTML@],
        ),
{
    lemma_route_falls_back_to_index(assets, path);
}

} // verus!
