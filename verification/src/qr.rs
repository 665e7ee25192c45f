//! The QR code of the address under which the server is reached on the local
//! network.

use vstd::prelude::*;
use vstd::string::*;
use crate::response::{Reply, Response, Status, IMAGE_PNG};

verus! {

/// Edge length of the rendered image, in pixels.
pub const IMAGE_SIZE: usize = 1024;

/// What stands before the host in the encoded address.
pub const URL_SCHEME: &'static str = "http://";

/// What stands behind the host in the encoded address: the port the server
/// listens on.
pub const URL_PORT: &'static str = ":8080";

/// How much of a QR code may be damaged before it becomes unreadable.
#[derive(Clone, Copy, Debug, PartialEq, Eq, Structural)]
pub enum ErrorCorrection {
    Low,
    Medium,
    Quartile,
    High,
}

/// Why no QR code could be sent.
#[derive(Clone, Copy, Debug, PartialEq, Eq, Structural)]
pub enum QrError {
    /// The machine has no address on the local network that could be found.
    NoLocalAddressFound,
    /// The address could not be rendered as a QR code of the fixed size.
    EncodingFailed,
}

impl QrError {
    /// The text sent to the client in place of the image.
    pub open spec fn spec_message(self) -> Seq<char> {
        match self {
            QrError::NoLocalAddressFound => "no local network address found"@,
            QrError::EncodingFailed => "the QR code could not be generated"@,
        }
    }

    /// The text sent to the client in place of the image.
    pub fn message(&self) -> (r: &'static str)
        ensures
            r@ == self.spec_message(),
    {
        match self {
            QrError::NoLocalAddressFound => "no local network address found",
            QrError::EncodingFailed => "the QR code could not be generated",
        }
    }
}

/// `local_ip_address::Error`: why no address was found. Never looked into.
#[verifier::external_type_specification]
#[verifier::external_body]
pub struct ExLocalIpError(local_ip_address::Error);

/// `qrcode_generator::QRCodeError`: why no image was rendered. Never looked
/// into.
#[verifier::external_type_specification]
#[verifier::external_body]
pub struct ExQRCodeError(qrcode_generator::QRCodeError);

/// The PNG image that `qrcode_generator::to_png_to_vec` renders for `text` at
/// the given error correction level and edge length, or `None` where it
/// reports an error.
pub uninterp spec fn qr_png(text: Seq<char>, level: ErrorCorrection, size: usize) -> Option<Seq<u8>>;

/// Calls `local_ip_address::local_ip` and hands out the address it found as
/// text. Trusted: nothing; the outcome depends on the machine's network
/// interfaces at the time of the call.
#[verifier::external_body]
fn local_ip() -> (r: Result<String, local_ip_address::Error>) {
    match local_ip_address::local_ip() {
        Ok(address) => Ok(address.to_string()),
        Err(error) => Err(error),
    }
}

/// Calls `qrcode_generator::to_png_to_vec` on the bytes of `text`. Trusted:
/// whether the call succeeds, and the image it returns, depend on the three
/// arguments alone. The bound on `size` keeps the pixel buffer, of `size`
/// times `size` bytes, within what a vector can hold.
#[verifier::external_body]
fn to_png_to_vec(
    text: &str,
    level: ErrorCorrection,
    size: usize,
) -> (r: Result<Vec<u8>, qrcode_generator::QRCodeError>)
    requires
        size <= 0x7fff,
    ensures
        match r {
            Ok(png) => qr_png(text@, level, size) == Some(png@),
            Err(_) => qr_png(text@, level, size) is None,
        },
{
    let ecc = match level {
        ErrorCorrection::Low => qrcode_generator::QrCodeEcc::Low,
        ErrorCorrection::Medium => qrcode_generator::QrCodeEcc::Medium,
        ErrorCorrection::Quartile => qrcode_generator::QrCodeEcc::Quartile,
        ErrorCorrection::High => qrcode_generator::QrCodeEcc::High,
    };
    qrcode_generator::to_png_to_vec(text, ecc, size)
}

/// The address encoded for a host: `http://`, the host, and the port.
pub open spec fn url_of(host: Seq<char>) -> Seq<char> {
    URL_SCHEME@ + host + URL_PORT@
}

/// The image for `url`, rendered at low error correction and the fixed size.
pub open spec fn encoded(url: Seq<char>) -> Result<Seq<u8>, QrError> {
    match qr_png(url, ErrorCorrection::Low, IMAGE_SIZE) {
        Some(png) => Ok(png),
        None => Err(QrError::EncodingFailed),
    }
}

/// The reply that carries an image, or that reports why there is none.
pub open spec fn reply_of(outcome: Result<Seq<u8>, QrError>) -> Reply {
    match outcome {
        Ok(png) => Reply::success(IMAGE_PNG@, png),
        Err(error) => Reply::server_error(error.spec_message()),
    }
}

/// The reply of the QR endpoint, given how the search for the machine's
/// local address ended.
pub open spec fn qr_reply(address: Result<Seq<char>, QrError>) -> Reply {
    match address {
        Ok(host) => reply_of(encoded(url_of(host))),
        Err(error) => reply_of(Err(error)),
    }
}

/// Whether `address` is a way in which a search for the machine's local
/// address can end: with an address, or with none found.
pub open spec fn searched(address: Result<Seq<char>, QrError>) -> bool {
    address matches Err(error) ==> error == QrError::NoLocalAddressFound
}

/// Whether `reply` is the QR code of the address of `host`, as a PNG image.
pub open spec fn is_qr_image_of(reply: Reply, host: Seq<char>) -> bool {
    &&& reply.status == Status::Success
    &&& reply.content_type == IMAGE_PNG@
    &&& qr_png(url_of(host), ErrorCorrection::Low, IMAGE_SIZE) == Some(reply.body)
}

/// An address, or the failure to find one, as a mathematical value.
pub open spec fn address_view(address: Result<String, QrError>) -> Result<Seq<char>, QrError> {
    match address {
        Ok(host) => Ok(host@),
        Err(error) => Err(error),
    }
}

/// An image, or the failure to render one, as a mathematical value.
pub open spec fn image_view(outcome: Result<Vec<u8>, QrError>) -> Result<Seq<u8>, QrError> {
    match outcome {
        Ok(png) => Ok(png@),
        Err(error) => Err(error),
    }
}

/// The address to encode for `host`.
pub fn connection_url(host: &str) -> (r: String)
    ensures
        r@ == url_of(host@),
{
    let mut url = URL_SCHEME.to_owned();
    url.append(host);
    url.append(URL_PORT);
    url
}

/// Asks the system for the machine's local IPv4 address, as text.
pub fn resolve_local_ipv4() -> (r: Result<String, QrError>)
    ensures
        searched(address_view(r)),
{
    found_address(local_ip())
}

/// How a search for the machine's local address ended, told from what the
/// system answered: the address it gave, or none found, whatever its reason.
pub fn found_address(
    answer: Result<String, local_ip_address::Error>,
) -> (r: Result<String, QrError>)
    ensures
        address_view(r) == (match answer {
            Ok(host) => Ok::<Seq<char>, QrError>(host@),
            Err(_) => Err::<Seq<char>, QrError>(QrError::NoLocalAddressFound),
        }),
{
    match answer {
        Ok(host) => Ok(host),
        Err(_) => Err(QrError::NoLocalAddressFound),
    }
}

/// Renders `url` as a QR code.
pub fn encode(url: &str) -> (r: Result<Vec<u8>, QrError>)
    ensures
        image_view(r) == encoded(url@),
{
    match to_png_to_vec(url, ErrorCorrection::Low, IMAGE_SIZE) {
        Ok(png) => Ok(png),
        Err(_) => Err(QrError::EncodingFailed),
    }
}

/// Wraps an image, or the failure to make one, into a reply.
pub fn qrcode_reply(outcome: Result<Vec<u8>, QrError>) -> (r: Response)
    ensures
        r@ == reply_of(image_view(outcome)),
{
    match outcome {
        Ok(png) => Response::success(IMAGE_PNG.to_owned(), png),
        Err(error) => Response::server_error(error.message()),
    }
}

/// The reply of the QR endpoint for a search that ended with `address`.
pub fn qrcode_for(address: Result<String, QrError>) -> (r: Response)
    ensures
        r@ == qr_reply(address_view(address)),
{
    match address {
        Ok(host) => {
            let url = connection_url(host.as_str());
            qrcode_reply(encode(url.as_str()))
        },
        Err(error) => qrcode_reply(Err(error)),
    }
}

/// The reply of the QR endpoint: looks the address up anew and renders it.
/// Nothing is kept from one call to the next.
pub fn qrcode_gen() -> (r: Response)
    ensures
        exists|address: Result<Seq<char>, QrError>|
            searched(address) && r@ == #[trigger] qr_reply(address),
{
    let address = resolve_local_ipv4();
    let reply = qrcode_for(address);
    assert(searched(address_view(address)) && reply@ == qr_reply(address_view(address)));
    reply
}

/// A search that finds no address ends in a server error, never in an image.
pub proof fn lemma_no_address_is_server_error()
    ensures
        qr_reply(Err(QrError::NoLocalAddressFound)).status == Status::InternalServerError,
        qr_reply(Err(QrError::NoLocalAddressFound)) == Reply::server_error(
            QrError::NoLocalAddressFound.spec_message(),
        ),
{
}

/// The reply is the image of the address that was found exactly where an
/// address was found and could be rendered; every other reply is a server
/// error.
pub proof fn lemma_reply_is_image_or_error(address: Result<Seq<char>, QrError>)
    ensures
        match address {
            Ok(host) => if encoded(url_of(host)) is Ok {
                is_qr_image_of(qr_reply(address), host)
            } else {
                qr_reply(address) == Reply::server_error(QrError::EncodingFailed.spec_message())
            },
            Err(error) => qr_reply(address) == Reply::server_error(error.spec_message()),
        },
        qr_reply(address).status == Status::Success || qr_reply(address).status
            == Status::InternalServerError,
{
}

/// Two requests in a row, each made while the machine has an address that
/// can be rendered, are answered each on its own: each reply is the image of
/// the address found for that request, whatever the other request found, and
/// the two replies are the same where the address has not changed.
pub proof fn lemma_replies_are_independent(first_host: Seq<char>, second_host: Seq<char>)
    ensures
        encoded(url_of(first_host)) is Ok ==> is_qr_image_of(
            qr_reply(Ok(first_host)),
            first_host,
        ),
        encoded(url_of(second_host)) is Ok ==> is_qr_image_of(
            qr_reply(Ok(second_host)),
            second_host,
        ),
        first_host == second_host ==> qr_reply(Ok(first_host)) == qr_reply(Ok(second_host)),
{
}

} // verus!
