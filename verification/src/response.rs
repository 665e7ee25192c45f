//! Replies: a status, a content type and a body of bytes.

use vstd::prelude::*;
use vstd::string::*;
use vstd::utf8::*;

verus! {

/// Content type of the index document.
pub const TEXT_HTML: &'static str = "text/html";

/// Content type of the textual replies.
pub const TEXT_PLAIN: &'static str = "text/plain";

/// Content type of the rendered QR code.
pub const IMAGE_PNG: &'static str = "image/png";

/// Body of the reply to a request that matches nothing.
pub const NOT_FOUND_TEXT: &'static str = "404";

/// How a request ended.
#[derive(Clone, Copy, Debug, PartialEq, Eq, Structural)]
pub enum Status {
    Success,
    NotFound,
    InternalServerError,
}

impl Status {
    /// The numeric HTTP status.
    pub open spec fn spec_code(self) -> int {
        match self {
            Status::Success => 200,
            Status::NotFound => 404,
            Status::InternalServerError => 500,
        }
    }

    /// The numeric HTTP status.
    pub fn code(&self) -> (r: u16)
        ensures
            r == self.spec_code(),
    {
        match self {
            Status::Success => 200,
            Status::NotFound => 404,
            Status::InternalServerError => 500,
        }
    }
}

/// A reply as a mathematical value.
pub ghost struct Reply {
    pub status: Status,
    pub content_type: Seq<char>,
    pub body: Seq<u8>,
}

impl Reply {
    /// A successful reply with the given content type and body.
    pub open spec fn success(content_type: Seq<char>, body: Seq<u8>) -> Reply {
        Reply { status: Status::Success, content_type, body }
    }

    /// The plain-text reply to a request that matches nothing.
    pub open spec fn not_found() -> Reply {
        Reply {
            status: Status::NotFound,
            content_type: TEXT_PLAIN@,
            body: encode_utf8(NOT_FOUND_TEXT@),
        }
    }

    /// The plain-text reply to a request that failed, with `message` as its body.
    pub open spec fn server_error(message: Seq<char>) -> Reply {
        Reply {
            status: Status::InternalServerError,
            content_type: TEXT_PLAIN@,
            body: encode_utf8(message),
        }
    }
}

/// A reply as the server sends it.
#[derive(Debug, PartialEq, Eq)]
pub struct Response {
    pub status: Status,
    pub content_type: String,
    pub body: Vec<u8>,
}

impl View for Response {
    type V = Reply;

    open spec fn view(&self) -> Reply {
        Reply { status: self.status, content_type: self.content_type@, body: self.body@ }
    }
}

impl Response {
    /// A successful reply with the given content type and body.
    pub fn success(content_type: String, body: Vec<u8>) -> (r: Response)
        ensures
            r@ == Reply::success(content_type@, body@),
    {
        Response { status: Status::Success, content_type, body }
    }

    /// The plain-text reply to a request that matches nothing.
    pub fn not_found() -> (r: Response)
        ensures
            r@ == Reply::not_found(),
    {
        Response {
            status: Status::NotFound,
            content_type: TEXT_PLAIN.to_owned(),
            body: NOT_FOUND_TEXT.as_bytes_vec(),
        }
    }

    /// The plain-text reply to a request that failed, with `message` as its body.
    pub fn server_error(message: &str) -> (r: Response)
        ensures
            r@ == Reply::server_error(message@),
    {
        Response {
            status: Status::InternalServerError,
            content_type: TEXT_PLAIN.to_owned(),
            body: message.as_bytes_vec(),
        }
    }
}

/// The body of the not-found reply is the three ASCII digits 4, 0, 4.
pub proof fn lemma_not_found_body()
    ensures
        Reply::not_found().body == seq![0x34u8, 0x30u8, 0x34u8],
{
    reveal_strlit("404");
    is_ascii_chars_encode_utf8(NOT_FOUND_TEXT@);
    assert(encode_utf8(NOT_FOUND_TEXT@) =~= seq![0x34u8, 0x30u8, 0x34u8]);
}

} // verus!
