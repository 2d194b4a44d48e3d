//! What a handler answers: a status, an optional content type and a body.

use vstd::prelude::*;
use vstd::utf8::encode_utf8;

verus! {

/// Status of a request that was served.
pub const OK: u16 = 200;

/// Status of a request for something that is not there.
pub const NOT_FOUND: u16 = 404;

/// Status of a request that the server failed to serve.
pub const INTERNAL_SERVER_ERROR: u16 = 500;

/// An answer to one request, ready to be put on the wire.
#[derive(Debug, PartialEq, Eq)]
pub struct Response {
    /// The HTTP status code.
    pub status: u16,
    /// The value of the `Content-Type` header, when one is sent.
    pub content_type: Option<String>,
    /// The bytes of the body.
    pub body: Vec<u8>,
}

/// The mathematical content of a [`Response`].
pub ghost struct ResponseView {
    pub status: u16,
    pub content_type: Option<Seq<char>>,
    pub body: Seq<u8>,
}

/// The characters of an optional text.
pub open spec fn text_of(text: Option<String>) -> Option<Seq<char>> {
    match text {
        Some(t) => Some(t@),
        None => None,
    }
}

impl View for Response {
    type V = ResponseView;

    open spec fn view(&self) -> ResponseView {
        ResponseView {
            status: self.status,
            content_type: text_of(self.content_type),
            body: self.body@,
        }
    }
}

/// A response without a content type whose body is `text` in UTF-8.
pub open spec fn plain(status: u16, text: Seq<char>) -> ResponseView {
    ResponseView { status, content_type: None, body: encode_utf8(text) }
}

/// A response with nothing in it but the status.
pub open spec fn bare(status: u16) -> ResponseView {
    ResponseView { status, content_type: None, body: Seq::empty() }
}

impl Response {
    /// Answers `status` with `text` as the body and no content type.
    pub fn plain(status: u16, text: &str) -> (response: Response)
        ensures
            response@ == plain(status, text@),
    {
        Response { status, content_type: None, body: text.as_bytes_vec() }
    }

    /// Answers `status` with an empty body and no content type.
    pub fn bare(status: u16) -> (response: Response)
        ensures
            response@ == bare(status),
    {
        Response { status, content_type: None, body: Vec::new() }
    }
}

} // verus!
