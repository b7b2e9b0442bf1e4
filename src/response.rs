use vstd::prelude::*;
use vstd::string::StrSliceExecFns;
use vstd::utf8::encode_utf8;

verus! {

pub const OK: u16 = 200;

pub const BAD_REQUEST: u16 = 400;

pub const INTERNAL_SERVER_ERROR: u16 = 500;

/// The status code of an HTTP response, carried alone as a handler outcome.
#[derive(Clone, Copy, Debug, PartialEq, Eq, Structural)]
pub struct StatusCode(pub u16);

/// A failure reported by a handler, with its human-readable message.
#[derive(Clone, Debug)]
pub struct HandlerError {
    pub message: String,
}

/// The one response shape that every request ends in.
#[derive(Clone, Debug)]
pub struct WebResponse {
    pub status: u16,
    pub content_type: Option<String>,
    pub body: Vec<u8>,
}

/// What a response is: its status, its content type if it has one, and its body.
pub struct ResponseView {
    pub status: u16,
    pub content_type: Option<Seq<char>>,
    pub body: Seq<u8>,
}

pub open spec fn content_type_view(c: Option<String>) -> Option<Seq<char>> {
    match c {
        Some(s) => Some(s@),
        None => None,
    }
}

impl View for WebResponse {
    type V = ResponseView;

    open spec fn view(&self) -> ResponseView {
        ResponseView {
            status: self.status,
            content_type: content_type_view(self.content_type),
            body: self.body@,
        }
    }
}

pub open spec fn text_plain() -> Seq<char> {
    "text/plain"@
}

pub open spec fn image_png() -> Seq<char> {
    "image/png"@
}

/// A 200 response that carries `text` as plain text.
pub open spec fn text_response(text: Seq<char>) -> ResponseView {
    ResponseView { status: 200, content_type: Some(text_plain()), body: encode_utf8(text) }
}

/// A response with the given status and nothing else.
pub open spec fn status_response(status: u16) -> ResponseView {
    ResponseView { status, content_type: None, body: Seq::empty() }
}

/// A response with a status and a body of text, and no content type.
pub open spec fn plain_response(status: u16, text: Seq<char>) -> ResponseView {
    ResponseView { status, content_type: None, body: encode_utf8(text) }
}

/// A 500 response that carries an error's message as plain text.
pub open spec fn error_response(message: Seq<char>) -> ResponseView {
    ResponseView {
        status: 500,
        content_type: Some(text_plain()),
        body: encode_utf8(message),
    }
}

/// A 200 response that carries `bytes` as a PNG image.
pub open spec fn bytes_response(bytes: Seq<u8>) -> ResponseView {
    ResponseView { status: 200, content_type: Some(image_png()), body: bytes }
}

pub fn str_bytes(s: &str) -> (r: Vec<u8>)
    ensures
        r@ == encode_utf8(s@),
{
    s.as_bytes_vec()
}

/// A value that a handler may hand back, and the response it stands for.
pub trait IntoWebResponse: Sized {
    spec fn web_response_view(&self) -> ResponseView;

    fn into_web_response(self) -> (r: WebResponse)
        ensures
            r@ == self.web_response_view(),
    ;
}

impl IntoWebResponse for WebResponse {
    open spec fn web_response_view(&self) -> ResponseView {
        self@
    }

    fn into_web_response(self) -> (r: WebResponse) {
        self
    }
}

impl IntoWebResponse for StatusCode {
    open spec fn web_response_view(&self) -> ResponseView {
        status_response(self.0)
    }

    fn into_web_response(self) -> (r: WebResponse) {
        WebResponse { status: self.0, content_type: None, body: Vec::new() }
    }
}

impl<'a> IntoWebResponse for &'a str {
    open spec fn web_response_view(&self) -> ResponseView {
        text_response(self@)
    }

    fn into_web_response(self) -> (r: WebResponse) {
        WebResponse {
            status: OK,
            content_type: Some("text/plain".to_string()),
            body: str_bytes(self),
        }
    }
}

impl IntoWebResponse for String {
    open spec fn web_response_view(&self) -> ResponseView {
        text_response(self@)
    }

    fn into_web_response(self) -> (r: WebResponse) {
        WebResponse {
            status: OK,
            content_type: Some("text/plain".to_string()),
            body: str_bytes(self.as_str()),
        }
    }
}

impl IntoWebResponse for Vec<u8> {
    open spec fn web_response_view(&self) -> ResponseView {
        bytes_response(self@)
    }

    fn into_web_response(self) -> (r: WebResponse) {
        WebResponse { status: OK, content_type: Some("image/png".to_string()), body: self }
    }
}

impl IntoWebResponse for HandlerError {
    open spec fn web_response_view(&self) -> ResponseView {
        error_response(self.message@)
    }

    fn into_web_response(self) -> (r: WebResponse) {
        WebResponse {
            status: INTERNAL_SERVER_ERROR,
            content_type: Some("text/plain".to_string()),
            body: str_bytes(self.message.as_str()),
        }
    }
}

} // verus!
