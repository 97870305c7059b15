use vstd::prelude::*;

verus! {

/// Media type carried by a response whose body is an encoded document.
pub open spec fn toml_media_type() -> Seq<char> {
    "application/toml"@
}

/// Media type carried by a response whose body is a plain-text error message.
pub open spec fn text_utf8_media_type() -> Seq<char> {
    "text/plain; charset=utf-8"@
}

/// Model of an HTTP response as the adapter shapes it: a status code, the
/// value of its single `Content-Type` header, and the body text.
pub struct ResponseV {
    pub status: u16,
    pub content_type: Seq<char>,
    pub body: Seq<char>,
}

/// An HTTP response produced by the adapter. It carries exactly one
/// `Content-Type` header, held in `content_type`; the surrounding framework
/// turns it into its own response value unchanged.
#[derive(Debug)]
pub struct Response {
    pub status: u16,
    pub content_type: String,
    pub body: String,
}

impl View for Response {
    type V = ResponseV;

    open spec fn view(&self) -> ResponseV {
        ResponseV {
            status: self.status,
            content_type: self.content_type@,
            body: self.body@,
        }
    }
}

/// The content type every response of the adapter owes: the format's media
/// type exactly on success, plain text on every failure.
pub open spec fn content_type_by_status(resp: ResponseV) -> bool {
    &&& resp.status == 200 ==> resp.content_type == toml_media_type()
    &&& resp.status != 200 ==> resp.content_type == text_utf8_media_type()
}

} // verus!
