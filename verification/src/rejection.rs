use crate::response::{content_type_by_status, text_utf8_media_type, Response, ResponseV};
use vstd::prelude::*;

verus! {

/// Why an inbound conversion failed. Created only during inbound conversion
/// and consumed at once to build the error response.
#[derive(Debug)]
pub enum TomlRejection {
    /// The body was not valid UTF-8 text. The response for it is delegated:
    /// it is the upstream body reader's own rejection, a client error with a
    /// fixed message.
    InvalidUtf8,
    /// The body was UTF-8 text that decoding refused — malformed syntax or
    /// the wrong shape for the target — with the decoder's message.
    Deserialization(String),
}

/// Model of a rejection.
pub enum RejectionV {
    InvalidUtf8,
    Deserialization(Seq<char>),
}

impl View for TomlRejection {
    type V = RejectionV;

    open spec fn view(&self) -> RejectionV {
        match self {
            TomlRejection::InvalidUtf8 => RejectionV::InvalidUtf8,
            TomlRejection::Deserialization(m) => RejectionV::Deserialization(m@),
        }
    }
}

/// Body of the delegated response for a body that was not UTF-8 text: the
/// upstream reader's own message.
pub open spec fn invalid_utf8_text() -> Seq<char> {
    "Request body didn't contain valid UTF-8"@
}

/// The response a rejection converts to: a client error whose body is the
/// rejection's message, as plain text.
pub open spec fn rejection_response(rej: RejectionV) -> ResponseV {
    match rej {
        RejectionV::InvalidUtf8 => ResponseV {
            status: 400,
            content_type: text_utf8_media_type(),
            body: invalid_utf8_text(),
        },
        RejectionV::Deserialization(msg) => ResponseV {
            status: 400,
            content_type: text_utf8_media_type(),
            body: msg,
        },
    }
}

/// Law: every response built from a rejection is a client error and carries
/// the plain-text content type — one half of the rule that each response of
/// the adapter carries the content type its status owes.
pub proof fn lemma_rejection_response_form(rej: RejectionV)
    ensures
        rejection_response(rej).status == 400,
        content_type_by_status(rejection_response(rej)),
{
}

impl TomlRejection {
    /// Turn the rejection into the error response it owes.
    pub fn into_response(self) -> (r: Response)
        ensures
            r@ == rejection_response(self@),
            content_type_by_status(r@),
    {
        match self {
            TomlRejection::InvalidUtf8 => Response {
                status: 400,
                content_type: "text/plain; charset=utf-8".to_owned(),
                body: "Request body didn't contain valid UTF-8".to_owned(),
            },
            TomlRejection::Deserialization(msg) => Response {
                status: 400,
                content_type: "text/plain; charset=utf-8".to_owned(),
                body: msg,
            },
        }
    }
}

} // verus!
