use crate::ext::{
    de_error_message, encode_table, get_int, get_str, insert_int, insert_str, new_table,
    parse_table, ser_error_message, table_model, toml_parse, toml_text, utf8_body_text,
};
use crate::model::{table_str, ValModel};
use crate::record::{record_doc, record_of, Record, RecordV};
use crate::rejection::{RejectionV, TomlRejection};
use crate::response::{
    content_type_by_status, text_utf8_media_type, toml_media_type, Response, ResponseV,
};
use vstd::prelude::*;
use vstd::utf8::{decode_utf8, valid_utf8};

verus! {

/// Message of the rejection for a document that parses but lacks a string
/// under `name`.
pub open spec fn missing_name_text() -> Seq<char> {
    "missing or invalid field `name`"@
}

/// Message of the rejection for a document that parses and has the string,
/// but lacks an integer under `value`.
pub open spec fn missing_value_text() -> Seq<char> {
    "missing or invalid field `value`"@
}

/// Message of the rejection for a parsed document without the record's
/// shape: the first field read in decoding order decides.
pub open spec fn shape_error_text(m: Map<Seq<char>, ValModel>) -> Seq<char> {
    if table_str(m, "name"@) is None {
        missing_name_text()
    } else {
        missing_value_text()
    }
}

/// The record an inbound body denotes: the body is UTF-8 text, the text
/// parses as a document, and the document has the record's shape. Inbound
/// conversion succeeds exactly on such bodies.
pub open spec fn inbound_record(bytes: Seq<u8>) -> Option<RecordV> {
    if valid_utf8(bytes) {
        match toml_parse(decode_utf8(bytes)) {
            Some(m) => record_of(m),
            None => None,
        }
    } else {
        None
    }
}

/// The pinned rejection message owed for a body that is UTF-8 text and
/// parses, but whose document lacks the record's shape. (For a body the
/// parser itself refuses, the message is the parser's own and is not pinned
/// here.)
pub open spec fn inbound_shape_error(bytes: Seq<u8>) -> Option<Seq<char>> {
    if valid_utf8(bytes) {
        match toml_parse(decode_utf8(bytes)) {
            Some(m) => if record_of(m) is None {
                Some(shape_error_text(m))
            } else {
                None
            },
            None => None,
        }
    } else {
        None
    }
}

impl Record {
    /// Inbound conversion. Reads the whole body as UTF-8 text — a body that
    /// is not valid UTF-8 is rejected before any decoding — then decodes the
    /// text as a document of the format into a record. Succeeds exactly when
    /// the body is UTF-8 text, the text parses, and the parsed document has
    /// the record's shape.
    pub fn from_toml_body(bytes: Vec<u8>) -> (r: Result<Record, TomlRejection>)
        ensures
            (r matches Err(rej) && rej@ is InvalidUtf8) <==> !valid_utf8(bytes@),
            r is Ok <==> inbound_record(bytes@) is Some,
            r matches Ok(rec) ==> inbound_record(bytes@) == Some(rec@),
            (valid_utf8(bytes@) && toml_parse(decode_utf8(bytes@)) is None) ==> (r matches Err(rej)
                && rej@ is Deserialization),
            inbound_shape_error(bytes@) matches Some(msg) ==> (r matches Err(rej) && rej@
                == RejectionV::Deserialization(msg)),
    {
        let text = match utf8_body_text(bytes) {
            Some(t) => t,
            None => {
                return Err(TomlRejection::InvalidUtf8);
            },
        };
        let table = match parse_table(text.as_str()) {
            Ok(t) => t,
            Err(e) => {
                return Err(TomlRejection::Deserialization(de_error_message(&e)));
            },
        };
        let name = match get_str(&table, "name") {
            Some(n) => n,
            None => {
                return Err(
                    TomlRejection::Deserialization("missing or invalid field `name`".to_owned()),
                );
            },
        };
        let value = match get_int(&table, "value") {
            Some(v) => v,
            None => {
                return Err(
                    TomlRejection::Deserialization("missing or invalid field `value`".to_owned()),
                );
            },
        };
        Ok(Record { name, value })
    }

    /// Outbound conversion. Encodes the record as text of the format: on
    /// success the response carries status 200, the format's media type and
    /// the encoded text; where the printer fails, a server error with the
    /// printer's message as plain text. Either way a well-formed response
    /// comes back — this path cannot fail the surrounding call.
    pub fn to_toml_response(&self) -> (r: Response)
        ensures
            toml_text(record_doc(self@)) matches Some(text) ==> r@ == (ResponseV {
                status: 200,
                content_type: toml_media_type(),
                body: text,
            }),
            toml_text(record_doc(self@)) is None ==> (r@.status == 500 && r@.content_type
                == text_utf8_media_type()),
            r@.status == 200 <==> toml_text(record_doc(self@)) is Some,
            content_type_by_status(r@),
    {
        let mut table = new_table();
        insert_str(&mut table, "name", self.name.clone());
        insert_int(&mut table, "value", self.value);
        proof {
            assert(table_model(table) == record_doc(self@));
        }
        match encode_table(&table) {
            Ok(text) => Response {
                status: 200,
                content_type: "application/toml".to_owned(),
                body: text,
            },
            Err(e) => Response {
                status: 500,
                content_type: "text/plain; charset=utf-8".to_owned(),
                body: ser_error_message(&e),
            },
        }
    }
}

} // verus!
