use crate::model::{table_int, table_str, ValModel};
use vstd::prelude::*;

verus! {

/// The adapter's typed payload: a flat document with a text field `name` and
/// an integer field `value`.
#[derive(Debug)]
pub struct Record {
    pub name: String,
    pub value: i64,
}

/// Model of a record.
pub struct RecordV {
    pub name: Seq<char>,
    pub value: i64,
}

impl View for Record {
    type V = RecordV;

    open spec fn view(&self) -> RecordV {
        RecordV { name: self.name@, value: self.value }
    }
}

/// The record a parsed document denotes, where it has the record's shape: a
/// string under `name` and an integer under `value`. Keys beside those two
/// are ignored, as the generic decoding rules ignore unknown fields.
pub open spec fn record_of(m: Map<Seq<char>, ValModel>) -> Option<RecordV> {
    match (table_str(m, "name"@), table_int(m, "value"@)) {
        (Some(n), Some(v)) => Some(RecordV { name: n, value: v }),
        _ => None,
    }
}

/// The document that carries a record: exactly the two fields of the record.
pub open spec fn record_doc(rv: RecordV) -> Map<Seq<char>, ValModel> {
    Map::empty().insert("name"@, ValModel::Str(rv.name)).insert("value"@, ValModel::Int(rv.value))
}

/// Law: writing a record into a document and reading the document back is
/// the identity on records. This is the adapter's own half of the round
/// trip; the text leg rests on the format's printer and parser.
pub proof fn lemma_record_doc_round_trip(rv: RecordV)
    ensures
        record_of(record_doc(rv)) == Some(rv),
{
    reveal_strlit("name");
    reveal_strlit("value");
    assert("name"@.len() == 4);
    assert("value"@.len() == 5);
}

} // verus!
