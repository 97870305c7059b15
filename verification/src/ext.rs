//! Trusted boundary: declarations and wrappers for the functions of the
//! `toml` crate that do the format's own parsing and printing, and for the
//! one `std` function Verus has no specification for. Verus believes the
//! contracts stated here; everything else in the crate is proved from them.

use crate::model::{table_int, table_str, ValModel};
use vstd::prelude::*;
use vstd::utf8::{decode_utf8, valid_utf8};

verus! {

#[verifier::external_type_specification]
#[verifier::external_body]
#[verifier::reject_recursive_types(K)]
#[verifier::reject_recursive_types(V)]
pub struct ExTomlMap<K, V>(toml::map::Map<K, V>);

/// The type of a document's top-level table.
pub type TomlTable = toml::map::Map<String, toml::Value>;

#[verifier::external_type_specification]
#[verifier::external_body]
pub struct ExTomlValue(toml::Value);

#[verifier::external_type_specification]
#[verifier::external_body]
pub struct ExTomlDeError(toml::de::Error);

#[verifier::external_type_specification]
#[verifier::external_body]
pub struct ExTomlSerError(toml::ser::Error);

/// What a table holds: each top-level key of the document, mapped to the
/// model of the value under it.
pub uninterp spec fn table_model(t: TomlTable) -> Map<Seq<char>, ValModel>;

/// What `toml::from_str` makes of given text: the contents of its top-level
/// table, or nothing where the text is refused. Parsing depends on the text
/// alone.
pub uninterp spec fn toml_parse(text: Seq<char>) -> Option<Map<Seq<char>, ValModel>>;

/// What `toml::to_string` prints for a table of string and integer values,
/// or nothing where printing fails. Such a table is determined by its
/// contents (keys are kept sorted, not in insertion order), and printing
/// depends on the table alone.
pub uninterp spec fn toml_text(m: Map<Seq<char>, ValModel>) -> Option<Seq<char>>;

/// Relies on `String::from_utf8`: succeeds exactly on bodies that are valid
/// UTF-8, and returns their decoded text.
#[verifier::external_body]
pub(crate) fn utf8_body_text(bytes: Vec<u8>) -> (r: Option<String>)
    ensures
        r is Some <==> valid_utf8(bytes@),
        r matches Some(s) ==> s@ == decode_utf8(bytes@),
{
    match String::from_utf8(bytes) {
        Ok(s) => Some(s),
        Err(_) => None,
    }
}

/// Relies on `toml::from_str`: parses the text as a document of the format
/// into its top-level table, and fails exactly on text the format refuses.
#[verifier::external_body]
pub(crate) fn parse_table(text: &str) -> (r: Result<TomlTable, toml::de::Error>)
    ensures
        r is Ok <==> toml_parse(text@) is Some,
        r matches Ok(t) ==> toml_parse(text@) == Some(table_model(t)),
{
    toml::from_str::<TomlTable>(text)
}

/// Relies on `toml::to_string` on a top-level table. It is called only on
/// tables of string and integer values, whose printing the table's contents
/// determine.
#[verifier::external_body]
pub(crate) fn encode_table(t: &TomlTable) -> (r: Result<String, toml::ser::Error>)
    requires
        forall|k: Seq<char>| table_model(*t).contains_key(k) ==> !(table_model(*t)[k] is Other),
    ensures
        r is Ok <==> toml_text(table_model(*t)) is Some,
        r matches Ok(s) ==> toml_text(table_model(*t)) == Some(s@),
{
    toml::to_string(t)
}

/// Relies on `toml::map::Map::new`: the new table is empty.
#[verifier::external_body]
pub(crate) fn new_table() -> (r: TomlTable)
    ensures
        (table_model(r) == Map::<Seq<char>, ValModel>::empty()),
{
    toml::map::Map::new()
}

/// Relies on `toml::map::Map::insert`: after the call the table maps `key`
/// to the given string value and is otherwise unchanged.
#[verifier::external_body]
pub(crate) fn insert_str(t: &mut TomlTable, key: &str, val: String)
    ensures
        table_model(*final(t)) == table_model(*old(t)).insert(key@, ValModel::Str(val@)),
{
    let _ = t.insert(key.to_owned(), toml::Value::String(val));
}

/// Relies on `toml::map::Map::insert`: after the call the table maps `key`
/// to the given integer value and is otherwise unchanged.
#[verifier::external_body]
pub(crate) fn insert_int(t: &mut TomlTable, key: &str, val: i64)
    ensures
        table_model(*final(t)) == table_model(*old(t)).insert(key@, ValModel::Int(val)),
{
    let _ = t.insert(key.to_owned(), toml::Value::Integer(val));
}

/// Relies on `toml::map::Map::get`: returns the string value under `key`,
/// and nothing where the key is absent or holds a value of another shape.
#[verifier::external_body]
pub(crate) fn get_str(t: &TomlTable, key: &str) -> (r: Option<String>)
    ensures
        r is Some <==> table_str(table_model(*t), key@) is Some,
        r matches Some(s) ==> table_str(table_model(*t), key@) == Some(s@),
{
    match t.get(key) {
        Some(toml::Value::String(s)) => Some(s.clone()),
        _ => None,
    }
}

/// Relies on `toml::map::Map::get`: returns the integer value under `key`,
/// and nothing where the key is absent or holds a value of another shape.
#[verifier::external_body]
pub(crate) fn get_int(t: &TomlTable, key: &str) -> (r: Option<i64>)
    ensures
        r == table_int(table_model(*t), key@),
{
    match t.get(key) {
        Some(toml::Value::Integer(i)) => Some(*i),
        _ => None,
    }
}

/// Relies on the `Display` impl of `toml::de::Error`: the parser's own
/// description of what went wrong. Nothing is stated of its text.
#[verifier::external_body]
pub(crate) fn de_error_message(e: &toml::de::Error) -> (r: String) {
    e.to_string()
}

/// Relies on the `Display` impl of `toml::ser::Error`: the printer's own
/// description of what went wrong. Nothing is stated of its text.
#[verifier::external_body]
pub(crate) fn ser_error_message(e: &toml::ser::Error) -> (r: String) {
    e.to_string()
}

} // verus!
