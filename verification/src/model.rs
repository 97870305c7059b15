use vstd::prelude::*;

verus! {

/// Model of one top-level value of a parsed document: a piece of text, an
/// integer, or any other shape the format offers (the adapter's payload never
/// carries those, so they are not told apart).
pub enum ValModel {
    Str(Seq<char>),
    Int(i64),
    Other,
}

/// The text under `key`, if the document maps `key` to a string value.
pub open spec fn table_str(m: Map<Seq<char>, ValModel>, key: Seq<char>) -> Option<Seq<char>> {
    if m.contains_key(key) {
        match m[key] {
            ValModel::Str(s) => Some(s),
            _ => None,
        }
    } else {
        None
    }
}

/// The integer under `key`, if the document maps `key` to an integer value.
pub open spec fn table_int(m: Map<Seq<char>, ValModel>, key: Seq<char>) -> Option<i64> {
    if m.contains_key(key) {
        match m[key] {
            ValModel::Int(i) => Some(i),
            _ => None,
        }
    } else {
        None
    }
}

} // verus!
