//! A request/response adapter for a typed HTTP body carried as a TOML
//! document. Inbound, a body is read as UTF-8 text and decoded into the
//! typed record, with a tagged rejection for each way that can fail;
//! outbound, a record is encoded and wrapped in a response carrying the
//! format's media type, and an encoder failure still yields a well-formed
//! (error-carrying) response. The format's own parser and printer are the
//! `toml` crate's, held behind a small trusted boundary; everything around
//! them is specified and verified.

pub mod adapter;
pub mod ext;
pub mod model;
pub mod record;
pub mod rejection;
pub mod response;
