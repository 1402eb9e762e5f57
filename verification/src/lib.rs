//! A small persistent name store: short names map to a redirect target
//! ("links") or to an opaque byte payload ("files"), kept in an embedded
//! SQLite database. The two kinds live in independent name spaces; within a
//! kind, names are unique and rows are addressed for update and delete by the
//! surrogate id handed out at creation.

pub mod db;
pub mod laws;
pub mod model;
