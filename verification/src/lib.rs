//! Data access for a vocabulary reference tool: natural languages and, per
//! language, the word classes used to tag vocabulary entries, kept in one
//! SQLite store.
//!
//! Every operation takes the open session it works on. Whoever calls holds
//! that session for the length of the call, so operations on one store never
//! overlap. The store alone decides what a statement does. This crate fixes
//! the statements the store is handed, reads the rows it gives back into
//! typed records, and reduces every failure to one opaque status, with the
//! store's account of it kept beside for the log.

pub mod langs;
pub mod records;
pub mod response;
pub mod schema;
pub mod sql;
pub mod store;
pub mod word_classes;

pub use langs::{create_lang, delete_lang, edit_lang, get_langs, lang_from_row};
pub use records::{LangIn, LangOut, WordClassIn, WordClassOut};
pub use response::{
    collect_rows, fail, map_err, or_failure, redirect_outcome, write_outcome, Failure, Redirect,
    Status,
};
pub use schema::{ensure_schema, index};
pub use sql::{Query, SqlValue};
pub use word_classes::{
    create_word_class, delete_word_class, edit_word_class, get_word_classes, word_class_from_row,
};
