//! The records that cross the library's boundary.

use vstd::prelude::*;

verus! {

/// What a client supplies to create or rename a language.
#[derive(Clone, Debug, PartialEq, Eq)]
pub struct LangIn {
    pub name: String,
}

/// A stored language.
#[derive(Clone, Debug, PartialEq, Eq)]
pub struct LangOut {
    pub id: i64,
    pub name: String,
}

/// What a client supplies to create or replace a word class.
#[derive(Clone, Debug, PartialEq, Eq)]
pub struct WordClassIn {
    pub lang_id: i64,
    pub name: String,
}

/// A stored word class.
#[derive(Clone, Debug, PartialEq, Eq)]
pub struct WordClassOut {
    pub id: i64,
    pub lang_id: i64,
    pub name: String,
}

} // verus!
