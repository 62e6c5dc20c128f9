//! The statements this library hands to the store, with their parameters.
//!
//! The tables: `language (id, name)` and `word_class (id, lang_id, name)`.
//! Ids are assigned by the store and never used twice. A word class names
//! the language it belongs to, and goes when that language goes.
//!
//! The text of a statement is all this library decides about it. What the
//! store makes of it is not proved here.

use crate::records::{LangIn, WordClassIn};
use vstd::prelude::*;

verus! {

/// A value bound to a placeholder of a statement.
#[derive(Clone, Debug, PartialEq, Eq)]
pub enum SqlValue {
    Null,
    Integer(i64),
    Text(String),
}

/// A statement and the values for its placeholders, `?1` first.
#[derive(Clone, Debug, PartialEq, Eq)]
pub struct Query {
    pub sql: &'static str,
    pub params: Vec<SqlValue>,
}

/// Brings a store into shape: creates what is missing and leaves alone what
/// is there.
///
/// Besides the two tables it lays down the rules that keep a word class
/// tied to a language. They are triggers, stored with the tables, so they
/// hold on every session that opens the store:
/// - a word class is refused unless its language exists, when it is created
///   and when it is moved to another language;
/// - deleting a language deletes its word classes with it.
pub const CREATE_SCHEMA: &'static str =
    "create table if not exists language (\
     id integer primary key autoincrement, \
     name text not null); \
     create table if not exists word_class (\
     id integer primary key autoincrement, \
     lang_id integer not null, \
     name text not null); \
     create trigger if not exists word_class_insert_needs_language \
     before insert on word_class \
     when not exists (select 1 from language where id = new.lang_id) \
     begin select raise(abort, 'word class names no language'); end; \
     create trigger if not exists word_class_update_needs_language \
     before update of lang_id on word_class \
     when not exists (select 1 from language where id = new.lang_id) \
     begin select raise(abort, 'word class names no language'); end; \
     create trigger if not exists language_delete_takes_word_classes \
     after delete on language \
     begin delete from word_class where lang_id = old.id; end;";

/// Stores a language under a new id. `?1`: its name.
pub const INSERT_LANG: &'static str = "insert into language (name) values (?1);";

/// Renames a language. `?1`: its id, `?2`: the new name.
pub const UPDATE_LANG: &'static str = "update language set name = ?2 where id = ?1;";

/// Every language as `id, name`, by name without regard to case.
pub const SELECT_LANGS: &'static str =
    "select id, name from language order by name collate nocase;";

/// Removes a language. `?1`: its id.
pub const DELETE_LANG: &'static str = "delete from language where id = ?1;";

/// Stores a word class under a new id. `?1`: the id of its language,
/// `?2`: its name.
pub const INSERT_WORD_CLASS: &'static str =
    "insert into word_class (lang_id, name) values (?1, ?2);";

/// Replaces language and name of a word class. `?1`: its id, `?2`: the id
/// of its language, `?3`: its name.
pub const UPDATE_WORD_CLASS: &'static str =
    "update word_class set lang_id = ?2, name = ?3 where id = ?1;";

/// Word classes as `id, lang_id, name`, by name without regard to case.
/// `?1`: the id of the one language to list, or null to list them all.
pub const SELECT_WORD_CLASSES: &'static str =
    "select id, lang_id, name from word_class \
     where ?1 is null or lang_id = ?1 \
     order by name collate nocase;";

/// Removes a word class. `?1`: its id.
pub const DELETE_WORD_CLASS: &'static str = "delete from word_class where id = ?1;";

/// The statements that bring a store into shape.
pub fn create_schema() -> (batch: &'static str)
    ensures
        batch@ == CREATE_SCHEMA@,
{
    CREATE_SCHEMA
}

/// The value bound for an optional language filter: the id, or null for
/// "every language".
pub open spec fn filter_value(lang_id: Option<i64>) -> SqlValue {
    match lang_id {
        Some(id) => SqlValue::Integer(id),
        None => SqlValue::Null,
    }
}

/// Inserts a language named `lang.name`.
pub fn insert_lang(lang: &LangIn) -> (query: Query)
    ensures
        query.sql@ == INSERT_LANG@,
        query.params@ == seq![SqlValue::Text(lang.name)],
{
    let mut params: Vec<SqlValue> = Vec::new();
    params.push(SqlValue::Text(lang.name.clone()));
    Query { sql: INSERT_LANG, params }
}

/// Renames language `id` to `lang.name`.
pub fn update_lang(id: i64, lang: &LangIn) -> (query: Query)
    ensures
        query.sql@ == UPDATE_LANG@,
        query.params@ == seq![SqlValue::Integer(id), SqlValue::Text(lang.name)],
{
    let mut params: Vec<SqlValue> = Vec::new();
    params.push(SqlValue::Integer(id));
    params.push(SqlValue::Text(lang.name.clone()));
    Query { sql: UPDATE_LANG, params }
}

/// Reads every language, ordered by name without regard to case.
pub fn select_langs() -> (query: Query)
    ensures
        query.sql@ == SELECT_LANGS@,
        query.params@ == Seq::<SqlValue>::empty(),
{
    Query { sql: SELECT_LANGS, params: Vec::new() }
}

/// Deletes language `id`.
pub fn delete_lang(id: i64) -> (query: Query)
    ensures
        query.sql@ == DELETE_LANG@,
        query.params@ == seq![SqlValue::Integer(id)],
{
    let mut params: Vec<SqlValue> = Vec::new();
    params.push(SqlValue::Integer(id));
    Query { sql: DELETE_LANG, params }
}

/// Inserts a word class named `word_class.name` under language
/// `word_class.lang_id`.
pub fn insert_word_class(word_class: &WordClassIn) -> (query: Query)
    ensures
        query.sql@ == INSERT_WORD_CLASS@,
        query.params@ == seq![
            SqlValue::Integer(word_class.lang_id),
            SqlValue::Text(word_class.name),
        ],
{
    let mut params: Vec<SqlValue> = Vec::new();
    params.push(SqlValue::Integer(word_class.lang_id));
    params.push(SqlValue::Text(word_class.name.clone()));
    Query { sql: INSERT_WORD_CLASS, params }
}

/// Replaces the language and the name of word class `id`.
pub fn update_word_class(id: i64, word_class: &WordClassIn) -> (query: Query)
    ensures
        query.sql@ == UPDATE_WORD_CLASS@,
        query.params@ == seq![
            SqlValue::Integer(id),
            SqlValue::Integer(word_class.lang_id),
            SqlValue::Text(word_class.name),
        ],
{
    let mut params: Vec<SqlValue> = Vec::new();
    params.push(SqlValue::Integer(id));
    params.push(SqlValue::Integer(word_class.lang_id));
    params.push(SqlValue::Text(word_class.name.clone()));
    Query { sql: UPDATE_WORD_CLASS, params }
}

/// Reads the word classes of language `lang_id`, or of every language where
/// there is no filter, ordered by name without regard to case.
pub fn select_word_classes(lang_id: Option<i64>) -> (query: Query)
    ensures
        query.sql@ == SELECT_WORD_CLASSES@,
        query.params@ == seq![filter_value(lang_id)],
{
    let mut params: Vec<SqlValue> = Vec::new();
    match lang_id {
        Some(id) => params.push(SqlValue::Integer(id)),
        None => params.push(SqlValue::Null),
    }
    Query { sql: SELECT_WORD_CLASSES, params }
}

/// Deletes word class `id`.
pub fn delete_word_class(id: i64) -> (query: Query)
    ensures
        query.sql@ == DELETE_WORD_CLASS@,
        query.params@ == seq![SqlValue::Integer(id)],
{
    let mut params: Vec<SqlValue> = Vec::new();
    params.push(SqlValue::Integer(id));
    Query { sql: DELETE_WORD_CLASS, params }
}

} // verus!
