//! The operations on languages.

use crate::records::{LangIn, LangOut};
use crate::response::{collect_rows, or_failure, write_outcome, Failure, Status};
use crate::sql;
use crate::store::{
    column_integer, column_text, execute, last_insert_rowid, prepare, query_map, row_cells,
    statement_execute, Cell,
};
use rocket_sync_db_pools::rusqlite::{Connection, Error, Row};
use vstd::prelude::*;

verus! {

/// Whether `cells` is a row of the language listing: an id, then a name.
pub open spec fn is_lang_row(cells: Seq<Cell>) -> bool {
    &&& cells.len() >= 2
    &&& cells[0] is Integer
    &&& cells[1] is Text
}

/// Whether `lang` is what a row holding `cells` reads as.
pub open spec fn lang_of_cells(cells: Seq<Cell>, lang: LangOut) -> bool {
    &&& is_lang_row(cells)
    &&& cells[0] == Cell::Integer(lang.id)
    &&& cells[1] == Cell::Text(lang.name@)
}

/// Whether `lang` was read from a row: some row holds its id in column 0
/// and its name in column 1.
pub open spec fn lang_was_read(lang: LangOut) -> bool {
    exists|row: &Row<'_>| lang_of_cells(#[trigger] row_cells(*row), lang)
}

/// Reads one row of the language listing: column 0 is the id, column 1 the
/// name. Fails on a row that is not of that shape, with the error of the
/// first column that does not fit.
pub fn lang_from_row(row: &Row<'_>) -> (out: Result<LangOut, Error>)
    ensures
        out is Ok <==> is_lang_row(row_cells(*row)),
        out matches Ok(lang) ==> lang_of_cells(row_cells(*row), lang),
{
    let id = match column_integer(row, 0) {
        Ok(id) => id,
        Err(err) => {
            return Err(err);
        },
    };
    let name = match column_text(row, 1) {
        Ok(name) => name,
        Err(err) => {
            return Err(err);
        },
    };
    Ok(LangOut { id, name })
}

/// Stores a new language and returns the id the store gave it. Any name is
/// taken, the empty one and one already in use too.
///
/// Fails only where the store fails.
pub fn create_lang(conn: &Connection, lang: &LangIn) -> (out: Result<i64, Failure>)
    ensures
        out matches Err(failure) ==> failure.status == Status::internal_server_error(),
{
    let query = sql::insert_lang(lang);
    match write_outcome(or_failure(execute(conn, query.sql, &query.params))) {
        Ok(()) => Ok(last_insert_rowid(conn)),
        Err(failure) => Err(failure),
    }
}

/// Renames language `id`. Where there is no such language nothing changes,
/// and that is no failure.
pub fn edit_lang(conn: &Connection, id: i64, lang: &LangIn) -> (out: Result<(), Failure>)
    ensures
        out matches Err(failure) ==> failure.status == Status::internal_server_error(),
{
    let query = sql::update_lang(id, lang);
    write_outcome(or_failure(execute(conn, query.sql, &query.params)))
}

/// Lists every language, in the order the store returns them: by name,
/// without regard to case.
///
/// Whatever the store returns, every language listed was read from a row,
/// id first and name second. Which rows the store returns, and in what
/// order, is the store's to decide. Fails where the store fails and where
/// one of its rows cannot be read that way.
pub fn get_langs(conn: &Connection) -> (out: Result<Vec<LangOut>, Failure>)
    ensures
        out matches Ok(langs) ==> forall|i: int|
            0 <= i < langs@.len() ==> lang_was_read(#[trigger] langs@[i]),
        out matches Err(failure) ==> failure.status == Status::internal_server_error(),
{
    let query = sql::select_langs();
    let mut statement = match or_failure(prepare(conn, query.sql)) {
        Ok(statement) => statement,
        Err(failure) => {
            return Err(failure);
        },
    };
    match or_failure(query_map(&mut statement, &query.params, lang_from_row)) {
        Ok(rows) => {
            let out = or_failure(collect_rows(rows));
            proof {
                if out is Ok {
                    let langs = out->Ok_0;
                    assert forall|i: int| 0 <= i < langs@.len() implies lang_was_read(
                        #[trigger] langs@[i],
                    ) by {
                        assert(rows@[i] == Ok::<LangOut, Error>(langs@[i]));
                        let row = choose|row: &Row<'_>|
                            lang_from_row.ensures((row,), rows@[i]);
                        assert(lang_of_cells(row_cells(*row), langs@[i]));
                    }
                }
            }
            out
        },
        Err(failure) => Err(failure),
    }
}

/// Deletes language `id`, and with it the word classes that belong to it.
/// Where there is no such language nothing changes, and that is no failure.
pub fn delete_lang(conn: &Connection, id: i64) -> (out: Result<(), Failure>)
    ensures
        out matches Err(failure) ==> failure.status == Status::internal_server_error(),
{
    let query = sql::delete_lang(id);
    let mut statement = match or_failure(prepare(conn, query.sql)) {
        Ok(statement) => statement,
        Err(failure) => {
            return Err(failure);
        },
    };
    write_outcome(or_failure(statement_execute(&mut statement, &query.params)))
}

} // verus!
