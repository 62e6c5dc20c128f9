//! The operations on word classes.

use crate::records::{WordClassIn, WordClassOut};
use crate::response::{collect_rows, or_failure, write_outcome, Failure, Status};
use crate::sql;
use crate::store::{
    column_integer, column_text, execute, last_insert_rowid, prepare, query_map, row_cells,
    statement_execute, Cell,
};
use rocket_sync_db_pools::rusqlite::{Connection, Error, Row};
use vstd::prelude::*;

verus! {

/// Whether `cells` is a row of the word class listing: an id, the id of a
/// language, then a name.
pub open spec fn is_word_class_row(cells: Seq<Cell>) -> bool {
    &&& cells.len() >= 3
    &&& cells[0] is Integer
    &&& cells[1] is Integer
    &&& cells[2] is Text
}

/// Whether `word_class` is what a row holding `cells` reads as.
pub open spec fn word_class_of_cells(cells: Seq<Cell>, word_class: WordClassOut) -> bool {
    &&& is_word_class_row(cells)
    &&& cells[0] == Cell::Integer(word_class.id)
    &&& cells[1] == Cell::Integer(word_class.lang_id)
    &&& cells[2] == Cell::Text(word_class.name@)
}

/// Whether `word_class` was read from a row: some row holds its id in
/// column 0, its language's id in column 1 and its name in column 2.
pub open spec fn word_class_was_read(word_class: WordClassOut) -> bool {
    exists|row: &Row<'_>| word_class_of_cells(#[trigger] row_cells(*row), word_class)
}

/// Reads one row of the word class listing: column 0 is the id, column 1
/// the language's id, column 2 the name. Fails on a row that is not of that
/// shape, with the error of the first column that does not fit.
pub fn word_class_from_row(row: &Row<'_>) -> (out: Result<WordClassOut, Error>)
    ensures
        out is Ok <==> is_word_class_row(row_cells(*row)),
        out matches Ok(word_class) ==> word_class_of_cells(row_cells(*row), word_class),
{
    let id = match column_integer(row, 0) {
        Ok(id) => id,
        Err(err) => {
            return Err(err);
        },
    };
    let lang_id = match column_integer(row, 1) {
        Ok(lang_id) => lang_id,
        Err(err) => {
            return Err(err);
        },
    };
    let name = match column_text(row, 2) {
        Ok(name) => name,
        Err(err) => {
            return Err(err);
        },
    };
    Ok(WordClassOut { id, lang_id, name })
}

/// Stores a new word class and returns the id the store gave it.
///
/// Whether `word_class.lang_id` names a language is not looked at here: the
/// store refuses a word class whose language is not there.
pub fn create_word_class(conn: &Connection, word_class: &WordClassIn) -> (out: Result<i64, Failure>)
    ensures
        out matches Err(failure) ==> failure.status == Status::internal_server_error(),
{
    let query = sql::insert_word_class(word_class);
    match write_outcome(or_failure(execute(conn, query.sql, &query.params))) {
        Ok(()) => Ok(last_insert_rowid(conn)),
        Err(failure) => Err(failure),
    }
}

/// Replaces the language and the name of word class `id`. Where there is
/// no such word class nothing changes, and that is no failure.
pub fn edit_word_class(conn: &Connection, id: i64, word_class: &WordClassIn) -> (out: Result<
    (),
    Failure,
>)
    ensures
        out matches Err(failure) ==> failure.status == Status::internal_server_error(),
{
    let query = sql::update_word_class(id, word_class);
    write_outcome(or_failure(execute(conn, query.sql, &query.params)))
}

/// Lists the word classes of language `lang_id`, or of every language where
/// `lang_id` is `None`, in the order the store returns them: by name,
/// without regard to case.
///
/// Whatever the store returns, every word class listed was read from a
/// row: id first, the language's id second, the name third. Which rows the
/// store returns, and in what order, is the store's to decide. Fails where
/// the store fails and where one of its rows cannot be read that way.
pub fn get_word_classes(conn: &Connection, lang_id: Option<i64>) -> (out: Result<
    Vec<WordClassOut>,
    Failure,
>)
    ensures
        out matches Ok(word_classes) ==> forall|i: int|
            0 <= i < word_classes@.len() ==> word_class_was_read(#[trigger] word_classes@[i]),
        out matches Err(failure) ==> failure.status == Status::internal_server_error(),
{
    let query = sql::select_word_classes(lang_id);
    let mut statement = match or_failure(prepare(conn, query.sql)) {
        Ok(statement) => statement,
        Err(failure) => {
            return Err(failure);
        },
    };
    match or_failure(query_map(&mut statement, &query.params, word_class_from_row)) {
        Ok(rows) => {
            let out = or_failure(collect_rows(rows));
            proof {
                if out is Ok {
                    let word_classes = out->Ok_0;
                    assert forall|i: int|
                        0 <= i < word_classes@.len() implies word_class_was_read(
                        #[trigger] word_classes@[i],
                    ) by {
                        assert(rows@[i] == Ok::<WordClassOut, Error>(word_classes@[i]));
                        let row = choose|row: &Row<'_>|
                            word_class_from_row.ensures((row,), rows@[i]);
                        assert(word_class_of_cells(row_cells(*row), word_classes@[i]));
                    }
                }
            }
            out
        },
        Err(failure) => Err(failure),
    }
}

/// Deletes word class `id`. Where there is no such word class nothing
/// changes, and that is no failure.
pub fn delete_word_class(conn: &Connection, id: i64) -> (out: Result<(), Failure>)
    ensures
        out matches Err(failure) ==> failure.status == Status::internal_server_error(),
{
    let query = sql::delete_word_class(id);
    let mut statement = match or_failure(prepare(conn, query.sql)) {
        Ok(statement) => statement,
        Err(failure) => {
            return Err(failure);
        },
    };
    write_outcome(or_failure(statement_execute(&mut statement, &query.params)))
}

} // verus!
