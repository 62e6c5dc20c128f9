//! The boundary to SQLite: the handle types and the calls made on them.
//!
//! Nothing in this file is proved. Each function makes one call into
//! `rusqlite` and its contract is taken on trust. Whether a statement
//! succeeds, and what it does to the stored rows, depends on the store and
//! is promised nowhere. Two things are described: a row that has been
//! handed over, by [`row_cells`], and an error written out, by
//! [`error_text`].

use crate::sql::SqlValue;
use rocket_sync_db_pools::rusqlite::types::{FromSqlError, Value};
use rocket_sync_db_pools::rusqlite::{params_from_iter, Connection, Error, Row, Statement};
use vstd::prelude::*;

verus! {

/// An open session with the store.
#[verifier::external_type_specification]
#[verifier::external_body]
pub struct ExConnection(rocket_sync_db_pools::rusqlite::Connection);

/// Why the store refused or failed.
#[verifier::external_type_specification]
#[verifier::external_body]
pub struct ExError(rocket_sync_db_pools::rusqlite::Error);

/// A compiled statement, bound to the session that compiled it.
#[verifier::external_type_specification]
#[verifier::external_body]
pub struct ExStatement<'conn>(rocket_sync_db_pools::rusqlite::Statement<'conn>);

/// The row a running query currently stands on.
#[verifier::external_type_specification]
#[verifier::external_body]
pub struct ExRow<'stmt>(rocket_sync_db_pools::rusqlite::Row<'stmt>);

/// What one column of a row holds, as far as this library reads it.
pub enum Cell {
    /// An integer.
    Integer(i64),
    /// Text that is valid UTF-8.
    Text(Seq<char>),
    /// Anything else: null, a real number, a blob, text that is not UTF-8.
    Other,
}

/// The columns of `row`, in the order the query selected them.
pub uninterp spec fn row_cells(row: Row<'_>) -> Seq<Cell>;

/// What `err` reads as when it is written out: the message the store gave
/// where it gave one, else the wording `rusqlite` has for that kind of
/// error.
pub uninterp spec fn error_text(err: Error) -> Seq<char>;

/// `rusqlite::Connection::execute_batch`: runs the statements of `sql` one
/// after another and stops at the first that fails. Nothing is claimed of
/// the outcome.
#[verifier::external_body]
pub(crate) fn execute_batch(conn: &Connection, sql: &str) -> (done: Result<(), Error>)
{
    conn.execute_batch(sql)
}

/// `rusqlite::Connection::execute`: compiles the single statement `sql`,
/// binds `params` to its placeholders in order and runs it; on success it
/// gives the number of rows changed. Nothing is claimed of the outcome.
#[verifier::external_body]
pub(crate) fn execute(conn: &Connection, sql: &str, params: &Vec<SqlValue>) -> (changed: Result<
    usize,
    Error,
>)
{
    conn.execute(sql, params_from_iter(params.iter().map(|param| match param {
        SqlValue::Null => Value::Null,
        SqlValue::Integer(number) => Value::Integer(*number),
        SqlValue::Text(text) => Value::Text(text.clone()),
    })))
}

/// `rusqlite::Connection::last_insert_rowid`: the row id of the latest
/// successful insert on this session. Nothing is claimed of the number.
#[verifier::external_body]
pub(crate) fn last_insert_rowid(conn: &Connection) -> (id: i64)
{
    conn.last_insert_rowid()
}

/// `rusqlite::Connection::prepare`: compiles the first statement of `sql`.
/// Nothing is claimed of the outcome.
#[verifier::external_body]
pub(crate) fn prepare<'conn>(conn: &'conn Connection, sql: &str) -> (compiled: Result<
    Statement<'conn>,
    Error,
>)
{
    conn.prepare(sql)
}

/// `rusqlite::Statement::execute`: binds `params` in order and runs the
/// statement; on success it gives the number of rows changed. Nothing is
/// claimed of the outcome.
#[verifier::external_body]
pub(crate) fn statement_execute(statement: &mut Statement<'_>, params: &Vec<SqlValue>) -> (changed:
    Result<usize, Error>)
{
    statement.execute(params_from_iter(params.iter().map(|param| match param {
        SqlValue::Null => Value::Null,
        SqlValue::Integer(number) => Value::Integer(*number),
        SqlValue::Text(text) => Value::Text(text.clone()),
    })))
}

/// `rusqlite::Statement::query_map`, its rows gathered: binds `params` in
/// order, runs the query and hands each row to `decode`, in the order the
/// store yields them. A row the store fails to produce comes out as an
/// error in its place. `decode` must take every row. Claimed: whatever is
/// found, each record in it is what `decode` made of some row. Which rows
/// there are, and how many, is not claimed.
#[verifier::external_body]
pub(crate) fn query_map<T, F: Fn(&Row<'_>) -> Result<T, Error>>(
    statement: &mut Statement<'_>,
    params: &Vec<SqlValue>,
    decode: F,
) -> (found: Result<Vec<Result<T, Error>>, Error>)
    requires
        forall|row: &Row<'_>| decode.requires((row,)),
    ensures
        found matches Ok(rows) ==> forall|i: int|
            0 <= i < rows@.len() && (#[trigger] rows@[i]) is Ok ==> exists|row: &Row<'_>|
                decode.ensures((row,), rows@[i]),
{
    let bound = params_from_iter(params.iter().map(|param| match param {
        SqlValue::Null => Value::Null,
        SqlValue::Integer(number) => Value::Integer(*number),
        SqlValue::Text(text) => Value::Text(text.clone()),
    }));
    let rows = statement.query_map(bound, |row| decode(row))?;
    Ok(rows.collect())
}

/// `rusqlite::Row::get_ref`, then `ValueRef::as_i64`: column `index` read
/// as an integer. Claimed: it succeeds exactly where column `index` exists
/// and holds an integer, and then returns that integer. Where the column
/// holds something else the error names its index and what it holds.
#[verifier::external_body]
pub(crate) fn column_integer(row: &Row<'_>, index: usize) -> (got: Result<i64, Error>)
    ensures
        got is Ok <==> (index < row_cells(*row).len() && row_cells(*row)[index as int] is Integer),
        got matches Ok(number) ==> row_cells(*row)[index as int] == Cell::Integer(number),
{
    let value = row.get_ref(index)?;
    value.as_i64().map_err(|_| Error::InvalidColumnType(index, String::new(), value.data_type()))
}

/// `rusqlite::Row::get_ref`, then `ValueRef::as_str`: column `index` read
/// as a string. Claimed: it succeeds exactly where column `index` exists
/// and holds text that is valid UTF-8, and then returns that text. Where
/// the column holds something else the error names its index and what it
/// holds, and for text that is not UTF-8 where it breaks off.
#[verifier::external_body]
pub(crate) fn column_text(row: &Row<'_>, index: usize) -> (got: Result<String, Error>)
    ensures
        got is Ok <==> (index < row_cells(*row).len() && row_cells(*row)[index as int] is Text),
        got matches Ok(text) ==> row_cells(*row)[index as int] == Cell::Text(text@),
{
    let value = row.get_ref(index)?;
    match value.as_str() {
        Ok(text) => Ok(text.to_string()),
        Err(FromSqlError::Other(cause)) => {
            Err(Error::FromSqlConversionFailure(index, value.data_type(), cause))
        },
        Err(_) => Err(Error::InvalidColumnType(index, String::new(), value.data_type())),
    }
}

/// `ToString::to_string` on a `rusqlite::Error`: the error in the store's
/// own words. Claimed: the text is [`error_text`] of the error, that is,
/// it depends on the error alone.
#[verifier::external_body]
pub(crate) fn describe(err: &Error) -> (text: String)
    ensures
        text@ == error_text(*err),
{
    err.to_string()
}

} // verus!
