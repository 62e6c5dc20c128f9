//! Bringing a store into the shape the operations expect.

use crate::response::{or_failure, redirect_outcome, Failure, Redirect, Status};
use crate::sql::create_schema;
use crate::store::execute_batch;
use rocket_sync_db_pools::rusqlite::Connection;
use vstd::prelude::*;

verus! {

/// The page a client is sent to once the store is ready.
pub const APP_PAGE: &'static str = "app.html";

/// Hands the store the statements that create what is missing of the
/// schema and leave alone what is there, so it may run any number of times.
/// Until it has succeeded on a store no other operation is to be relied on.
///
/// Fails only where the store fails.
pub fn ensure_schema(conn: &Connection) -> (out: Result<(), Failure>)
    ensures
        out matches Err(failure) ==> failure.status == Status::internal_server_error(),
{
    or_failure(execute_batch(conn, create_schema()))
}

/// Prepares the store, then sends the client on to the application page.
pub fn index(conn: &Connection) -> (out: Result<Redirect, Failure>)
    ensures
        out matches Ok(redirect) ==> redirect.target@ == APP_PAGE@,
        out matches Err(failure) ==> failure.status == Status::internal_server_error(),
{
    redirect_outcome(ensure_schema(conn), APP_PAGE)
}

} // verus!
