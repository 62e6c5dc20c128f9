//! What a caller is told about how an operation ended.

use crate::store::{describe, error_text};
use rocket_sync_db_pools::rusqlite::Error;
use vstd::prelude::*;

verus! {

/// The status a response carries: its numeric code.
#[derive(Clone, Copy, Debug, PartialEq, Eq, Structural)]
pub struct Status {
    pub code: u16,
}

impl Status {
    /// The store could not carry the operation out: code 500.
    pub open spec fn spec_internal_server_error() -> Status {
        Status { code: 500 }
    }

    /// The store could not carry the operation out: code 500.
    #[verifier::when_used_as_spec(spec_internal_server_error)]
    pub fn internal_server_error() -> (status: Status)
        ensures
            status == Status::spec_internal_server_error(),
    {
        Status { code: 500 }
    }
}

/// An operation that the store did not carry out.
///
/// The status is all a client may see. The cause is the store's own account
/// of what went wrong, for whoever keeps the log.
#[derive(Clone, Debug, PartialEq, Eq)]
pub struct Failure {
    pub status: Status,
    pub cause: String,
}

/// Where a client is sent next.
#[derive(Clone, Debug, PartialEq, Eq)]
pub struct Redirect {
    pub target: String,
}

impl Redirect {
    /// A redirect to `target`.
    pub fn to(target: &str) -> (redirect: Redirect)
        ensures
            redirect.target@ == target@,
    {
        Redirect { target: target.to_owned() }
    }
}

/// Turns any storage failure into the one opaque status a caller may see.
pub fn map_err<E>(err: E) -> (status: Status)
    ensures
        status == Status::internal_server_error(),
{
    Status::internal_server_error()
}

/// The failure to report for an error of the store: the opaque status,
/// together with the error in the store's own words.
pub fn fail(err: Error) -> (failure: Failure)
    ensures
        failure.status == Status::internal_server_error(),
        failure.cause@ == error_text(err),
{
    let cause = describe(&err);
    Failure { status: map_err(err), cause }
}

/// What the store answered, as a caller is told it: what succeeded stays as
/// it is, what failed becomes a [`Failure`].
pub fn or_failure<T>(answer: Result<T, Error>) -> (out: Result<T, Failure>)
    ensures
        answer matches Ok(value) ==> out == Ok::<T, Failure>(value),
        answer matches Err(err) ==> out is Err && out->Err_0.cause@ == error_text(err),
        out matches Err(failure) ==> failure.status == Status::internal_server_error(),
{
    match answer {
        Ok(value) => Ok(value),
        Err(err) => Err(fail(err)),
    }
}

/// What a write reports once the store has answered.
///
/// Any statement the store accepted counts as done, however many rows it
/// touched: an update or a delete of an id that is not there changes zero
/// rows and is no failure.
pub fn write_outcome<E>(executed: Result<usize, E>) -> (out: Result<(), E>)
    ensures
        out == match executed {
            Ok(_) => Ok::<(), E>(()),
            Err(err) => Err::<(), E>(err),
        },
{
    match executed {
        Ok(_) => Ok(()),
        Err(err) => Err(err),
    }
}

/// Whether every row of `rows` was read.
pub open spec fn all_read<T, E>(rows: Seq<Result<T, E>>) -> bool {
    forall|i: int| 0 <= i < rows.len() ==> (#[trigger] rows[i]) is Ok
}

/// The records that `rows` hold, in the same order.
pub open spec fn records_of<T, E>(rows: Seq<Result<T, E>>) -> Seq<T>
    recommends
        all_read(rows),
{
    Seq::new(rows.len(), |i: int| rows[i]->Ok_0)
}

/// Whether row `at` is the first of `rows` that was not read.
pub open spec fn is_first_unread<T, E>(rows: Seq<Result<T, E>>, at: int) -> bool {
    &&& 0 <= at < rows.len()
    &&& rows[at] is Err
    &&& forall|i: int| 0 <= i < at ==> (#[trigger] rows[i]) is Ok
}

/// What a listing reports once the store has handed over its rows.
///
/// The records come out in the order the store gave them. One row that
/// could not be read fails the whole listing, with the error of the first
/// such row.
pub fn collect_rows<T, E>(rows: Vec<Result<T, E>>) -> (out: Result<Vec<T>, E>)
    ensures
        out is Ok <==> all_read(rows@),
        out matches Ok(items) ==> items@ == records_of(rows@),
        out matches Err(err) ==> exists|at: int|
            #[trigger] is_first_unread(rows@, at) && rows@[at] == Err::<T, E>(err),
{
    let ghost all = rows@;
    let mut items: Vec<T> = Vec::new();
    for row in it: rows.into_iter()
        invariant
            it.seq() == all,
            items@.len() == it.index(),
            forall|i: int| 0 <= i < it.index() ==> (#[trigger] all[i]) == Ok::<T, E>(items@[i]),
    {
        match row {
            Ok(item) => {
                items.push(item);
            },
            Err(err) => {
                assert(is_first_unread(all, it.index() as int));
                return Err(err);
            },
        }
    }
    Ok(items)
}

/// Where a client goes once the store is ready: on to `page`. Where the
/// store is not ready it learns why not.
pub fn redirect_outcome<E>(ready: Result<(), E>, page: &str) -> (out: Result<Redirect, E>)
    ensures
        out is Ok <==> ready is Ok,
        out matches Ok(redirect) ==> redirect.target@ == page@,
        ready matches Err(err) ==> out == Err::<Redirect, E>(err),
{
    match ready {
        Ok(()) => Ok(Redirect::to(page)),
        Err(err) => Err(err),
    }
}

} // verus!
