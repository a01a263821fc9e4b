use vstd::prelude::*;
use crate::error::{
    classify_rejection, classify_spec, error_response, is_logged, kind_of, message_of, status_of,
    ErrorResponse, FailureKind, ServiceError,
};
use crate::model::{shows, Todo, TodoResponse};

verus! {

/// What a successful request answers, always with status 200.
pub enum Reply {
    /// An empty body.
    Empty,
    /// One item.
    One(TodoResponse),
    /// A list of items, in the order storage returned them.
    Many(Vec<TodoResponse>),
}

/// The failure kind under which a storage error reaches the client.
pub open spec fn failure_kind(e: &ServiceError) -> FailureKind {
    classify_spec(false, false, Some(kind_of(e)), false)
}

/// Translates a storage error into the reply the client sees.
pub fn failure_response(e: &ServiceError) -> (r: ErrorResponse)
    ensures
        r.status == status_of(failure_kind(e)),
        r.message@ == message_of(failure_kind(e)),
        r.log == is_logged(failure_kind(e)),
{
    error_response(classify_rejection(false, false, Some(e.kind()), false))
}

/// The health check replied to once the trivial statement has run.
pub fn health_handler(executed: Result<u64, sqlx::Error>) -> (r: Result<Reply, ServiceError>)
    ensures
        match executed {
            Ok(_) => r matches Ok(Reply::Empty),
            Err(e) => r == Err::<Reply, ServiceError>(ServiceError::DBQueryError(e)),
        },
{
    match executed {
        Ok(_) => Ok(Reply::Empty),
        Err(e) => Err(ServiceError::DBQueryError(e)),
    }
}

/// Whether a reply shows exactly the given row.
pub open spec fn replies_row(r: Result<Reply, ServiceError>, row: Todo) -> bool {
    &&& r is Ok
    &&& r->Ok_0 is One
    &&& shows(r->Ok_0->One_0, row)
}

/// The reply to a create request, given the inserted row.
pub fn create_todo_handler(row: Result<Todo, sqlx::Error>) -> (r: Result<Reply, ServiceError>)
    ensures
        match row {
            Ok(t) => replies_row(r, t),
            Err(e) => r == Err::<Reply, ServiceError>(ServiceError::DBQueryError(e)),
        },
{
    match row {
        Ok(t) => Ok(Reply::One(TodoResponse::of(t))),
        Err(e) => Err(ServiceError::DBQueryError(e)),
    }
}

/// The reply to an update request, given the updated row; a missing row
/// comes as a failed statement.
pub fn update_todo_handler(row: Result<Todo, sqlx::Error>) -> (r: Result<Reply, ServiceError>)
    ensures
        match row {
            Ok(t) => replies_row(r, t),
            Err(e) => r == Err::<Reply, ServiceError>(ServiceError::DBQueryError(e)),
        },
{
    match row {
        Ok(t) => Ok(Reply::One(TodoResponse::of(t))),
        Err(e) => Err(ServiceError::DBQueryError(e)),
    }
}

/// Whether `rs` shows the rows `ts` one by one, in order.
pub open spec fn shows_all(rs: Seq<TodoResponse>, ts: Seq<Todo>) -> bool {
    &&& rs.len() == ts.len()
    &&& forall|i: int| 0 <= i < ts.len() ==> shows(#[trigger] rs[i], ts[i])
}

/// Projects listed rows to their wire form, keeping their order.
pub fn responses_of(rows: Vec<Todo>) -> (r: Vec<TodoResponse>)
    ensures
        shows_all(r@, rows@),
{
    let ghost original = rows@;
    let mut rows = rows;
    let mut out: Vec<TodoResponse> = Vec::new();
    while rows.len() > 0
        invariant
            out@.len() + rows@.len() == original.len(),
            rows@ == original.subrange(out@.len() as int, original.len() as int),
            forall|i: int| 0 <= i < out@.len() ==> shows(#[trigger] out@[i], original[i]),
        decreases rows@.len(),
    {
        let t = rows.remove(0);
        out.push(TodoResponse::of(t));
    }
    out
}

/// The reply to a list request, given the rows that the statement returned.
pub fn list_todos_handler(rows: Result<Vec<Todo>, sqlx::Error>) -> (r: Result<
    Reply,
    ServiceError,
>)
    ensures
        match rows {
            Ok(ts) => r is Ok && r->Ok_0 is Many && shows_all(r->Ok_0->Many_0@, ts@),
            Err(e) => r == Err::<Reply, ServiceError>(ServiceError::DBQueryError(e)),
        },
{
    match rows {
        Ok(ts) => Ok(Reply::Many(responses_of(ts))),
        Err(e) => Err(ServiceError::DBQueryError(e)),
    }
}

/// The reply to a delete request, given the count of rows affected: the
/// count is not shown, and a count of zero is no failure.
pub fn delete_todo_handler(affected: Result<u64, sqlx::Error>) -> (r: Result<Reply, ServiceError>)
    ensures
        match affected {
            Ok(_) => r matches Ok(Reply::Empty),
            Err(e) => r == Err::<Reply, ServiceError>(ServiceError::DBQueryError(e)),
        },
{
    match affected {
        Ok(_) => Ok(Reply::Empty),
        Err(e) => Err(ServiceError::DBQueryError(e)),
    }
}

} // verus!
