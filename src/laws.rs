use vstd::prelude::*;
use crate::error::{classify_spec, message_of, status_of, FailureKind, ServiceError};
use crate::handler::{failure_kind, shows_all};
use crate::model::{Todo, TodoResponse};
use crate::route::{allowed, resource_of, route_spec, Method, Route};

verus! {

/// A failed update, a missing row included, reaches the client as a 400
/// with the generic query message, never as a server error.
pub proof fn lemma_failed_update_is_client_error(e: sqlx::Error)
    ensures
        failure_kind(&ServiceError::DBQueryError(e)) == FailureKind::Query,
        status_of(failure_kind(&ServiceError::DBQueryError(e))) == 400,
        message_of(failure_kind(&ServiceError::DBQueryError(e))) == "Could not Execute request"@,
{
}

/// On a route that takes a body, a body that does not decode is answered
/// with exactly 400 "Invalid Body", whatever else the rejection holds.
pub proof fn lemma_malformed_body_is_invalid(
    m: Method,
    p: Seq<u8>,
    storage: Option<FailureKind>,
    wrong_method: bool,
)
    requires
        route_spec(m, p) == Ok::<Route, FailureKind>(Route::CreateTodo)
            || route_spec(m, p) matches Ok(Route::UpdateTodo(_)),
    ensures
        classify_spec(false, true, storage, wrong_method) == FailureKind::BodyDecode,
        status_of(FailureKind::BodyDecode) == 400,
        message_of(FailureKind::BodyDecode) == "Invalid Body"@,
{
}

/// A path that names no resource is answered with exactly 404 "Not Found",
/// whether routing finds it or the framework rejects it.
pub proof fn lemma_unmatched_path_is_not_found(
    m: Method,
    p: Seq<u8>,
    storage: Option<FailureKind>,
    bad_body: bool,
    wrong_method: bool,
)
    requires
        resource_of(p) is None,
    ensures
        route_spec(m, p) == Err::<Route, FailureKind>(FailureKind::RouteNotFound),
        classify_spec(true, bad_body, storage, wrong_method) == FailureKind::RouteNotFound,
        status_of(FailureKind::RouteNotFound) == 404,
        message_of(FailureKind::RouteNotFound) == "Not Found"@,
{
}

/// A path that names a resource, with a method it does not serve, is
/// answered with exactly 405 "Method Not Allowed".
pub proof fn lemma_wrong_method_is_not_allowed(m: Method, p: Seq<u8>)
    requires
        resource_of(p) is Some,
        !allowed(resource_of(p)->0, m),
    ensures
        route_spec(m, p) == Err::<Route, FailureKind>(FailureKind::MethodNotAllowed),
        classify_spec(false, false, None, true) == FailureKind::MethodNotAllowed,
        status_of(FailureKind::MethodNotAllowed) == 405,
        message_of(FailureKind::MethodNotAllowed) == "Method Not Allowed"@,
{
}

/// A path that names a resource, with a method it serves, is dispatched.
pub proof fn lemma_served_method_is_dispatched(m: Method, p: Seq<u8>)
    requires
        resource_of(p) is Some,
        allowed(resource_of(p)->0, m),
    ensures
        route_spec(m, p) is Ok,
{
}

/// Rows ordered by creation time, newest first.
pub open spec fn newest_first(ts: Seq<Todo>) -> bool {
    forall|i: int, j: int| 0 <= i < j < ts.len() ==> ts[i].created_at >= ts[j].created_at
}

/// Responses ordered by creation time, newest first.
pub open spec fn responses_newest_first(rs: Seq<TodoResponse>) -> bool {
    forall|i: int, j: int| 0 <= i < j < rs.len() ==> rs[i].created_at >= rs[j].created_at
}

/// A list reply keeps the order of the rows it shows: rows that storage
/// returned newest first are answered newest first.
pub proof fn lemma_list_reply_keeps_newest_first(rows: Seq<Todo>, rs: Seq<TodoResponse>)
    requires
        shows_all(rs, rows),
        newest_first(rows),
    ensures
        responses_newest_first(rs),
{
    assert forall|i: int, j: int| 0 <= i < j < rs.len() implies rs[i].created_at
        >= rs[j].created_at by {
        assert(crate::model::shows(rs[i], rows[i]));
        assert(crate::model::shows(rs[j], rows[j]));
    }
}

} // verus!
