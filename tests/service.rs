use todo_service::db::{DELETE_SQL, HEALTH_SQL, INSERT_SQL, SELECT_ALL_SQL, SELECT_LIKE_SQL, UPDATE_SQL};
use todo_service::{
    classify_rejection, create_todo_handler, create_todo_statement, delete_todo_handler,
    delete_todo_statement, error_response, failure_response, fetch_todos_statement,
    health_handler, health_statement, init_outcome, list_todos_handler, responses_of, route,
    script_outcome, update_todo_handler, update_todo_statement, FailureKind, Method, Param,
    Reply, Route, SearchQuery, ServiceError, Todo, TodoRequest, TodoResponse, TodoUpdateRequest,
};

fn todo(id: i32, name: &str, created_at: i64, checked: bool) -> Todo {
    Todo { id, name: name.to_string(), created_at, checked }
}

fn one(r: Result<Reply, ServiceError>) -> TodoResponse {
    match r {
        Ok(Reply::One(t)) => t,
        _ => panic!("expected one item"),
    }
}

#[test]
fn translator_maps_every_kind() {
    let cases = [
        (FailureKind::RouteNotFound, 404, "Not Found", false),
        (FailureKind::BodyDecode, 400, "Invalid Body", false),
        (FailureKind::Query, 400, "Could not Execute request", false),
        (FailureKind::MethodNotAllowed, 405, "Method Not Allowed", false),
        (FailureKind::Initialization, 500, "Internal Server Error", true),
        (FailureKind::Unhandled, 500, "Internal Server Error", true),
    ];
    for (kind, status, message, log) in cases {
        let r = error_response(kind);
        assert_eq!(r.status, status);
        assert_eq!(r.message, message);
        assert_eq!(r.log, log);
    }
}

#[test]
fn classification_follows_fixed_order() {
    assert_eq!(
        classify_rejection(true, true, Some(FailureKind::Query), true),
        FailureKind::RouteNotFound
    );
    assert_eq!(
        classify_rejection(false, true, Some(FailureKind::Query), true),
        FailureKind::BodyDecode
    );
    assert_eq!(classify_rejection(false, false, Some(FailureKind::Query), true), FailureKind::Query);
    assert_eq!(
        classify_rejection(false, false, Some(FailureKind::Initialization), false),
        FailureKind::Unhandled
    );
    assert_eq!(classify_rejection(false, false, None, true), FailureKind::MethodNotAllowed);
    assert_eq!(classify_rejection(false, false, None, false), FailureKind::Unhandled);
}

#[test]
fn routes_known_paths() {
    assert_eq!(route(Method::Get, b"/health"), Ok(Route::Health));
    assert_eq!(route(Method::Post, b"/todo"), Ok(Route::CreateTodo));
    assert_eq!(route(Method::Get, b"/todo"), Ok(Route::ListTodos));
    assert_eq!(route(Method::Put, b"/todo/42"), Ok(Route::UpdateTodo(42)));
    assert_eq!(route(Method::Delete, b"/todo/7"), Ok(Route::DeleteTodo(7)));
    assert_eq!(route(Method::Delete, b"/todo/-3"), Ok(Route::DeleteTodo(-3)));
    assert_eq!(route(Method::Put, b"/todo/+5"), Ok(Route::UpdateTodo(5)));
}

#[test]
fn id_limits() {
    assert_eq!(route(Method::Put, b"/todo/2147483647"), Ok(Route::UpdateTodo(i32::MAX)));
    assert_eq!(route(Method::Put, b"/todo/-2147483648"), Ok(Route::UpdateTodo(i32::MIN)));
    assert_eq!(route(Method::Put, b"/todo/2147483648"), Err(FailureKind::RouteNotFound));
    assert_eq!(route(Method::Put, b"/todo/-2147483649"), Err(FailureKind::RouteNotFound));
    assert_eq!(route(Method::Put, b"/todo/99999999999999999999"), Err(FailureKind::RouteNotFound));
}

#[test]
fn unmatched_paths_are_not_found() {
    let paths: [&[u8]; 9] =
        [b"", b"/", b"/todos", b"/todo/", b"/todo/abc", b"/todo/-", b"/todo/1/2", b"/health/x", b"/HEALTH"];
    for p in paths {
        assert_eq!(route(Method::Get, p), Err(FailureKind::RouteNotFound));
        assert_eq!(route(Method::Put, p), Err(FailureKind::RouteNotFound));
    }
    let r = error_response(route(Method::Get, b"/nowhere").unwrap_err());
    assert_eq!(r.status, 404);
    assert_eq!(r.message, "Not Found");
}

#[test]
fn wrong_methods_are_not_allowed() {
    assert_eq!(route(Method::Post, b"/health"), Err(FailureKind::MethodNotAllowed));
    assert_eq!(route(Method::Delete, b"/todo"), Err(FailureKind::MethodNotAllowed));
    assert_eq!(route(Method::Put, b"/todo"), Err(FailureKind::MethodNotAllowed));
    assert_eq!(route(Method::Get, b"/todo/1"), Err(FailureKind::MethodNotAllowed));
    assert_eq!(route(Method::Other, b"/todo/1"), Err(FailureKind::MethodNotAllowed));
    let r = error_response(route(Method::Post, b"/todo/1").unwrap_err());
    assert_eq!(r.status, 405);
    assert_eq!(r.message, "Method Not Allowed");
}

#[test]
fn malformed_body_is_invalid() {
    assert_eq!(route(Method::Post, b"/todo"), Ok(Route::CreateTodo));
    let kind = classify_rejection(false, true, None, false);
    let r = error_response(kind);
    assert_eq!(r.status, 400);
    assert_eq!(r.message, "Invalid Body");
    let r = error_response(classify_rejection(false, true, None, true));
    assert_eq!(r.status, 400);
    assert_eq!(r.message, "Invalid Body");
}

#[test]
fn statements_bind_inputs() {
    let s = health_statement();
    assert_eq!(s.sql, "SELECT 1");
    assert!(s.params.is_empty());

    let s = create_todo_statement(&TodoRequest { name: "buy milk".to_string() });
    assert!(s.sql.starts_with("INSERT INTO todo ( name ) VALUES ( $1 )"));
    assert!(matches!(&s.params[..], [Param::Text(n)] if n == "buy milk"));

    let s = update_todo_statement(9, &TodoUpdateRequest { name: "buy oat milk".to_string(), checked: true });
    assert!(s.sql.starts_with("UPDATE todo SET name = $1, checked = $2 WHERE id = $3"));
    assert!(matches!(&s.params[..], [Param::Text(n), Param::Bool(true), Param::Int(9)] if n == "buy oat milk"));

    let s = delete_todo_statement(4);
    assert_eq!(s.sql, "DELETE FROM todo WHERE id = $1");
    assert!(matches!(&s.params[..], [Param::Int(4)]));
}

#[test]
fn list_statement_passes_pattern_through() {
    let s = fetch_todos_statement(&None);
    assert!(s.sql.ends_with("FROM todo ORDER BY created_at DESC"));
    assert!(s.params.is_empty());

    let q = SearchQuery::new(Some("%milk%".to_string()));
    let s = fetch_todos_statement(&q.into_search());
    assert!(s.sql.ends_with("FROM todo WHERE name LIKE $1 ORDER BY created_at DESC"));
    assert!(matches!(&s.params[..], [Param::Text(p)] if p == "%milk%"));

    let s = fetch_todos_statement(&Some("a_c".to_string()));
    assert!(matches!(&s.params[..], [Param::Text(p)] if p == "a_c"));
}

#[test]
fn created_and_updated_rows_are_shown() {
    let created = one(create_todo_handler(Ok(todo(1, "buy milk", 1_700_000_000_000_000, false))));
    assert_eq!(created.id, 1);
    assert_eq!(created.name, "buy milk");
    assert!(!created.checked);
    let updated = one(update_todo_handler(Ok(todo(1, "buy oat milk", 1_700_000_000_000_000, true))));
    assert_eq!(updated.id, created.id);
    assert_eq!(updated.created_at, created.created_at);
    assert_eq!(updated.name, "buy oat milk");
    assert!(updated.checked);
}

#[test]
fn update_of_missing_row_is_client_error() {
    let r = update_todo_handler(Err(sqlx::Error::RowNotFound));
    let e = match r {
        Err(e) => e,
        Ok(_) => panic!("expected a failure"),
    };
    assert!(matches!(e, ServiceError::DBQueryError(sqlx::Error::RowNotFound)));
    let reply = failure_response(&e);
    assert_eq!(reply.status, 400);
    assert_eq!(reply.message, "Could not Execute request");
    assert!(!reply.log);
}

#[test]
fn delete_of_missing_row_succeeds() {
    assert!(matches!(delete_todo_handler(Ok(0)), Ok(Reply::Empty)));
    assert!(matches!(delete_todo_handler(Ok(1)), Ok(Reply::Empty)));
    assert!(matches!(
        delete_todo_handler(Err(sqlx::Error::PoolTimedOut)),
        Err(ServiceError::DBQueryError(sqlx::Error::PoolTimedOut))
    ));
}

#[test]
fn health_replies_empty_or_fails() {
    assert!(matches!(health_handler(Ok(1)), Ok(Reply::Empty)));
    let e = health_handler(Err(sqlx::Error::PoolClosed)).err().unwrap();
    assert_eq!(failure_response(&e).status, 400);
}

#[test]
fn list_keeps_storage_order() {
    let rows = vec![todo(3, "c", 30, false), todo(1, "a", 20, true), todo(2, "b", 10, false)];
    match list_todos_handler(Ok(rows)) {
        Ok(Reply::Many(rs)) => {
            let ids: Vec<i32> = rs.iter().map(|r| r.id).collect();
            assert_eq!(ids, vec![3, 1, 2]);
            let at: Vec<i64> = rs.iter().map(|r| r.created_at).collect();
            assert_eq!(at, vec![30, 20, 10]);
            assert!(rs[1].checked);
            assert_eq!(rs[2].name, "b");
        }
        _ => panic!("expected a list"),
    }
    assert!(matches!(list_todos_handler(Ok(Vec::new())), Ok(Reply::Many(v)) if v.is_empty()));
    assert!(responses_of(Vec::new()).is_empty());
}

#[test]
fn init_failures_are_server_errors() {
    let e = init_outcome(Err(sqlx::Error::PoolClosed)).err().unwrap();
    assert!(matches!(e, ServiceError::DBInitError(_)));
    let r = failure_response(&e);
    assert_eq!(r.status, 500);
    assert_eq!(r.message, "Internal Server Error");
    assert!(r.log);
    assert!(init_outcome(Ok(())).is_ok());

    let missing = std::io::Error::new(std::io::ErrorKind::NotFound, "no script");
    let e = script_outcome(Err(missing)).err().unwrap();
    assert!(matches!(e, ServiceError::ReadFileError(_)));
    assert_eq!(failure_response(&e).status, 500);
    assert_eq!(script_outcome(Ok("SELECT 1".to_string())).unwrap(), "SELECT 1");
}

#[test]
fn response_shows_every_field() {
    let r = TodoResponse::of(todo(12, "walk", -5, true));
    assert_eq!(r.id, 12);
    assert_eq!(r.name, "walk");
    assert_eq!(r.created_at, -5);
    assert!(r.checked);
}

#[test]
fn statement_texts_are_fixed() {
    assert_eq!(create_todo_statement(&TodoRequest { name: String::new() }).sql, INSERT_SQL);
    assert_eq!(fetch_todos_statement(&None).sql, SELECT_ALL_SQL);
    assert_eq!(fetch_todos_statement(&Some(String::new())).sql, SELECT_LIKE_SQL);
    assert_eq!(update_todo_statement(1, &TodoUpdateRequest { name: String::new(), checked: false }).sql, UPDATE_SQL);
    assert_eq!(delete_todo_statement(1).sql, DELETE_SQL);
    assert_eq!(health_statement().sql, HEALTH_SQL);
    assert!(SELECT_LIKE_SQL.contains("WHERE name LIKE $1"));
    assert!(INSERT_SQL.contains("RETURNING"));
    assert!(UPDATE_SQL.contains("RETURNING"));
}
