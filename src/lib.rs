//! A small todo service: routing, failure translation, and the statements
//! that the storage layer executes, with their contracts.
pub mod db;
pub mod error;
pub mod handler;
pub mod laws;
pub mod model;
pub mod route;

pub use db::{
    create_todo_statement, delete_todo_statement, fetch_todos_statement, health_statement,
    init_outcome, script_outcome, update_todo_statement, Param, Statement,
};
pub use error::{classify_rejection, error_response, ErrorResponse, FailureKind, ServiceError, SqlxError};
pub use route::{route, Method, Resource, Route};
pub use handler::{
    create_todo_handler, delete_todo_handler, failure_response, health_handler, list_todos_handler,
    responses_of, update_todo_handler, Reply,
};
pub use laws::{
    lemma_failed_update_is_client_error, lemma_list_reply_keeps_newest_first,
    lemma_malformed_body_is_invalid,
    lemma_served_method_is_dispatched, lemma_unmatched_path_is_not_found,
    lemma_wrong_method_is_not_allowed,
};
pub use model::{SearchQuery, Todo, TodoRequest, TodoResponse, TodoUpdateRequest};
