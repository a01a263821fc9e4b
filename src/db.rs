use vstd::prelude::*;
use crate::error::ServiceError;
use crate::model::{TodoRequest, TodoUpdateRequest};

verus! {

/// A value bound to a statement placeholder.
pub enum Param {
    Text(String),
    Int(i32),
    Bool(bool),
}

/// What a bound value holds.
pub enum ParamValue {
    Text(Seq<char>),
    Int(i32),
    Bool(bool),
}

impl View for Param {
    type V = ParamValue;

    open spec fn view(&self) -> ParamValue {
        match self {
            Param::Text(s) => ParamValue::Text(s@),
            Param::Int(i) => ParamValue::Int(*i),
            Param::Bool(b) => ParamValue::Bool(*b),
        }
    }
}

/// A parameterized statement: its text, and the values for `$1`, `$2`, ...
pub struct Statement {
    pub sql: String,
    pub params: Vec<Param>,
}

impl Statement {
    /// The bound values, in placeholder order.
    pub open spec fn values(&self) -> Seq<ParamValue> {
        self.params@.map_values(|p: Param| p@)
    }
}

/// Checks that storage answers.
pub const HEALTH_SQL: &'static str = "SELECT 1";

/// Inserts one row; storage assigns the id, the creation time and the unchecked flag.
pub const INSERT_SQL: &'static str = "INSERT INTO todo ( name ) VALUES ( $1 ) RETURNING id, name, (EXTRACT(EPOCH FROM created_at) * 1000000)::BIGINT AS created_at, checked";

/// All rows, newest first.
pub const SELECT_ALL_SQL: &'static str = "SELECT id, name, (EXTRACT(EPOCH FROM created_at) * 1000000)::BIGINT AS created_at, checked FROM todo ORDER BY created_at DESC";

/// The rows whose name matches a `LIKE` pattern, newest first.
pub const SELECT_LIKE_SQL: &'static str = "SELECT id, name, (EXTRACT(EPOCH FROM created_at) * 1000000)::BIGINT AS created_at, checked FROM todo WHERE name LIKE $1 ORDER BY created_at DESC";

/// Replaces the mutable fields of one row.
pub const UPDATE_SQL: &'static str = "UPDATE todo SET name = $1, checked = $2 WHERE id = $3 RETURNING id, name, (EXTRACT(EPOCH FROM created_at) * 1000000)::BIGINT AS created_at, checked";

/// Deletes one row.
pub const DELETE_SQL: &'static str = "DELETE FROM todo WHERE id = $1";

/// The trivial statement that checks the store is reachable.
pub fn health_statement() -> (r: Statement)
    ensures
        r.sql@ == HEALTH_SQL@,
        r.values() == Seq::<ParamValue>::empty(),
{
    let r = Statement { sql: HEALTH_SQL.to_owned(), params: Vec::new() };
    assert(r.values() =~= Seq::<ParamValue>::empty());
    r
}

/// Inserts one row with the requested name; storage assigns the rest.
pub fn create_todo_statement(body: &TodoRequest) -> (r: Statement)
    ensures
        r.sql@ == INSERT_SQL@,
        r.values() == seq![ParamValue::Text(body.name@)],
{
    let mut params: Vec<Param> = Vec::new();
    params.push(Param::Text(body.name.clone()));
    let r = Statement {
        sql: INSERT_SQL.to_owned(),
        params,
    };
    assert(r.values() =~= seq![ParamValue::Text(body.name@)]);
    r
}

/// Lists all rows newest first, or, given a pattern, the rows whose name
/// matches it as a `LIKE` pattern; the pattern is bound as it is, wildcards
/// included.
pub fn fetch_todos_statement(search: &Option<String>) -> (r: Statement)
    ensures
        match search {
            None => r.sql@ == SELECT_ALL_SQL@ && r.values() == Seq::<ParamValue>::empty(),
            Some(p) => r.sql@ == SELECT_LIKE_SQL@ && r.values() == seq![ParamValue::Text(p@)],
        },
{
    match search {
        None => {
            let r = Statement {
                sql: SELECT_ALL_SQL.to_owned(),
                params: Vec::new(),
            };
            assert(r.values() =~= Seq::<ParamValue>::empty());
            r
        },
        Some(p) => {
            let mut params: Vec<Param> = Vec::new();
            params.push(Param::Text(p.clone()));
            let r = Statement {
                sql: SELECT_LIKE_SQL.to_owned(),
                params,
            };
            assert(r.values() =~= seq![ParamValue::Text(p@)]);
            r
        },
    }
}

/// Replaces the name and the checked flag of the row with the given id.
pub fn update_todo_statement(id: i32, body: &TodoUpdateRequest) -> (r: Statement)
    ensures
        r.sql@ == UPDATE_SQL@,
        r.values() == seq![
            ParamValue::Text(body.name@),
            ParamValue::Bool(body.checked),
            ParamValue::Int(id),
        ],
{
    let mut params: Vec<Param> = Vec::new();
    params.push(Param::Text(body.name.clone()));
    params.push(Param::Bool(body.checked));
    params.push(Param::Int(id));
    let r = Statement {
        sql: UPDATE_SQL.to_owned(),
        params,
    };
    assert(r.values() =~= seq![
        ParamValue::Text(body.name@),
        ParamValue::Bool(body.checked),
        ParamValue::Int(id),
    ]);
    r
}

/// Deletes the row with the given id, if there is one.
pub fn delete_todo_statement(id: i32) -> (r: Statement)
    ensures
        r.sql@ == DELETE_SQL@,
        r.values() == seq![ParamValue::Int(id)],
{
    let mut params: Vec<Param> = Vec::new();
    params.push(Param::Int(id));
    let r = Statement { sql: DELETE_SQL.to_owned(), params };
    assert(r.values() =~= seq![ParamValue::Int(id)]);
    r
}

/// The outcome of reading the schema script.
pub fn script_outcome(r: Result<String, std::io::Error>) -> (o: Result<String, ServiceError>)
    ensures
        match r {
            Ok(v) => o == Ok::<String, ServiceError>(v),
            Err(e) => o == Err::<String, ServiceError>(ServiceError::ReadFileError(e)),
        },
{
    match r {
        Ok(v) => Ok(v),
        Err(e) => Err(ServiceError::ReadFileError(e)),
    }
}

/// The outcome of executing the schema script.
pub fn init_outcome(r: Result<(), sqlx::Error>) -> (o: Result<(), ServiceError>)
    ensures
        match r {
            Ok(_) => o == Ok::<(), ServiceError>(()),
            Err(e) => o == Err::<(), ServiceError>(ServiceError::DBInitError(e)),
        },
{
    match r {
        Ok(_) => Ok(()),
        Err(e) => Err(ServiceError::DBInitError(e)),
    }
}

} // verus!
