use vstd::prelude::*;

verus! {

/// A stored todo item. `created_at` is the insertion time in microseconds
/// since the Unix epoch (UTC); storage sets `id` and `created_at` once.
pub struct Todo {
    pub id: i32,
    pub name: String,
    pub created_at: i64,
    pub checked: bool,
}

/// The body of a create request.
pub struct TodoRequest {
    pub name: String,
}

/// The body of an update request: a full replacement of the mutable fields.
pub struct TodoUpdateRequest {
    pub name: String,
    pub checked: bool,
}

/// The wire form of a todo item.
pub struct TodoResponse {
    pub id: i32,
    pub name: String,
    pub created_at: i64,
    pub checked: bool,
}

/// A response shows exactly the fields of the stored item.
pub open spec fn shows(r: TodoResponse, t: Todo) -> bool {
    &&& r.id == t.id
    &&& r.name@ == t.name@
    &&& r.created_at == t.created_at
    &&& r.checked == t.checked
}

impl TodoResponse {
    /// Projects a stored item to its wire form.
    pub fn of(todo: Todo) -> (r: TodoResponse)
        ensures
            shows(r, todo),
    {
        TodoResponse { id: todo.id, name: todo.name, created_at: todo.created_at, checked: todo.checked }
    }
}

/// The query string of a list request: an optional `LIKE` pattern.
pub struct SearchQuery {
    search: Option<String>,
}

/// The pattern held, as a sequence of characters.
pub open spec fn pattern_view(p: Option<String>) -> Option<Seq<char>> {
    match p {
        Some(s) => Some(s@),
        None => None,
    }
}

impl SearchQuery {
    /// The pattern that a query holds.
    pub closed spec fn pattern(&self) -> Option<Seq<char>> {
        pattern_view(self.search)
    }

    pub fn new(search: Option<String>) -> (r: SearchQuery)
        ensures
            r.pattern() == pattern_view(search),
    {
        SearchQuery { search }
    }

    /// Gives up the query, returning its pattern.
    pub fn into_search(self) -> (r: Option<String>)
        ensures
            pattern_view(r) == self.pattern(),
    {
        self.search
    }
}

} // verus!
