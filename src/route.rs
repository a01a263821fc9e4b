use vstd::prelude::*;
use vstd::string::{is_ascii, is_ascii_spec_bytes};
use crate::error::FailureKind;

verus! {

/// The request methods that routing tells apart.
#[derive(Clone, Copy, Debug, PartialEq, Eq, Structural)]
pub enum Method {
    Get,
    Post,
    Put,
    Delete,
    Other,
}

/// The operation that a request is dispatched to.
#[derive(Clone, Copy, Debug, PartialEq, Eq, Structural)]
pub enum Route {
    Health,
    CreateTodo,
    ListTodos,
    UpdateTodo(i32),
    DeleteTodo(i32),
}

/// The resource that a path names.
#[derive(Clone, Copy, Debug, PartialEq, Eq, Structural)]
pub enum Resource {
    Health,
    Todos,
    TodoItem(i32),
}

/// The bytes of an ASCII text.
pub open spec fn ascii_bytes(s: Seq<char>) -> Seq<u8> {
    Seq::new(s.len(), |i: int| s[i] as u8)
}

pub open spec fn is_digit(b: u8) -> bool {
    48 <= b <= 57
}

pub open spec fn all_digits(s: Seq<u8>) -> bool {
    forall|i: int| 0 <= i < s.len() ==> is_digit(#[trigger] s[i])
}

/// The value of a run of decimal digits.
pub open spec fn digits_value(s: Seq<u8>) -> nat
    decreases s.len(),
{
    if s.len() == 0 {
        0
    } else {
        digits_value(s.drop_last()) * 10 + (s.last() - 48) as nat
    }
}

/// The integer that a decimal text spells: an optional `+` or `-`, then
/// one or more digits.
pub open spec fn int_of(s: Seq<u8>) -> Option<int> {
    if s.len() > 0 && (s[0] == 45u8 || s[0] == 43u8) {
        let rest = s.drop_first();
        if rest.len() > 0 && all_digits(rest) {
            Some(if s[0] == 45u8 { -digits_value(rest) } else { digits_value(rest) as int })
        } else {
            None
        }
    } else if s.len() > 0 && all_digits(s) {
        Some(digits_value(s) as int)
    } else {
        None
    }
}

/// The id that a path segment spells, where it fits in an `i32`.
pub open spec fn id_of(s: Seq<u8>) -> Option<i32> {
    match int_of(s) {
        Some(v) => if i32::MIN <= v <= i32::MAX { Some(v as i32) } else { None },
        None => None,
    }
}

/// The resource that a path names, if any.
pub open spec fn resource_of(p: Seq<u8>) -> Option<Resource> {
    if p == ascii_bytes("/health"@) {
        Some(Resource::Health)
    } else if p == ascii_bytes("/todo"@) {
        Some(Resource::Todos)
    } else if p.len() >= 6 && p.subrange(0, 6) == ascii_bytes("/todo/"@) && id_of(
        p.subrange(6, p.len() as int),
    ) is Some {
        Some(Resource::TodoItem(id_of(p.subrange(6, p.len() as int))->0))
    } else {
        None
    }
}

/// Whether a resource serves a method.
pub open spec fn allowed(res: Resource, m: Method) -> bool {
    match res {
        Resource::Health => m == Method::Get,
        Resource::Todos => m == Method::Get || m == Method::Post,
        Resource::TodoItem(_) => m == Method::Put || m == Method::Delete,
    }
}

/// Where a request goes: an unknown path is not found; a known path with a
/// method it does not serve is a method mismatch.
pub open spec fn route_spec(m: Method, p: Seq<u8>) -> Result<Route, FailureKind> {
    match resource_of(p) {
        None => Err(FailureKind::RouteNotFound),
        Some(Resource::Health) => match m {
            Method::Get => Ok(Route::Health),
            _ => Err(FailureKind::MethodNotAllowed),
        },
        Some(Resource::Todos) => match m {
            Method::Get => Ok(Route::ListTodos),
            Method::Post => Ok(Route::CreateTodo),
            _ => Err(FailureKind::MethodNotAllowed),
        },
        Some(Resource::TodoItem(id)) => match m {
            Method::Put => Ok(Route::UpdateTodo(id)),
            Method::Delete => Ok(Route::DeleteTodo(id)),
            _ => Err(FailureKind::MethodNotAllowed),
        },
    }
}

/// Whether `p[start..end]` is the text `lit`.
fn matches_literal(p: &[u8], start: usize, end: usize, lit: &str) -> (r: bool)
    requires
        start <= end <= p@.len(),
        is_ascii(lit),
    ensures
        r == (p@.subrange(start as int, end as int) == ascii_bytes(lit@)),
{
    broadcast use is_ascii_spec_bytes;

    let b = lit.as_bytes();
    assert(b@ =~= ascii_bytes(lit@));
    if end - start != b.len() {
        return false;
    }
    let mut i: usize = 0;
    while i < b.len()
        invariant
            0 <= i <= b@.len(),
            end - start == b@.len(),
            start <= end <= p@.len(),
            b@ == ascii_bytes(lit@),
            forall|j: int| 0 <= j < i ==> p@[start + j] == b@[j],
        decreases b@.len() - i,
    {
        if p[start + i] != b[i] {
            assert(p@.subrange(start as int, end as int)[i as int] != b@[i as int]);
            return false;
        }
        i = i + 1;
    }
    assert(p@.subrange(start as int, end as int) =~= b@);
    true
}

/// A prefix of a run of digits is worth no more than the whole run.
proof fn lemma_prefix_value_le(s: Seq<u8>, k: int)
    requires
        all_digits(s),
        0 <= k <= s.len(),
    ensures
        digits_value(s.subrange(0, k)) <= digits_value(s),
    decreases s.len(),
{
    if k < s.len() {
        let t = s.drop_last();
        assert(t.subrange(0, k) =~= s.subrange(0, k));
        lemma_prefix_value_le(t, k);
    } else {
        assert(s.subrange(0, k) =~= s);
    }
}

/// The digits of `p[start..]`, where they are all digits and their value is
/// at most 2^31.
fn digits_from(p: &[u8], start: usize) -> (r: Option<u32>)
    requires
        start <= p@.len(),
    ensures
        ({
            let t = p@.subrange(start as int, p@.len() as int);
            match r {
                Some(v) => all_digits(t) && v == digits_value(t) && v <= 0x8000_0000,
                None => !(all_digits(t) && digits_value(t) <= 0x8000_0000),
            }
        }),
{
    let ghost t = p@.subrange(start as int, p@.len() as int);
    let mut acc: u32 = 0;
    let mut i: usize = start;
    while i < p.len()
        invariant
            start <= i <= p@.len(),
            t == p@.subrange(start as int, p@.len() as int),
            all_digits(t.subrange(0, i - start)),
            acc == digits_value(t.subrange(0, i - start)),
            acc <= 0x8000_0000,
        decreases p@.len() - i,
    {
        let b = p[i];
        if b < 48 || b > 57 {
            assert(t[i - start] == b);
            return None;
        }
        let ghost next_prefix = t.subrange(0, i - start + 1);
        assert(next_prefix.drop_last() =~= t.subrange(0, i - start));
        let d: u64 = (b - 48) as u64;
        let next: u64 = acc as u64 * 10 + d;
        if next > 0x8000_0000 {
            proof {
                if all_digits(t) {
                    lemma_prefix_value_le(t, i - start + 1);
                }
            }
            return None;
        }
        acc = next as u32;
        i = i + 1;
    }
    assert(t.subrange(0, i - start) =~= t);
    Some(acc)
}

/// Reads the id spelled by `p[start..]`.
fn id_from(p: &[u8], start: usize) -> (r: Option<i32>)
    requires
        start <= p@.len(),
    ensures
        r == id_of(p@.subrange(start as int, p@.len() as int)),
{
    let ghost t = p@.subrange(start as int, p@.len() as int);
    if start < p.len() && (p[start] == 45 || p[start] == 43) {
        let negative = p[start] == 45;
        if start + 1 == p.len() {
            return None;
        }
        let ghost rest = p@.subrange(start + 1, p@.len() as int);
        assert(t.drop_first() =~= rest);
        match digits_from(p, start + 1) {
            Some(v) => {
                if negative {
                    Some((0 - v as i64) as i32)
                } else if v <= 0x7fff_ffff {
                    Some(v as i32)
                } else {
                    None
                }
            },
            None => None,
        }
    } else {
        match digits_from(p, start) {
            Some(v) => {
                if start < p.len() && v <= 0x7fff_ffff {
                    Some(v as i32)
                } else {
                    None
                }
            },
            None => None,
        }
    }
}

/// Dispatches a request by its method and path.
pub fn route(method: Method, path: &[u8]) -> (r: Result<Route, FailureKind>)
    ensures
        r == route_spec(method, path@),
{
    proof {
        reveal_strlit("/health");
        reveal_strlit("/todo");
        reveal_strlit("/todo/");
    }
    let n = path.len();
    let resource = if matches_literal(path, 0, n, "/health") {
        Some(Resource::Health)
    } else if matches_literal(path, 0, n, "/todo") {
        Some(Resource::Todos)
    } else if n >= 6 && matches_literal(path, 0, 6, "/todo/") {
        match id_from(path, 6) {
            Some(id) => Some(Resource::TodoItem(id)),
            None => None,
        }
    } else {
        None
    };
    assert(path@.subrange(0, n as int) =~= path@);
    assert(resource == resource_of(path@));
    match resource {
        None => Err(FailureKind::RouteNotFound),
        Some(Resource::Health) => match method {
            Method::Get => Ok(Route::Health),
            _ => Err(FailureKind::MethodNotAllowed),
        },
        Some(Resource::Todos) => match method {
            Method::Get => Ok(Route::ListTodos),
            Method::Post => Ok(Route::CreateTodo),
            _ => Err(FailureKind::MethodNotAllowed),
        },
        Some(Resource::TodoItem(id)) => match method {
            Method::Put => Ok(Route::UpdateTodo(id)),
            Method::Delete => Ok(Route::DeleteTodo(id)),
            _ => Err(FailureKind::MethodNotAllowed),
        },
    }
}

} // verus!
