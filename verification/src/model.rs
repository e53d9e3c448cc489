//! The todo record and the plain data types that the store's operations
//! take and return.

use vstd::prelude::*;

verus! {

/// One todo record. `id` and `created_at` are assigned when the record is
/// created and never change afterwards; `updated_at` is refreshed on every
/// successful update. Timestamps are milliseconds since the Unix epoch.
pub struct Todo {
    pub id: String,
    pub title: String,
    pub content: String,
    pub completed: bool,
    pub created_at: i64,
    pub updated_at: i64,
}

/// The mathematical value of a todo record: its strings as character
/// sequences, the flag and the timestamps as they stand.
pub ghost struct TodoView {
    pub id: Seq<char>,
    pub title: Seq<char>,
    pub content: Seq<char>,
    pub completed: bool,
    pub created_at: i64,
    pub updated_at: i64,
}

impl View for Todo {
    type V = TodoView;

    open spec fn view(&self) -> TodoView {
        TodoView {
            id: self.id@,
            title: self.title@,
            content: self.content@,
            completed: self.completed,
            created_at: self.created_at,
            updated_at: self.updated_at,
        }
    }
}

impl Clone for Todo {
    fn clone(&self) -> (r: Self)
        ensures
            r == *self,
    {
        Todo {
            id: self.id.clone(),
            title: self.title.clone(),
            content: self.content.clone(),
            completed: self.completed,
            created_at: self.created_at,
            updated_at: self.updated_at,
        }
    }
}

/// Pagination options for the list operation: a 1-based page number
/// (default 1) and a page size (default 10).
pub struct QueryOptions {
    pub page: Option<usize>,
    pub limit: Option<usize>,
}

/// A partial update: only the supplied fields override the record's current
/// values, and a supplied empty string for `title` or `content` counts as
/// "not provided" (the current value is kept).
pub struct UpdateTodoSchema {
    pub title: Option<String>,
    pub content: Option<String>,
    pub completed: Option<bool>,
}

/// The mathematical value of a partial update.
pub ghost struct UpdateView {
    pub title: Option<Seq<char>>,
    pub content: Option<Seq<char>>,
    pub completed: Option<bool>,
}

impl View for UpdateTodoSchema {
    type V = UpdateView;

    open spec fn view(&self) -> UpdateView {
        UpdateView {
            title: match self.title {
                Some(t) => Some(t@),
                None => None,
            },
            content: match self.content {
                Some(c) => Some(c@),
                None => None,
            },
            completed: self.completed,
        }
    }
}

/// The two recoverable ways an operation can fail: `Conflict` when a create
/// is refused because the title (or the freshly drawn id) is already taken,
/// `NotFound` when no record matches the given id.
#[derive(Clone, Copy, PartialEq, Eq, Structural, Debug)]
pub enum TodoError {
    Conflict,
    NotFound,
}

} // verus!
