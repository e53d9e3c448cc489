//! The response payloads the service hands back, and the functions that
//! build them: a `"success"` envelope around one record or a page of
//! records, and a `"fail"` envelope with a message.

use vstd::prelude::*;

use crate::model::Todo;

verus! {

/// A bare status-and-message payload: the health check's answer, and the
/// body of every failure.
pub struct GenericResponse {
    pub status: String,
    pub message: String,
}

/// The record wrapper inside a single-record success payload.
pub struct TodoData {
    pub todo: Todo,
}

/// The success payload around one record.
pub struct SingleTodoResponse {
    pub status: String,
    pub data: TodoData,
}

/// The success payload around one page of records, with their count.
pub struct TodoListResponse {
    pub status: String,
    pub results: usize,
    pub todos: Vec<Todo>,
}

/// The liveness answer: a fixed success message.
pub fn health_checker_response() -> (r: GenericResponse)
    ensures
        r.status@ == "success"@,
        r.message@ == "Build Simple CRUD API in Rust using Axum"@,
{
    GenericResponse {
        status: "success".to_owned(),
        message: "Build Simple CRUD API in Rust using Axum".to_owned(),
    }
}

/// Wrap one record in the success envelope.
pub fn single_todo_response(todo: Todo) -> (r: SingleTodoResponse)
    ensures
        r.status@ == "success"@,
        r.data.todo == todo,
{
    SingleTodoResponse { status: "success".to_owned(), data: TodoData { todo } }
}

/// Wrap one page of records in the success envelope; `results` counts
/// exactly the records in the page.
pub fn todo_list_response(todos: Vec<Todo>) -> (r: TodoListResponse)
    ensures
        r.status@ == "success"@,
        r.results == todos@.len(),
        r.todos == todos,
{
    let results: usize = todos.len();
    TodoListResponse { status: "success".to_owned(), results, todos }
}

/// Wrap a message in the failure envelope.
pub fn fail_response(message: String) -> (r: GenericResponse)
    ensures
        r.status@ == "fail"@,
        r.message == message,
{
    GenericResponse { status: "fail".to_owned(), message }
}

/// The message a create refused over a taken title carries.
pub fn conflict_message(title: &String) -> (r: String)
    ensures
        r@ == "Todo with title: '"@ + title@ + "' already exists"@,
{
    let mut m = "Todo with title: '".to_owned();
    m.append(title.as_str());
    m.append("' already exists");
    m
}

/// The message an operation on an unknown id carries.
pub fn not_found_message(id: &String) -> (r: String)
    ensures
        r@ == "Todo with ID: "@ + id@ + " not found"@,
{
    let mut m = "Todo with ID: ".to_owned();
    m.append(id.as_str());
    m.append(" not found");
    m
}

} // verus!
