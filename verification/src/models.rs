//! The record and request types shared by the command-line layer and the
//! persistence layer.

use vstd::prelude::*;

verus! {

/// One persisted todo record. The id is assigned by the store on insert,
/// is immutable once assigned, and is the sole identifier used for update
/// and delete. The description column is nullable, so a stored row may
/// lack one.
#[derive(Debug)]
pub struct Todo {
    pub id: i32,
    pub title: String,
    pub description: Option<String>,
}

/// A request to create a record; the store assigns the id.
#[derive(Debug)]
pub struct AddTodo {
    pub title: String,
    pub description: String,
}

/// A request to delete the record with the given id.
#[derive(Debug)]
pub struct RemoveTodo {
    pub id: i32,
}

/// A request to replace both mutable fields of the record with the given id.
#[derive(Debug)]
pub struct UpdateTodo {
    pub id: i32,
    pub title: String,
    pub description: String,
}

/// The view of an optional text field: the character sequence it holds,
/// if any.
pub open spec fn desc_view(d: Option<String>) -> Option<Seq<char>> {
    match d {
        Some(s) => Some(s@),
        None => None,
    }
}

} // verus!
