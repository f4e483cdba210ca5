//! The task record kept in the backing store, its status, and the store
//! error taxonomy.

use vstd::prelude::*;

verus! {

/// Lifecycle status of a task; each task holds exactly one at a time and the
/// three statuses partition the board into its three columns.
#[derive(Clone, Copy, PartialEq, Eq, Structural, Debug)]
pub enum TodoStatus {
    Todo,
    Done,
    Doing,
}

/// One unit of work as persisted in the backing store. The creation
/// timestamp is carried as the text the store holds for it; the board never
/// computes with it, it only displays it.
#[derive(Debug)]
pub struct Todo {
    pub id: usize,
    pub title: String,
    pub description: String,
    pub category: String,
    pub status: TodoStatus,
    pub created_at: String,
}

impl Clone for Todo {
    fn clone(&self) -> (res: Self)
        ensures
            res == *self,
    {
        Todo {
            id: self.id,
            title: self.title.clone(),
            description: self.description.clone(),
            category: self.category.clone(),
            status: self.status,
            created_at: self.created_at.clone(),
        }
    }
}

/// What can go wrong when the backing store is consulted: the resource could
/// not be read at all, or its contents did not parse into the task schema.
/// Each variant carries the underlying diagnostic as text.
#[derive(Debug)]
pub enum Error {
    ReadDBError(String),
    ParseDBError(String),
}

impl Error {
    /// The diagnostic text carried by this error.
    pub fn message(&self) -> (res: &String)
        ensures
            res@ == (match self {
                Error::ReadDBError(m) => m@,
                Error::ParseDBError(m) => m@,
            }),
    {
        match self {
            Error::ReadDBError(m) => m,
            Error::ParseDBError(m) => m,
        }
    }
}

} // verus!
