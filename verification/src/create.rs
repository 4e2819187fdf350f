//! The creation request and the error taxonomy of the persistence port.

use vstd::prelude::*;

verus! {

/// A request to create a task, carrying the title the new task is to
/// display. Its view is that title.
pub struct CreateTaskRequest {
    title: String,
}

impl View for CreateTaskRequest {
    type V = Seq<char>;

    closed spec fn view(&self) -> Seq<char> {
        self.title@
    }
}

impl CreateTaskRequest {
    pub fn new(title: String) -> (r: CreateTaskRequest)
        ensures
            r@ == title@,
    {
        CreateTaskRequest { title }
    }

    pub fn title(&self) -> (r: &String)
        ensures
            r@ == self@,
    {
        &self.title
    }
}

/// Why storing a task failed.
#[derive(Debug)]
pub enum SaveTaskError {
    /// An active task with the offending title already exists; a caller
    /// recovers by choosing another title.
    Duplicate { title: String },
    /// Any other storage failure, opaque to the caller; the message
    /// carries what is known of the cause.
    Unknown { message: String },
}

/// Why a lookup failed.
#[derive(Debug)]
pub enum QueryTaskError {
    /// No task carries the requested identifier: a normal, expected
    /// outcome for callers that probe by identifier.
    NotFound { id: u128 },
    /// Any other storage failure, opaque to the caller. The verified
    /// repository of this crate never reports it; adapters over fallible
    /// storage engines do.
    Unknown { message: String },
}

} // verus!
