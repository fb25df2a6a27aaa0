//! The task record.

use vstd::prelude::*;

verus! {

/// The status every new task starts with.
pub const DEFAULT_STATUS: &'static str = "not yet started";

/// One unit of work: an identifier, what is to be done, and how far it is.
#[derive(Debug, PartialEq, Eq)]
pub struct Task {
    /// The number by which the task is told from the others of its list.
    pub id: u32,
    /// What is to be done.
    pub task: String,
    /// How far the task is; any text is a status.
    pub status: String,
}

/// A task as plain mathematical data.
pub struct TaskView {
    pub id: u32,
    pub task: Seq<char>,
    pub status: Seq<char>,
}

impl View for Task {
    type V = TaskView;

    open spec fn view(&self) -> TaskView {
        TaskView { id: self.id, task: self.task@, status: self.status@ }
    }
}

impl DeepView for Task {
    type V = TaskView;

    open spec fn deep_view(&self) -> TaskView {
        self@
    }
}

impl Task {
    /// A task that has not been started.
    pub fn new(id: u32, description: &str) -> (task: Task)
        ensures
            task@ == (TaskView { id, task: description@, status: DEFAULT_STATUS@ }),
    {
        Task { id, task: description.to_owned(), status: DEFAULT_STATUS.to_owned() }
    }

    /// A task with a given status.
    pub fn with_status(id: u32, description: &str, status: &str) -> (task: Task)
        ensures
            task@ == (TaskView { id, task: description@, status: status@ }),
    {
        Task { id, task: description.to_owned(), status: status.to_owned() }
    }
}

impl Clone for Task {
    fn clone(&self) -> (copy: Task)
        ensures
            copy@ == self@,
    {
        Task { id: self.id, task: self.task.clone(), status: self.status.clone() }
    }
}

} // verus!
