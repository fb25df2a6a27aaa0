//! What can go wrong in the library.

use vstd::prelude::*;

verus! {

/// Why an operation on the task list or on its stored form failed.
#[derive(Clone, Copy, Debug, PartialEq, Eq, Structural)]
pub enum TaskError {
    /// The stored text is not a list of task records.
    CorruptStore,
    /// The list could not be put into a stored form that reads back as it.
    Unserializable,
    /// No task has the id that was asked for.
    NotFound,
    /// The largest id is in use, so none is left for a new task.
    IdsExhausted,
}

impl TaskError {
    /// The sentence that reports the error to the user.
    pub open spec fn message_text(self) -> Seq<char> {
        match self {
            TaskError::CorruptStore => "The task file does not hold a list of tasks"@,
            TaskError::Unserializable => "Failed to serialize list"@,
            TaskError::NotFound => "No task has this id"@,
            TaskError::IdsExhausted => "No id is left for a new task"@,
        }
    }

    /// The sentence that reports the error to the user.
    pub fn message(&self) -> (text: String)
        ensures
            text@ == self.message_text(),
    {
        match self {
            TaskError::CorruptStore => "The task file does not hold a list of tasks".to_owned(),
            TaskError::Unserializable => "Failed to serialize list".to_owned(),
            TaskError::NotFound => "No task has this id".to_owned(),
            TaskError::IdsExhausted => "No id is left for a new task".to_owned(),
        }
    }
}

} // verus!
