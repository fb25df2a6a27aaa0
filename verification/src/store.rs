//! The stored form of a task list: a JSON array with one object per task.
//!
//! `serde_json` reads and writes the text; which documents are task lists,
//! and which document a task list is, is decided here.

use crate::error::TaskError;
use crate::json::{
    items_view, lemma_array_view, lemma_object_view, members_view, parse_document, parsed_document,
    render_document, rendered_document, Json, JsonView,
};
use crate::list::same_tasks;
use crate::task::{Task, TaskView};
use vstd::prelude::*;

verus! {

/// The member that holds a task's id.
pub const ID_FIELD: &'static str = "id";

/// The member that holds a task's description.
pub const TASK_FIELD: &'static str = "task";

/// The member that holds a task's status.
pub const STATUS_FIELD: &'static str = "status";

/// The file that holds the store.
pub const FILE_PATH: &'static str = "tasks.json";

/// The value of the first member with the given name.
pub open spec fn member(members: Seq<(Seq<char>, JsonView)>, name: Seq<char>) -> Option<JsonView>
    decreases members.len(),
{
    if members.len() == 0 {
        None
    } else if members[0].0 == name {
        Some(members[0].1)
    } else {
        member(members.drop_first(), name)
    }
}

/// The task that a JSON value stands for: an object whose `id` is an
/// unsigned integer that fits an id, and whose `task` and `status` are
/// texts. Other members do not count.
pub open spec fn record_of(value: JsonView) -> Option<TaskView> {
    match value {
        JsonView::Object(members) => match (
            member(members, ID_FIELD@),
            member(members, TASK_FIELD@),
            member(members, STATUS_FIELD@),
        ) {
            (
                Some(JsonView::Number(Some(id))),
                Some(JsonView::Text(task)),
                Some(JsonView::Text(status)),
            ) => if id <= u32::MAX {
                Some(TaskView { id: id as u32, task, status })
            } else {
                None
            },
            _ => None,
        },
        _ => None,
    }
}

/// The task list that a document stands for: an array whose every element
/// stands for a task, in the same order.
pub open spec fn tasks_of_document(doc: JsonView) -> Option<Seq<TaskView>> {
    match doc {
        JsonView::Array(items) => if forall|i: int|
            0 <= i < items.len() ==> (#[trigger] record_of(items[i])) is Some {
            Some(items.map_values(|item: JsonView| record_of(item).unwrap()))
        } else {
            None
        },
        _ => None,
    }
}

/// The object that stands for a task: its id, description and status, in
/// this order.
pub open spec fn document_of_task(task: TaskView) -> JsonView {
    JsonView::Object(
        seq![
            (ID_FIELD@, JsonView::Number(Some(task.id as u64))),
            (TASK_FIELD@, JsonView::Text(task.task)),
            (STATUS_FIELD@, JsonView::Text(task.status)),
        ],
    )
}

/// The document that stands for a task list.
pub open spec fn document_of_tasks(tasks: Seq<TaskView>) -> JsonView {
    JsonView::Array(tasks.map_values(|task: TaskView| document_of_task(task)))
}

/// What reading a stored text gives: the task list of the document that the
/// text holds, or `CorruptStore` where the text holds no document or the
/// document is no task list.
pub open spec fn loaded(text: Seq<char>) -> Result<Seq<TaskView>, TaskError> {
    match parsed_document(text) {
        Some(doc) => match tasks_of_document(doc) {
            Some(tasks) => Ok(tasks),
            None => Err(TaskError::CorruptStore),
        },
        None => Err(TaskError::CorruptStore),
    }
}

/// What writing a task list gives: the text of its document, provided that
/// reading this text gives the list again; `Unserializable` where no text is
/// written or the text does not read back as the list.
pub open spec fn written(tasks: Seq<TaskView>) -> Result<Seq<char>, TaskError> {
    match rendered_document(document_of_tasks(tasks)) {
        Some(text) => if loaded(text) == Ok::<Seq<TaskView>, TaskError>(tasks) {
            Ok(text)
        } else {
            Err(TaskError::Unserializable)
        },
        None => Err(TaskError::Unserializable),
    }
}

/// Looks a member up by its name.
fn find_member<'a>(members: &'a Vec<(String, Json)>, name: &String) -> (found: Option<&'a Json>)
    ensures
        match found {
            Some(value) => member(members_view(members@), name@) == Some(value@),
            None => member(members_view(members@), name@) is None,
        },
{
    let ghost all = members_view(members@);
    assert(all.subrange(0, all.len() as int) =~= all);
    let mut i: usize = 0;
    while i < members.len()
        invariant
            0 <= i <= members.len(),
            all == members_view(members@),
            member(all, name@) == member(all.subrange(i as int, all.len() as int), name@),
        decreases members.len() - i,
    {
        let ghost rest = all.subrange(i as int, all.len() as int);
        assert(rest.drop_first() =~= all.subrange(i + 1, all.len() as int));
        if members[i].0 == *name {
            return Some(&members[i].1);
        }
        i += 1;
    }
    None
}

/// The task that a JSON value stands for, if it stands for one.
pub fn task_from_document(value: &Json) -> (r: Option<Task>)
    ensures
        match r {
            Some(task) => record_of(value@) == Some(task@),
            None => record_of(value@) is None,
        },
{
    match value {
        Json::Object(members) => {
            proof {
                lemma_object_view(*members);
            }
            let id_name = ID_FIELD.to_owned();
            let task_name = TASK_FIELD.to_owned();
            let status_name = STATUS_FIELD.to_owned();
            match (
                find_member(members, &id_name),
                find_member(members, &task_name),
                find_member(members, &status_name),
            ) {
                (Some(Json::Number(Some(id))), Some(Json::Text(task)), Some(Json::Text(status))) => {
                    if *id <= u32::MAX as u64 {
                        Some(Task { id: *id as u32, task: task.clone(), status: status.clone() })
                    } else {
                        None
                    }
                },
                _ => None,
            }
        },
        _ => None,
    }
}

/// The task list that a document stands for, if it stands for one.
pub fn tasks_from_document(doc: &Json) -> (r: Option<Vec<Task>>)
    ensures
        match r {
            Some(tasks) => tasks_of_document(doc@) == Some(tasks.deep_view()),
            None => tasks_of_document(doc@) is None,
        },
{
    match doc {
        Json::Array(items) => {
            let ghost views = items_view(items@);
            proof {
                lemma_array_view(*items);
            }
            let mut tasks: Vec<Task> = Vec::new();
            let mut i: usize = 0;
            while i < items.len()
                invariant
                    0 <= i <= items.len(),
                    doc@ == JsonView::Array(views),
                    views.len() == items.len(),
                    forall|j: int| 0 <= j < items.len() ==> views[j] == #[trigger] items@[j]@,
                    tasks.len() == i,
                    forall|j: int|
                        0 <= j < i ==> (#[trigger] record_of(views[j])) == Some(tasks@[j]@),
                decreases items.len() - i,
            {
                match task_from_document(&items[i]) {
                    Some(task) => {
                        tasks.push(task);
                    },
                    None => {
                        return None;
                    },
                }
                i += 1;
            }
            Some(tasks)
        },
        _ => None,
    }
}

/// The object that stands for a task.
pub fn document_from_task(task: &Task) -> (doc: Json)
    ensures
        doc@ == document_of_task(task@),
{
    let mut members: Vec<(String, Json)> = Vec::new();
    members.push((ID_FIELD.to_owned(), Json::Number(Some(task.id as u64))));
    members.push((TASK_FIELD.to_owned(), Json::Text(task.task.clone())));
    members.push((STATUS_FIELD.to_owned(), Json::Text(task.status.clone())));
    proof {
        lemma_object_view(members);
        assert(members_view(members@) =~= document_of_task(task@)->Object_0);
    }
    Json::Object(members)
}

/// The document that stands for a task list.
pub fn document_from_tasks(tasks: &Vec<Task>) -> (doc: Json)
    ensures
        doc@ == document_of_tasks(tasks.deep_view()),
{
    let mut items: Vec<Json> = Vec::new();
    let mut i: usize = 0;
    while i < tasks.len()
        invariant
            0 <= i <= tasks.len(),
            items.len() == i,
            forall|j: int| 0 <= j < i ==> (#[trigger] items@[j])@ == document_of_task(tasks@[j]@),
        decreases tasks.len() - i,
    {
        items.push(document_from_task(&tasks[i]));
        i += 1;
    }
    proof {
        lemma_array_view(items);
        assert(items_view(items@) =~= document_of_tasks(tasks.deep_view())->Array_0);
    }
    Json::Array(items)
}

/// Reads a task list from its stored text.
pub fn load_tasks(text: &str) -> (r: Result<Vec<Task>, TaskError>)
    ensures
        match r {
            Ok(tasks) => loaded(text@) == Ok::<Seq<TaskView>, TaskError>(tasks.deep_view()),
            Err(e) => loaded(text@) == Err::<Seq<TaskView>, TaskError>(e),
        },
{
    match parse_document(text) {
        Ok(doc) => match tasks_from_document(&doc) {
            Some(tasks) => Ok(tasks),
            None => Err(TaskError::CorruptStore),
        },
        Err(_) => Err(TaskError::CorruptStore),
    }
}

/// Writes a task list as its stored text.
///
/// The text is read again before it is handed out, so that whatever is
/// written can be read: `Ok(text)` means that `load_tasks(text)` gives the
/// same tasks in the same order.
pub fn write_tasks_to_list(tasks: &Vec<Task>) -> (r: Result<String, TaskError>)
    ensures
        match r {
            Ok(text) => written(tasks.deep_view()) == Ok::<Seq<char>, TaskError>(text@),
            Err(e) => written(tasks.deep_view()) == Err::<Seq<char>, TaskError>(e),
        },
        r matches Ok(text) ==> loaded(text@) == Ok::<Seq<TaskView>, TaskError>(tasks.deep_view()),
{
    let doc = document_from_tasks(tasks);
    match render_document(&doc) {
        Ok(text) => match load_tasks(text.as_str()) {
            Ok(read) => if same_tasks(&read, tasks) {
                Ok(text)
            } else {
                Err(TaskError::Unserializable)
            },
            Err(_) => Err(TaskError::Unserializable),
        },
        Err(_) => Err(TaskError::Unserializable),
    }
}

/// The text with which a new store starts out: that of the list without tasks.
pub fn empty_store() -> (r: Result<String, TaskError>)
    ensures
        match r {
            Ok(text) => written(Seq::empty()) == Ok::<Seq<char>, TaskError>(text@),
            Err(e) => written(Seq::empty()) == Err::<Seq<char>, TaskError>(e),
        },
        r matches Ok(text) ==> loaded(text@) == Ok::<Seq<TaskView>, TaskError>(Seq::empty()),
{
    let tasks: Vec<Task> = Vec::new();
    assert(tasks.deep_view() =~= Seq::empty());
    write_tasks_to_list(&tasks)
}

/// The object written for a task stands for that task.
pub proof fn lemma_task_round_trip(task: TaskView)
    ensures
        record_of(document_of_task(task)) == Some(task),
{
    reveal_strlit("id");
    reveal_strlit("task");
    reveal_strlit("status");
    assert(ID_FIELD@.len() == 2 && TASK_FIELD@.len() == 4 && STATUS_FIELD@.len() == 6);
    let members = document_of_task(task)->Object_0;
    let after_id = members.drop_first();
    let after_task = after_id.drop_first();
    assert(member(after_id, TASK_FIELD@) == Some(members[1].1));
    assert(member(after_task, STATUS_FIELD@) == Some(members[2].1));
    assert(member(after_id, STATUS_FIELD@) == Some(members[2].1));
}

/// Writing a task list as a document and reading the document again gives
/// the same tasks in the same order.
pub proof fn lemma_document_round_trip(tasks: Seq<TaskView>)
    ensures
        tasks_of_document(document_of_tasks(tasks)) == Some(tasks),
{
    let items = document_of_tasks(tasks)->Array_0;
    assert forall|i: int| 0 <= i < items.len() implies (#[trigger] record_of(items[i])) == Some(
        tasks[i],
    ) by {
        lemma_task_round_trip(tasks[i]);
    }
}

/// Whatever is written for a task list reads back as the same tasks in the
/// same order.
pub proof fn lemma_written_text_reads_back(tasks: Seq<TaskView>)
    requires
        written(tasks) is Ok,
    ensures
        loaded(written(tasks)->Ok_0) == Ok::<Seq<TaskView>, TaskError>(tasks),
{
}

} // verus!
