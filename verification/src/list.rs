//! The operations on a task list.
//!
//! A list is a `Vec<Task>`; its contracts speak of the sequence of the tasks'
//! views. Nothing forces the ids of a list to differ, since a list may come
//! from a store that somebody else wrote, but the operations keep them
//! different where they are.

use crate::error::TaskError;
use crate::task::{Task, TaskView, DEFAULT_STATUS};
use vstd::prelude::*;

verus! {

/// The largest id in a list, and 0 for a list without tasks.
pub open spec fn max_id(tasks: Seq<TaskView>) -> nat
    decreases tasks.len(),
{
    if tasks.len() == 0 {
        0
    } else if tasks.last().id > max_id(tasks.drop_last()) {
        tasks.last().id as nat
    } else {
        max_id(tasks.drop_last())
    }
}

/// Some task of the list has this id.
pub open spec fn has_id(tasks: Seq<TaskView>, id: u32) -> bool {
    exists|i: int| 0 <= i < tasks.len() && (#[trigger] tasks[i]).id == id
}

/// No two tasks of the list have the same id.
pub open spec fn ids_unique(tasks: Seq<TaskView>) -> bool {
    forall|i: int, j: int| 0 <= i < j < tasks.len() ==> tasks[i].id != tasks[j].id
}

/// The ids of the list are 1, 2, 3 and so on, in this order: what a list
/// looks like to which tasks were only ever added.
pub open spec fn ids_in_sequence(tasks: Seq<TaskView>) -> bool {
    forall|i: int| 0 <= i < tasks.len() ==> (#[trigger] tasks[i]).id == i + 1
}

/// The task that is added for a description.
pub open spec fn new_task(tasks: Seq<TaskView>, description: Seq<char>) -> TaskView {
    TaskView { id: (max_id(tasks) + 1) as u32, task: description, status: DEFAULT_STATUS@ }
}

/// What adding a task gives: the list with a new task at its end, whose id
/// is one more than the largest id of the list and whose status is the
/// default one; or `IdsExhausted` where the largest id cannot be exceeded.
pub open spec fn added(tasks: Seq<TaskView>, description: Seq<char>) -> Result<
    Seq<TaskView>,
    TaskError,
> {
    if max_id(tasks) < u32::MAX {
        Ok(tasks.push(new_task(tasks, description)))
    } else {
        Err(TaskError::IdsExhausted)
    }
}

/// The list without the tasks that have the given id.
pub open spec fn without_id(tasks: Seq<TaskView>, id: u32) -> Seq<TaskView> {
    tasks.filter(|task: TaskView| task.id != id)
}

/// What deleting an id gives: the list without the tasks of this id, the
/// others in their order; or `NotFound` where no task has the id.
pub open spec fn deleted(tasks: Seq<TaskView>, id: u32) -> Result<Seq<TaskView>, TaskError> {
    if has_id(tasks, id) {
        Ok(without_id(tasks, id))
    } else {
        Err(TaskError::NotFound)
    }
}

/// No id of a list is larger than its largest id.
pub proof fn lemma_max_id_bounds(tasks: Seq<TaskView>)
    ensures
        forall|i: int| 0 <= i < tasks.len() ==> (#[trigger] tasks[i]).id <= max_id(tasks),
        max_id(tasks) <= u32::MAX,
    decreases tasks.len(),
{
    if tasks.len() > 0 {
        lemma_max_id_bounds(tasks.drop_last());
        assert forall|i: int| 0 <= i < tasks.len() implies (#[trigger] tasks[i]).id <= max_id(
            tasks,
        ) by {
            if i < tasks.len() - 1 {
                assert(tasks.drop_last()[i] == tasks[i]);
            }
        }
    }
}

/// Whether two lists hold the same tasks in the same order.
pub fn same_tasks(left: &Vec<Task>, right: &Vec<Task>) -> (same: bool)
    ensures
        same == (left.deep_view() == right.deep_view()),
{
    if left.len() != right.len() {
        assert(left.deep_view().len() != right.deep_view().len());
        return false;
    }
    let mut i: usize = 0;
    while i < left.len()
        invariant
            0 <= i <= left.len(),
            left.len() == right.len(),
            forall|j: int| 0 <= j < i ==> left@[j]@ == right@[j]@,
        decreases left.len() - i,
    {
        let same_here = left[i].id == right[i].id && left[i].task == right[i].task
            && left[i].status == right[i].status;
        if !same_here {
            assert(left.deep_view()[i as int] != right.deep_view()[i as int]);
            return false;
        }
        i += 1;
    }
    assert(left.deep_view() =~= right.deep_view());
    true
}

/// The largest id of a list.
pub fn largest_id(tasks: &Vec<Task>) -> (largest: u32)
    ensures
        largest == max_id(tasks.deep_view()),
{
    let ghost views = tasks.deep_view();
    let mut largest: u32 = 0;
    let mut i: usize = 0;
    while i < tasks.len()
        invariant
            0 <= i <= tasks.len(),
            views == tasks.deep_view(),
            largest == max_id(views.subrange(0, i as int)),
        decreases tasks.len() - i,
    {
        assert(views.subrange(0, i + 1).drop_last() =~= views.subrange(0, i as int));
        if tasks[i].id > largest {
            largest = tasks[i].id;
        }
        i += 1;
    }
    assert(views.subrange(0, i as int) =~= views);
    largest
}

/// Adds a task for a description to the end of the list and gives its id.
///
/// The new id is one more than the largest id of the list, so it differs
/// from every id of the list. On failure the list stays as it was.
pub fn add_task_to_list(list: &mut Vec<Task>, new_task: &str) -> (r: Result<u32, TaskError>)
    ensures
        match r {
            Ok(id) => {
                &&& added(old(list).deep_view(), new_task@) == Ok::<Seq<TaskView>, TaskError>(
                    final(list).deep_view(),
                )
                &&& id == max_id(old(list).deep_view()) + 1
            },
            Err(e) => {
                &&& added(old(list).deep_view(), new_task@) == Err::<Seq<TaskView>, TaskError>(e)
                &&& *final(list) == *old(list)
            },
        },
        ids_unique(old(list).deep_view()) ==> ids_unique(final(list).deep_view()),
{
    let largest = largest_id(list);
    if largest < u32::MAX {
        let id: u32 = largest + 1;
        proof {
            lemma_max_id_bounds(list.deep_view());
        }
        let ghost before = list.deep_view();
        list.push(Task::new(id, new_task));
        assert(list.deep_view() =~= before.push(self::new_task(before, new_task@)));
        Ok(id)
    } else {
        Err(TaskError::IdsExhausted)
    }
}

/// Whether some task of the list has this id.
pub fn contains_id(tasks: &Vec<Task>, id: u32) -> (found: bool)
    ensures
        found == has_id(tasks.deep_view(), id),
{
    let mut i: usize = 0;
    while i < tasks.len()
        invariant
            0 <= i <= tasks.len(),
            forall|j: int| 0 <= j < i ==> (#[trigger] tasks.deep_view()[j]).id != id,
        decreases tasks.len() - i,
    {
        if tasks[i].id == id {
            assert(tasks.deep_view()[i as int].id == id);
            return true;
        }
        i += 1;
    }
    false
}

/// Removes the tasks that have the given id; the others keep their order.
///
/// Fails with `NotFound`, and leaves the list as it was, where no task has
/// the id.
pub fn delete_task(list: &mut Vec<Task>, id: u32) -> (r: Result<(), TaskError>)
    ensures
        match r {
            Ok(()) => deleted(old(list).deep_view(), id) == Ok::<Seq<TaskView>, TaskError>(
                final(list).deep_view(),
            ),
            Err(e) => {
                &&& deleted(old(list).deep_view(), id) == Err::<Seq<TaskView>, TaskError>(e)
                &&& *final(list) == *old(list)
            },
        },
        ids_unique(old(list).deep_view()) ==> ids_unique(final(list).deep_view()),
{
    if !contains_id(list, id) {
        return Err(TaskError::NotFound);
    }
    let ghost before = list.deep_view();
    let ghost keep = |task: TaskView| task.id != id;
    let mut kept: Vec<Task> = Vec::new();
    let mut i: usize = 0;
    while i < list.len()
        invariant
            0 <= i <= list.len(),
            before == list.deep_view(),
            keep == (|task: TaskView| task.id != id),
            kept.deep_view() == before.subrange(0, i as int).filter(keep),
        decreases list.len() - i,
    {
        proof {
            reveal(Seq::filter);
            assert(before.subrange(0, i + 1).drop_last() =~= before.subrange(0, i as int));
        }
        if list[i].id != id {
            kept.push(list[i].clone());
        }
        i += 1;
    }
    proof {
        assert(before.subrange(0, i as int) =~= before);
        if ids_unique(before) {
            lemma_delete_keeps_ids_unique(before, id);
        }
    }
    *list = kept;
    Ok(())
}

/// Deleting an id from a list whose ids differ leaves a list whose ids differ.
pub proof fn lemma_delete_keeps_ids_unique(tasks: Seq<TaskView>, id: u32)
    requires
        ids_unique(tasks),
    ensures
        ids_unique(without_id(tasks, id)),
    decreases tasks.len(),
{
    reveal(Seq::filter);
    if tasks.len() > 0 {
        let rest = tasks.drop_last();
        assert(ids_unique(rest)) by {
            assert forall|i: int, j: int| 0 <= i < j < rest.len() implies rest[i].id
                != rest[j].id by {}
        }
        lemma_delete_keeps_ids_unique(rest, id);
        lemma_without_id_members(rest, id);
    }
}

/// Every task that is left after a deletion was in the list, and its id is
/// not the deleted one.
pub proof fn lemma_without_id_members(tasks: Seq<TaskView>, id: u32)
    ensures
        forall|i: int|
            0 <= i < without_id(tasks, id).len() ==> {
                &&& (#[trigger] without_id(tasks, id)[i]).id != id
                &&& exists|k: int| 0 <= k < tasks.len() && tasks[k] == without_id(tasks, id)[i]
            },
    decreases tasks.len(),
{
    reveal(Seq::filter);
    if tasks.len() > 0 {
        let rest = tasks.drop_last();
        lemma_without_id_members(rest, id);
        let kept = without_id(tasks, id);
        assert forall|i: int| 0 <= i < kept.len() implies {
            &&& (#[trigger] kept[i]).id != id
            &&& exists|k: int| 0 <= k < tasks.len() && tasks[k] == kept[i]
        } by {
            if i < without_id(rest, id).len() {
                let k = choose|k: int| 0 <= k < rest.len() && rest[k] == without_id(rest, id)[i];
                assert(tasks[k] == kept[i]);
            }
        }
    }
}

/// The largest id of a list whose ids are 1, 2, 3 and so on is its length.
pub proof fn lemma_ids_in_sequence_max(tasks: Seq<TaskView>)
    requires
        ids_in_sequence(tasks),
    ensures
        max_id(tasks) == tasks.len(),
    decreases tasks.len(),
{
    if tasks.len() > 0 {
        let rest = tasks.drop_last();
        assert(ids_in_sequence(rest)) by {
            assert forall|i: int| 0 <= i < rest.len() implies (#[trigger] rest[i]).id == i + 1 by {}
        }
        lemma_ids_in_sequence_max(rest);
    }
}

/// Adding to a list of N tasks to which tasks were only ever added, so that
/// its ids are 1 to N, appends a task with the id N + 1, the description
/// given and the default status; the new list has N + 1 tasks, and its ids
/// are 1 to N + 1.
pub proof fn lemma_add_to_sequence(tasks: Seq<TaskView>, description: Seq<char>)
    requires
        ids_in_sequence(tasks),
        tasks.len() < u32::MAX,
    ensures
        added(tasks, description) == Ok::<Seq<TaskView>, TaskError>(
            tasks.push(
                TaskView {
                    id: (tasks.len() + 1) as u32,
                    task: description,
                    status: DEFAULT_STATUS@,
                },
            ),
        ),
        added(tasks, description)->Ok_0.len() == tasks.len() + 1,
        ids_in_sequence(added(tasks, description)->Ok_0),
{
    lemma_ids_in_sequence_max(tasks);
}

/// The ids 1, 2, 3 and so on differ from each other.
pub proof fn lemma_ids_in_sequence_unique(tasks: Seq<TaskView>)
    requires
        ids_in_sequence(tasks),
    ensures
        ids_unique(tasks),
{
}

/// Adding a task to a list whose ids differ gives a list whose ids differ.
pub proof fn lemma_add_keeps_ids_unique(tasks: Seq<TaskView>, description: Seq<char>)
    requires
        ids_unique(tasks),
        added(tasks, description) is Ok,
    ensures
        ids_unique(added(tasks, description)->Ok_0),
{
    lemma_max_id_bounds(tasks);
}

/// After a deletion no task has the deleted id.
pub proof fn lemma_delete_removes_id(tasks: Seq<TaskView>, id: u32)
    ensures
        !has_id(without_id(tasks, id), id),
{
}

/// A deletion touches no other id: the list has a task of another id after
/// the deletion exactly where it had one before.
pub proof fn lemma_delete_keeps_other_ids(tasks: Seq<TaskView>, id: u32, other: u32)
    requires
        other != id,
    ensures
        has_id(tasks, other) <==> has_id(without_id(tasks, id), other),
    decreases tasks.len(),
{
    reveal(Seq::filter);
    if tasks.len() > 0 {
        let rest = tasks.drop_last();
        lemma_delete_keeps_other_ids(rest, id, other);
        let kept = without_id(tasks, id);
        if has_id(tasks, other) {
            let k = choose|k: int| 0 <= k < tasks.len() && (#[trigger] tasks[k]).id == other;
            if k < rest.len() {
                assert(rest[k].id == other);
                let m = choose|m: int|
                    0 <= m < without_id(rest, id).len() && (#[trigger] without_id(rest, id)[m]).id
                        == other;
                assert(kept[m] == without_id(rest, id)[m]);
            } else {
                assert(kept[kept.len() - 1].id == other);
            }
        }
    }
}

} // verus!
