//! The commands of the tool and what each of them does.
//!
//! A command runs in two steps. `announce` gives what is printed at once.
//! A command that uses the store is then completed on the store's text:
//! `complete` gives what is printed after that and, where the command
//! changes the list, the text that is to replace the store's. Reading and
//! writing the store, and printing, are left to the caller.

use crate::error::TaskError;
use crate::list::{
    add_task_to_list, added, delete_task, deleted, ids_unique, lemma_add_keeps_ids_unique,
    lemma_delete_keeps_ids_unique,
};
use crate::store::{load_tasks, loaded, write_tasks_to_list, written};
use crate::task::{Task, TaskView, DEFAULT_STATUS};
use crate::text::{decimal, decimal_text, format_tasks, task_lines};
use vstd::prelude::*;
use vstd::string::*;

verus! {

/// What the user asks for.
#[derive(Debug, PartialEq, Eq)]
pub enum Command {
    /// Add a task with this description.
    Add { task: String },
    /// Delete the task with this id.
    Delete { id: u32 },
    /// Show all tasks.
    Show,
    /// Show the list of commands.
    Helpme,
    /// Leave the tool.
    Exit,
}

/// A command as plain mathematical data.
pub enum CommandView {
    Add { task: Seq<char> },
    Delete { id: u32 },
    Show,
    Helpme,
    Exit,
}

impl View for Command {
    type V = CommandView;

    open spec fn view(&self) -> CommandView {
        match self {
            Command::Add { task } => CommandView::Add { task: task@ },
            Command::Delete { id } => CommandView::Delete { id: *id },
            Command::Show => CommandView::Show,
            Command::Helpme => CommandView::Helpme,
            Command::Exit => CommandView::Exit,
        }
    }
}

/// What a command does to a task list.
#[derive(Debug, PartialEq, Eq)]
pub struct Effect {
    /// The lines to print once the command has taken effect.
    pub output: Vec<String>,
    /// The new list, where the command changes the list.
    pub tasks: Option<Vec<Task>>,
}

/// An effect as plain mathematical data.
pub struct EffectView {
    pub output: Seq<Seq<char>>,
    pub tasks: Option<Seq<TaskView>>,
}

impl View for Effect {
    type V = EffectView;

    open spec fn view(&self) -> EffectView {
        EffectView {
            output: self.output.deep_view(),
            tasks: match self.tasks {
                Some(tasks) => Some(tasks.deep_view()),
                None => None,
            },
        }
    }
}

/// What a command does to the text of the store.
#[derive(Debug, PartialEq, Eq)]
pub struct Completion {
    /// The lines to print once the store holds what it should.
    pub output: Vec<String>,
    /// The text that is to replace the store's, where the command changes the list.
    pub store: Option<String>,
}

/// A completion as plain mathematical data.
pub struct CompletionView {
    pub output: Seq<Seq<char>>,
    pub store: Option<Seq<char>>,
}

impl View for Completion {
    type V = CompletionView;

    open spec fn view(&self) -> CompletionView {
        CompletionView {
            output: self.output.deep_view(),
            store: match self.store {
                Some(text) => Some(text@),
                None => None,
            },
        }
    }
}

/// The list of commands that `helpme` prints.
pub open spec fn help_lines() -> Seq<Seq<char>> {
    seq![
        "Commands available:"@,
        "1. Add a new task:       task_manager add <task>"@,
        "2. Update a task:        task_manager update <id> <task>"@,
        "3. Delete a task:        task_manager delete <id>"@,
        "4. Update task progress: task_manager progress <status> <id>"@,
        "5. Show this menu:       task_manager show"@,
        "6. Exit the tool:        task_manager exit"@,
    ]
}

/// Whether a command reads the store: adding, deleting and showing do.
pub open spec fn uses_store(command: CommandView) -> bool {
    command is Add || command is Delete || command is Show
}

/// What a command prints before anything else happens.
pub open spec fn announced(command: CommandView) -> Seq<Seq<char>> {
    match command {
        CommandView::Add { task } => seq!["Adding task: "@ + task],
        CommandView::Delete { id } => seq!["Deleting task with id: "@ + decimal(id as nat)],
        CommandView::Show => seq![],
        CommandView::Helpme => help_lines(),
        CommandView::Exit => seq!["Exiting the Task Manager. Goodbye!"@],
    }
}

/// What a command does to a task list.
///
/// Adding appends a task and confirms it in two lines. Deleting removes the
/// tasks of the id and prints nothing more. Showing prints one line for each
/// task and leaves the list alone. The other commands do nothing here.
pub open spec fn applied(command: CommandView, tasks: Seq<TaskView>) -> Result<
    EffectView,
    TaskError,
> {
    match command {
        CommandView::Add { task } => match added(tasks, task) {
            Ok(longer) => Ok(
                EffectView {
                    output: seq![
                        "Task added successfully!!"@,
                        "task "@ + task + " added to the list"@,
                    ],
                    tasks: Some(longer),
                },
            ),
            Err(e) => Err(e),
        },
        CommandView::Delete { id } => match deleted(tasks, id) {
            Ok(shorter) => Ok(EffectView { output: seq![], tasks: Some(shorter) }),
            Err(e) => Err(e),
        },
        CommandView::Show => Ok(EffectView { output: task_lines(tasks), tasks: None }),
        CommandView::Helpme => Ok(EffectView { output: seq![], tasks: None }),
        CommandView::Exit => Ok(EffectView { output: seq![], tasks: None }),
    }
}

/// What a command does to the text of the store. A command that does not
/// use the store leaves the text unread. For the others the text is read,
/// the command applied to the list, and a changed list written. A text that
/// is no task list, a command that fails and a list that cannot be written
/// each end the command with their error, and the store keeps its text.
pub open spec fn completed(command: CommandView, content: Seq<char>) -> Result<
    CompletionView,
    TaskError,
> {
    if !uses_store(command) {
        Ok(CompletionView { output: seq![], store: None })
    } else {
        match loaded(content) {
            Ok(tasks) => match applied(command, tasks) {
                Ok(effect) => match effect.tasks {
                    Some(changed) => match written(changed) {
                        Ok(text) => Ok(
                            CompletionView { output: effect.output, store: Some(text) },
                        ),
                        Err(e) => Err(e),
                    },
                    None => Ok(CompletionView { output: effect.output, store: None }),
                },
                Err(e) => Err(e),
            },
            Err(e) => Err(e),
        }
    }
}

/// The list of commands that `helpme` prints.
pub fn help_text() -> (lines: Vec<String>)
    ensures
        lines.deep_view() == help_lines(),
{
    let mut lines: Vec<String> = Vec::new();
    lines.push("Commands available:".to_owned());
    lines.push("1. Add a new task:       task_manager add <task>".to_owned());
    lines.push("2. Update a task:        task_manager update <id> <task>".to_owned());
    lines.push("3. Delete a task:        task_manager delete <id>".to_owned());
    lines.push("4. Update task progress: task_manager progress <status> <id>".to_owned());
    lines.push("5. Show this menu:       task_manager show".to_owned());
    lines.push("6. Exit the tool:        task_manager exit".to_owned());
    lines
}

impl Command {
    /// Whether the command reads the store.
    pub fn uses_store(&self) -> (r: bool)
        ensures
            r == uses_store(self@),
    {
        match self {
            Command::Add { .. } => true,
            Command::Delete { .. } => true,
            Command::Show => true,
            Command::Helpme => false,
            Command::Exit => false,
        }
    }

    /// The lines that the command prints before anything else happens.
    pub fn announce(&self) -> (lines: Vec<String>)
        ensures
            lines.deep_view() == announced(self@),
    {
        match self {
            Command::Add { task } => {
                let mut line = "Adding task: ".to_owned();
                line.append(task.as_str());
                let mut lines: Vec<String> = Vec::new();
                lines.push(line);
                lines
            },
            Command::Delete { id } => {
                let mut line = "Deleting task with id: ".to_owned();
                line.append(decimal_text(*id).as_str());
                let mut lines: Vec<String> = Vec::new();
                lines.push(line);
                lines
            },
            Command::Show => Vec::new(),
            Command::Helpme => help_text(),
            Command::Exit => {
                let mut lines: Vec<String> = Vec::new();
                lines.push("Exiting the Task Manager. Goodbye!".to_owned());
                lines
            },
        }
    }

    /// Applies the command to a task list.
    pub fn apply(&self, tasks: Vec<Task>) -> (r: Result<Effect, TaskError>)
        ensures
            match r {
                Ok(effect) => applied(self@, tasks.deep_view()) == Ok::<EffectView, TaskError>(
                    effect@,
                ),
                Err(e) => applied(self@, tasks.deep_view()) == Err::<EffectView, TaskError>(e),
            },
    {
        let mut tasks = tasks;
        match self {
            Command::Add { task } => match add_task_to_list(&mut tasks, task.as_str()) {
                Ok(_) => {
                    let mut line = "task ".to_owned();
                    line.append(task.as_str());
                    line.append(" added to the list");
                    let mut output: Vec<String> = Vec::new();
                    output.push("Task added successfully!!".to_owned());
                    output.push(line);
                    assert(output.deep_view() =~= seq![
                        "Task added successfully!!"@,
                        "task "@ + task@ + " added to the list"@,
                    ]);
                    Ok(Effect { output, tasks: Some(tasks) })
                },
                Err(e) => Err(e),
            },
            Command::Delete { id } => match delete_task(&mut tasks, *id) {
                Ok(()) => {
                    let output: Vec<String> = Vec::new();
                    assert(output.deep_view() =~= Seq::<Seq<char>>::empty());
                    Ok(Effect { output, tasks: Some(tasks) })
                },
                Err(e) => Err(e),
            },
            Command::Show => Ok(Effect { output: format_tasks(&tasks), tasks: None }),
            _ => {
                let output: Vec<String> = Vec::new();
                assert(output.deep_view() =~= Seq::<Seq<char>>::empty());
                Ok(Effect { output, tasks: None })
            },
        }
    }

    /// Completes the command on the text of the store.
    pub fn complete(&self, content: &str) -> (r: Result<Completion, TaskError>)
        ensures
            match r {
                Ok(completion) => completed(self@, content@) == Ok::<CompletionView, TaskError>(
                    completion@,
                ),
                Err(e) => completed(self@, content@) == Err::<CompletionView, TaskError>(e),
            },
    {
        if !self.uses_store() {
            let output: Vec<String> = Vec::new();
            assert(output.deep_view() =~= Seq::<Seq<char>>::empty());
            return Ok(Completion { output, store: None });
        }
        let tasks = match load_tasks(content) {
            Ok(tasks) => tasks,
            Err(e) => {
                return Err(e);
            },
        };
        let effect = match self.apply(tasks) {
            Ok(effect) => effect,
            Err(e) => {
                return Err(e);
            },
        };
        match effect.tasks {
            Some(changed) => match write_tasks_to_list(&changed) {
                Ok(text) => Ok(Completion { output: effect.output, store: Some(text) }),
                Err(e) => Err(e),
            },
            None => Ok(Completion { output: effect.output, store: None }),
        }
    }
}

/// After a task was added, the store's new text reads as the list that the
/// store held before, followed by one task with the description given and
/// the default status.
pub proof fn lemma_add_persists(description: Seq<char>, content: Seq<char>)
    requires
        completed(CommandView::Add { task: description }, content) is Ok,
    ensures
        ({
            let completion = completed(CommandView::Add { task: description }, content)->Ok_0;
            &&& completion.store is Some
            &&& loaded(completion.store->0) matches Ok(tasks)
            &&& tasks.len() > 0
            &&& tasks.last().task == description
            &&& tasks.last().status == DEFAULT_STATUS@
            &&& loaded(content) == Ok::<Seq<TaskView>, TaskError>(tasks.drop_last())
        }),
{
    let before = loaded(content)->Ok_0;
    let after = added(before, description)->Ok_0;
    assert(after.drop_last() =~= before);
}

/// A command that uses the store and changes the list leaves a store that
/// reads as the changed list; one that does not change the list leaves the
/// store alone.
pub proof fn lemma_store_follows_list(command: CommandView, content: Seq<char>)
    requires
        uses_store(command),
        completed(command, content) is Ok,
    ensures
        ({
            let effect = applied(command, loaded(content)->Ok_0)->Ok_0;
            let completion = completed(command, content)->Ok_0;
            &&& completion.output == effect.output
            &&& match effect.tasks {
                Some(changed) => completion.store is Some && loaded(completion.store->0) == Ok::<
                    Seq<TaskView>,
                    TaskError,
                >(changed),
                None => completion.store is None,
            }
        }),
{
}

/// No command gives two tasks the same id: where the ids of a list differ
/// and a command changes the list, the ids of the changed list differ.
pub proof fn lemma_commands_keep_ids_unique(command: CommandView, tasks: Seq<TaskView>)
    requires
        ids_unique(tasks),
        applied(command, tasks) is Ok,
        applied(command, tasks)->Ok_0.tasks is Some,
    ensures
        ids_unique(applied(command, tasks)->Ok_0.tasks->0),
{
    match command {
        CommandView::Add { task } => {
            lemma_add_keeps_ids_unique(tasks, task);
        },
        CommandView::Delete { id } => {
            lemma_delete_keeps_ids_unique(tasks, id);
        },
        _ => {},
    }
}

} // verus!
