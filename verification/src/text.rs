//! The text in which tasks are shown.

use crate::task::{Task, TaskView};
use vstd::prelude::*;
use vstd::string::*;

verus! {

/// The character that stands for a digit.
pub open spec fn digit(d: nat) -> char {
    if d == 0 {
        '0'
    } else if d == 1 {
        '1'
    } else if d == 2 {
        '2'
    } else if d == 3 {
        '3'
    } else if d == 4 {
        '4'
    } else if d == 5 {
        '5'
    } else if d == 6 {
        '6'
    } else if d == 7 {
        '7'
    } else if d == 8 {
        '8'
    } else {
        '9'
    }
}

/// A number in decimal notation, without leading zeros.
pub open spec fn decimal(n: nat) -> Seq<char>
    decreases n,
{
    if n < 10 {
        seq![digit(n)]
    } else {
        decimal(n / 10).push(digit(n % 10))
    }
}

/// The line that shows a task.
pub open spec fn task_line(task: TaskView) -> Seq<char> {
    "Task ID: "@ + decimal(task.id as nat) + ", Task: "@ + task.task + ", Status: "@ + task.status
}

/// The lines that show a task list, one for each task, in the order of the list.
pub open spec fn task_lines(tasks: Seq<TaskView>) -> Seq<Seq<char>> {
    tasks.map_values(|task: TaskView| task_line(task))
}

fn digit_text(d: u32) -> (text: &'static str)
    requires
        d < 10,
    ensures
        text@ == seq![digit(d as nat)],
{
    let text = if d == 0 {
        "0"
    } else if d == 1 {
        "1"
    } else if d == 2 {
        "2"
    } else if d == 3 {
        "3"
    } else if d == 4 {
        "4"
    } else if d == 5 {
        "5"
    } else if d == 6 {
        "6"
    } else if d == 7 {
        "7"
    } else if d == 8 {
        "8"
    } else {
        "9"
    };
    proof {
        reveal_strlit("0");
        reveal_strlit("1");
        reveal_strlit("2");
        reveal_strlit("3");
        reveal_strlit("4");
        reveal_strlit("5");
        reveal_strlit("6");
        reveal_strlit("7");
        reveal_strlit("8");
        reveal_strlit("9");
    }
    text
}

/// Writes a number in decimal notation.
pub fn decimal_text(n: u32) -> (text: String)
    ensures
        text@ == decimal(n as nat),
    decreases n,
{
    if n < 10 {
        digit_text(n).to_owned()
    } else {
        let mut text = decimal_text(n / 10);
        let last = digit_text(n % 10);
        text.append(last);
        text
    }
}

/// Writes the line that shows a task.
pub fn format_task(task: &Task) -> (line: String)
    ensures
        line@ == task_line(task@),
{
    let mut line = "Task ID: ".to_owned();
    line.append(decimal_text(task.id).as_str());
    line.append(", Task: ");
    line.append(task.task.as_str());
    line.append(", Status: ");
    line.append(task.status.as_str());
    line
}

/// Writes the lines that show a task list.
pub fn format_tasks(tasks: &Vec<Task>) -> (lines: Vec<String>)
    ensures
        lines.deep_view() == task_lines(tasks.deep_view()),
{
    let mut lines: Vec<String> = Vec::new();
    let mut i: usize = 0;
    while i < tasks.len()
        invariant
            0 <= i <= tasks.len(),
            lines.len() == i,
            forall|j: int| 0 <= j < i ==> (#[trigger] lines@[j])@ == task_line(tasks@[j]@),
        decreases tasks.len() - i,
    {
        lines.push(format_task(&tasks[i]));
        i += 1;
    }
    lines
}

} // verus!
