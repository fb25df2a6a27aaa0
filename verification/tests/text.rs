use task_manager::error::TaskError;
use task_manager::task::Task;
use task_manager::text::{decimal_text, format_task, format_tasks};

#[test]
fn decimal_text_of_numbers() {
    assert_eq!(decimal_text(0), "0");
    assert_eq!(decimal_text(7), "7");
    assert_eq!(decimal_text(9), "9");
    assert_eq!(decimal_text(10), "10");
    assert_eq!(decimal_text(105), "105");
    assert_eq!(decimal_text(1234567890), "1234567890");
    assert_eq!(decimal_text(4294967295), "4294967295");
}

#[test]
fn decimal_text_agrees_with_std() {
    let mut n: u32 = 1;
    for _ in 0..32 {
        assert_eq!(decimal_text(n), n.to_string());
        assert_eq!(decimal_text(n - 1), (n - 1).to_string());
        n = n.wrapping_mul(2);
    }
}

#[test]
fn show_formatting() {
    let line = format_task(&Task::with_status(1, "a", "not yet started"));
    assert!(line.contains("Task ID: 1"));
    assert!(line.contains("Task: a"));
    assert!(line.contains("Status: not yet started"));
    assert_eq!(line, "Task ID: 1, Task: a, Status: not yet started");
}

#[test]
fn task_line_keeps_the_texts_as_they_are() {
    let line = format_task(&Task::with_status(4294967295, "a, b: \"c\"", ""));
    assert_eq!(line, "Task ID: 4294967295, Task: a, b: \"c\", Status: ");
}

#[test]
fn one_line_for_each_task_in_order() {
    assert_eq!(format_tasks(&Vec::new()), Vec::<String>::new());
    let lines = format_tasks(&vec![Task::new(2, "b"), Task::with_status(1, "a", "done")]);
    assert_eq!(
        lines,
        vec![
            "Task ID: 2, Task: b, Status: not yet started".to_string(),
            "Task ID: 1, Task: a, Status: done".to_string(),
        ]
    );
}

#[test]
fn every_error_has_its_message() {
    assert_eq!(TaskError::CorruptStore.message(), "The task file does not hold a list of tasks");
    assert_eq!(TaskError::Unserializable.message(), "Failed to serialize list");
    assert_eq!(TaskError::NotFound.message(), "No task has this id");
    assert_eq!(TaskError::IdsExhausted.message(), "No id is left for a new task");
}
