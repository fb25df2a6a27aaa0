use task_manager::error::TaskError;
use task_manager::json::Json;
use task_manager::store::{
    load_tasks, document_from_task, document_from_tasks, empty_store, write_tasks_to_list,
    task_from_document, tasks_from_document, FILE_PATH,
};
use task_manager::task::Task;

fn sample() -> Vec<Task> {
    vec![
        Task::new(1, "buy milk"),
        Task::with_status(2, "write \"report\"\n\tfor Ana\\Bo", "done"),
        Task::with_status(4294967295, "caf\u{e9} \u{1f980} \u{0}\u{1f}", ""),
    ]
}

fn record(id: Json, task: Json, status: Json) -> Json {
    Json::Object(vec![
        ("id".to_string(), id),
        ("task".to_string(), task),
        ("status".to_string(), status),
    ])
}

#[test]
fn written_list_reads_back_equal() {
    let tasks = sample();
    let text = write_tasks_to_list(&tasks).unwrap();
    assert_eq!(load_tasks(&text), Ok(tasks));
}

#[test]
fn written_empty_list_reads_back_empty() {
    let text = write_tasks_to_list(&Vec::new()).unwrap();
    assert_eq!(load_tasks(&text), Ok(Vec::new()));
}

#[test]
fn written_text_is_pretty_printed_in_field_order() {
    let tasks = vec![Task::new(1, "a"), Task::with_status(2, "say \"hi\"", "done")];
    let expected = "[\n  {\n    \"id\": 1,\n    \"task\": \"a\",\n    \"status\": \"not yet started\"\n  },\n  {\n    \"id\": 2,\n    \"task\": \"say \\\"hi\\\"\",\n    \"status\": \"done\"\n  }\n]";
    assert_eq!(write_tasks_to_list(&tasks), Ok(expected.to_string()));
}

#[test]
fn new_store_holds_the_empty_list() {
    assert_eq!(empty_store(), Ok("[]".to_string()));
    assert_eq!(load_tasks("[]"), Ok(Vec::new()));
    assert_eq!(load_tasks(&empty_store().unwrap()), Ok(Vec::new()));
}

#[test]
fn store_file_has_its_fixed_name() {
    assert_eq!(FILE_PATH, "tasks.json");
}

#[test]
fn text_that_is_not_json_is_corrupt() {
    assert_eq!(load_tasks("not json"), Err(TaskError::CorruptStore));
    assert_eq!(load_tasks(""), Err(TaskError::CorruptStore));
    assert_eq!(load_tasks("[{\"id\": 1,"), Err(TaskError::CorruptStore));
    assert_eq!(load_tasks("[] []"), Err(TaskError::CorruptStore));
}

#[test]
fn json_that_is_no_task_list_is_corrupt() {
    assert_eq!(load_tasks("{}"), Err(TaskError::CorruptStore));
    assert_eq!(load_tasks("null"), Err(TaskError::CorruptStore));
    assert_eq!(load_tasks("[1]"), Err(TaskError::CorruptStore));
    assert_eq!(load_tasks("[[1, \"a\", \"b\"]]"), Err(TaskError::CorruptStore));
    assert_eq!(
        load_tasks("[{\"id\": 1, \"task\": \"a\"}]"),
        Err(TaskError::CorruptStore)
    );
    assert_eq!(
        load_tasks("[{\"id\": \"1\", \"task\": \"a\", \"status\": \"b\"}]"),
        Err(TaskError::CorruptStore)
    );
    assert_eq!(
        load_tasks("[{\"id\": 1, \"task\": 2, \"status\": \"b\"}]"),
        Err(TaskError::CorruptStore)
    );
    assert_eq!(
        load_tasks("[{\"id\": 1, \"task\": \"a\", \"status\": null}]"),
        Err(TaskError::CorruptStore)
    );
}

#[test]
fn one_bad_record_makes_the_whole_store_corrupt() {
    let text = "[{\"id\": 1, \"task\": \"a\", \"status\": \"b\"}, {\"id\": 2}]";
    assert_eq!(load_tasks(text), Err(TaskError::CorruptStore));
}

#[test]
fn id_must_be_a_whole_number_that_fits() {
    let with_id = |id: &str| format!("[{{\"id\": {}, \"task\": \"a\", \"status\": \"b\"}}]", id);
    assert_eq!(load_tasks(&with_id("0")), Ok(vec![Task::with_status(0, "a", "b")]));
    assert_eq!(
        load_tasks(&with_id("4294967295")),
        Ok(vec![Task::with_status(4294967295, "a", "b")])
    );
    assert_eq!(load_tasks(&with_id("4294967296")), Err(TaskError::CorruptStore));
    assert_eq!(load_tasks(&with_id("-1")), Err(TaskError::CorruptStore));
    assert_eq!(load_tasks(&with_id("1.0")), Err(TaskError::CorruptStore));
    assert_eq!(load_tasks(&with_id("1e2")), Err(TaskError::CorruptStore));
    assert_eq!(
        load_tasks(&with_id("18446744073709551616")),
        Err(TaskError::CorruptStore)
    );
}

#[test]
fn other_members_and_member_order_do_not_matter() {
    let text = "[{\"status\": \"b\", \"extra\": [1, {\"x\": null}], \"task\": \"a\", \"id\": 7}]";
    assert_eq!(load_tasks(text), Ok(vec![Task::with_status(7, "a", "b")]));
}

#[test]
fn repeated_member_in_the_text_takes_its_last_value() {
    let text = "[{\"id\": 1, \"task\": \"a\", \"id\": 2, \"status\": \"b\"}]";
    assert_eq!(load_tasks(text), Ok(vec![Task::with_status(2, "a", "b")]));
}

#[test]
fn escapes_in_the_store_are_read() {
    let text = "[{\"id\": 1, \"task\": \"a\\u0041\\n\\\"\", \"status\": \"\\ud83e\\udd80\"}]";
    assert_eq!(
        load_tasks(text),
        Ok(vec![Task::with_status(1, "aA\n\"", "\u{1f980}")])
    );
}

#[test]
fn document_of_a_task_has_three_members_in_order() {
    let doc = document_from_task(&Task::with_status(3, "a", "b"));
    assert_eq!(
        doc,
        record(Json::Number(Some(3)), Json::Text("a".to_string()), Json::Text("b".to_string()))
    );
}

#[test]
fn document_of_a_list_is_an_array_of_its_tasks() {
    assert_eq!(document_from_tasks(&Vec::new()), Json::Array(Vec::new()));
    let doc = document_from_tasks(&vec![Task::new(1, "a"), Task::new(2, "b")]);
    assert_eq!(
        doc,
        Json::Array(vec![
            document_from_task(&Task::new(1, "a")),
            document_from_task(&Task::new(2, "b")),
        ])
    );
}

#[test]
fn document_reads_back_as_its_tasks() {
    let tasks = sample();
    assert_eq!(tasks_from_document(&document_from_tasks(&tasks)), Some(tasks));
}

#[test]
fn only_an_array_of_task_objects_is_a_task_list() {
    assert_eq!(tasks_from_document(&Json::Array(Vec::new())), Some(Vec::new()));
    assert_eq!(tasks_from_document(&Json::Null), None);
    assert_eq!(tasks_from_document(&Json::Object(Vec::new())), None);
    assert_eq!(tasks_from_document(&Json::Array(vec![Json::Bool(true)])), None);
    let good = record(Json::Number(Some(1)), Json::Text("a".to_string()), Json::Text("b".to_string()));
    let bad = record(Json::Number(None), Json::Text("a".to_string()), Json::Text("b".to_string()));
    assert_eq!(tasks_from_document(&Json::Array(vec![good, bad])), None);
}

#[test]
fn task_object_needs_its_three_members() {
    let text = |s: &str| Json::Text(s.to_string());
    assert_eq!(
        task_from_document(&record(Json::Number(Some(9)), text("a"), text("b"))),
        Some(Task::with_status(9, "a", "b"))
    );
    assert_eq!(
        task_from_document(&record(Json::Number(Some(4294967296)), text("a"), text("b"))),
        None
    );
    assert_eq!(task_from_document(&record(Json::Number(None), text("a"), text("b"))), None);
    assert_eq!(task_from_document(&record(text("1"), text("a"), text("b"))), None);
    assert_eq!(task_from_document(&record(Json::Number(Some(1)), Json::Null, text("b"))), None);
    assert_eq!(
        task_from_document(&record(Json::Number(Some(1)), text("a"), Json::Bool(false))),
        None
    );
    assert_eq!(task_from_document(&Json::Object(Vec::new())), None);
    assert_eq!(
        task_from_document(&Json::Object(vec![
            ("id".to_string(), Json::Number(Some(1))),
            ("status".to_string(), text("b")),
        ])),
        None
    );
    assert_eq!(task_from_document(&Json::Array(Vec::new())), None);
}

#[test]
fn first_member_of_a_name_counts() {
    let text = |s: &str| Json::Text(s.to_string());
    let doc = Json::Object(vec![
        ("other".to_string(), Json::Null),
        ("task".to_string(), text("first")),
        ("id".to_string(), Json::Number(Some(5))),
        ("task".to_string(), text("second")),
        ("status".to_string(), text("s")),
        ("id".to_string(), Json::Null),
    ]);
    assert_eq!(task_from_document(&doc), Some(Task::with_status(5, "first", "s")));
}
