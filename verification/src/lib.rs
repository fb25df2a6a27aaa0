//! A small task list manager.
//!
//! - [`task`]: the task record.
//! - [`list`]: adding to a task list and deleting from it.
//! - [`text`]: the lines in which tasks are shown.
//! - [`json`]: JSON documents, read and written by `serde_json`.
//! - [`store`]: the stored form of a task list.
//! - [`command`]: the commands of the tool and what each of them does.
//! - [`error`]: what can go wrong.
//!
//! The library reads no file and prints nothing: it is handed the text of
//! the store and hands back lines to print and the text to store.

pub mod command;
pub mod error;
pub mod json;
pub mod list;
pub mod store;
pub mod task;
pub mod text;
