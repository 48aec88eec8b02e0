//! Todo items.
pub mod create_todo;
