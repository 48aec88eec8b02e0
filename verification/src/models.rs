//! The records the application stores.
pub mod todo_item;
pub mod user;
