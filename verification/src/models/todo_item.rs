//! Todo items: as a form submits them, and as they are stored.
use vstd::prelude::*;

verus! {

/// A todo item as the form submits it; `date` is the Unix timestamp of the
/// chosen day's midnight (UTC).
#[derive(Debug)]
pub struct TodoItemRequest {
    pub id: i64,
    pub title: String,
    pub date: i64,
    pub user_id: i64,
}

/// A stored todo item.
#[derive(Debug)]
pub struct TodoItem {
    pub id: i64,
    pub title: String,
    pub date: i64,
    pub user_id: i64,
}

} // verus!
