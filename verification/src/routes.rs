//! What the application's routes answer, given what was read from the
//! request, the session and the database.
pub mod auth;
pub mod error_404;
pub mod todos;
