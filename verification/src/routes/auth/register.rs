//! Registering a new user.
pub mod register;
pub mod register_email_validate;
