//! Signing in, signing out and registering.
pub mod login;
pub mod logout;
pub mod register;
