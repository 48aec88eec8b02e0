//! A registered user.
use vstd::prelude::*;

verus! {

/// A registered user; `password` holds the PHC string of the password's
/// hash.
#[derive(Debug)]
pub struct User {
    pub id: i32,
    pub email: String,
    pub password: String,
    pub created_at: i64,
}

} // verus!
