//! Checking, while the form is filled in, whether an email address is
//! taken.
use vstd::prelude::*;
use vstd::string::StringExecFns;

use crate::routes::auth::register::register::registration_errors;

verus! {

/// The query of the email check.
pub struct EmailForm {
    pub email: String,
}

/// Answers the email check, given how many users have the address: 400
/// with an error line when it is taken, else 200 with an empty one.
pub fn register_email_validate(email_count: i64) -> (reply: (u16, String))
    ensures
        email_count > 0 ==> reply.0 == 400 && reply.1@ == "<p class=\"text-error\">Email already exists</p>"@,
        email_count <= 0 ==> reply.0 == 200 && reply.1@ == "<p class=\"text-error\"></p>"@,
{
    if email_count > 0 {
        return (400, String::from_str("<p class=\"text-error\">Email already exists</p>"));
    }
    (200, String::from_str("<p class=\"text-error\"></p>"))
}

/// Law: the check while typing refuses exactly the addresses that the
/// registration itself refuses as taken: the registration errors name the
/// `email` field exactly when some user has the address, whatever the
/// passwords.
pub proof fn law_email_check_agrees_with_registration(
    password: Seq<char>,
    password2: Seq<char>,
    email_count: int,
)
    ensures
        registration_errors(password, password2, email_count).contains_key("email"@) <==> email_count
            > 0,
{
    reveal_strlit("email");
    reveal_strlit("password2");
    assert("email"@ != "password2"@) by {
        assert("email"@.len() != "password2"@.len());
    }
}

} // verus!
