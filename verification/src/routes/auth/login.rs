//! Signing in with an email address and a password.
use vstd::prelude::*;
use vstd::string::StringExecFns;

use crate::fields::FieldMap;
use crate::models::user::User;
use crate::passwords::{argon2_verifies, argon2_verify_password, password_admitted, phc_string_parses};

verus! {

/// The login form.
pub struct LoginForm {
    pub email: String,
    pub password: String,
}

/// The answer to a login attempt.
pub enum LoginReply {
    /// 401, with the errors that the login form shows.
    Unauthorized { errors: FieldMap },
    /// 200 with an empty body; the user goes into the session and the
    /// browser is sent to `location`.
    SignedIn { user: User, location: String },
}

impl LoginReply {
    pub fn status(&self) -> (code: u16)
        ensures
            code == (match self {
                LoginReply::Unauthorized { .. } => 401u16,
                LoginReply::SignedIn { .. } => 200u16,
            }),
    {
        match self {
            LoginReply::Unauthorized { .. } => 401,
            LoginReply::SignedIn { .. } => 200,
        }
    }
}

/// The errors shown for a refused login; they do not tell a wrong email
/// address from a wrong password.
pub open spec fn invalid_login_errors() -> Map<Seq<char>, Seq<char>> {
    map!["general"@ => "Invalid email or password"@]
}

fn invalid_login() -> (reply: LoginReply)
    ensures
        reply matches LoginReply::Unauthorized { errors } && errors@ == invalid_login_errors(),
{
    let mut errors = FieldMap::new();
    errors.insert(String::from_str("general"), String::from_str("Invalid email or password"));
    proof {
        assert(errors@ =~= invalid_login_errors());
    }
    LoginReply::Unauthorized { errors }
}

/// What a login attempt is answered, given the typed password and the user
/// stored under the typed email address: no user, or a password that the
/// stored hash does not accept, is refused with the same errors; an
/// accepted password signs the user in and goes to `/`; a stored hash that
/// is no PHC string gives no answer.
pub open spec fn login_outcome(password: Seq<char>, user: Option<User>, reply: Option<LoginReply>) -> bool {
    match user {
        None => reply matches Some(LoginReply::Unauthorized { errors }) && errors@ == invalid_login_errors(),
        Some(u) => if !phc_string_parses(u.password@) {
            reply is None
        } else if argon2_verifies(password, u.password@) {
            reply matches Some(LoginReply::SignedIn { user, location }) && user == u && location@ == "/"@
        } else {
            reply matches Some(LoginReply::Unauthorized { errors }) && errors@ == invalid_login_errors()
        },
    }
}

/// Answers a login attempt, given the user stored under the form's email
/// address, if any (see `login_outcome`). `None` stands where no answer can
/// be given: the stored hash is no PHC string.
pub fn login_post(form: &LoginForm, user: Option<User>) -> (reply: Option<LoginReply>)
    ensures
        login_outcome(form.password@, user, reply),
        reply matches Some(LoginReply::SignedIn { user, location }) ==> password_admitted(
            form.password@,
            user.password@,
        ),
        user is Some && password_admitted(form.password@, user->Some_0.password@) ==> (reply matches Some(
            LoginReply::SignedIn { user: signed_in, location },
        ) && signed_in == user->Some_0 && location@ == "/"@),
        user matches Some(u) && phc_string_parses(u.password@) && !argon2_verifies(form.password@, u.password@)
            ==> (reply matches Some(LoginReply::Unauthorized { errors }) && errors@ == invalid_login_errors()),
        user is None ==> (reply matches Some(LoginReply::Unauthorized { errors }) && errors@
            == invalid_login_errors()),
{
    match user {
        None => Some(invalid_login()),
        Some(user) => match argon2_verify_password(form.password.as_str(), user.password.as_str()) {
            None => None,
            Some(true) => Some(LoginReply::SignedIn { user, location: String::from_str("/") }),
            Some(false) => Some(invalid_login()),
        },
    }
}

/// Law: every stored user whose PHC string parses and admits the typed
/// password is signed in, whatever its id, email address or creation time,
/// and is sent to `/`; a password that the hash does not admit, or no user
/// at all, is refused with the same errors.
pub proof fn law_admitted_password_signs_in(password: Seq<char>, user: User, reply: Option<LoginReply>)
    requires
        login_outcome(password, Some(user), reply),
    ensures
        password_admitted(password, user.password@) ==> (reply matches Some(
            LoginReply::SignedIn { user: signed_in, location },
        ) && signed_in == user && location@ == "/"@),
        phc_string_parses(user.password@) && !argon2_verifies(password, user.password@) ==> (reply matches Some(
            LoginReply::Unauthorized { errors },
        ) && errors@ == invalid_login_errors()),
{
}

/// Law: an unknown email address and a wrong password get the same answer.
pub proof fn law_refusals_look_alike(
    password: Seq<char>,
    user: User,
    wrong: Option<LoginReply>,
    unknown: Option<LoginReply>,
)
    requires
        phc_string_parses(user.password@),
        !argon2_verifies(password, user.password@),
        login_outcome(password, Some(user), wrong),
        login_outcome(password, None, unknown),
    ensures
        wrong matches Some(LoginReply::Unauthorized { errors: e1 }) && unknown matches Some(
            LoginReply::Unauthorized { errors: e2 },
        ) && e1@ == e2@ && e1@ == map!["general"@ => "Invalid email or password"@],
{
}

} // verus!
