//! Registering with an email address and a password typed twice.
use vstd::prelude::*;
use vstd::string::StringExecFns;

use crate::fields::FieldMap;
use crate::models::user::User;
use crate::passwords::{argon2_hash_with_fresh_salt, max_password_chars, password_admitted};
use crate::routes::auth::login::{login_outcome, LoginForm, LoginReply};

verus! {

/// The registration form.
pub struct RegisterForm {
    pub email: String,
    pub password: String,
    pub password2: String,
}

/// The errors a registration is refused with: the two passwords differ,
/// and the email address is taken.
pub open spec fn registration_errors(password: Seq<char>, password2: Seq<char>, email_count: int) -> Map<
    Seq<char>,
    Seq<char>,
> {
    let mismatch = if password != password2 {
        Map::empty().insert("password2"@, "Passwords do not match"@)
    } else {
        Map::empty()
    };
    if email_count > 0 {
        mismatch.insert("email"@, "Email already exists"@)
    } else {
        mismatch
    }
}

/// The values the form is shown again with.
pub open spec fn registration_values(form: RegisterForm) -> Map<Seq<char>, Seq<char>> {
    map!["email"@ => form.email@, "password"@ => form.password@, "password2"@ => form.password2@]
}

/// The errors shown when the new user could not be stored.
pub open spec fn storage_errors() -> Map<Seq<char>, Seq<char>> {
    map!["general"@ => "Could not create user"@]
}

/// What a registration leads to before anything is stored.
pub enum RegisterReply {
    /// `status` (400), with the form shown again with its errors and values.
    Invalid { status: u16, errors: FieldMap, values: FieldMap },
    /// The user to store: the row that the registration adds.
    Create { user: User },
}

/// What a registration leads to once the user was, or was not, stored.
pub enum RegisterDone {
    /// 500, with the form shown again with the storage error and its
    /// values.
    Failed { errors: FieldMap, values: FieldMap },
    /// 200, with the `alert_success` block of the form's template.
    Created,
}

impl RegisterDone {
    pub fn status(&self) -> (code: u16)
        ensures
            code == (match self {
                RegisterDone::Failed { .. } => 500u16,
                RegisterDone::Created => 200u16,
            }),
    {
        match self {
            RegisterDone::Failed { .. } => 500,
            RegisterDone::Created => 200,
        }
    }
}

/// The errors of a registration, given how many users have its email
/// address.
pub fn register_errors(form: &RegisterForm, email_count: i64) -> (errors: FieldMap)
    ensures
        errors@ == registration_errors(form.password@, form.password2@, email_count as int),
        errors@.contains_key("password2"@) <==> form.password@ != form.password2@,
        errors@.contains_key("email"@) <==> email_count > 0,
{
    let mut errors = FieldMap::new();
    if form.password != form.password2 {
        errors.insert(String::from_str("password2"), String::from_str("Passwords do not match"));
    }
    if email_count > 0 {
        errors.insert(String::from_str("email"), String::from_str("Email already exists"));
    }
    proof {
        assert(errors@ =~= registration_errors(form.password@, form.password2@, email_count as int));
        lemma_error_fields_distinct();
    }
    errors
}

/// The values of the form, by field name.
pub fn register_values(form: &RegisterForm) -> (values: FieldMap)
    ensures
        values@ == registration_values(*form),
{
    let mut values = FieldMap::new();
    values.insert(String::from_str("email"), form.email.clone());
    values.insert(String::from_str("password"), form.password.clone());
    values.insert(String::from_str("password2"), form.password2.clone());
    proof {
        assert(values@ =~= registration_values(*form));
    }
    values
}

/// The user a registration creates, given the PHC string of its password's
/// hash and the time of registration: the id is 0 until stored.
pub fn registered_user(form: &RegisterForm, password_hash: String, now: i64) -> (user: User)
    ensures
        user.id == 0,
        user.email@ == form.email@,
        user.password == password_hash,
        user.created_at == now,
{
    User { id: 0, email: form.email.clone(), password: password_hash, created_at: now }
}

/// What a registration is answered, given how many users already have its
/// email address and the time of registration: with errors, 400 and the
/// form again with its errors and values; without, and with a password
/// Argon2 can take, the user to store, with the form's email address, the
/// time as its creation time, and a password hash that admits the form's
/// password. `None` stands only where hashing failed.
pub open spec fn register_outcome(form: RegisterForm, email_count: int, now: int, reply: Option<RegisterReply>) -> bool {
    let errors = registration_errors(form.password@, form.password2@, email_count);
    if errors != Map::<Seq<char>, Seq<char>>::empty() {
        reply matches Some(RegisterReply::Invalid { status, errors: e, values }) && status == 400
            && e@ == errors && values@ == registration_values(form)
    } else {
        &&& form.password@.len() <= max_password_chars() ==> reply is Some
        &&& reply matches Some(r) ==> (r matches RegisterReply::Create { user } && user.id == 0
            && user.email@ == form.email@ && user.created_at == now && password_admitted(
            form.password@,
            user.password@,
        ))
    }
}

/// Answers a registration, given how many users already have its email
/// address and the time of registration (see `register_outcome`). The
/// password is hashed with a fresh random salt.
pub fn register_post(form: &RegisterForm, email_count: i64, now: i64) -> (reply: Option<RegisterReply>)
    ensures
        register_outcome(*form, email_count as int, now as int, reply),
        form.password@ != form.password2@ ==> (reply matches Some(RegisterReply::Invalid { status, errors, values })
            && status == 400 && errors@.contains_key("password2"@) && errors@["password2"@]
            == "Passwords do not match"@ && values@ == registration_values(*form)),
        email_count > 0 ==> (reply matches Some(RegisterReply::Invalid { status, errors, .. }) && status
            == 400 && errors@.contains_key("email"@) && errors@["email"@] == "Email already exists"@),
        reply matches Some(RegisterReply::Create { .. }) ==> form.password@ == form.password2@
            && email_count <= 0,
{
    let errors = register_errors(form, email_count);
    proof {
        lemma_error_fields_distinct();
    }
    if !errors.is_empty() {
        let values = register_values(form);
        return Some(RegisterReply::Invalid { status: 400, errors, values });
    }
    match argon2_hash_with_fresh_salt(form.password.as_str()) {
        Some(password_hash) => Some(RegisterReply::Create { user: registered_user(form, password_hash, now) }),
        None => None,
    }
}

/// The answer once storing the new user succeeded or failed.
pub fn register_insert_reply(form: &RegisterForm, inserted: bool) -> (done: RegisterDone)
    ensures
        inserted ==> done is Created,
        !inserted ==> (done matches RegisterDone::Failed { errors, values } && errors@ == storage_errors()
            && values@ == registration_values(*form)),
{
    if inserted {
        RegisterDone::Created
    } else {
        let mut errors = FieldMap::new();
        errors.insert(String::from_str("general"), String::from_str("Could not create user"));
        proof {
            assert(errors@ =~= storage_errors());
        }
        RegisterDone::Failed { errors, values: register_values(form) }
    }
}

proof fn lemma_error_fields_distinct()
    ensures
        "password2"@ != "email"@,
        "password2"@ != "general"@,
        "email"@ != "general"@,
{
    reveal_strlit("password2");
    reveal_strlit("email");
    reveal_strlit("general");
    assert("password2"@[0] != "email"@[0]);
    assert("password2"@[0] != "general"@[0]);
    assert("email"@[0] != "general"@[0]);
}

/// Law: the two typed passwords must agree character for character. The
/// error for the confirmation field is there exactly when the password and
/// its confirmation differ as sequences of characters (case counts), with
/// the message "Passwords do not match"; the error for the email field is
/// there exactly when the address is taken; nothing else is reported.
pub proof fn law_password_mismatch_exactly_when_passwords_differ(
    password: Seq<char>,
    password2: Seq<char>,
    email_count: int,
)
    ensures
        registration_errors(password, password2, email_count).contains_key("password2"@) <==> password
            != password2,
        password != password2 ==> registration_errors(password, password2, email_count)["password2"@]
            == "Passwords do not match"@,
        registration_errors(password, password2, email_count).contains_key("email"@) <==> email_count > 0,
        email_count > 0 ==> registration_errors(password, password2, email_count)["email"@]
            == "Email already exists"@,
        forall|k: Seq<char>| #[trigger]
            registration_errors(password, password2, email_count).contains_key(k) ==> k == "password2"@
                || k == "email"@,
{
    lemma_error_fields_distinct();
}

/// Law: no user is created when the two typed passwords differ, or when the
/// email address is taken: whatever the time and hashing give, the reply is
/// 400 with the form again.
pub proof fn law_no_user_unless_passwords_match(
    form: RegisterForm,
    email_count: int,
    now: int,
    reply: Option<RegisterReply>,
)
    requires
        register_outcome(form, email_count, now, reply),
        form.password@ != form.password2@ || email_count > 0,
    ensures
        reply matches Some(RegisterReply::Invalid { status, values, .. }) && status == 400 && values@
            == registration_values(form),
{
    law_password_mismatch_exactly_when_passwords_differ(form.password@, form.password2@, email_count);
    let errors = registration_errors(form.password@, form.password2@, email_count);
    if form.password@ != form.password2@ {
        assert(errors.contains_key("password2"@));
    } else {
        assert(errors.contains_key("email"@));
    }
    assert(errors != Map::<Seq<char>, Seq<char>>::empty());
}

/// Law: a user created by a registration signs in with the password it was
/// registered with: whatever `register_post` creates, `login_post` with the
/// same password and that stored user answers by signing that user in.
pub proof fn law_registered_user_signs_in(
    form: RegisterForm,
    email_count: int,
    now: int,
    user: User,
    login: LoginForm,
    reply: Option<LoginReply>,
)
    requires
        register_outcome(form, email_count, now, Some(RegisterReply::Create { user })),
        login.password@ == form.password@,
        login_outcome(login.password@, Some(user), reply),
    ensures
        reply matches Some(LoginReply::SignedIn { user: signed_in, location }) && signed_in == user
            && location@ == "/"@,
{
}

} // verus!
