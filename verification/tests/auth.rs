use rath_demo::fields::FieldMap;
use rath_demo::models::user::User;
use rath_demo::routes::auth::login::{login_post, LoginForm, LoginReply};
use rath_demo::routes::auth::logout::logout;
use rath_demo::routes::auth::register::register::{
    register_errors, register_insert_reply, register_post, register_values, registered_user,
    RegisterDone, RegisterForm, RegisterReply,
};
use rath_demo::routes::auth::register::register_email_validate::register_email_validate;

fn pairs(map: &FieldMap) -> Vec<(String, String)> {
    map.pairs().clone()
}

fn form(email: &str, password: &str, password2: &str) -> RegisterForm {
    RegisterForm { email: email.to_string(), password: password.to_string(), password2: password2.to_string() }
}

fn stored_user(email: &str, password: &str) -> User {
    match register_post(&form(email, password, password), 0, 1700000000) {
        Some(RegisterReply::Create { user }) => user,
        _ => panic!("registration should create the user"),
    }
}

#[test]
fn registration_refuses_mismatched_passwords() {
    match register_post(&form("a@b.c", "secret1", "secret2"), 0, 1700000000) {
        Some(RegisterReply::Invalid { status, errors, values }) => {
            assert_eq!(status, 400);
            assert_eq!(pairs(&errors), vec![("password2".to_string(), "Passwords do not match".to_string())]);
            assert_eq!(
                pairs(&values),
                vec![
                    ("email".to_string(), "a@b.c".to_string()),
                    ("password".to_string(), "secret1".to_string()),
                    ("password2".to_string(), "secret2".to_string()),
                ]
            );
        }
        _ => panic!("expected the form again"),
    }
}

#[test]
fn registration_refuses_taken_email() {
    match register_post(&form("a@b.c", "secret", "secret"), 1, 1700000000) {
        Some(RegisterReply::Invalid { status, errors, .. }) => {
            assert_eq!(status, 400);
            assert_eq!(pairs(&errors), vec![("email".to_string(), "Email already exists".to_string())]);
        }
        _ => panic!("expected the form again"),
    }
    let errors = register_errors(&form("a@b.c", "x", "y"), 3);
    assert_eq!(
        pairs(&errors),
        vec![
            ("password2".to_string(), "Passwords do not match".to_string()),
            ("email".to_string(), "Email already exists".to_string()),
        ]
    );
    assert!(register_errors(&form("a@b.c", "x", "x"), 0).is_empty());
}

#[test]
fn registration_creates_user_with_hashed_password() {
    let user = stored_user("new@user.io", "hunter22");
    assert_eq!(user.id, 0);
    assert_eq!(user.created_at, 1700000000);
    assert_eq!(user.email, "new@user.io");
    assert_ne!(user.password, "hunter22");
    assert!(user.password.starts_with("$argon2id$"));
}

#[test]
fn registered_user_signs_in() {
    let user = stored_user("new@user.io", "hunter22");
    let password_hash = user.password.clone();
    let login = LoginForm { email: "new@user.io".to_string(), password: "hunter22".to_string() };
    match login_post(&login, Some(user)) {
        Some(LoginReply::SignedIn { user, location }) => {
            assert_eq!(location, "/");
            assert_eq!(user.email, "new@user.io");
            assert_eq!(user.password, password_hash);
        }
        _ => panic!("the registered password should sign in"),
    }
}

#[test]
fn each_registration_gets_its_own_salt() {
    let a = stored_user("new@user.io", "hunter22");
    let b = stored_user("new@user.io", "hunter22");
    assert_ne!(a.password, b.password);
}

#[test]
fn wrong_password_is_refused() {
    let user = stored_user("new@user.io", "hunter22");
    let login = LoginForm { email: "new@user.io".to_string(), password: "hunter23".to_string() };
    let reply = login_post(&login, Some(user)).unwrap();
    assert_eq!(reply.status(), 401);
    match reply {
        LoginReply::Unauthorized { errors } => {
            assert_eq!(pairs(&errors), vec![("general".to_string(), "Invalid email or password".to_string())]);
        }
        _ => panic!("expected a refusal"),
    }
}

#[test]
fn unknown_user_is_refused_alike() {
    let login = LoginForm { email: "nobody@x.y".to_string(), password: "pw".to_string() };
    let reply = login_post(&login, None).unwrap();
    assert_eq!(reply.status(), 401);
    match reply {
        LoginReply::Unauthorized { errors } => {
            assert_eq!(pairs(&errors), vec![("general".to_string(), "Invalid email or password".to_string())]);
        }
        _ => panic!("expected a refusal"),
    }
}

#[test]
fn malformed_stored_hash_gives_no_answer() {
    let user = registered_user(&form("a@b.c", "pw", "pw"), "not a phc string".to_string(), 0);
    let login = LoginForm { email: "a@b.c".to_string(), password: "pw".to_string() };
    assert!(login_post(&login, Some(user)).is_none());
}

#[test]
fn insert_outcome() {
    let f = form("a@b.c", "pw", "pw");
    let done = register_insert_reply(&f, true);
    assert_eq!(done.status(), 200);
    assert!(matches!(done, RegisterDone::Created));
    let done = register_insert_reply(&f, false);
    assert_eq!(done.status(), 500);
    match done {
        RegisterDone::Failed { errors, values } => {
            assert_eq!(pairs(&errors), vec![("general".to_string(), "Could not create user".to_string())]);
            assert_eq!(pairs(&values), pairs(&register_values(&f)));
        }
        _ => panic!("expected the storage error"),
    }
}

#[test]
fn email_check() {
    assert_eq!(register_email_validate(1), (400, "<p class=\"text-error\">Email already exists</p>".to_string()));
    assert_eq!(register_email_validate(0), (200, "<p class=\"text-error\"></p>".to_string()));
}

#[test]
fn email_check_agrees_with_registration() {
    for count in [0i64, 1, 5] {
        let (status, _) = register_email_validate(count);
        let errors = register_errors(&form("a@b.c", "x", "x"), count);
        assert_eq!(status == 400, !errors.is_empty());
    }
}

#[test]
fn logout_goes_to_login() {
    assert_eq!(logout(), ("/login".to_string(), String::new()));
}
