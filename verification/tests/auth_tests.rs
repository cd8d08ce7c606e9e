use rust_chat::auth::{AuthError, Login};

fn s(x: &str) -> String {
    x.to_string()
}

#[test]
fn signup_returns_email() {
    let mut login = Login::new();
    assert_eq!(login.signup(s("ann@x"), s("pw")), Ok(s("ann@x")));
}

#[test]
fn signup_twice_is_refused() {
    let mut login = Login::new();
    assert_eq!(login.signup(s("ann@x"), s("pw")), Ok(s("ann@x")));
    assert_eq!(login.signup(s("ann@x"), s("other")), Err(AuthError::UserExists));
    // the first password still holds
    assert_eq!(login.login(s("ann@x"), s("pw")), Ok(s("ann@x")));
    assert_eq!(login.login(s("ann@x"), s("other")), Err(AuthError::InvalidPassword));
}

#[test]
fn login_unknown_user() {
    let mut login = Login::default();
    assert_eq!(login.login(s("bob@x"), s("pw")), Err(AuthError::UserNotFound));
}

#[test]
fn login_wrong_password() {
    let mut login = Login::new();
    login.signup(s("bob@x"), s("secret")).unwrap();
    assert_eq!(login.login(s("bob@x"), s("guess")), Err(AuthError::InvalidPassword));
}

#[test]
fn update_nick_then_login() {
    let mut login = Login::new();
    login.signup(s("cy@x"), s("pw")).unwrap();
    assert_eq!(login.update_nick(s("cy@x"), s("cyrus")), Ok(s("cyrus")));
    assert_eq!(login.login(s("cy@x"), s("pw")), Ok(s("cyrus")));
    assert_eq!(login.update_nick(s("cy@x"), s("cy")), Ok(s("cy")));
    assert_eq!(login.login(s("cy@x"), s("pw")), Ok(s("cy")));
}

#[test]
fn update_nick_unknown_user() {
    let mut login = Login::new();
    login.signup(s("cy@x"), s("pw")).unwrap();
    assert_eq!(login.update_nick(s("cyrus"), s("c")), Err(AuthError::UserNotFound));
    assert_eq!(login.login(s("cy@x"), s("pw")), Ok(s("cy@x")));
}

#[test]
fn accounts_are_independent() {
    let mut login = Login::new();
    login.signup(s("a"), s("1")).unwrap();
    login.signup(s("b"), s("2")).unwrap();
    login.update_nick(s("a"), s("alpha")).unwrap();
    assert_eq!(login.login(s("b"), s("2")), Ok(s("b")));
    assert_eq!(login.login(s("a"), s("1")), Ok(s("alpha")));
    assert_eq!(login.login(s("a"), s("2")), Err(AuthError::InvalidPassword));
}

#[test]
fn error_messages() {
    assert_eq!(AuthError::UserExists.message(), "User with email {email} already exists");
    assert_eq!(AuthError::UserNotFound.message(), "User not found");
    assert_eq!(AuthError::InvalidPassword.message(), "Invalid password");
}

#[test]
fn empty_strings_are_ordinary_keys() {
    let mut login = Login::new();
    assert_eq!(login.signup(s(""), s("")), Ok(s("")));
    assert_eq!(login.login(s(""), s("")), Ok(s("")));
    assert_eq!(login.signup(s(""), s("x")), Err(AuthError::UserExists));
}

#[test]
fn refused_operations_open_no_account() {
    let mut login = Login::new();
    assert_eq!(login.update_nick(s("ghost"), s("g")), Err(AuthError::UserNotFound));
    assert_eq!(login.login(s("ghost"), s("")), Err(AuthError::UserNotFound));
    assert_eq!(login.login(s("g"), s("")), Err(AuthError::UserNotFound));
}
