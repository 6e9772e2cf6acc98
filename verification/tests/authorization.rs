use showsk_rs::authorization::{check_hash, AuthorizationError, UserCredentials};
use showsk_rs::domain::PassHash;

fn creds(password: &str) -> UserCredentials {
    UserCredentials { username: String::from("goodboy420"), password: String::from(password) }
}

fn stored_hash(password: &str) -> String {
    PassHash::parse(String::from(password), String::from(password))
        .unwrap()
        .as_ref()
        .to_owned()
}

#[test]
fn registered_password_logs_in() {
    let hash = stored_hash("password89!");
    let uid: u128 = 0x1234_5678_9abc_def0_1234_5678_9abc_def0;
    assert_eq!(creds("password89!").validate_credentials(Ok(Some((uid, hash)))), Ok(uid));
}

#[test]
fn wrong_password_is_refused() {
    let hash = stored_hash("password89!");
    assert_eq!(
        creds("wrong_password").validate_credentials(Ok(Some((7, hash)))),
        Err(AuthorizationError::IncorrectPassword)
    );
    assert_eq!(
        creds("").validate_credentials(Ok(Some((7, stored_hash("password89!"))))),
        Err(AuthorizationError::IncorrectPassword)
    );
}

#[test]
fn unknown_user_is_refused_as_incorrect_password() {
    assert_eq!(
        creds("password89!").validate_credentials(Ok(None)),
        Err(AuthorizationError::IncorrectPassword)
    );
}

#[test]
fn unreadable_stored_hash_refuses_the_password() {
    assert_eq!(
        creds("password89!").validate_credentials(Ok(Some((7, String::from("garbage"))))),
        Err(AuthorizationError::IncorrectPassword)
    );
}

#[test]
fn failed_lookup_is_a_system_error() {
    assert_eq!(
        creds("password89!").validate_credentials(Err(String::from("db down"))),
        Err(AuthorizationError::SystemError(String::from("db down")))
    );
}

#[test]
fn check_hash_answers() {
    let hash = stored_hash("heLl01!3 2");
    assert_eq!(check_hash(&hash, "heLl01!3 2"), Ok(true));
    assert_eq!(check_hash(&hash, "heLl01!3 3"), Ok(false));
    assert_eq!(check_hash("", "heLl01!3 2"), Err(AuthorizationError::IncorrectPassword));
}

#[test]
fn authorization_error_messages() {
    assert_eq!(
        AuthorizationError::IncorrectPassword.message(),
        "Password attempt failed: Incorrect password"
    );
    assert_eq!(AuthorizationError::IncorrectUsername.message(), "Error fetching username");
    assert_eq!(
        AuthorizationError::SystemError(String::from("x")).message(),
        "Password attempt failed: System error"
    );
}
