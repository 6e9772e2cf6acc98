use showsk_rs::authorization::{AuthorizationError, UserCredentials};
use showsk_rs::domain::PassHash;
use showsk_rs::routes::{logged_in_user, decide_login, login_form_errors, session_failure, FlashLevel, LoginAction, LoginError};

#[test]
fn successful_login_goes_to_dashboard() {
    let a = decide_login(Ok(42));
    assert_eq!(a, LoginAction::StartSession(42));
    assert_eq!(a.location(), "/admin/dashboard");
}

#[test]
fn wrong_credentials_show_incorrect_login() {
    for e in [AuthorizationError::IncorrectUsername, AuthorizationError::IncorrectPassword] {
        let a = decide_login(Err(e.clone()));
        assert_eq!(a.location(), "/login");
        match a {
            LoginAction::Refuse(le) => {
                assert_eq!(le, LoginError::IncorrectLogin(e));
                assert_eq!(le.message(), "Username and password are incorrect");
            }
            _ => panic!("login was not refused"),
        }
    }
}

#[test]
fn system_errors_show_something_went_wrong() {
    let a = decide_login(Err(AuthorizationError::SystemError(String::from("db"))));
    assert_eq!(
        a,
        LoginAction::Refuse(LoginError::SystemError(String::from(
            "Password attempt failed: System error"
        )))
    );
    let b = session_failure(String::from("serialize"));
    assert_eq!(b, LoginAction::Refuse(LoginError::SystemError(String::from("serialize"))));
    match b {
        LoginAction::Refuse(le) => assert_eq!(le.message(), "Something went wrong"),
        _ => panic!("login was not refused"),
    }
}

#[test]
fn login_scenarios_end_to_end() {
    let hash = PassHash::parse(String::from("password89!"), String::from("password89!"))
        .unwrap()
        .as_ref()
        .to_owned();
    let good = UserCredentials { username: String::from("goodboy420"), password: String::from("password89!") };
    assert_eq!(decide_login(good.validate_credentials(Ok(Some((5, hash.clone()))))).location(), "/admin/dashboard");
    let missing_user = UserCredentials { username: String::new(), password: String::from("password89!") };
    assert_eq!(decide_login(missing_user.validate_credentials(Ok(None))).location(), "/login");
    let missing_password = UserCredentials { username: String::from("goodboy420"), password: String::new() };
    assert_eq!(decide_login(missing_password.validate_credentials(Ok(Some((5, hash.clone()))))).location(), "/login");
    let wrong = UserCredentials { username: String::from("goodboy420"), password: String::from("wrong_password") };
    assert_eq!(decide_login(wrong.validate_credentials(Ok(Some((5, hash))))).location(), "/login");
}

#[test]
fn login_form_shows_only_error_messages_in_order() {
    let msgs = vec![
        (FlashLevel::Info, String::from("hi")),
        (FlashLevel::Error, String::from("Username and password are incorrect")),
        (FlashLevel::Warning, String::from("careful")),
        (FlashLevel::Error, String::from("Something went wrong")),
        (FlashLevel::Success, String::from("ok")),
        (FlashLevel::Debug, String::from("dbg")),
    ];
    assert_eq!(
        login_form_errors(&msgs),
        vec![
            String::from("Username and password are incorrect"),
            String::from("Something went wrong")
        ]
    );
    assert!(login_form_errors(&Vec::new()).is_empty());
}

#[test]
fn only_logged_in_users_get_in() {
    assert_eq!(logged_in_user(Some(9)), Ok(9));
    assert_eq!(logged_in_user(None), Err(String::from("/login")));
}
