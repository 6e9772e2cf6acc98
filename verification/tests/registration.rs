use showsk_rs::domain::{NewUser, PassHash};
use showsk_rs::routes::{NewUserError, NewUserForm};

fn form(username: &str, email: &str, password: &str, password_ver: &str) -> NewUserForm {
    NewUserForm {
        username: String::from(username),
        email: String::from(email),
        password: String::from(password),
        password_ver: String::from(password_ver),
    }
}

#[test]
fn valid_registration_is_accepted() {
    let u = form("goodboy420", "gooboy@hotmail.com", "password89!", "password89!")
        .into_new_user()
        .unwrap();
    assert_eq!(u.username.as_ref(), "goodboy420");
    assert_eq!(u.email.as_ref(), "gooboy@hotmail.com");
    assert_eq!(PassHash::check_hash(u.hashed_password.as_ref(), b"password89!"), Ok(true));
}

#[test]
fn missing_fields_are_bad_requests() {
    let cases = [
        form("", "goodboy420@hotmail.com", "password89!", "password89!"),
        form("goodboy420", "", "password89!", "password89!"),
        form("goodboy420", "goodboy420@hotmail.com", "", "password89!"),
        form("goodboy420", "goodboy420@hotmail.com", "password89!", ""),
    ];
    for f in cases {
        let e = f.into_new_user().unwrap_err();
        assert_eq!(e, NewUserError::ParseError);
        assert_eq!(e.status_code(), 400);
    }
}

#[test]
fn invalid_fields_are_bad_requests() {
    let cases = [
        form("fn malware(evil)->unlimitedpower{}", "goodboy420@hotmail.com", "password89!", "password89!"),
        form("goodboy420", "thisisnotapassword.com", "password89!", "password89!"),
        form("goodboy420", "goodboy420@hotmail.com", "pass", "pass"),
        form("goodboy420", "goodboy420@hotmail.com", "password89!", "pass"),
    ];
    for f in cases {
        assert_eq!(f.into_new_user().unwrap_err().status_code(), 400);
    }
}

#[test]
fn first_failing_check_names_the_refusal() {
    let e = NewUser::new(
        String::from("bad"),
        String::from("bad name"),
        String::from("x"),
        String::from("y"),
    )
    .unwrap_err();
    assert_eq!(e, "bad name is an invalid username");
    let e = NewUser::new(
        String::from("bad"),
        String::from("goodname"),
        String::from("x"),
        String::from("y"),
    )
    .unwrap_err();
    assert_eq!(e, "bad is not a valid email");
    let e = NewUser::new(
        String::from("a@b.com"),
        String::from("goodname"),
        String::from("x"),
        String::from("y"),
    )
    .unwrap_err();
    assert_eq!(e, "Passwords dont match");
    let e = NewUser::new(
        String::from("a@b.com"),
        String::from("goodname"),
        String::from("x"),
        String::from("x"),
    )
    .unwrap_err();
    assert_eq!(e, "Password does not meet requirements");
}

#[test]
fn new_user_error_codes() {
    assert_eq!(NewUserError::QueryError.status_code(), 500);
    assert_eq!(NewUserError::ParseError.status_code(), 400);
    assert_eq!(NewUserError::QueryError.message(), "An internal error occured. Please try again later");
    assert_eq!(NewUserError::ParseError.message(), "Error parsing submitted fields");
}
