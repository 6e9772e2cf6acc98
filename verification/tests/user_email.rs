use showsk_rs::domain::UserEmail;

#[test]
fn email_is_valid() {
    let email: String = String::from("thisis.anemail@email.com");
    assert!(UserEmail::parse(email).is_ok());
}

#[test]
fn email_missing_at_sign() {
    let email: String = String::from("thisemail.com");
    assert!(UserEmail::parse(email).is_err());
}

#[test]
fn email_missing_domain() {
    let email: String = String::from("thisemail");
    assert!(UserEmail::parse(email).is_err());
}

#[test]
fn email_missing_user() {
    let email: String = String::from("@fakemail.com");
    assert!(UserEmail::parse(email).is_err());
}

#[test]
fn email_invalid_whitespace() {
    let email: String = String::from("      ");
    assert!(UserEmail::parse(email).is_err());
}

#[test]
fn email_invalid_empty() {
    let email: String = String::from("");
    assert!(UserEmail::parse(email).is_err());
}

#[test]
fn email_kept_unchanged_and_refusal_names_it() {
    let ok = UserEmail::parse(String::from("gooboy@hotmail.com")).unwrap();
    assert_eq!(ok.as_ref(), "gooboy@hotmail.com");
    let err = UserEmail::parse(String::from("thisisnotapassword.com")).unwrap_err();
    assert_eq!(err, "thisisnotapassword.com is not a valid email");
}
