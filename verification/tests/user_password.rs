use showsk_rs::domain::{PassHash, PasswordError};

#[test]
fn valid_password_verify_hash() {
    let password: String = String::from("heLl01!3 2");
    let password_ver: String = String::from("heLl01!3 2");
    assert!(PassHash::parse(password.clone(), password_ver.clone()).is_ok());

    let hash = PassHash::parse(password.clone(), password_ver.clone()).unwrap();
    assert!(PassHash::check_hash(hash.as_ref(), password.as_bytes()).is_ok());
}

#[test]
fn missing_special_char() {
    let password: String = String::from("password");
    assert!(PassHash::parse(password.clone(), password).is_err());
}

#[test]
fn all_white_space() {
    let password: String = String::from("         ");
    assert!(PassHash::parse(password.clone(), password).is_err());
}

#[test]
fn empty_string() {
    let password: String = String::from("");
    assert!(PassHash::parse(password.clone(), password).is_err());
}

#[test]
fn password_too_long() {
    let password: String = String::from("a".repeat(1001));
    assert!(PassHash::parse(password.clone(), password).is_err());
}

#[test]
fn password_ver_no_match() {
    let password: String = String::from("he223 12!");
    let password_ver: String = String::from("hello");
    assert!(PassHash::parse(password, password_ver).is_err());
}

#[test]
fn stored_hash_verifies_only_the_same_password() {
    let hash = PassHash::parse(String::from("password89!"), String::from("password89!")).unwrap();
    assert!(hash.as_ref().starts_with("$argon2"));
    assert_eq!(PassHash::check_hash(hash.as_ref(), b"password89!"), Ok(true));
    assert_eq!(PassHash::check_hash(hash.as_ref(), b"password89?"), Ok(false));
    assert_eq!(PassHash::check_hash("not a hash", b"password89!"), Err(PasswordError::SystemError));
    assert_eq!(PassHash::check_hash("", b"password89!"), Err(PasswordError::SystemError));
}

#[test]
fn password_errors_in_order() {
    // a mismatch is reported even when the password is also too weak
    assert_eq!(
        PassHash::parse(String::from("pass"), String::from("pas")).unwrap_err(),
        PasswordError::PasswordVerFail
    );
    assert_eq!(
        PassHash::parse(String::from("pass"), String::from("pass")).unwrap_err(),
        PasswordError::InvalidPassword
    );
    // seven chars with a special char: too short
    assert_eq!(
        PassHash::parse(String::from("abcde!f"), String::from("abcde!f")).unwrap_err(),
        PasswordError::InvalidPassword
    );
    assert!(PassHash::parse(String::from("abcdef!g"), String::from("abcdef!g")).is_ok());
    let long = format!("{}!", "a".repeat(999));
    assert!(PassHash::parse(long.clone(), long).is_ok());
    let too_long = format!("{}!", "a".repeat(1000));
    assert_eq!(
        PassHash::parse(too_long.clone(), too_long).unwrap_err(),
        PasswordError::InvalidPassword
    );
}

#[test]
fn same_salt_gives_same_hash() {
    let salt = "c29tZXNhbHR2YWx1ZTEyMw";
    let a = PassHash::parse_with_salt(String::from("hunter42!"), String::from("hunter42!"), salt)
        .unwrap();
    let b = PassHash::parse_with_salt(String::from("hunter42!"), String::from("hunter42!"), salt)
        .unwrap();
    assert_eq!(a.as_ref(), b.as_ref());
    assert!(a.as_ref().contains(salt));
    assert_eq!(PassHash::check_hash(a.as_ref(), b"hunter42!"), Ok(true));
    // an invalid salt makes hashing fail
    assert_eq!(
        PassHash::parse_with_salt(String::from("hunter42!"), String::from("hunter42!"), "$$")
            .unwrap_err(),
        PasswordError::SystemError
    );
}

#[test]
fn password_error_messages() {
    assert_eq!(PasswordError::InvalidPassword.message(), "Password does not meet requirements");
    assert_eq!(PasswordError::PasswordVerFail.message(), "Passwords dont match");
    assert_eq!(PasswordError::SystemError.message(), "Error generating random numbers");
}

#[test]
fn valid_passwords_always_hash() {
    for pw in ["pass wd1", "heLl01!3 2", "password89!", "!!!!!!!!"] {
        let h = PassHash::parse(String::from(pw), String::from(pw)).unwrap();
        assert_eq!(PassHash::check_hash(h.as_ref(), pw.as_bytes()), Ok(true));
        assert!(PassHash::check_hash(h.as_ref(), b"something else").is_ok());
    }
    let limit = "!".repeat(1000);
    assert!(PassHash::parse(limit.clone(), limit).is_ok());
    let over = "!".repeat(1001);
    assert_eq!(PassHash::parse(over.clone(), over).unwrap_err(), PasswordError::InvalidPassword);
    let wide = format!("{}!", "\u{e9}".repeat(999));
    assert!(PassHash::parse(wide.clone(), wide).is_ok());
    let short = format!("{}!", "\u{e9}".repeat(4));
    assert_eq!(PassHash::parse(short.clone(), short).unwrap_err(), PasswordError::InvalidPassword);
}
