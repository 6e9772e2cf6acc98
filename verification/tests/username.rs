use showsk_rs::domain::Username;

#[test]
pub fn valid_username() {
    let username: String = String::from("PeteyPablo322");
    assert!(Username::parse(username).is_ok());
}

#[test]
pub fn username_too_long() {
    let username: String = String::from("penis".repeat(100));
    assert!(Username::parse(username).is_err());
}

#[test]
pub fn username_contains_forbidden() {
    let username: String = String::from("pub fn hacktheplanet() -> Destruction {}");
    assert!(Username::parse(username).is_err());
}

#[test]
pub fn username_empty() {
    let username: String = String::new();
    assert!(Username::parse(username).is_err());
}

#[test]
pub fn usern_is_whitespace() {
    let username: String = String::from("      ");
    assert!(Username::parse(username).is_err());
}

#[test]
fn username_length_limit_counts_graphemes() {
    assert!(Username::parse("a".repeat(256)).is_ok());
    assert!(Username::parse("a".repeat(257)).is_err());
    // an "e" with a combining accent is one grapheme cluster of two chars
    assert!(Username::parse("e\u{301}".repeat(256)).is_ok());
}

#[test]
fn username_kept_unchanged_and_refusal_names_it() {
    let u = Username::parse(String::from("goodboy420")).unwrap();
    assert_eq!(u.as_ref(), "goodboy420");
    let err = Username::parse(String::from("fn malware(evil)->unlimitedpower{}")).unwrap_err();
    assert_eq!(err, "fn malware(evil)->unlimitedpower{} is an invalid username");
    for c in [' ', ',', '.', '(', ')', '"', '<', '>', '\\', '{', '}'] {
        assert!(Username::parse(format!("ab{}cd", c)).is_err());
    }
    assert!(Username::parse(String::from("a_b-c!d")).is_ok());
}
