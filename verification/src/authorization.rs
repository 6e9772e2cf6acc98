use crate::domain::user_password::{argon2_check, argon2_verify};
use vstd::prelude::*;
use vstd::utf8::encode_utf8;

verus! {

/// Why a login attempt was refused.
#[derive(Debug, Clone, PartialEq, Eq)]
pub enum AuthorizationError {
    IncorrectPassword,
    IncorrectUsername,
    SystemError(String),
}

pub open spec fn authorization_error_message(e: AuthorizationError) -> Seq<char> {
    match e {
        AuthorizationError::IncorrectPassword => "Password attempt failed: Incorrect password"@,
        AuthorizationError::IncorrectUsername => "Error fetching username"@,
        AuthorizationError::SystemError(_) => "Password attempt failed: System error"@,
    }
}

impl AuthorizationError {
    /// The text shown for this error.
    pub fn message(&self) -> (m: String)
        ensures
            m@ == authorization_error_message(*self),
    {
        match self {
            AuthorizationError::IncorrectPassword => "Password attempt failed: Incorrect password"
                .to_owned(),
            AuthorizationError::IncorrectUsername => "Error fetching username".to_owned(),
            AuthorizationError::SystemError(_) => "Password attempt failed: System error"
                .to_owned(),
        }
    }
}

/// A login attempt: the username and password the user typed.
pub struct UserCredentials {
    pub username: String,
    pub password: String,
}

/// What a login attempt comes to, given the password typed and what the lookup of the
/// username found: no user, or the user's id and stored PHC string. The stored string
/// (empty when no user was found) is parsed first, and a string that does not parse refuses
/// the password; only then does a missing user count.
pub open spec fn login_outcome(password: Seq<char>, found: Option<(u128, Seq<char>)>) -> Result<
    u128,
    AuthorizationError,
> {
    let expected = match found {
        Some((_, h)) => h,
        None => Seq::empty(),
    };
    match argon2_check(encode_utf8(password), expected) {
        None => Err(AuthorizationError::IncorrectPassword),
        Some(ok) => match found {
            None => Err(AuthorizationError::IncorrectUsername),
            Some((uid, _)) => if ok {
                Ok(uid)
            } else {
                Err(AuthorizationError::IncorrectPassword)
            },
        },
    }
}

/// The view of a lookup result: the stored hash by its view.
pub open spec fn found_view(found: Option<(u128, String)>) -> Option<(u128, Seq<char>)> {
    match found {
        None => None,
        Some((uid, h)) => Some((uid, h@)),
    }
}

/// A hash that verifies against the password lets that user in, under the id stored
/// with it: what registration stores, login accepts.
pub proof fn lemma_matching_password_logs_in(password: Seq<char>, uid: u128, hash: Seq<char>)
    requires
        argon2_check(encode_utf8(password), hash) == Some(true),
    ensures
        login_outcome(password, Some((uid, hash))) == Ok::<u128, AuthorizationError>(uid),
{
}

/// A login succeeds only for a user that was found, under that user's id, and only when
/// the typed password verifies against that user's stored hash.
pub proof fn lemma_login_success_needs_matching_password(
    password: Seq<char>,
    found: Option<(u128, Seq<char>)>,
    uid: u128,
)
    requires
        login_outcome(password, found) == Ok::<u128, AuthorizationError>(uid),
    ensures
        found matches Some((id, h)) && id == uid && argon2_check(encode_utf8(password), h) == Some(
            true,
        ),
{
}

/// Checks the typed password `test` against the PHC string `expected`; a string that is not
/// a PHC string refuses the password.
pub fn check_hash(expected: &str, test: &str) -> (res: Result<bool, AuthorizationError>)
    ensures
        match argon2_check(encode_utf8(test@), expected@) {
            Some(b) => res == Ok::<bool, AuthorizationError>(b),
            None => res == Err::<bool, AuthorizationError>(AuthorizationError::IncorrectPassword),
        },
        expected@.len() == 0 ==> res == Err::<bool, AuthorizationError>(
            AuthorizationError::IncorrectPassword,
        ),
{
    match argon2_verify(test.as_bytes(), expected) {
        Some(b) => Ok(b),
        None => Err(AuthorizationError::IncorrectPassword),
    }
}

impl UserCredentials {
    /// Decides a login attempt from what the lookup of `self.username` gave: the user id
    /// when the password matches the stored hash, else the reason for the refusal. A failed
    /// lookup is a `SystemError` that carries the lookup's message.
    pub fn validate_credentials(&self, stored: Result<Option<(u128, String)>, String>) -> (res:
        Result<u128, AuthorizationError>)
        ensures
            match stored {
                Err(m) => res == Err::<u128, AuthorizationError>(
                    AuthorizationError::SystemError(m),
                ),
                Ok(found) => res == login_outcome(self.password@, found_view(found)),
            },
            stored == Ok::<Option<(u128, String)>, String>(None) ==> res == Err::<
                u128,
                AuthorizationError,
            >(AuthorizationError::IncorrectPassword),
    {
        let mut user_id: Option<u128> = None;
        let mut expected_password_string = String::new();
        match stored {
            Err(m) => {
                return Err(AuthorizationError::SystemError(m));
            },
            Ok(found) => {
                if let Some((uid, pwd)) = found {
                    user_id = Some(uid);
                    expected_password_string = pwd;
                }
            },
        }
        let checked = check_hash(expected_password_string.as_str(), self.password.as_str());
        match checked {
            Err(e) => Err(e),
            Ok(ok) => match user_id {
                Some(uid) => if ok {
                    Ok(uid)
                } else {
                    Err(AuthorizationError::IncorrectPassword)
                },
                None => Err(AuthorizationError::IncorrectUsername),
            },
        }
    }
}

} // verus!
