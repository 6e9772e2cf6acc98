use crate::domain::user_email::{email_is_valid, invalid_email_message, UserEmail};
use crate::domain::user_password::{
    argon2_check, argon2_phc_hash, is_generated_salt, max_password_bytes, password_check, password_error_message,
    PassHash, PasswordError,
};
use crate::domain::username::{invalid_username_message, username_is_valid, Username};
use vstd::prelude::*;
use vstd::utf8::encode_utf8;

verus! {

/// A registration that passed validation, with the password already hashed.
#[derive(Debug)]
pub struct NewUser {
    pub email: UserEmail,
    pub username: Username,
    pub hashed_password: PassHash,
}

/// Whether a registration passes every check that comes before hashing.
pub open spec fn registration_is_valid(
    email: Seq<char>,
    username: Seq<char>,
    password: Seq<char>,
    password_ver: Seq<char>,
) -> bool {
    &&& username_is_valid(username)
    &&& email_is_valid(email)
    &&& password_check(password, password_ver) is Ok
}

impl NewUser {
    /// Validates the username, then the email, then the password and its confirmation,
    /// and refuses with the message of the first check that fails.
    pub fn new(email: String, username: String, password: String, password_ver: String) -> (res:
        Result<NewUser, String>)
        ensures
            !username_is_valid(username@) ==> (res matches Err(m) && m@
                == invalid_username_message(username@)),
            username_is_valid(username@) && !email_is_valid(email@) ==> (res matches Err(m) && m@
                == invalid_email_message(email@)),
            username_is_valid(username@) && email_is_valid(email@) ==> match password_check(
                password@,
                password_ver@,
            ) {
                Err(e) => res matches Err(m) && m@ == password_error_message(e),
                Ok(_) => res is Ok || (res matches Err(m) && m@ == password_error_message(
                    PasswordError::SystemError,
                )),
            },
            res is Ok ==> registration_is_valid(email@, username@, password@, password_ver@),
            registration_is_valid(email@, username@, password@, password_ver@) && encode_utf8(
                password@,
            ).len() <= max_password_bytes() ==> res is Ok,
            password@ != password_ver@ ==> res is Err,
            username_is_valid(username@) && email_is_valid(email@) && password@ != password_ver@
                ==> (res matches Err(m) && m@ == password_error_message(
                PasswordError::PasswordVerFail,
            )),
            res matches Ok(u) ==> {
                &&& u.username@ == username@
                &&& u.email@ == email@
                &&& exists|salt: Seq<char>|
                    is_generated_salt(salt) && argon2_phc_hash(encode_utf8(password@), salt) == Some(
                        u.hashed_password@,
                    )
                &&& argon2_check(encode_utf8(password@), u.hashed_password@) == Some(true)
            },
    {
        let user_name = match Username::parse(username) {
            Ok(u) => u,
            Err(m) => {
                return Err(m);
            },
        };
        let user_email = match UserEmail::parse(email) {
            Ok(e) => e,
            Err(m) => {
                return Err(m);
            },
        };
        let hashed_password = match PassHash::parse(password, password_ver) {
            Ok(h) => h,
            Err(e) => {
                return Err(e.message());
            },
        };
        Ok(NewUser { email: user_email, username: user_name, hashed_password })
    }
}

} // verus!
