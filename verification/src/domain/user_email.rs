use vstd::prelude::*;

verus! {

/// Whether `validator::validate_email` accepts `s`: the HTML5 form of an email address,
/// with length limits on both parts and internationalised domains.
pub uninterp spec fn email_is_valid(s: Seq<char>) -> bool;

/// Calls `validator::validate_email`. Trusted: the answer is `email_is_valid(s@)`, and (as
/// the crate tests before anything else) a string with no `@` is refused.
#[verifier::external_body]
fn check_email(s: &str) -> (b: bool)
    ensures
        b == email_is_valid(s@),
        b ==> s@.contains('@'),
{
    validator::validate_email(s)
}

/// The message with which an invalid email is refused.
pub open spec fn invalid_email_message(s: Seq<char>) -> Seq<char> {
    s + " is not a valid email"@
}

/// An email address that passed validation.
#[derive(Debug)]
pub struct UserEmail(String);

impl View for UserEmail {
    type V = Seq<char>;

    closed spec fn view(&self) -> Seq<char> {
        self.0@
    }
}

impl UserEmail {
    /// Accepts `email` when `validate_email` does, keeping it as it is; otherwise refuses
    /// it with a message that names it.
    pub fn parse(email: String) -> (res: Result<UserEmail, String>)
        ensures
            res is Ok <==> email_is_valid(email@),
            res matches Ok(e) ==> e@ == email@,
            res matches Err(m) ==> m@ == invalid_email_message(email@),
            res is Ok ==> email@.contains('@'),
    {
        if check_email(email.as_str()) {
            Ok(UserEmail(email))
        } else {
            let mut msg = email.clone();
            msg.append(" is not a valid email");
            Err(msg)
        }
    }

    pub fn as_ref(&self) -> (s: &str)
        ensures
            s@ == self@,
    {
        self.0.as_str()
    }
}

} // verus!
