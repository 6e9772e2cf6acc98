use crate::text::{
    count_graphemes, grapheme_count, has_crlf, is_ascii_seq, is_blank, is_blank_seq,
};
use vstd::prelude::*;
use vstd::utf8::encode_utf8;

verus! {

/// The PHC string that Argon2 with its default parameters gives for `password` and `salt`
/// (a salt in B64 form), or `None` when hashing fails.
pub uninterp spec fn argon2_phc_hash(password: Seq<u8>, salt: Seq<char>) -> Option<Seq<char>>;

/// Verifying `password` against the string `phc` with Argon2: `None` when `phc` is not a PHC
/// string, else whether the password matches it.
pub uninterp spec fn argon2_check(password: Seq<u8>, phc: Seq<char>) -> Option<bool>;

/// The digit of value `v` (0 to 63) in the B64 alphabet: `A`-`Z`, `a`-`z`, `0`-`9`, `+`, `/`.
pub open spec fn b64_digit(v: int) -> char {
    if v < 26 {
        (('A' as int) + v) as char
    } else if v < 52 {
        (('a' as int) + v - 26) as char
    } else if v < 62 {
        (('0' as int) + v - 52) as char
    } else if v == 62 {
        '+'
    } else {
        '/'
    }
}

/// Standard Base64 without padding ("B64" in the PHC string format).
pub open spec fn b64_unpadded(b: Seq<u8>) -> Seq<char>
    decreases b.len(),
{
    if b.len() == 0 {
        Seq::empty()
    } else if b.len() == 1 {
        seq![b64_digit((b[0] / 4) as int), b64_digit((b[0] % 4) * 16)]
    } else if b.len() == 2 {
        seq![
            b64_digit((b[0] / 4) as int),
            b64_digit((b[0] % 4) * 16 + b[1] / 16),
            b64_digit((b[1] % 16) * 4),
        ]
    } else {
        seq![
            b64_digit((b[0] / 4) as int),
            b64_digit((b[0] % 4) * 16 + b[1] / 16),
            b64_digit((b[1] % 16) * 4 + b[2] / 64),
            b64_digit((b[2] % 64) as int),
        ] + b64_unpadded(b.subrange(3, b.len() as int))
    }
}

/// A salt as `SaltString::generate` makes it: the B64 form of 16 bytes.
pub open spec fn is_generated_salt(s: Seq<char>) -> bool {
    exists|b: Seq<u8>| b.len() == 16 && s == b64_unpadded(b)
}

/// The longest password, in bytes, that Argon2 hashes.
pub open spec fn max_password_bytes() -> nat {
    0xFFFF_FFFF
}

/// Calls `PasswordHasher::hash_password` of `argon2::Argon2::default()` and renders the hash
/// as its PHC string. Trusted: the result is `argon2_phc_hash(password@, salt@)`, and a hash
/// that it produced verifies against the same password, since verification recomputes the
/// hash with the algorithm, version, parameters and salt that the PHC string records; and
/// the string it produced parses as a PHC string, which does not depend on the password
/// checked against it. Hashing fails only on a salt that is not valid B64 of 8 bytes or more,
/// or on a password of more than `0xFFFF_FFFF` bytes; so a generated salt and a password
/// within that limit always hash.
#[verifier::external_body]
pub(crate) fn argon2_hash_password(password: &[u8], salt: &str) -> (res: Option<String>)
    ensures
        match res {
            Some(h) => argon2_phc_hash(password@, salt@) == Some(h@),
            None => argon2_phc_hash(password@, salt@) is None,
        },
        res matches Some(h) ==> argon2_check(password@, h@) == Some(true),
        res matches Some(h) ==> forall|q: Seq<u8>| #[trigger] argon2_check(q, h@) is Some,
        is_generated_salt(salt@) && password@.len() <= max_password_bytes() ==> res is Some,
{
    match argon2::PasswordHasher::hash_password(&argon2::Argon2::default(), password, salt) {
        Ok(h) => Some(h.to_string()),
        Err(_) => None,
    }
}

/// Parses `phc` with `argon2::PasswordHash::new` and, when it parses, checks `password`
/// against it with `PasswordVerifier::verify_password` of `argon2::Argon2::default()`.
/// Trusted: the result is `argon2_check(password@, phc@)`; whether `phc` parses does not
/// depend on the password; and (as the parser refuses an empty string first) the empty
/// string is never a PHC string.
#[verifier::external_body]
pub(crate) fn argon2_verify(password: &[u8], phc: &str) -> (res: Option<bool>)
    ensures
        res == argon2_check(password@, phc@),
        forall|q: Seq<u8>| #[trigger] argon2_check(q, phc@) is Some <==> res is Some,
        phc@.len() == 0 ==> res is None,
{
    match argon2::PasswordHash::new(phc) {
        Ok(h) => Some(
            argon2::PasswordVerifier::verify_password(&argon2::Argon2::default(), password, &h)
                .is_ok(),
        ),
        Err(_) => None,
    }
}

/// Calls `SaltString::generate` with the operating system's random source and returns the
/// salt in its B64 form. The salt is random; what is stated is its form: 16 bytes in B64.
/// (It panics only if the operating system's random source fails.)
#[verifier::external_body]
fn generate_salt() -> (salt: String)
    ensures
        is_generated_salt(salt@),
{
    argon2::password_hash::SaltString::generate(&mut argon2::password_hash::rand_core::OsRng)
        .as_str()
        .to_owned()
}

/// Why a password was refused.
#[derive(Debug, Clone, Copy, PartialEq, Eq, Structural)]
pub enum PasswordError {
    InvalidPassword,
    PasswordVerFail,
    SystemError,
}

pub open spec fn password_error_message(e: PasswordError) -> Seq<char> {
    match e {
        PasswordError::InvalidPassword => "Password does not meet requirements"@,
        PasswordError::PasswordVerFail => "Passwords dont match"@,
        PasswordError::SystemError => "Error generating random numbers"@,
    }
}

impl PasswordError {
    /// The text shown for this error.
    pub fn message(&self) -> (m: String)
        ensures
            m@ == password_error_message(*self),
    {
        match self {
            PasswordError::InvalidPassword => "Password does not meet requirements".to_owned(),
            PasswordError::PasswordVerFail => "Passwords dont match".to_owned(),
            PasswordError::SystemError => "Error generating random numbers".to_owned(),
        }
    }
}

/// The chars of which a password must hold at least one.
pub open spec fn is_password_special_char(c: char) -> bool {
    ||| c == ' '
    ||| c == '!'
    ||| c == '"'
    ||| c == '#'
    ||| c == '$'
    ||| c == '%'
    ||| c == '&'
    ||| c == '\''
    ||| c == '('
    ||| c == ')'
    ||| c == '*'
    ||| c == '+'
    ||| c == ','
    ||| c == '-'
    ||| c == '.'
    ||| c == '/'
    ||| c == ':'
    ||| c == ';'
    ||| c == '<'
    ||| c == '='
    ||| c == '>'
    ||| c == '?'
    ||| c == '@'
    ||| c == '['
    ||| c == '\\'
    ||| c == ']'
    ||| c == '^'
    ||| c == '_'
    ||| c == '`'
    ||| c == '{'
    ||| c == '|'
    ||| c == '}'
    ||| c == '~'
}

pub open spec fn has_password_special_char(s: Seq<char>) -> bool {
    exists|i: int| 0 <= i < s.len() && is_password_special_char(#[trigger] s[i])
}

/// A password must have 8 to 1000 grapheme clusters, not be blank and hold a special char.
pub open spec fn password_meets_requirements(pw: Seq<char>) -> bool {
    &&& 8 <= grapheme_count(pw) <= 1000
    &&& !is_blank_seq(pw)
    &&& has_password_special_char(pw)
}

/// What `PassHash::parse` decides before any hashing: the two entries must match, then
/// the password must meet the requirements.
pub open spec fn password_check(pw: Seq<char>, pwv: Seq<char>) -> Result<(), PasswordError> {
    if pw != pwv {
        Err(PasswordError::PasswordVerFail)
    } else if !password_meets_requirements(pw) {
        Err(PasswordError::InvalidPassword)
    } else {
        Ok(())
    }
}

fn is_special_char(c: char) -> (b: bool)
    ensures
        b == is_password_special_char(c),
{
    c == ' ' || c == '!' || c == '"' || c == '#' || c == '$' || c == '%' || c == '&' || c == '\''
        || c == '(' || c == ')' || c == '*' || c == '+' || c == ',' || c == '-' || c == '.' || c
        == '/' || c == ':' || c == ';' || c == '<' || c == '=' || c == '>' || c == '?' || c == '@'
        || c == '[' || c == '\\' || c == ']' || c == '^' || c == '_' || c == '`' || c == '{' || c
        == '|' || c == '}' || c == '~'
}

fn contains_special_char(s: &str) -> (b: bool)
    ensures
        b == has_password_special_char(s@),
{
    broadcast use vstd::string::group_string_axioms;

    let mut found = false;
    for c in it: s.chars()
        invariant
            it.seq() == s@,
            found == (exists|j: int|
                0 <= j < it.index() && is_password_special_char(#[trigger] s@[j])),
    {
        if is_special_char(c) {
            found = true;
        }
    }
    found
}

/// A password and its confirmation match only when they are the same string: any
/// difference, letter case included, refuses the password as a mismatch, before any other
/// requirement is looked at.
pub proof fn lemma_confirmation_must_be_identical(pw: Seq<char>, pwv: Seq<char>)
    ensures
        pw != pwv ==> password_check(pw, pwv) == Err::<(), PasswordError>(
            PasswordError::PasswordVerFail,
        ),
        password_check(pw, pwv) is Ok ==> pw == pwv,
{
}

/// Every char of `` !"#$%&'()*+,-./:;<=>?@[\]^_`{|}~`` counts as the special char that a
/// password needs: a password of 8 to 1000 grapheme clusters, not blank, that holds one of
/// them at some position and is confirmed with the same string passes every check.
pub proof fn lemma_each_special_char_counts(pw: Seq<char>, i: int)
    requires
        0 <= i < pw.len(),
        ({
            let c = pw[i];
            c == ' ' || c == '!' || c == '"' || c == '#' || c == '$' || c == '%' || c == '&'
                || c == '\'' || c == '(' || c == ')' || c == '*' || c == '+' || c == ','
                || c == '-' || c == '.' || c == '/' || c == ':' || c == ';' || c == '<'
                || c == '=' || c == '>' || c == '?' || c == '@' || c == '[' || c == '\\'
                || c == ']' || c == '^' || c == '_' || c == '`' || c == '{' || c == '|'
                || c == '}' || c == '~'
        }),
        8 <= grapheme_count(pw) <= 1000,
        !is_blank_seq(pw),
    ensures
        password_check(pw, pw) == Ok::<(), PasswordError>(()),
{
    assert(is_password_special_char(pw[i]));
    assert(has_password_special_char(pw));
}

/// A password with no char of `` !"#$%&'()*+,-./:;<=>?@[\]^_`{|}~`` is refused as not
/// meeting the requirements, even when confirmed with the same string.
pub proof fn lemma_special_char_required(pw: Seq<char>)
    requires
        forall|i: int|
            0 <= i < pw.len() ==> {
                let c = #[trigger] pw[i];
                !(c == ' ' || c == '!' || c == '"' || c == '#' || c == '$' || c == '%' || c
                    == '&' || c == '\'' || c == '(' || c == ')' || c == '*' || c == '+' || c
                    == ',' || c == '-' || c == '.' || c == '/' || c == ':' || c == ';' || c
                    == '<' || c == '=' || c == '>' || c == '?' || c == '@' || c == '[' || c
                    == '\\' || c == ']' || c == '^' || c == '_' || c == '`' || c == '{' || c
                    == '|' || c == '}' || c == '~')
            },
    ensures
        password_check(pw, pw) == Err::<(), PasswordError>(PasswordError::InvalidPassword),
{
    if has_password_special_char(pw) {
        let i = choose|i: int| 0 <= i < pw.len() && is_password_special_char(#[trigger] pw[i]);
        assert(!is_password_special_char(pw[i]));
    }
}

/// A confirmed password with fewer than 8 or more than 1000 grapheme clusters, or made of
/// white space alone, is refused as not meeting the requirements, whatever chars it holds.
pub proof fn lemma_password_size_and_blank(pw: Seq<char>)
    ensures
        grapheme_count(pw) < 8 ==> password_check(pw, pw) == Err::<(), PasswordError>(
            PasswordError::InvalidPassword,
        ),
        grapheme_count(pw) > 1000 ==> password_check(pw, pw) == Err::<(), PasswordError>(
            PasswordError::InvalidPassword,
        ),
        is_blank_seq(pw) ==> password_check(pw, pw) == Err::<(), PasswordError>(
            PasswordError::InvalidPassword,
        ),
{
}

/// The Argon2 PHC string of a password that passed validation.
#[derive(Debug)]
pub struct PassHash(String);

impl View for PassHash {
    type V = Seq<char>;

    closed spec fn view(&self) -> Seq<char> {
        self.0@
    }
}

impl PassHash {
    /// Checks `pw` against its confirmation `pwv` and the password requirements, then
    /// hashes it with Argon2 under the given salt.
    pub fn parse_with_salt(pw: String, pwv: String, salt: &str) -> (res: Result<
        PassHash,
        PasswordError,
    >)
        ensures
            match password_check(pw@, pwv@) {
                Err(e) => res == Err::<PassHash, PasswordError>(e),
                Ok(_) => match argon2_phc_hash(encode_utf8(pw@), salt@) {
                    Some(h) => res matches Ok(p) && p@ == h,
                    None => res == Err::<PassHash, PasswordError>(PasswordError::SystemError),
                },
            },
            res matches Ok(p) ==> argon2_check(encode_utf8(pw@), p@) == Some(true),
            res matches Ok(p) ==> forall|q: Seq<u8>| #[trigger] argon2_check(q, p@) is Some,
            res is Ok ==> 8 <= pw@.len(),
            is_ascii_seq(pw@) && !has_crlf(pw@) ==> grapheme_count(pw@) == pw@.len(),
            password_check(pw@, pwv@) is Ok && is_generated_salt(salt@) && encode_utf8(pw@).len()
                <= max_password_bytes() ==> res is Ok,
            pw@ != pwv@ ==> res == Err::<PassHash, PasswordError>(PasswordError::PasswordVerFail),
            res is Ok ==> pw@ == pwv@,
    {
        let too_long = count_graphemes(pw.as_str()) > 1000;
        let whitespace_or_empty = is_blank(pw.as_str());
        let too_short = count_graphemes(pw.as_str()) < 8;
        let contains_special_char = contains_special_char(pw.as_str());
        let password_match = pw == pwv;

        if password_match {
            if too_long || whitespace_or_empty || too_short || !contains_special_char {
                Err(PasswordError::InvalidPassword)
            } else {
                match PassHash::hash_password(pw.as_str().as_bytes(), salt) {
                    Ok(hash) => Ok(PassHash(hash)),
                    Err(e) => Err(e),
                }
            }
        } else {
            Err(PasswordError::PasswordVerFail)
        }
    }

    /// Like `parse_with_salt`, with a fresh random salt. The hash is that of the password
    /// under some salt, and it verifies against the password.
    pub fn parse(pw: String, pwv: String) -> (res: Result<PassHash, PasswordError>)
        ensures
            match password_check(pw@, pwv@) {
                Err(e) => res == Err::<PassHash, PasswordError>(e),
                Ok(_) => res is Ok || res == Err::<PassHash, PasswordError>(
                    PasswordError::SystemError,
                ),
            },
            res matches Ok(p) ==> exists|salt: Seq<char>|
                is_generated_salt(salt) && argon2_phc_hash(encode_utf8(pw@), salt) == Some(p@),
            res == Err::<PassHash, PasswordError>(PasswordError::SystemError) ==> exists|
                salt: Seq<char>,
            | is_generated_salt(salt) && argon2_phc_hash(encode_utf8(pw@), salt) is None,
            res matches Ok(p) ==> argon2_check(encode_utf8(pw@), p@) == Some(true),
            res matches Ok(p) ==> forall|q: Seq<u8>| #[trigger] argon2_check(q, p@) is Some,
            res is Ok ==> 8 <= pw@.len(),
            is_ascii_seq(pw@) && !has_crlf(pw@) ==> grapheme_count(pw@) == pw@.len(),
            password_check(pw@, pwv@) is Ok && encode_utf8(pw@).len() <= max_password_bytes()
                ==> res is Ok,
            res == Err::<PassHash, PasswordError>(PasswordError::SystemError) ==> encode_utf8(
                pw@,
            ).len() > max_password_bytes(),
            pw@ != pwv@ ==> res == Err::<PassHash, PasswordError>(PasswordError::PasswordVerFail),
            res is Ok ==> pw@ == pwv@,
    {
        let salt = generate_salt();
        let res = PassHash::parse_with_salt(pw, pwv, salt.as_str());
        proof {
            let ghost s = salt@;
            if res is Ok {
                assert(argon2_phc_hash(encode_utf8(pw@), s) == Some(res->Ok_0@));
            }
            if res == Err::<PassHash, PasswordError>(PasswordError::SystemError) {
                assert(is_generated_salt(s) && argon2_phc_hash(encode_utf8(pw@), s) is None);
            }
        }
        res
    }

    /// Hashes `pw` under `salt`; a failure of the hasher is a `SystemError`.
    fn hash_password(pw: &[u8], salt: &str) -> (res: Result<String, PasswordError>)
        ensures
            match argon2_phc_hash(pw@, salt@) {
                Some(h) => res matches Ok(s) && s@ == h,
                None => res == Err::<String, PasswordError>(PasswordError::SystemError),
            },
            res matches Ok(s) ==> argon2_check(pw@, s@) == Some(true),
            res matches Ok(s) ==> forall|q: Seq<u8>| #[trigger] argon2_check(q, s@) is Some,
            is_generated_salt(salt@) && pw@.len() <= max_password_bytes() ==> argon2_phc_hash(
                pw@,
                salt@,
            ) is Some,
    {
        match argon2_hash_password(pw, salt) {
            Some(h) => Ok(h),
            None => Err(PasswordError::SystemError),
        }
    }

    /// Checks `pwd` against the PHC string `enc`; a string that is not a PHC string is a
    /// `SystemError`.
    pub fn check_hash(enc: &str, pwd: &[u8]) -> (res: Result<bool, PasswordError>)
        ensures
            match argon2_check(pwd@, enc@) {
                Some(b) => res == Ok::<bool, PasswordError>(b),
                None => res == Err::<bool, PasswordError>(PasswordError::SystemError),
            },
    {
        match argon2_verify(pwd, enc) {
            Some(b) => Ok(b),
            None => Err(PasswordError::SystemError),
        }
    }

    pub fn as_ref(&self) -> (s: &str)
        ensures
            s@ == self@,
    {
        self.0.as_str()
    }
}

} // verus!
