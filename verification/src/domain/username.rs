use crate::text::{
    count_graphemes, grapheme_count, has_crlf, is_ascii_seq, is_blank, is_blank_seq,
};
use vstd::prelude::*;

verus! {

/// The chars that a username may not hold.
pub open spec fn is_forbidden_username_char(c: char) -> bool {
    ||| c == ' '
    ||| c == ','
    ||| c == '.'
    ||| c == '('
    ||| c == ')'
    ||| c == '"'
    ||| c == '<'
    ||| c == '>'
    ||| c == '\\'
    ||| c == '{'
    ||| c == '}'
}

pub open spec fn has_forbidden_username_char(s: Seq<char>) -> bool {
    exists|i: int| 0 <= i < s.len() && is_forbidden_username_char(#[trigger] s[i])
}

/// A valid username is not blank, has at most 256 grapheme clusters and holds no
/// forbidden char.
pub open spec fn username_is_valid(s: Seq<char>) -> bool {
    &&& !is_blank_seq(s)
    &&& grapheme_count(s) <= 256
    &&& !has_forbidden_username_char(s)
}

/// The message with which an invalid username is refused.
pub open spec fn invalid_username_message(s: Seq<char>) -> Seq<char> {
    s + " is an invalid username"@
}

fn is_forbidden_char(c: char) -> (b: bool)
    ensures
        b == is_forbidden_username_char(c),
{
    c == ' ' || c == ',' || c == '.' || c == '(' || c == ')' || c == '"' || c == '<' || c == '>'
        || c == '\\' || c == '{' || c == '}'
}

fn contains_forbidden_char(s: &str) -> (b: bool)
    ensures
        b == has_forbidden_username_char(s@),
{
    broadcast use vstd::string::group_string_axioms;

    let mut found = false;
    for c in it: s.chars()
        invariant
            it.seq() == s@,
            found == (exists|j: int|
                0 <= j < it.index() && is_forbidden_username_char(#[trigger] s@[j])),
    {
        if is_forbidden_char(c) {
            found = true;
        }
    }
    found
}

/// A username that holds any of ` ,.()"<>\{}` at any position, the first and the last
/// included, is not valid.
pub proof fn lemma_forbidden_char_anywhere_refuses(s: Seq<char>, i: int)
    requires
        0 <= i < s.len(),
        ({
            let c = s[i];
            c == ' ' || c == ',' || c == '.' || c == '(' || c == ')' || c == '"' || c == '<'
                || c == '>' || c == '\\' || c == '{' || c == '}'
        }),
    ensures
        !username_is_valid(s),
{
    assert(is_forbidden_username_char(s[i]));
}

/// A username that is not blank, has at most 256 grapheme clusters and holds none of
/// ` ,.()"<>\{}` is valid.
pub proof fn lemma_clean_username_is_valid(s: Seq<char>)
    requires
        !is_blank_seq(s),
        grapheme_count(s) <= 256,
        forall|i: int|
            0 <= i < s.len() ==> {
                let c = #[trigger] s[i];
                !(c == ' ' || c == ',' || c == '.' || c == '(' || c == ')' || c == '"' || c
                    == '<' || c == '>' || c == '\\' || c == '{' || c == '}')
            },
    ensures
        username_is_valid(s),
{
    if has_forbidden_username_char(s) {
        let i = choose|i: int| 0 <= i < s.len() && is_forbidden_username_char(#[trigger] s[i]);
        assert(!is_forbidden_username_char(s[i]));
    }
}

/// A username that is empty or white space alone, or that has more than 256 grapheme
/// clusters, is not valid.
pub proof fn lemma_blank_or_long_username_refused(s: Seq<char>)
    ensures
        is_blank_seq(s) ==> !username_is_valid(s),
        grapheme_count(s) > 256 ==> !username_is_valid(s),
{
}

/// A username that passed validation.
#[derive(Debug)]
pub struct Username(String);

impl View for Username {
    type V = Seq<char>;

    closed spec fn view(&self) -> Seq<char> {
        self.0@
    }
}

impl Username {
    /// Accepts `uname` when it is a valid username, keeping it as it is; otherwise
    /// refuses it with a message that names it.
    pub fn parse(uname: String) -> (res: Result<Username, String>)
        ensures
            res is Ok <==> username_is_valid(uname@),
            res matches Ok(u) ==> u@ == uname@,
            res matches Err(m) ==> m@ == invalid_username_message(uname@),
            is_ascii_seq(uname@) && !has_crlf(uname@) ==> grapheme_count(uname@) == uname@.len(),
            forall|i: int|
                0 <= i < uname@.len() && is_forbidden_username_char(#[trigger] uname@[i])
                    ==> res is Err,
    {
        let is_empty_or_whitespace = is_blank(uname.as_str());
        let too_long = count_graphemes(uname.as_str()) > 256;
        let contains_forbidden = contains_forbidden_char(uname.as_str());

        if is_empty_or_whitespace || too_long || contains_forbidden {
            let mut msg = uname.clone();
            msg.append(" is an invalid username");
            Err(msg)
        } else {
            Ok(Username(uname))
        }
    }

    pub fn as_ref(&self) -> (s: &str)
        ensures
            s@ == self@,
    {
        self.0.as_str()
    }
}

} // verus!
