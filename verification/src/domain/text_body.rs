use crate::text::{
    count_graphemes, grapheme_count, has_crlf, is_ascii_seq, is_blank, is_blank_seq,
};
use vstd::prelude::*;

verus! {

/// Why a post body was refused.
#[derive(Debug, Clone, Copy, PartialEq, Eq, Structural)]
pub enum PostError {
    TooLong,
    EmptyOrWhitespace,
    InvalidPost,
}

pub open spec fn post_error_message(e: PostError) -> Seq<char> {
    match e {
        PostError::TooLong => "Post exceeds the character limit"@,
        PostError::EmptyOrWhitespace => "post is empty or contains only whitespace"@,
        PostError::InvalidPost => "Invalid post"@,
    }
}

impl PostError {
    /// The text shown for this error.
    pub fn message(&self) -> (m: String)
        ensures
            m@ == post_error_message(*self),
    {
        match self {
            PostError::TooLong => "Post exceeds the character limit".to_owned(),
            PostError::EmptyOrWhitespace => "post is empty or contains only whitespace".to_owned(),
            PostError::InvalidPost => "Invalid post".to_owned(),
        }
    }
}

/// The most grapheme clusters a post body may have.
pub open spec fn max_post_graphemes() -> nat {
    10000
}

/// What `PostBody::parse` decides for `body`: too long is reported before blank.
pub open spec fn post_body_check(body: Seq<char>) -> Result<(), PostError> {
    if grapheme_count(body) > max_post_graphemes() {
        Err(PostError::TooLong)
    } else if is_blank_seq(body) {
        Err(PostError::EmptyOrWhitespace)
    } else {
        Ok(())
    }
}

/// The limit on a post counts grapheme clusters, whatever their size in chars or bytes:
/// a body of at most 10000 clusters that is not blank is accepted, one of more clusters is
/// too long, and a blank one within the limit is empty.
pub proof fn lemma_post_limit_counts_graphemes(body: Seq<char>)
    ensures
        grapheme_count(body) <= 10000 && !is_blank_seq(body) ==> post_body_check(body) == Ok::<
            (),
            PostError,
        >(()),
        grapheme_count(body) > 10000 ==> post_body_check(body) == Err::<(), PostError>(
            PostError::TooLong,
        ),
        grapheme_count(body) <= 10000 && is_blank_seq(body) ==> post_body_check(body) == Err::<
            (),
            PostError,
        >(PostError::EmptyOrWhitespace),
{
}

/// The text of a post that passed validation.
#[derive(Debug)]
pub struct PostBody(String);

impl View for PostBody {
    type V = Seq<char>;

    closed spec fn view(&self) -> Seq<char> {
        self.0@
    }
}

impl PostBody {
    /// Accepts a body of at most 10000 grapheme clusters that is not blank, unchanged.
    pub fn parse(body: String) -> (res: Result<PostBody, PostError>)
        ensures
            match post_body_check(body@) {
                Ok(_) => res matches Ok(b) && b@ == body@,
                Err(e) => res == Err::<PostBody, PostError>(e),
            },
            is_ascii_seq(body@) && !has_crlf(body@) ==> grapheme_count(body@) == body@.len(),
            grapheme_count(body@) <= 10000 && !is_blank_seq(body@) ==> (res matches Ok(b)
                && b@ == body@),
            grapheme_count(body@) > 10000 ==> res == Err::<PostBody, PostError>(PostError::TooLong),
            grapheme_count(body@) <= 10000 && is_blank_seq(body@) ==> res == Err::<
                PostBody,
                PostError,
            >(PostError::EmptyOrWhitespace),
    {
        let too_long = count_graphemes(body.as_str()) > 10000;
        let whitespace_or_empty = is_blank(body.as_str());

        if too_long || whitespace_or_empty {
            match too_long {
                true => Err(PostError::TooLong),
                _ => match whitespace_or_empty {
                    true => Err(PostError::EmptyOrWhitespace),
                    _ => Err(PostError::InvalidPost),
                },
            }
        } else {
            Ok(PostBody(body))
        }
    }

    pub fn as_ref(&self) -> (s: &str)
        ensures
            s@ == self@,
    {
        self.0.as_str()
    }
}

} // verus!
