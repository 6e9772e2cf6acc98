use crate::domain::image::{image_path, Image};
use crate::domain::text_body::{post_body_check, post_error_message, PostBody};
use vstd::prelude::*;

verus! {

/// A post ready to be stored.
#[derive(Debug)]
pub struct NewPost {
    pub body: PostBody,
    pub image: Image,
}

impl NewPost {
    /// Builds a post from a body that `PostBody::parse` accepts; a refused body gives the
    /// message of its `PostError`. The image path is kept unless blank.
    pub fn new(body: String, path: String) -> (res: Result<NewPost, String>)
        ensures
            match post_body_check(body@) {
                Ok(_) => res matches Ok(p) && p.body@ == body@ && p.image.path@ == image_path(
                    path@,
                ),
                Err(e) => res matches Err(m) && m@ == post_error_message(e),
            },
    {
        let post_body = match PostBody::parse(body) {
            Ok(b) => b,
            Err(e) => {
                return Err(e.message());
            },
        };
        let img = match Image::new(path) {
            Ok(i) => i,
            Err(e) => {
                return Err(e);
            },
        };
        Ok(NewPost { body: post_body, image: img })
    }
}

} // verus!
