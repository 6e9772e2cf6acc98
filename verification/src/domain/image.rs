use crate::text::{is_blank, is_blank_seq};
use vstd::prelude::*;

verus! {

/// The stored path of a post's image; empty when the post has none.
#[derive(Debug)]
pub struct Image {
    pub path: String,
}

/// The path that `Image::new` keeps for `impath`: a blank path means no image.
pub open spec fn image_path(impath: Seq<char>) -> Seq<char> {
    if is_blank_seq(impath) {
        Seq::empty()
    } else {
        impath
    }
}

impl Image {
    /// Never fails: a blank path becomes the empty path, any other is kept as it is.
    pub fn new(impath: String) -> (res: Result<Image, String>)
        ensures
            res matches Ok(img) && img.path@ == image_path(impath@),
    {
        if is_blank(impath.as_str()) {
            Ok(Image { path: String::new() })
        } else {
            Ok(Image { path: impath })
        }
    }

    pub fn as_ref(&self) -> (s: &str)
        ensures
            s@ == self.path@,
    {
        self.path.as_str()
    }
}

} // verus!
