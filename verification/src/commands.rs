//! What the commands of the application work out before they touch a file.

use crate::text::{safe_name, sanitize, trim, trimmed};
use vstd::prelude::*;
use vstd::string::*;

verus! {

/// The folder in which the images of items are kept.
pub const IMAGE_FOLDER: &'static str = "../images";

/// Where the image of the item with a given code is kept: in the folder of
/// images, under the code made safe, as a PNG file.
pub open spec fn image_path(code: Seq<char>) -> Seq<char> {
    IMAGE_FOLDER@ + "/"@ + safe_name(code) + ".png"@
}

/// The user that a file names: what it holds without the white space at its
/// ends, or nobody where nothing is left.
pub open spec fn user_in(content: Seq<char>) -> Option<Seq<char>> {
    if trimmed(content).len() == 0 {
        None
    } else {
        Some(trimmed(content))
    }
}

/// Where the image of the item with a given code is to be saved.
pub fn image_file_path(code: &str) -> (path: String)
    ensures
        path@ == image_path(code@),
{
    String::from_str(IMAGE_FOLDER).concat("/").concat(sanitize(code).as_str()).concat(".png")
}

/// The user that the content of the file of the signed-in user names.
pub fn user_id_from(content: &str) -> (user: Option<String>)
    ensures
        user is Some <==> user_in(content@) is Some,
        user matches Some(id) ==> Some(id@) == user_in(content@),
{
    let id = trim(content);
    if id.as_str().is_empty() {
        None
    } else {
        Some(id)
    }
}

} // verus!
