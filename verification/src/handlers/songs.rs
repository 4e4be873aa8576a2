//! `POST /songs`.

use vstd::prelude::*;

use crate::error::AppError;
use crate::validation::{blank_field_message, is_blank, require_non_blank};

verus! {

/// Body of `POST /songs`.
#[derive(Debug)]
pub struct CreateSongRequest {
    pub title: String,
    pub artist: String,
    pub rights_holder: String,
}

/// Checks a new song before it is inserted: title, artist and rights holder
/// must not be blank. The first blank one, in that order, is named in the
/// `400` answer.
pub fn check_create_song(request: &CreateSongRequest) -> (checked: Result<(), AppError>)
    ensures
        checked is Ok <==> !is_blank(request.title@) && !is_blank(request.artist@) && !is_blank(
            request.rights_holder@,
        ),
        checked matches Err(e) ==> e matches AppError::BadRequest(message) && message@ == (if is_blank(
            request.title@,
        ) {
            blank_field_message("title"@)
        } else if is_blank(request.artist@) {
            blank_field_message("artist"@)
        } else {
            blank_field_message("rights_holder"@)
        }),
{
    match require_non_blank("title", request.title.as_str()) {
        Ok(()) => {},
        Err(e) => return Err(e),
    }
    match require_non_blank("artist", request.artist.as_str()) {
        Ok(()) => {},
        Err(e) => return Err(e),
    }
    require_non_blank("rights_holder", request.rights_holder.as_str())
}

} // verus!
