//! `POST /movies` and `POST /movies/{id}/scenes`.

use vstd::prelude::*;

use crate::domain::entities::Movie;
use crate::error::AppError;
use crate::validation::{blank_field_message, is_blank, is_white_space, require_non_blank};

verus! {

/// Body of `POST /movies`.
#[derive(Debug)]
pub struct CreateMovieRequest {
    pub title: String,
}

/// Body of `POST /movies/{id}/scenes`.
#[derive(Debug)]
pub struct CreateSceneRequest {
    pub name: String,
}

/// Checks a new movie before it is inserted: its title must not be blank.
pub fn check_create_movie(request: &CreateMovieRequest) -> (checked: Result<(), AppError>)
    ensures
        checked is Ok <==> !is_blank(request.title@),
        checked is Ok <==> exists|i: int|
            0 <= i < request.title@.len() && !is_white_space(#[trigger] request.title@[i]),
        checked matches Err(e) ==> e matches AppError::BadRequest(message) && message@
            == blank_field_message("title"@),
{
    require_non_blank("title", request.title.as_str())
}

/// A scene to create under a movie, with a name that is not blank; the
/// movie has yet to be looked up.
#[derive(Debug)]
pub struct SceneCreation {
    pub movie_id: u128,
    pub name: String,
}

/// The scene to insert: the movie exists and the name is not blank.
#[derive(Debug)]
pub struct NewScene {
    pub movie_id: u128,
    pub name: String,
}

impl SceneCreation {
    /// Starts `POST /movies/{movie_id}/scenes`: a blank name is refused with
    /// `400` before the database is asked anything.
    pub fn new(movie_id: u128, request: CreateSceneRequest) -> (started: Result<
        SceneCreation,
        AppError,
    >)
        ensures
            started is Ok <==> !is_blank(request.name@),
            started matches Ok(creation) ==> creation.movie_id == movie_id && creation.name
                == request.name,
            started matches Err(e) ==> e matches AppError::BadRequest(message) && message@
                == blank_field_message("name"@),
    {
        match require_non_blank("name", request.name.as_str()) {
            Ok(()) => Ok(SceneCreation { movie_id, name: request.name }),
            Err(e) => Err(e),
        }
    }

    /// Takes the result of looking up the movie: a missing movie is answered
    /// with `404` (rather than the foreign key failing the insert).
    pub fn movie_found(self, found: Option<Movie>) -> (next: Result<NewScene, AppError>)
        ensures
            match found {
                Some(_) => next == Ok::<NewScene, AppError>(
                    NewScene { movie_id: self.movie_id, name: self.name },
                ),
                None => next == Err::<NewScene, AppError>(AppError::NotFound),
            },
    {
        match found {
            Some(_) => Ok(NewScene { movie_id: self.movie_id, name: self.name }),
            None => Err(AppError::NotFound),
        }
    }
}

} // verus!
