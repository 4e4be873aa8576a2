//! The decisions each HTTP handler takes between its database round-trips.
//! The handlers themselves (extraction, queries, JSON) run outside the
//! library; they hand the rows they read to these functions and perform the
//! writes that these functions ask for.

pub mod movies;
pub mod songs;
pub mod tracks;

use vstd::prelude::*;

use crate::error::AppError;

verus! {

/// A looked-up row that must exist: a missing one is answered with `404`.
pub fn require_found<T>(found: Option<T>) -> (checked: Result<T, AppError>)
    ensures
        match found {
            Some(value) => checked == Ok::<T, AppError>(value),
            None => checked == Err::<T, AppError>(AppError::NotFound),
        },
{
    match found {
        Some(value) => Ok(value),
        None => Err(AppError::NotFound),
    }
}

} // verus!
