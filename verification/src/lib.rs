//! Verified core of the music-licensing backend: the license negotiation
//! workflow, the validation rules for incoming requests, the mapping from
//! joined database rows to API response shapes, and the decisions taken by
//! each HTTP handler between its database round-trips.

pub mod domain;
pub mod dto;
pub mod error;
pub mod events;
pub mod repositories;
pub mod validation;
pub mod handlers;
