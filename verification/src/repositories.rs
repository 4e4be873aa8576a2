//! What the library makes of the rows that the queries return.

pub mod tracks;
