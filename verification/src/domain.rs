//! Domain model: the license workflow, track time windows, and the rows
//! that make up the catalogue.

pub mod entities;
pub mod license;
pub mod track;
