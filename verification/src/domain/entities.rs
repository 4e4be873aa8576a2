//! One type per table. Identifiers are the 128-bit value of the row's UUID;
//! timestamps are microseconds since the Unix epoch, in UTC (the precision
//! with which Postgres stores them).

use vstd::prelude::*;

use super::license::LicenseStatus;

verus! {

#[derive(Debug, Clone)]
pub struct Movie {
    pub id: u128,
    pub title: String,
    pub created_at: i64,
}

#[derive(Debug, Clone)]
pub struct Scene {
    pub id: u128,
    pub movie_id: u128,
    pub name: String,
    pub created_at: i64,
}

#[derive(Debug, Clone)]
pub struct Song {
    pub id: u128,
    pub title: String,
    pub artist: String,
    pub rights_holder: String,
    pub created_at: i64,
}

/// A song's use within a single scene: the time window it plays for, and the
/// licensing status of that specific use.
#[derive(Debug, Clone)]
pub struct Track {
    pub id: u128,
    pub scene_id: u128,
    pub song_id: u128,
    pub start_time_ms: i32,
    pub end_time_ms: i32,
    pub license_status: LicenseStatus,
    pub created_at: i64,
    pub updated_at: i64,
}

/// One row per `license_status` transition on a track — the audit trail.
#[derive(Debug, Clone)]
pub struct LicenseStatusEvent {
    pub id: u128,
    pub track_id: u128,
    pub from_status: Option<LicenseStatus>,
    pub to_status: LicenseStatus,
    pub note: Option<String>,
    pub created_at: i64,
}

} // verus!
