//! Response shapes that combine data from more than one table (e.g. a
//! track together with its song), and the joined rows they are built from.
//! Identifiers and timestamps are encoded as in `domain::entities`.

use vstd::prelude::*;

use crate::domain::license::LicenseStatus;

verus! {

#[derive(Debug)]
pub struct SongSummary {
    pub id: u128,
    pub title: String,
    pub artist: String,
}

#[derive(Debug)]
pub struct SceneSummary {
    pub id: u128,
    pub name: String,
}

#[derive(Debug)]
pub struct TrackSummary {
    pub id: u128,
    pub song: SongSummary,
    pub start_time_ms: i32,
    pub end_time_ms: i32,
    pub license_status: LicenseStatus,
    pub updated_at: i64,
}

#[derive(Debug)]
pub struct LicenseEventSummary {
    pub from_status: Option<LicenseStatus>,
    pub to_status: LicenseStatus,
    pub note: Option<String>,
    pub created_at: i64,
}

/// A track with its song and its full licensing history, oldest first.
#[derive(Debug)]
pub struct TrackDetail {
    pub track: TrackSummary,
    pub history: Vec<LicenseEventSummary>,
}

/// One entry of the tracks of a movie, grouped by the scene they belong
/// to. Scenes with no tracks are omitted.
#[derive(Debug)]
pub struct SceneTracks {
    pub scene: SceneSummary,
    pub tracks: Vec<TrackSummary>,
}

/// A track joined with its song, as the track queries return it.
#[derive(Debug)]
pub struct TrackSongRow {
    pub track_id: u128,
    pub start_time_ms: i32,
    pub end_time_ms: i32,
    pub updated_at: i64,
    pub license_status: LicenseStatus,
    pub song_id: u128,
    pub song_title: String,
    pub song_artist: String,
}

/// A track joined with its song and the scene it belongs to, as the
/// per-movie track query returns it.
#[derive(Debug)]
pub struct SceneTrackRow {
    pub scene_id: u128,
    pub scene_name: String,
    pub track: TrackSongRow,
}

} // verus!
