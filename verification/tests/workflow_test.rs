use music_licensing_backend::domain::entities::{Movie, Scene, Song, Track};
use music_licensing_backend::domain::license::LicenseStatus;
use music_licensing_backend::dto::{SongSummary, TrackDetail, TrackSummary};
use music_licensing_backend::error::AppError;
use music_licensing_backend::handlers::movies::{
    check_create_movie, CreateMovieRequest, CreateSceneRequest, SceneCreation,
};
use music_licensing_backend::handlers::require_found;
use music_licensing_backend::handlers::songs::{check_create_song, CreateSongRequest};
use music_licensing_backend::handlers::tracks::{
    CreateTrackRequest, LicenseUpdate, TrackCreation, UpdateLicenseRequest,
};

fn movie() -> Movie {
    Movie { id: 1, title: "Rocky IV".to_string(), created_at: 0 }
}

fn scene() -> Scene {
    Scene { id: 2, movie_id: 1, name: "Training Montage".to_string(), created_at: 0 }
}

fn song() -> Song {
    Song {
        id: 3,
        title: "Eye of the Tiger".to_string(),
        artist: "Survivor".to_string(),
        rights_holder: "Sony".to_string(),
        created_at: 0,
    }
}

fn track(status: LicenseStatus, updated_at: i64) -> Track {
    Track {
        id: 4,
        scene_id: 2,
        song_id: 3,
        start_time_ms: 750_000,
        end_time_ms: 840_000,
        license_status: status,
        created_at: 0,
        updated_at,
    }
}

fn detail(status: LicenseStatus, updated_at: i64) -> TrackDetail {
    TrackDetail {
        track: TrackSummary {
            id: 4,
            song: SongSummary { id: 3, title: "Eye of the Tiger".to_string(), artist: "Survivor".to_string() },
            start_time_ms: 750_000,
            end_time_ms: 840_000,
            license_status: status,
            updated_at,
        },
        history: Vec::new(),
    }
}

fn bad_request_message<T: std::fmt::Debug>(result: Result<T, AppError>) -> String {
    match result {
        Err(AppError::BadRequest(message)) => message,
        other => panic!("expected a bad request, got {other:?}"),
    }
}

#[test]
fn rejects_a_blank_movie_title() {
    let error = check_create_movie(&CreateMovieRequest { title: "   ".to_string() }).unwrap_err();
    assert_eq!(error.status_code(), 400);
    assert!(error.message().contains("title"));
}

#[test]
fn a_movie_with_a_title_passes_the_check() {
    assert!(check_create_movie(&CreateMovieRequest { title: "Rocky IV".to_string() }).is_ok());
}

#[test]
fn rejects_a_blank_song_field() {
    let request = CreateSongRequest {
        title: "Eye of the Tiger".to_string(),
        artist: "".to_string(),
        rights_holder: "Sony".to_string(),
    };
    let error = check_create_song(&request).unwrap_err();
    assert_eq!(error.status_code(), 400);
    assert!(error.message().contains("artist"));
}

#[test]
fn the_first_blank_song_field_is_named() {
    let request = CreateSongRequest {
        title: "Eye of the Tiger".to_string(),
        artist: "".to_string(),
        rights_holder: "Sony".to_string(),
    };
    let message = bad_request_message(check_create_song(&request));
    assert_eq!(message, "artist must not be blank");
    let request = CreateSongRequest { title: " ".to_string(), artist: "".to_string(), rights_holder: "".to_string() };
    assert_eq!(bad_request_message(check_create_song(&request)), "title must not be blank");
    let request = CreateSongRequest { title: "a".to_string(), artist: "b".to_string(), rights_holder: "\t".to_string() };
    assert_eq!(bad_request_message(check_create_song(&request)), "rights_holder must not be blank");
    let request = CreateSongRequest { title: "a".to_string(), artist: "b".to_string(), rights_holder: "c".to_string() };
    assert!(check_create_song(&request).is_ok());
}

#[test]
fn unknown_movie_returns_404() {
    let error = require_found::<Movie>(None).unwrap_err();
    assert_eq!(error.status_code(), 404);
    assert_eq!(error.message(), "resource not found");
}

#[test]
fn a_known_movie_is_returned_as_found() {
    assert_eq!(require_found(Some(movie())).unwrap().title, "Rocky IV");
}

#[test]
fn creating_a_scene_under_an_unknown_movie_returns_404() {
    let creation = SceneCreation::new(1, CreateSceneRequest { name: "Training Montage".to_string() }).unwrap();
    let error = creation.movie_found(None).unwrap_err();
    assert_eq!(error.status_code(), 404);
}

#[test]
fn a_scene_under_a_known_movie_is_inserted() {
    let creation = SceneCreation::new(1, CreateSceneRequest { name: "Training Montage".to_string() }).unwrap();
    let new_scene = creation.movie_found(Some(movie())).unwrap();
    assert_eq!(new_scene.movie_id, 1);
    assert_eq!(new_scene.name, "Training Montage");
}

#[test]
fn a_blank_scene_name_is_refused_before_any_lookup() {
    let message = bad_request_message(SceneCreation::new(1, CreateSceneRequest { name: "".to_string() }));
    assert_eq!(message, "name must not be blank");
}

fn track_request(start: i32, end: i32) -> CreateTrackRequest {
    CreateTrackRequest { song_id: 3, start_time_ms: start, end_time_ms: end }
}

#[test]
fn rejects_a_track_with_an_invalid_time_range() {
    let creation = TrackCreation { scene_id: 2, request: track_request(100, 50) };
    let lookup = creation.scene_found(Some(scene())).unwrap();
    let error = lookup.song_found(Some(song())).unwrap_err();
    assert_eq!(error.status_code(), 400);
    assert!(error.message().contains("end_time_ms"));
}

#[test]
fn a_track_starting_before_zero_is_refused() {
    let creation = TrackCreation { scene_id: 2, request: track_request(-1, 100) };
    let lookup = creation.scene_found(Some(scene())).unwrap();
    let message = bad_request_message(lookup.song_found(Some(song())));
    assert_eq!(message, "end_time_ms must be greater than start_time_ms");
}

#[test]
fn a_track_needs_its_scene_and_its_song() {
    let creation = TrackCreation { scene_id: 2, request: track_request(0, 100) };
    assert!(matches!(creation.scene_found(None), Err(AppError::NotFound)));
    let creation = TrackCreation { scene_id: 2, request: track_request(0, 100) };
    let lookup = creation.scene_found(Some(scene())).unwrap();
    assert!(matches!(lookup.song_found(None), Err(AppError::NotFound)));
}

#[test]
fn an_unknown_song_is_reported_before_a_bad_range() {
    let creation = TrackCreation { scene_id: 2, request: track_request(100, 50) };
    let lookup = creation.scene_found(Some(scene())).unwrap();
    assert!(matches!(lookup.song_found(None), Err(AppError::NotFound)));
}

#[test]
fn a_valid_track_is_inserted_as_requested() {
    let creation = TrackCreation { scene_id: 2, request: track_request(750_000, 840_000) };
    let new_track = creation.scene_found(Some(scene())).unwrap().song_found(Some(song())).unwrap();
    assert_eq!(
        (new_track.scene_id, new_track.song_id, new_track.start_time_ms, new_track.end_time_ms),
        (2, 3, 750_000, 840_000)
    );
}

fn update(status: LicenseStatus, note: Option<&str>) -> LicenseUpdate {
    LicenseUpdate { track_id: 4, request: UpdateLicenseRequest { status, note: note.map(str::to_string) } }
}

#[test]
fn rejects_an_out_of_order_license_transition() {
    let result = update(LicenseStatus::Licensed, None).current_found(Some(track(LicenseStatus::Draft, 0)));
    match result {
        Err(error) => {
            assert_eq!(error.status_code(), 409);
            assert!(error.message().contains("Draft"));
            assert!(matches!(
                error,
                AppError::InvalidTransition { from: LicenseStatus::Draft, to: LicenseStatus::Licensed }
            ));
        }
        Ok(swap) => panic!("unexpected swap {swap:?}"),
    }
}

#[test]
fn an_update_of_an_unknown_track_is_answered_with_404() {
    assert!(matches!(update(LicenseStatus::Requested, None).current_found(None), Err(AppError::NotFound)));
}

#[test]
fn a_valid_transition_updates_status_and_appends_history() {
    let swap = update(LicenseStatus::Requested, Some("Sent to Sony legal team"))
        .current_found(Some(track(LicenseStatus::Draft, 0)))
        .unwrap();
    assert_eq!((swap.track_id, swap.expected, swap.new_status), (4, LicenseStatus::Draft, LicenseStatus::Requested));

    let entry = swap.swapped(Some(track(LicenseStatus::Requested, 99))).unwrap();
    assert_eq!(entry.track_id, 4);
    assert_eq!(entry.from_status, Some(LicenseStatus::Draft));
    assert_eq!(entry.to_status, LicenseStatus::Requested);
    assert_eq!(entry.note.as_deref(), Some("Sent to Sony legal team"));

    let (response, notice) = entry.committed().detail_found(Some(detail(LicenseStatus::Requested, 99))).unwrap();
    assert_eq!(response.track.license_status, LicenseStatus::Requested);
    assert_eq!((notice.track_id, notice.scene_id), (4, 2));
    assert_eq!(notice.from, Some(LicenseStatus::Draft));
    assert_eq!(notice.to, LicenseStatus::Requested);
    assert_eq!(notice.at, 99);
}

#[test]
fn a_stale_concurrent_update_is_rejected_instead_of_overwriting() {
    // Two callers both read the track as Draft; the first swap wins, the
    // second finds the row no longer at Draft and changes nothing.
    let first = update(LicenseStatus::Requested, None).current_found(Some(track(LicenseStatus::Draft, 0))).unwrap();
    let second = update(LicenseStatus::Rejected, None).current_found(Some(track(LicenseStatus::Draft, 0)));
    // Draft -> Rejected is not even a legal step, so the second is refused at once.
    assert!(matches!(second, Err(AppError::InvalidTransition { .. })));
    assert!(first.swapped(Some(track(LicenseStatus::Requested, 1))).is_ok());

    let stale = update(LicenseStatus::Requested, None).current_found(Some(track(LicenseStatus::Draft, 0))).unwrap();
    match stale.swapped(None) {
        Err(error) => {
            assert_eq!(error.status_code(), 409);
            assert!(matches!(
                error,
                AppError::InvalidTransition { from: LicenseStatus::Draft, to: LicenseStatus::Requested }
            ));
        }
        Ok(entry) => panic!("a lost race must not be recorded: {entry:?}"),
    }
}

#[test]
fn a_track_that_vanishes_after_the_commit_is_answered_with_404() {
    let entry = update(LicenseStatus::Requested, None)
        .current_found(Some(track(LicenseStatus::Draft, 0)))
        .unwrap()
        .swapped(Some(track(LicenseStatus::Requested, 1)))
        .unwrap();
    assert!(matches!(entry.committed().detail_found(None), Err(AppError::NotFound)));
}

#[test]
fn the_audit_trail_follows_the_status_through_a_negotiation() {
    // Each successful update appends the step from the status it read; the
    // trail starts at Draft, each row starts where the last ended, and it
    // ends at the track's status.
    let mut status = LicenseStatus::Draft;
    let mut trail: Vec<(Option<LicenseStatus>, LicenseStatus)> = Vec::new();
    for next in [LicenseStatus::Requested, LicenseStatus::InNegotiation, LicenseStatus::Approved] {
        let entry = update(next, None)
            .current_found(Some(track(status, 0)))
            .unwrap()
            .swapped(Some(track(next, 1)))
            .unwrap();
        trail.push((entry.from_status, entry.to_status));
        status = entry.to_status;
    }
    // A refused step and a lost race append nothing.
    assert!(update(LicenseStatus::Draft, None).current_found(Some(track(status, 0))).is_err());
    let stale = update(LicenseStatus::Licensed, None).current_found(Some(track(status, 0))).unwrap();
    assert!(stale.swapped(None).is_err());

    assert_eq!(
        trail,
        vec![
            (Some(LicenseStatus::Draft), LicenseStatus::Requested),
            (Some(LicenseStatus::Requested), LicenseStatus::InNegotiation),
            (Some(LicenseStatus::InNegotiation), LicenseStatus::Approved),
        ]
    );
    assert_eq!(trail.last().unwrap().1, status);
}
