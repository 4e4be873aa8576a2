//! `POST /scenes/{id}/tracks` and `PATCH /tracks/{id}/license`, as
//! sequences of steps. The handler runs the steps in order: each step takes
//! what the previous database call returned and either answers the request
//! with an error or says which call to make next (the values of the next
//! step are that call's arguments).

use vstd::prelude::*;

use crate::domain::entities::{Scene, Song, Track};
use crate::domain::license::{can_transition, is_legal_step, LicenseStatus};
use crate::domain::track::{is_valid_time_range, valid_time_range};
use crate::dto::TrackDetail;
use crate::error::{status_code_of, AppError};
use crate::events::LicenseStatusChanged;

verus! {

/// Body of `POST /scenes/{id}/tracks`; `song_id` as in `domain::entities`.
#[derive(Debug)]
pub struct CreateTrackRequest {
    pub song_id: u128,
    pub start_time_ms: i32,
    pub end_time_ms: i32,
}

/// Body of `PATCH /tracks/{id}/license`.
#[derive(Debug)]
pub struct UpdateLicenseRequest {
    pub status: LicenseStatus,
    pub note: Option<String>,
}

/// The message with which an empty or negative time window is refused.
pub open spec fn invalid_range_message() -> Seq<char> {
    "end_time_ms must be greater than start_time_ms"@
}

// ----- POST /scenes/{id}/tracks -------------------------------------------
/// A track to create under a scene; the scene has yet to be looked up.
#[derive(Debug)]
pub struct TrackCreation {
    pub scene_id: u128,
    pub request: CreateTrackRequest,
}

/// The scene exists; the song has yet to be looked up.
#[derive(Debug)]
pub struct SongLookup {
    pub scene_id: u128,
    pub request: CreateTrackRequest,
}

/// The track to insert: its scene and song exist and its time window is
/// valid.
#[derive(Debug)]
pub struct NewTrack {
    pub scene_id: u128,
    pub song_id: u128,
    pub start_time_ms: i32,
    pub end_time_ms: i32,
}

impl TrackCreation {
    /// Takes the result of looking up the scene: a missing scene is answered
    /// with `404`.
    pub fn scene_found(self, found: Option<Scene>) -> (next: Result<SongLookup, AppError>)
        ensures
            match found {
                Some(_) => next == Ok::<SongLookup, AppError>(
                    SongLookup { scene_id: self.scene_id, request: self.request },
                ),
                None => next == Err::<SongLookup, AppError>(AppError::NotFound),
            },
    {
        match found {
            Some(_) => Ok(SongLookup { scene_id: self.scene_id, request: self.request }),
            None => Err(AppError::NotFound),
        }
    }
}

impl SongLookup {
    /// Takes the result of looking up the song: a missing song is answered
    /// with `404`; then a time window that starts before zero or is empty is
    /// answered with `400`. Otherwise the track can be inserted.
    pub fn song_found(self, found: Option<Song>) -> (next: Result<NewTrack, AppError>)
        ensures
            found is None ==> next == Err::<NewTrack, AppError>(AppError::NotFound),
            found is Some && valid_time_range(
                self.request.start_time_ms as int,
                self.request.end_time_ms as int,
            ) ==> next == Ok::<NewTrack, AppError>(
                NewTrack {
                    scene_id: self.scene_id,
                    song_id: self.request.song_id,
                    start_time_ms: self.request.start_time_ms,
                    end_time_ms: self.request.end_time_ms,
                },
            ),
            found is Some && !valid_time_range(
                self.request.start_time_ms as int,
                self.request.end_time_ms as int,
            ) ==> (next matches Err(e) && e matches AppError::BadRequest(message) && message@
                == invalid_range_message()),
    {
        if found.is_none() {
            return Err(AppError::NotFound);
        }
        if !is_valid_time_range(self.request.start_time_ms, self.request.end_time_ms) {
            return Err(
                AppError::BadRequest(
                    String::from_str("end_time_ms must be greater than start_time_ms"),
                ),
            );
        }
        Ok(
            NewTrack {
                scene_id: self.scene_id,
                song_id: self.request.song_id,
                start_time_ms: self.request.start_time_ms,
                end_time_ms: self.request.end_time_ms,
            },
        )
    }
}

// ----- PATCH /tracks/{id}/license -----------------------------------------
/// A license change requested for a track; the track's current row has yet
/// to be read.
#[derive(Debug)]
pub struct LicenseUpdate {
    pub track_id: u128,
    pub request: UpdateLicenseRequest,
}

/// The compare-and-swap to run: move the track from `expected` to
/// `new_status`, but only if it is still at `expected`.
#[derive(Debug)]
pub struct StatusSwap {
    pub track_id: u128,
    pub scene_id: u128,
    pub expected: LicenseStatus,
    pub new_status: LicenseStatus,
    pub note: Option<String>,
}

/// The audit row to write, in the same transaction as the swap.
#[derive(Debug)]
pub struct AuditEntry {
    pub track_id: u128,
    pub scene_id: u128,
    pub from_status: Option<LicenseStatus>,
    pub to_status: LicenseStatus,
    pub note: Option<String>,
}

/// A change whose swap and audit row have been committed; the track's detail
/// has yet to be read for the response.
#[derive(Debug)]
pub struct CommittedChange {
    pub track_id: u128,
    pub scene_id: u128,
    pub from_status: Option<LicenseStatus>,
    pub to_status: LicenseStatus,
}

/// What reading the track's current row leads to: `404` if there is none,
/// `409` if the requested status is not a legal step from the current one,
/// and otherwise a compare-and-swap from the status just read.
pub open spec fn swap_for(update: LicenseUpdate, found: Option<Track>) -> Result<
    StatusSwap,
    AppError,
> {
    match found {
        None => Err(AppError::NotFound),
        Some(current) => if is_legal_step(current.license_status, update.request.status) {
            Ok(
                StatusSwap {
                    track_id: update.track_id,
                    scene_id: current.scene_id,
                    expected: current.license_status,
                    new_status: update.request.status,
                    note: update.request.note,
                },
            )
        } else {
            Err(
                AppError::InvalidTransition {
                    from: current.license_status,
                    to: update.request.status,
                },
            )
        },
    }
}

/// What the compare-and-swap leads to: if it changed no row, someone else
/// moved the track since it was read, and the request is answered with
/// `409` instead of overwriting their change; otherwise the audit row of
/// the step just made.
pub open spec fn audit_for(swap: StatusSwap, updated: Option<Track>) -> Result<AuditEntry, AppError> {
    match updated {
        None => Err(AppError::InvalidTransition { from: swap.expected, to: swap.new_status }),
        Some(_) => Ok(
            AuditEntry {
                track_id: swap.track_id,
                scene_id: swap.scene_id,
                from_status: Some(swap.expected),
                to_status: swap.new_status,
                note: swap.note,
            },
        ),
    }
}

/// The change that an audit entry describes, once committed.
pub open spec fn committed_change(entry: AuditEntry) -> CommittedChange {
    CommittedChange {
        track_id: entry.track_id,
        scene_id: entry.scene_id,
        from_status: entry.from_status,
        to_status: entry.to_status,
    }
}

/// What reading the track's detail after the commit leads to: `404` if the
/// track is gone; otherwise the detail for the response, and the
/// notification to publish, stamped with the track's new update time.
pub open spec fn notice_for(change: CommittedChange, found: Option<TrackDetail>) -> Result<
    (TrackDetail, LicenseStatusChanged),
    AppError,
> {
    match found {
        None => Err(AppError::NotFound),
        Some(detail) => Ok(
            (
                detail,
                LicenseStatusChanged {
                    track_id: change.track_id,
                    scene_id: change.scene_id,
                    from: change.from_status,
                    to: change.to_status,
                    at: detail.track.updated_at,
                },
            ),
        ),
    }
}

impl LicenseUpdate {
    /// Takes the track's current row.
    pub fn current_found(self, found: Option<Track>) -> (next: Result<StatusSwap, AppError>)
        ensures
            next == swap_for(self, found),
    {
        match found {
            None => Err(AppError::NotFound),
            Some(current) => {
                if can_transition(current.license_status, self.request.status) {
                    Ok(
                        StatusSwap {
                            track_id: self.track_id,
                            scene_id: current.scene_id,
                            expected: current.license_status,
                            new_status: self.request.status,
                            note: self.request.note,
                        },
                    )
                } else {
                    Err(
                        AppError::InvalidTransition {
                            from: current.license_status,
                            to: self.request.status,
                        },
                    )
                }
            },
        }
    }
}

impl StatusSwap {
    /// Takes the row that the compare-and-swap returned, if any.
    pub fn swapped(self, updated: Option<Track>) -> (next: Result<AuditEntry, AppError>)
        ensures
            next == audit_for(self, updated),
    {
        match updated {
            None => Err(AppError::InvalidTransition { from: self.expected, to: self.new_status }),
            Some(_) => Ok(
                AuditEntry {
                    track_id: self.track_id,
                    scene_id: self.scene_id,
                    from_status: Some(self.expected),
                    to_status: self.new_status,
                    note: self.note,
                },
            ),
        }
    }
}

impl AuditEntry {
    /// The audit row has been written and the transaction committed.
    pub fn committed(self) -> (change: CommittedChange)
        ensures
            change == committed_change(self),
    {
        CommittedChange {
            track_id: self.track_id,
            scene_id: self.scene_id,
            from_status: self.from_status,
            to_status: self.to_status,
        }
    }
}

impl CommittedChange {
    /// Takes the track's detail as read after the commit.
    pub fn detail_found(self, found: Option<TrackDetail>) -> (next: Result<
        (TrackDetail, LicenseStatusChanged),
        AppError,
    >)
        ensures
            next == notice_for(self, found),
    {
        match found {
            None => Err(AppError::NotFound),
            Some(detail) => {
                let at: i64 = detail.track.updated_at;
                Ok(
                    (
                        detail,
                        LicenseStatusChanged {
                            track_id: self.track_id,
                            scene_id: self.scene_id,
                            from: self.from_status,
                            to: self.to_status,
                            at,
                        },
                    ),
                )
            },
        }
    }
}


/// A request for a step that the workflow does not allow is answered with
/// `409`, naming the current and the requested status, and no
/// compare-and-swap is asked for.
pub proof fn refused_steps_are_answered_with_conflict(update: LicenseUpdate, current: Track)
    requires
        !is_legal_step(current.license_status, update.request.status),
    ensures
        swap_for(update, Some(current)) == Err::<StatusSwap, AppError>(
            AppError::InvalidTransition { from: current.license_status, to: update.request.status },
        ),
        status_code_of(
            AppError::InvalidTransition { from: current.license_status, to: update.request.status },
        ) == 409,
{
}

/// Every compare-and-swap that the workflow asks for expects the status
/// just read and moves the track to the requested status, by a legal step.
pub proof fn swaps_are_legal_steps_from_the_status_read(update: LicenseUpdate, current: Track)
    ensures
        swap_for(update, Some(current)) matches Ok(swap) ==> {
            &&& swap.track_id == update.track_id
            &&& swap.expected == current.license_status
            &&& swap.new_status == update.request.status
            &&& is_legal_step(swap.expected, swap.new_status)
        },
{
}

/// When the compare-and-swap finds that someone else moved the track since
/// it was read, nothing is written to the history and the request is
/// answered with `409`: the stale request loses instead of overwriting.
pub proof fn a_lost_race_records_nothing(swap: StatusSwap)
    ensures
        audit_for(swap, None) matches Err(e) && status_code_of(e) == 409,
{
}

/// A successful update appends exactly the step it made to the history, and
/// the notification it publishes describes that same step: from the status
/// read before the update to the requested one, for the same track and
/// scene, stamped with the track's new update time.
pub proof fn history_and_notice_describe_the_step_made(
    update: LicenseUpdate,
    current: Track,
    updated: Track,
    detail: TrackDetail,
)
    requires
        is_legal_step(current.license_status, update.request.status),
    ensures
        swap_for(update, Some(current)) matches Ok(swap) && audit_for(swap, Some(updated)) matches Ok(
            entry,
        ) && {
            &&& entry.track_id == update.track_id
            &&& entry.from_status == Some(current.license_status)
            &&& entry.to_status == update.request.status
            &&& entry.note == update.request.note
            &&& notice_for(committed_change(entry), Some(detail)) matches Ok(answer) && {
                &&& answer.0 == detail
                &&& answer.1.track_id == update.track_id
                &&& answer.1.scene_id == current.scene_id
                &&& answer.1.from == entry.from_status
                &&& answer.1.to == entry.to_status
                &&& answer.1.at == detail.track.updated_at
            }
        },
{
}


/// A track's audit trail, as the (from, to) pairs of its rows, oldest
/// first, agrees with its license status: an empty trail belongs to a track
/// still at `Draft`; otherwise the trail starts from `Draft`, each row
/// starts where the previous one ended, each row is a legal step, and the
/// last row ends at the track's status.
pub open spec fn history_agrees(
    history: Seq<(Option<LicenseStatus>, LicenseStatus)>,
    status: LicenseStatus,
) -> bool {
    if history.len() == 0 {
        status == LicenseStatus::Draft
    } else {
        &&& history[0].0 == Some(LicenseStatus::Draft)
        &&& forall|i: int|
            0 <= i < history.len() - 1 ==> #[trigger] history[i + 1].0 == Some(history[i].1)
        &&& forall|i: int|
            0 <= i < history.len() ==> (#[trigger] history[i].0 matches Some(from) && is_legal_step(
                from,
                history[i].1,
            ))
        &&& history.last().1 == status
    }
}

/// A new track starts at `Draft` with no history, and so in agreement.
pub proof fn a_new_track_agrees_with_its_empty_history()
    ensures
        history_agrees(Seq::empty(), LicenseStatus::Draft),
{
}

/// The audit trail never disagrees with the track's status. If the trail
/// agrees with the status the compare-and-swap expects, and the swap moves
/// the track by a legal step, then appending the audit entry that a
/// successful swap produces gives a trail that agrees with the new status;
/// a lost race appends nothing and the status stays as it was.
pub proof fn a_swap_keeps_history_in_agreement(
    history: Seq<(Option<LicenseStatus>, LicenseStatus)>,
    swap: StatusSwap,
    updated: Option<Track>,
)
    requires
        history_agrees(history, swap.expected),
        is_legal_step(swap.expected, swap.new_status),
    ensures
        match audit_for(swap, updated) {
            Ok(entry) => entry.to_status == swap.new_status && history_agrees(
                history.push((entry.from_status, entry.to_status)),
                swap.new_status,
            ),
            Err(_) => updated is None && history_agrees(history, swap.expected),
        },
{
    if let Ok(entry) = audit_for(swap, updated) {
        let h = history.push((entry.from_status, entry.to_status));
        if history.len() == 0 {
            assert(h[0] == (entry.from_status, entry.to_status));
        } else {
            assert forall|i: int| 0 <= i < h.len() - 1 implies #[trigger] h[i + 1].0 == Some(h[i].1) by {
                if i < history.len() - 1 {
                    assert(history[i + 1].0 == Some(history[i].1));
                } else {
                    assert(h[i] == history.last());
                }
            }
            assert forall|i: int| 0 <= i < h.len() implies (#[trigger] h[i].0 matches Some(from)
                && is_legal_step(from, h[i].1)) by {
                if i < history.len() {
                    assert(h[i] == history[i]);
                    assert(history[i].0 matches Some(from) && is_legal_step(from, history[i].1));
                }
            }
        }
    }
}

/// Over the whole update: if a track's trail agrees with the status read
/// before the update, then whatever the update answers, the trail still
/// agrees with the track's status afterwards. A refused request (404, or
/// 409 for an illegal step or a lost race) writes nothing; a successful one
/// appends exactly its step and leaves the track at the requested status.
pub proof fn an_update_keeps_history_in_agreement(
    history: Seq<(Option<LicenseStatus>, LicenseStatus)>,
    update: LicenseUpdate,
    current: Track,
    updated: Option<Track>,
)
    requires
        history_agrees(history, current.license_status),
    ensures
        match swap_for(update, Some(current)) {
            Ok(swap) => match audit_for(swap, updated) {
                Ok(entry) => entry.to_status == update.request.status && history_agrees(
                    history.push((entry.from_status, entry.to_status)),
                    update.request.status,
                ),
                Err(_) => updated is None,
            },
            Err(_) => true,
        },
{
    if let Ok(swap) = swap_for(update, Some(current)) {
        a_swap_keeps_history_in_agreement(history, swap, updated);
    }
}

} // verus!
