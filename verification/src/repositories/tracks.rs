//! What the track queries' rows become: summaries, details with their
//! history, and a movie's tracks grouped by scene.

use vstd::prelude::*;

use crate::domain::entities::LicenseStatusEvent;
use crate::dto::{
    LicenseEventSummary, SceneSummary, SceneTrackRow, SceneTracks, SongSummary, TrackDetail,
    TrackSongRow, TrackSummary,
};

verus! {

/// The summary that a joined track row stands for.
pub open spec fn summary_of(row: TrackSongRow) -> TrackSummary {
    TrackSummary {
        id: row.track_id,
        song: SongSummary { id: row.song_id, title: row.song_title, artist: row.song_artist },
        start_time_ms: row.start_time_ms,
        end_time_ms: row.end_time_ms,
        license_status: row.license_status,
        updated_at: row.updated_at,
    }
}

/// The history entry that an audit row stands for.
pub open spec fn event_summary_of(event: LicenseStatusEvent) -> LicenseEventSummary {
    LicenseEventSummary {
        from_status: event.from_status,
        to_status: event.to_status,
        note: event.note,
        created_at: event.created_at,
    }
}

/// Builds the summary of one joined track row.
pub fn track_summary(row: TrackSongRow) -> (summary: TrackSummary)
    ensures
        summary == summary_of(row),
        summary.id == row.track_id,
        summary.song.id == row.song_id,
        summary.song.title == row.song_title,
        summary.song.artist == row.song_artist,
        summary.start_time_ms == row.start_time_ms,
        summary.end_time_ms == row.end_time_ms,
        summary.license_status == row.license_status,
        summary.updated_at == row.updated_at,
{
    TrackSummary {
        id: row.track_id,
        song: SongSummary { id: row.song_id, title: row.song_title, artist: row.song_artist },
        start_time_ms: row.start_time_ms,
        end_time_ms: row.end_time_ms,
        license_status: row.license_status,
        updated_at: row.updated_at,
    }
}

/// Builds the history entry of one audit row.
pub fn event_summary(event: LicenseStatusEvent) -> (summary: LicenseEventSummary)
    ensures
        summary == event_summary_of(event),
        summary.from_status == event.from_status,
        summary.to_status == event.to_status,
        summary.note == event.note,
        summary.created_at == event.created_at,
{
    LicenseEventSummary {
        from_status: event.from_status,
        to_status: event.to_status,
        note: event.note,
        created_at: event.created_at,
    }
}

/// The tracks of a scene, one summary per row, in the order of the rows.
pub fn track_summaries(rows: Vec<TrackSongRow>) -> (summaries: Vec<TrackSummary>)
    ensures
        summaries@ == rows@.map_values(|row: TrackSongRow| summary_of(row)),
        summaries@.len() == rows@.len(),
        forall|i: int|
            0 <= i < rows@.len() ==> {
                &&& (#[trigger] summaries@[i]).id == rows@[i].track_id
                &&& summaries@[i].song.id == rows@[i].song_id
                &&& summaries@[i].song.title == rows@[i].song_title
                &&& summaries@[i].song.artist == rows@[i].song_artist
                &&& summaries@[i].start_time_ms == rows@[i].start_time_ms
                &&& summaries@[i].end_time_ms == rows@[i].end_time_ms
                &&& summaries@[i].license_status == rows@[i].license_status
                &&& summaries@[i].updated_at == rows@[i].updated_at
            },
{
    let mut summaries: Vec<TrackSummary> = Vec::new();
    for row in it: rows
        invariant
            it.seq() == rows@,
            summaries@ == rows@.take(it.index() as int).map_values(
                |row: TrackSongRow| summary_of(row),
            ),
    {
        proof {
            assert(rows@.take(it.index() + 1) == rows@.take(it.index() as int).push(row));
        }
        summaries.push(track_summary(row));
    }
    proof {
        assert(rows@.take(rows@.len() as int) == rows@);
    }
    summaries
}

/// A track with its song and its history: the track's summary, and one
/// entry per audit row, in the order of the rows.
pub fn track_detail(row: TrackSongRow, history: Vec<LicenseStatusEvent>) -> (detail: TrackDetail)
    ensures
        detail.track == summary_of(row),
        detail.history@ == history@.map_values(|event: LicenseStatusEvent| event_summary_of(event)),
        detail.track.id == row.track_id,
        detail.track.song.id == row.song_id,
        detail.track.song.title == row.song_title,
        detail.track.song.artist == row.song_artist,
        detail.track.start_time_ms == row.start_time_ms,
        detail.track.end_time_ms == row.end_time_ms,
        detail.track.license_status == row.license_status,
        detail.track.updated_at == row.updated_at,
        detail.history@.len() == history@.len(),
        forall|i: int|
            0 <= i < history@.len() ==> {
                &&& (#[trigger] detail.history@[i]).from_status == history@[i].from_status
                &&& detail.history@[i].to_status == history@[i].to_status
                &&& detail.history@[i].note == history@[i].note
                &&& detail.history@[i].created_at == history@[i].created_at
            },
{
    let mut entries: Vec<LicenseEventSummary> = Vec::new();
    for event in it: history
        invariant
            it.seq() == history@,
            entries@ == history@.take(it.index() as int).map_values(
                |event: LicenseStatusEvent| event_summary_of(event),
            ),
    {
        proof {
            assert(history@.take(it.index() + 1) == history@.take(it.index() as int).push(event));
        }
        entries.push(event_summary(event));
    }
    proof {
        assert(history@.take(history@.len() as int) == history@);
    }
    TrackDetail { track: track_summary(row), history: entries }
}


/// Each track of `groups`, in order, paired with the id of the scene whose
/// group holds it.
pub open spec fn placed_tracks(groups: Seq<SceneTracks>) -> Seq<(u128, TrackSummary)>
    decreases groups.len(),
{
    if groups.len() == 0 {
        seq![]
    } else {
        let last = groups.last();
        placed_tracks(groups.drop_last()) + last.tracks@.map_values(
            |track: TrackSummary| (last.scene.id, track),
        )
    }
}

/// Each row, in order, as the pair of its scene's id and its track's summary.
pub open spec fn placed_rows(rows: Seq<SceneTrackRow>) -> Seq<(u128, TrackSummary)> {
    rows.map_values(|row: SceneTrackRow| (row.scene_id, summary_of(row.track)))
}

/// The position, among all rows, of the first row of group `k`.
pub open spec fn group_start(groups: Seq<SceneTracks>, k: int) -> int {
    placed_tracks(groups.take(k)).len() as int
}

/// Consecutive groups `k` and `k + 1` belong to different scenes.
pub open spec fn differs_from_next(groups: Seq<SceneTracks>, k: int) -> bool {
    groups[k].scene.id != groups[k + 1].scene.id
}

/// `groups` is the partition of `rows` into maximal runs of consecutive rows
/// of the same scene: the groups hold the rows' tracks in the rows' order,
/// each under the scene of its rows; no group is empty; two consecutive
/// groups never belong to the same scene; and a group carries the scene name
/// of its first row.
pub open spec fn groups_rows_by_scene(groups: Seq<SceneTracks>, rows: Seq<SceneTrackRow>) -> bool {
    &&& placed_tracks(groups) == placed_rows(rows)
    &&& forall|k: int| 0 <= k < groups.len() ==> #[trigger] groups[k].tracks@.len() > 0
    &&& forall|k: int| 0 <= k < groups.len() - 1 ==> #[trigger] differs_from_next(groups, k)
    &&& forall|k: int|
        0 <= k < groups.len() ==> #[trigger] groups[k].scene.name == rows[group_start(groups, k)].scene_name
}

proof fn lemma_placed_tracks_len_monotone(groups: Seq<SceneTracks>, k: int)
    requires
        0 <= k <= groups.len(),
    ensures
        placed_tracks(groups.take(k)).len() <= placed_tracks(groups).len(),
    decreases groups.len(),
{
    if k < groups.len() {
        assert(groups.drop_last().take(k) == groups.take(k));
        lemma_placed_tracks_len_monotone(groups.drop_last(), k);
    } else {
        assert(groups.take(k) == groups);
    }
}

proof fn lemma_group_start_bound(groups: Seq<SceneTracks>, k: int)
    requires
        0 <= k < groups.len(),
        groups[k].tracks@.len() > 0,
    ensures
        group_start(groups, k) < placed_tracks(groups).len(),
{
    let next = groups.take(k + 1);
    assert(next.drop_last() == groups.take(k));
    assert(next.last() == groups[k]);
    lemma_placed_tracks_len_monotone(groups, k + 1);
}

/// Tracks for every scene in a movie, grouped by scene: consecutive rows of
/// the same scene go to one group, in the order of the rows.
pub fn group_by_scene(rows: Vec<SceneTrackRow>) -> (groups: Vec<SceneTracks>)
    ensures
        groups_rows_by_scene(groups@, rows@),
{
    let mut grouped: Vec<SceneTracks> = Vec::new();
    proof {
        assert(placed_rows(rows@.take(0)) =~= seq![]);
        assert(placed_tracks(grouped@) =~= seq![]);
    }
    for row in it: rows
        invariant
            it.seq() == rows@,
            groups_rows_by_scene(grouped@, rows@.take(it.index() as int)),
    {
        let ghost before = grouped@;
        let ghost seen = rows@.take(it.index() as int);
        let ghost i = it.index() as int;
        let ghost placed = (row.scene_id, summary_of(row.track));
        proof {
            assert(rows@.take(i + 1) == seen.push(row));
            assert(placed_rows(seen.push(row)) == placed_rows(seen).push(placed));
        }
        let scene_id: u128 = row.scene_id;
        let scene_name: String = row.scene_name;
        let track: TrackSummary = track_summary(row.track);
        let n: usize = grouped.len();
        if n > 0 && grouped[n - 1].scene.id == scene_id {
            let mut last = grouped.pop().unwrap();
            let ghost old_last = last;
            last.tracks.push(track);
            grouped.push(last);
            proof {
                assert(grouped@.drop_last() == before.drop_last());
                assert(last.tracks@.map_values(|t: TrackSummary| (last.scene.id, t))
                    == old_last.tracks@.map_values(|t: TrackSummary| (old_last.scene.id, t)).push(placed));
                assert(placed_tracks(grouped@) == placed_tracks(before).push(placed));
                assert forall|k: int| 0 <= k < grouped@.len() implies #[trigger] grouped@[k].scene.name
                    == rows@.take(i + 1)[group_start(grouped@, k)].scene_name by {
                    assert(grouped@.take(k) == before.take(k));
                    assert(before[k].tracks@.len() > 0);
                    lemma_group_start_bound(before, k);
                }
                assert forall|k: int| 0 <= k < grouped@.len() - 1 implies #[trigger] differs_from_next(grouped@, k) by {
                    assert(differs_from_next(before, k));
                }
                assert forall|k: int| 0 <= k < grouped@.len() implies #[trigger] grouped@[k].tracks@.len() > 0 by {
                    if k < n - 1 {
                        assert(before[k].tracks@.len() > 0);
                    }
                }
            }
        } else {
            let mut tracks: Vec<TrackSummary> = Vec::new();
            tracks.push(track);
            let group = SceneTracks { scene: SceneSummary { id: scene_id, name: scene_name }, tracks };
            grouped.push(group);
            proof {
                assert(grouped@.drop_last() == before);
                assert(group.tracks@.map_values(|t: TrackSummary| (group.scene.id, t)) =~= seq![placed]);
                assert(placed_tracks(grouped@) == placed_tracks(before).push(placed));
                assert forall|k: int| 0 <= k < grouped@.len() implies #[trigger] grouped@[k].scene.name
                    == rows@.take(i + 1)[group_start(grouped@, k)].scene_name by {
                    if k < n {
                        assert(grouped@.take(k) == before.take(k));
                        assert(before[k].tracks@.len() > 0);
                        lemma_group_start_bound(before, k);
                    } else {
                        assert(grouped@.take(k) == before);
                    }
                }
                assert forall|k: int| 0 <= k < grouped@.len() - 1 implies #[trigger] differs_from_next(grouped@, k) by {
                    if k < n - 1 {
                        assert(differs_from_next(before, k));
                    }
                }
            }
        }
    }
    proof {
        assert(rows@.take(rows@.len() as int) == rows@);
    }
    grouped
}


/// The rows of each scene are consecutive: a row between two rows of the
/// same scene belongs to that scene too (as when the rows are sorted by
/// scene).
pub open spec fn rows_clustered_by_scene(rows: Seq<SceneTrackRow>) -> bool {
    forall|i: int, j: int, k: int|
        0 <= i < j < k < rows.len() && #[trigger] rows[i].scene_id == #[trigger] rows[k].scene_id
            ==> #[trigger] rows[j].scene_id == rows[i].scene_id
}

proof fn lemma_placed_tracks_prefix(groups: Seq<SceneTracks>, m: int, i: int)
    requires
        0 <= m <= groups.len(),
        0 <= i < placed_tracks(groups.take(m)).len(),
    ensures
        i < placed_tracks(groups).len(),
        placed_tracks(groups.take(m))[i] == placed_tracks(groups)[i],
    decreases groups.len(),
{
    if m < groups.len() {
        assert(groups.drop_last().take(m) == groups.take(m));
        lemma_placed_tracks_prefix(groups.drop_last(), m, i);
    } else {
        assert(groups.take(m) == groups);
    }
}

proof fn lemma_group_start_places_group(groups: Seq<SceneTracks>, k: int, j: int)
    requires
        0 <= k < groups.len(),
        0 <= j < groups[k].tracks@.len(),
    ensures
        group_start(groups, k) + j < placed_tracks(groups).len(),
        placed_tracks(groups)[group_start(groups, k) + j] == (groups[k].scene.id, groups[k].tracks@[j]),
{
    let next = groups.take(k + 1);
    assert(next.drop_last() == groups.take(k));
    assert(next.last() == groups[k]);
    lemma_placed_tracks_prefix(groups, k + 1, group_start(groups, k) + j);
}

proof fn lemma_group_start_monotone(groups: Seq<SceneTracks>, k1: int, k2: int)
    requires
        0 <= k1 <= k2 <= groups.len(),
    ensures
        group_start(groups, k1) <= group_start(groups, k2),
{
    assert(groups.take(k2).take(k1) == groups.take(k1));
    lemma_placed_tracks_len_monotone(groups.take(k2), k1);
}

/// When the rows of each scene come together, as the per-movie query
/// delivers them, every scene of the movie appears in at most one group.
pub proof fn clustered_rows_give_one_group_per_scene(
    groups: Seq<SceneTracks>,
    rows: Seq<SceneTrackRow>,
)
    requires
        groups_rows_by_scene(groups, rows),
        rows_clustered_by_scene(rows),
    ensures
        forall|k1: int, k2: int|
            0 <= k1 < k2 < groups.len() ==> #[trigger] groups[k1].scene.id != #[trigger] groups[k2].scene.id,
{
    assert forall|k1: int, k2: int|
        0 <= k1 < k2 < groups.len() implies #[trigger] groups[k1].scene.id != #[trigger] groups[k2].scene.id by {
        let a: int = group_start(groups, k1);
        let b: int = group_start(groups, k1 + 1);
        let c: int = group_start(groups, k2);
        assert(groups[k1].tracks@.len() > 0);
        assert(groups[k1 + 1].tracks@.len() > 0);
        assert(groups[k2].tracks@.len() > 0);
        lemma_group_start_places_group(groups, k1, 0);
        lemma_group_start_places_group(groups, k1 + 1, 0);
        lemma_group_start_places_group(groups, k2, 0);
        lemma_group_start_monotone(groups, k1 + 1, k2);
        let next = groups.take(k1 + 1);
        assert(next.drop_last() == groups.take(k1));
        assert(next.last() == groups[k1]);
        assert(a < b);
        assert(placed_rows(rows)[a] == (rows[a].scene_id, summary_of(rows[a].track)));
        assert(placed_rows(rows)[b] == (rows[b].scene_id, summary_of(rows[b].track)));
        assert(placed_rows(rows)[c] == (rows[c].scene_id, summary_of(rows[c].track)));
        assert(differs_from_next(groups, k1));
        if groups[k1].scene.id == groups[k2].scene.id && b < c {
            assert(rows[a].scene_id == rows[c].scene_id);
            assert(rows[b].scene_id == rows[a].scene_id);
        }
    }
}


/// A summary copies the row it is built from, field by field: the track's
/// id, time window, license status and update time, and its song's id,
/// title and artist. Nothing is defaulted or recomputed.
pub proof fn a_summary_copies_its_row(row: TrackSongRow)
    ensures
        summary_of(row).id == row.track_id,
        summary_of(row).song.id == row.song_id,
        summary_of(row).song.title == row.song_title,
        summary_of(row).song.artist == row.song_artist,
        summary_of(row).start_time_ms == row.start_time_ms,
        summary_of(row).end_time_ms == row.end_time_ms,
        summary_of(row).license_status == row.license_status,
        summary_of(row).updated_at == row.updated_at,
{
}

/// A history entry copies its audit row: the step's from and to status,
/// its note and its time.
pub proof fn a_history_entry_copies_its_row(event: LicenseStatusEvent)
    ensures
        event_summary_of(event).from_status == event.from_status,
        event_summary_of(event).to_status == event.to_status,
        event_summary_of(event).note == event.note,
        event_summary_of(event).created_at == event.created_at,
{
}

/// In a movie's grouped track list, the `j`-th track of group `k` is the
/// track of the row at position `group_start(k) + j`, with every field
/// copied from that row, and it belongs to that row's scene.
pub proof fn grouped_tracks_copy_their_rows(
    groups: Seq<SceneTracks>,
    rows: Seq<SceneTrackRow>,
    k: int,
    j: int,
)
    requires
        groups_rows_by_scene(groups, rows),
        0 <= k < groups.len(),
        0 <= j < groups[k].tracks@.len(),
    ensures
        0 <= group_start(groups, k) + j < rows.len(),
        ({
            let r = rows[group_start(groups, k) + j];
            let t = groups[k].tracks@[j];
            &&& groups[k].scene.id == r.scene_id
            &&& t.id == r.track.track_id
            &&& t.song.id == r.track.song_id
            &&& t.song.title == r.track.song_title
            &&& t.song.artist == r.track.song_artist
            &&& t.start_time_ms == r.track.start_time_ms
            &&& t.end_time_ms == r.track.end_time_ms
            &&& t.license_status == r.track.license_status
            &&& t.updated_at == r.track.updated_at
        }),
{
    lemma_group_start_places_group(groups, k, j);
    let x = group_start(groups, k) + j;
    assert(placed_rows(rows)[x] == (rows[x].scene_id, summary_of(rows[x].track)));
}

} // verus!
