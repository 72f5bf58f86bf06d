//! How the shell's own events change the snapshot: start-up, catalog
//! loading, account status messages and revision numbers.

use vstd::prelude::*;
use crate::library::{demo_library, demo_tracks};
use crate::model::{
    AppSnapshot, PlaybackState, PlaybackV, Playlist, PlaylistV, QueueEntry, QueueEntryV, RepeatMode,
    SnapshotV, Track, TrackV, ViewId, clone_tracks, playlists_v, queue_v, tracks_v,
};
use crate::text::{contains_seq, contains_text, decimal, decimal_string, owned};

verus! {

/// The demo queue: the first tracks of `library`, with ids `demo-1`,
/// `demo-2`, and so on.
pub open spec fn demo_queue(library: Seq<TrackV>) -> Seq<QueueEntryV> {
    Seq::new(library.len(), |i: int| QueueEntryV { queue_id: "demo-"@ + decimal((i + 1) as nat), track: library[i] })
}

/// The snapshot shown at start-up: three demo tracks, all of them queued,
/// the first one playing at 3:14.
pub open spec fn initial_snapshot_v() -> SnapshotV {
    let library = demo_tracks().take(3);
    SnapshotV {
        revision: 0,
        view: ViewId::Library,
        library,
        playlists: Seq::empty(),
        queue: demo_queue(library),
        playback: PlaybackV {
            track: Some(library[0]),
            position_ms: 194000,
            playing: true,
            shuffle: false,
            repeat: RepeatMode::Off,
        },
        playlist_context_id: None,
        authenticated: false,
        catalog_loading: false,
        spotify_configured: true,
        message: Some("Desktop shell preview \u{2014} connect Spotify to link your library."@),
    }
}

/// The snapshot the shell starts with.
pub fn initial_snapshot() -> (s: AppSnapshot)
    ensures
        s@ == initial_snapshot_v(),
{
    let all = demo_library();
    assert(demo_tracks().len() == 16);
    assert(tracks_v(all@).len() == all@.len());
    let mut library: Vec<Track> = Vec::new();
    let mut queue: Vec<QueueEntry> = Vec::new();
    let mut i: usize = 0;
    while i < 3
        invariant
            tracks_v(all@) == demo_tracks(),
            all@.len() == 16,
            i <= 3,
            library@.len() == i,
            queue@.len() == i,
            demo_tracks().len() == 16,
            tracks_v(library@) == demo_tracks().take(i as int),
            queue_v(queue@) == demo_queue(demo_tracks().take(i as int)),
        decreases 3 - i,
    {
        let ghost lib_before = library@;
        let ghost queue_before = queue@;
        let t = all[i].clone();
        let mut queue_id = owned("demo-");
        let digits = decimal_string((i + 1) as u128);
        queue_id.append(digits.as_str());
        queue.push(QueueEntry { queue_id, track: t.clone() });
        library.push(t);
        assert(tracks_v(library@) =~= demo_tracks().take(i + 1));
        proof {
            let next = demo_tracks().take(i + 1);
            let prev = demo_tracks().take(i as int);
            assert forall|k: int| 0 <= k < i + 1 implies queue_v(queue@)[k] == demo_queue(next)[k] by {
                if k < i {
                    assert(queue_v(queue@)[k] == queue_v(queue_before)[k]);
                    assert(next[k] == prev[k]);
                }
            }
            assert(queue_v(queue@) =~= demo_queue(next));
        }
        i = i + 1;
    }
    let first = library[0].clone();
    assert(tracks_v(library@)[0] == library@[0]@);
    let playlists: Vec<Playlist> = Vec::new();
    assert(playlists_v(playlists@) =~= Seq::<PlaylistV>::empty());
    AppSnapshot {
        revision: 0,
        view: ViewId::Library,
        library,
        playlists,
        queue,
        playback: PlaybackState {
            track: Some(first),
            position_ms: 194000,
            playing: true,
            shuffle: false,
            repeat: RepeatMode::Off,
        },
        playlist_context_id: None,
        authenticated: false,
        catalog_loading: false,
        spotify_configured: true,
        message: Some(owned("Desktop shell preview \u{2014} connect Spotify to link your library.")),
    }
}

/// Counts a published change; the revision wraps at the top.
pub fn bump_revision(snapshot: &mut AppSnapshot)
    ensures
        final(snapshot)@ == (SnapshotV {
            revision: if old(snapshot)@.revision == u64::MAX { 0 } else { (old(snapshot)@.revision + 1) as u64 },
            ..old(snapshot)@
        }),
{
    snapshot.revision = snapshot.revision.wrapping_add(1);
}

/// Clears the demo content while a Spotify catalog loads.
pub fn begin_catalog_loading(snapshot: &mut AppSnapshot)
    ensures
        final(snapshot)@ == (SnapshotV {
            catalog_loading: true,
            queue: Seq::empty(),
            library: Seq::empty(),
            playlists: Seq::empty(),
            playback: PlaybackV { track: None, position_ms: 0, playing: false, ..old(snapshot)@.playback },
            ..old(snapshot)@
        }),
{
    snapshot.catalog_loading = true;
    snapshot.queue.clear();
    snapshot.library.clear();
    snapshot.playlists.clear();
    snapshot.playback.track = None;
    snapshot.playback.position_ms = 0;
    snapshot.playback.playing = false;
    assert(queue_v(snapshot.queue@) =~= Seq::<QueueEntryV>::empty());
    assert(tracks_v(snapshot.library@) =~= Seq::<TrackV>::empty());
    assert(playlists_v(snapshot.playlists@) =~= Seq::<PlaylistV>::empty());
}

/// Marks the catalog as loaded.
pub fn finish_catalog_loading(snapshot: &mut AppSnapshot)
    ensures
        final(snapshot)@ == (SnapshotV { catalog_loading: false, ..old(snapshot)@ }),
{
    snapshot.catalog_loading = false;
}

/// Shows the saved tracks of the account: an empty session queue, and the
/// first saved track selected but not playing.
pub fn sync_library_snapshot(snapshot: &mut AppSnapshot, library: Vec<Track>)
    ensures
        final(snapshot)@ == (SnapshotV {
            queue: Seq::empty(),
            library: tracks_v(library@),
            playback: PlaybackV {
                track: if library@.len() > 0 { Some(library@[0]@) } else { None },
                position_ms: 0,
                playing: false,
                ..old(snapshot)@.playback
            },
            ..old(snapshot)@
        }),
{
    snapshot.queue.clear();
    assert(queue_v(snapshot.queue@) =~= Seq::<QueueEntryV>::empty());
    snapshot.playback.track = if library.len() > 0 { Some(library[0].clone()) } else { None };
    snapshot.playback.position_ms = 0;
    snapshot.playback.playing = false;
    snapshot.library = library;
}

/// Shows the playlists of the account.
pub fn sync_playlists_snapshot(snapshot: &mut AppSnapshot, playlists: Vec<Playlist>)
    ensures
        final(snapshot)@ == (SnapshotV { playlists: playlists_v(playlists@), ..old(snapshot)@ }),
{
    snapshot.playlists = playlists;
}

/// Records the outcome of connecting an account.
pub fn update_oauth_status(snapshot: &mut AppSnapshot, authenticated: bool, message: &str)
    ensures
        final(snapshot)@ == (SnapshotV {
            authenticated,
            spotify_configured: true,
            message: Some(message@),
            ..old(snapshot)@
        }),
{
    snapshot.authenticated = authenticated;
    snapshot.spotify_configured = true;
    snapshot.message = Some(owned(message));
}

/// A status line that reports catalog trouble, which later informational
/// lines must not hide.
pub open spec fn is_catalog_warning(message: Option<Seq<char>>) -> bool {
    message matches Some(m) && contains_seq(m, "could not load"@)
}

/// Shows a native audio status line unless a catalog warning is showing.
pub fn update_native_player_status(snapshot: &mut AppSnapshot, message: &str)
    ensures
        final(snapshot)@ == if is_catalog_warning(old(snapshot)@.message) {
            old(snapshot)@
        } else {
            SnapshotV { message: Some(message@), ..old(snapshot)@ }
        },
{
    let warning = match &snapshot.message {
        Some(current) => contains_text(current.as_str(), "could not load"),
        None => false,
    };
    if !warning {
        snapshot.message = Some(owned(message));
    }
}

/// Records that a saved session could not be restored.
pub fn session_restore_failed(snapshot: &mut AppSnapshot, error: &str)
    ensures
        final(snapshot)@ == (SnapshotV {
            authenticated: false,
            catalog_loading: false,
            message: Some("Saved Spotify session could not be restored: "@ + error@),
            ..old(snapshot)@
        }),
{
    snapshot.authenticated = false;
    snapshot.catalog_loading = false;
    let mut m = owned("Saved Spotify session could not be restored: ");
    m.append(error);
    snapshot.message = Some(m);
}

} // verus!
