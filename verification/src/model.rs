//! The application model shown by the renderer: tracks, playlists, the
//! session queue, playback state and the whole snapshot, each with a
//! mathematical view.

use vstd::prelude::*;

verus! {

/// A track as the renderer lists it.
#[derive(Debug)]
pub struct Track {
    pub id: String,
    pub title: String,
    pub artists: Vec<String>,
    pub album: String,
    pub duration_ms: u32,
    pub saved: Option<bool>,
}

/// The view of a [`Track`].
pub struct TrackV {
    pub id: Seq<char>,
    pub title: Seq<char>,
    pub artists: Seq<Seq<char>>,
    pub album: Seq<char>,
    pub duration_ms: u32,
    pub saved: Option<bool>,
}

/// The views of a sequence of strings.
pub open spec fn texts(v: Seq<String>) -> Seq<Seq<char>> {
    v.map_values(|s: String| s@)
}

/// The view of an optional string.
pub open spec fn opt_text(o: Option<String>) -> Option<Seq<char>> {
    match o {
        Some(s) => Some(s@),
        None => None,
    }
}

impl View for Track {
    type V = TrackV;

    open spec fn view(&self) -> TrackV {
        TrackV {
            id: self.id@,
            title: self.title@,
            artists: texts(self.artists@),
            album: self.album@,
            duration_ms: self.duration_ms,
            saved: self.saved,
        }
    }
}

/// A copy of a list of strings.
pub fn clone_texts(v: &Vec<String>) -> (r: Vec<String>)
    ensures
        texts(r@) == texts(v@),
{
    let mut r: Vec<String> = Vec::new();
    let mut i: usize = 0;
    while i < v.len()
        invariant
            i <= v@.len(),
            r@.len() == i,
            forall|k: int| 0 <= k < i ==> r@[k]@ == v@[k]@,
        decreases v.len() - i,
    {
        r.push(v[i].clone());
        i = i + 1;
    }
    assert(texts(r@) =~= texts(v@));
    r
}

/// A copy of an optional string.
pub fn clone_opt_text(o: &Option<String>) -> (r: Option<String>)
    ensures
        opt_text(r) == opt_text(*o),
{
    match o {
        Some(s) => Some(s.clone()),
        None => None,
    }
}

impl Clone for Track {
    fn clone(&self) -> (r: Self)
        ensures
            r@ == self@,
    {
        Track {
            id: self.id.clone(),
            title: self.title.clone(),
            artists: clone_texts(&self.artists),
            album: self.album.clone(),
            duration_ms: self.duration_ms,
            saved: self.saved,
        }
    }
}

/// A playlist as the renderer lists it.
#[derive(Debug)]
pub struct Playlist {
    pub id: String,
    pub name: String,
    pub owner: String,
    pub track_count: u32,
}

/// The view of a [`Playlist`].
pub struct PlaylistV {
    pub id: Seq<char>,
    pub name: Seq<char>,
    pub owner: Seq<char>,
    pub track_count: u32,
}

impl View for Playlist {
    type V = PlaylistV;

    open spec fn view(&self) -> PlaylistV {
        PlaylistV { id: self.id@, name: self.name@, owner: self.owner@, track_count: self.track_count }
    }
}

impl Clone for Playlist {
    fn clone(&self) -> (r: Self)
        ensures
            r@ == self@,
    {
        Playlist {
            id: self.id.clone(),
            name: self.name.clone(),
            owner: self.owner.clone(),
            track_count: self.track_count,
        }
    }
}

/// An entry of the session queue.
#[derive(Debug)]
pub struct QueueEntry {
    pub queue_id: String,
    pub track: Track,
}

/// The view of a [`QueueEntry`].
pub struct QueueEntryV {
    pub queue_id: Seq<char>,
    pub track: TrackV,
}

impl View for QueueEntry {
    type V = QueueEntryV;

    open spec fn view(&self) -> QueueEntryV {
        QueueEntryV { queue_id: self.queue_id@, track: self.track@ }
    }
}

impl Clone for QueueEntry {
    fn clone(&self) -> (r: Self)
        ensures
            r@ == self@,
    {
        QueueEntry { queue_id: self.queue_id.clone(), track: self.track.clone() }
    }
}

/// Repeat behaviour of the player.
#[derive(Clone, Copy, Debug, PartialEq, Eq, Structural)]
pub enum RepeatMode {
    Off,
    Context,
    Track,
}

/// The library view the renderer shows.
#[derive(Clone, Copy, Debug, PartialEq, Eq, Structural)]
pub enum ViewId {
    Library,
    Search,
    Queue,
    Browse,
}

/// The playback part of the snapshot. The volume, a float, is held by the
/// application shell beside it.
#[derive(Debug)]
pub struct PlaybackState {
    pub track: Option<Track>,
    pub position_ms: u32,
    pub playing: bool,
    pub shuffle: bool,
    pub repeat: RepeatMode,
}

/// The view of a [`PlaybackState`].
pub struct PlaybackV {
    pub track: Option<TrackV>,
    pub position_ms: u32,
    pub playing: bool,
    pub shuffle: bool,
    pub repeat: RepeatMode,
}

/// The view of an optional track.
pub open spec fn opt_track(o: Option<Track>) -> Option<TrackV> {
    match o {
        Some(t) => Some(t@),
        None => None,
    }
}

impl View for PlaybackState {
    type V = PlaybackV;

    open spec fn view(&self) -> PlaybackV {
        PlaybackV {
            track: opt_track(self.track),
            position_ms: self.position_ms,
            playing: self.playing,
            shuffle: self.shuffle,
            repeat: self.repeat,
        }
    }
}

/// A copy of an optional track.
pub fn clone_opt_track(o: &Option<Track>) -> (r: Option<Track>)
    ensures
        opt_track(r) == opt_track(*o),
{
    match o {
        Some(t) => Some(t.clone()),
        None => None,
    }
}

impl Clone for PlaybackState {
    fn clone(&self) -> (r: Self)
        ensures
            r@ == self@,
    {
        PlaybackState {
            track: clone_opt_track(&self.track),
            position_ms: self.position_ms,
            playing: self.playing,
            shuffle: self.shuffle,
            repeat: self.repeat,
        }
    }
}

/// Everything the renderer draws.
#[derive(Debug)]
pub struct AppSnapshot {
    pub revision: u64,
    pub view: ViewId,
    pub library: Vec<Track>,
    pub playlists: Vec<Playlist>,
    pub queue: Vec<QueueEntry>,
    pub playback: PlaybackState,
    pub playlist_context_id: Option<String>,
    pub authenticated: bool,
    pub catalog_loading: bool,
    pub spotify_configured: bool,
    pub message: Option<String>,
}

/// The view of an [`AppSnapshot`].
pub struct SnapshotV {
    pub revision: u64,
    pub view: ViewId,
    pub library: Seq<TrackV>,
    pub playlists: Seq<PlaylistV>,
    pub queue: Seq<QueueEntryV>,
    pub playback: PlaybackV,
    pub playlist_context_id: Option<Seq<char>>,
    pub authenticated: bool,
    pub catalog_loading: bool,
    pub spotify_configured: bool,
    pub message: Option<Seq<char>>,
}

/// The views of a sequence of tracks.
pub open spec fn tracks_v(v: Seq<Track>) -> Seq<TrackV> {
    v.map_values(|t: Track| t@)
}

/// The views of a sequence of playlists.
pub open spec fn playlists_v(v: Seq<Playlist>) -> Seq<PlaylistV> {
    v.map_values(|p: Playlist| p@)
}

/// The views of a sequence of queue entries.
pub open spec fn queue_v(v: Seq<QueueEntry>) -> Seq<QueueEntryV> {
    v.map_values(|e: QueueEntry| e@)
}

impl View for AppSnapshot {
    type V = SnapshotV;

    open spec fn view(&self) -> SnapshotV {
        SnapshotV {
            revision: self.revision,
            view: self.view,
            library: tracks_v(self.library@),
            playlists: playlists_v(self.playlists@),
            queue: queue_v(self.queue@),
            playback: self.playback@,
            playlist_context_id: opt_text(self.playlist_context_id),
            authenticated: self.authenticated,
            catalog_loading: self.catalog_loading,
            spotify_configured: self.spotify_configured,
            message: opt_text(self.message),
        }
    }
}

/// A copy of a list of tracks.
pub fn clone_tracks(v: &Vec<Track>) -> (r: Vec<Track>)
    ensures
        tracks_v(r@) == tracks_v(v@),
{
    let mut r: Vec<Track> = Vec::new();
    let mut i: usize = 0;
    while i < v.len()
        invariant
            i <= v@.len(),
            r@.len() == i,
            forall|k: int| 0 <= k < i ==> r@[k]@ == v@[k]@,
        decreases v.len() - i,
    {
        r.push(v[i].clone());
        i = i + 1;
    }
    assert(tracks_v(r@) =~= tracks_v(v@));
    r
}

/// A copy of a list of playlists.
pub fn clone_playlists(v: &Vec<Playlist>) -> (r: Vec<Playlist>)
    ensures
        playlists_v(r@) == playlists_v(v@),
{
    let mut r: Vec<Playlist> = Vec::new();
    let mut i: usize = 0;
    while i < v.len()
        invariant
            i <= v@.len(),
            r@.len() == i,
            forall|k: int| 0 <= k < i ==> r@[k]@ == v@[k]@,
        decreases v.len() - i,
    {
        r.push(v[i].clone());
        i = i + 1;
    }
    assert(playlists_v(r@) =~= playlists_v(v@));
    r
}

/// A copy of the queue.
pub fn clone_queue(v: &Vec<QueueEntry>) -> (r: Vec<QueueEntry>)
    ensures
        queue_v(r@) == queue_v(v@),
{
    let mut r: Vec<QueueEntry> = Vec::new();
    let mut i: usize = 0;
    while i < v.len()
        invariant
            i <= v@.len(),
            r@.len() == i,
            forall|k: int| 0 <= k < i ==> r@[k]@ == v@[k]@,
        decreases v.len() - i,
    {
        r.push(v[i].clone());
        i = i + 1;
    }
    assert(queue_v(r@) =~= queue_v(v@));
    r
}

impl Clone for AppSnapshot {
    fn clone(&self) -> (r: Self)
        ensures
            r@ == self@,
    {
        AppSnapshot {
            revision: self.revision,
            view: self.view,
            library: clone_tracks(&self.library),
            playlists: clone_playlists(&self.playlists),
            queue: clone_queue(&self.queue),
            playback: self.playback.clone(),
            playlist_context_id: clone_opt_text(&self.playlist_context_id),
            authenticated: self.authenticated,
            catalog_loading: self.catalog_loading,
            spotify_configured: self.spotify_configured,
            message: clone_opt_text(&self.message),
        }
    }
}

} // verus!
