//! Spotify catalog results: errors, search kinds and pages, the wire
//! shapes of Spotify's responses and their conversion into library
//! tracks and playlists, pagination, and the offline collection cache.

use vstd::prelude::*;
use vstd::string::StringSliceAdditionalSpecFns;
use crate::model::{Playlist, PlaylistV, Track, TrackV, opt_text, playlists_v, texts, tracks_v};
use crate::spotify_url::{
    continuation_check, note_page, note_page_check, opt_result_v, search_continuation_check,
    spotify_url_check, validate_optional_continuation, validate_optional_search_continuation,
    validate_spotify_url,
};
use crate::clock::unix_time_ms;
use crate::text::{chars_of, decimal, decimal_string, owned, push_char};

verus! {

/// Why a catalog operation failed. Errors raised by the HTTP client, the
/// file system or the JSON decoder arrive as their messages.
#[derive(Debug)]
pub enum CatalogError {
    Http(String),
    Spotify { status: u16, status_text: String, message: String },
    InvalidContinuationUrl(String),
    PaginationLoop(String),
    TooManyPages,
    EmptySearch,
    Io(String),
    Json(String),
    UnsupportedCacheVersion(u32),
    CacheUserMismatch,
    Clock,
}

/// The view of a [`CatalogError`].
pub enum CatalogErrorV {
    Http(Seq<char>),
    Spotify { status: u16, status_text: Seq<char>, message: Seq<char> },
    InvalidContinuationUrl(Seq<char>),
    PaginationLoop(Seq<char>),
    TooManyPages,
    EmptySearch,
    Io(Seq<char>),
    Json(Seq<char>),
    UnsupportedCacheVersion(u32),
    CacheUserMismatch,
    Clock,
}

impl View for CatalogError {
    type V = CatalogErrorV;

    open spec fn view(&self) -> CatalogErrorV {
        match self {
            CatalogError::Http(e) => CatalogErrorV::Http(e@),
            CatalogError::Spotify { status, status_text, message } => CatalogErrorV::Spotify {
                status: *status,
                status_text: status_text@,
                message: message@,
            },
            CatalogError::InvalidContinuationUrl(u) => CatalogErrorV::InvalidContinuationUrl(u@),
            CatalogError::PaginationLoop(u) => CatalogErrorV::PaginationLoop(u@),
            CatalogError::TooManyPages => CatalogErrorV::TooManyPages,
            CatalogError::EmptySearch => CatalogErrorV::EmptySearch,
            CatalogError::Io(e) => CatalogErrorV::Io(e@),
            CatalogError::Json(e) => CatalogErrorV::Json(e@),
            CatalogError::UnsupportedCacheVersion(v) => CatalogErrorV::UnsupportedCacheVersion(*v),
            CatalogError::CacheUserMismatch => CatalogErrorV::CacheUserMismatch,
            CatalogError::Clock => CatalogErrorV::Clock,
        }
    }
}

/// The text shown for a catalog error.
pub open spec fn error_message(e: CatalogErrorV) -> Seq<char> {
    match e {
        CatalogErrorV::Http(m) => "Spotify request failed: "@ + m,
        CatalogErrorV::Spotify { status, status_text, message } => if message.len() == 0 {
            "Spotify refused the request ("@ + status_text + ")"@
        } else {
            "Spotify refused the request ("@ + status_text + "): "@ + message
        },
        CatalogErrorV::InvalidContinuationUrl(u) => "Spotify returned an unsafe continuation URL: "@ + u,
        CatalogErrorV::PaginationLoop(u) => "Spotify repeated a continuation URL: "@ + u,
        CatalogErrorV::TooManyPages => "Spotify pagination exceeded its safety limit"@,
        CatalogErrorV::EmptySearch => "Search text cannot be empty"@,
        CatalogErrorV::Io(m) => "Catalog cache I/O failed: "@ + m,
        CatalogErrorV::Json(m) => "Catalog JSON was invalid: "@ + m,
        CatalogErrorV::UnsupportedCacheVersion(v) => "Catalog cache version "@ + decimal(v as nat) + " is unsupported"@,
        CatalogErrorV::CacheUserMismatch => "Catalog cache belongs to a different Spotify account"@,
        CatalogErrorV::Clock => "The system clock is earlier than the Unix epoch"@,
    }
}

fn joined(a: &str, b: &str) -> (r: String)
    ensures
        r@ == a@ + b@,
{
    let mut r = owned(a);
    r.append(b);
    r
}

impl CatalogError {
    /// The text shown for this error.
    pub fn message(&self) -> (m: String)
        ensures
            m@ == error_message(self@),
    {
        match self {
            CatalogError::Http(e) => joined("Spotify request failed: ", e.as_str()),
            CatalogError::Spotify { status, status_text, message } => {
                let mut m = joined("Spotify refused the request (", status_text.as_str());
                if message.as_str().is_empty() {
                    m.append(")");
                } else {
                    m.append("): ");
                    m.append(message.as_str());
                }
                m
            },
            CatalogError::InvalidContinuationUrl(u) => joined("Spotify returned an unsafe continuation URL: ", u.as_str()),
            CatalogError::PaginationLoop(u) => joined("Spotify repeated a continuation URL: ", u.as_str()),
            CatalogError::TooManyPages => owned("Spotify pagination exceeded its safety limit"),
            CatalogError::EmptySearch => owned("Search text cannot be empty"),
            CatalogError::Io(e) => joined("Catalog cache I/O failed: ", e.as_str()),
            CatalogError::Json(e) => joined("Catalog JSON was invalid: ", e.as_str()),
            CatalogError::UnsupportedCacheVersion(v) => {
                let digits = decimal_string(*v as u128);
                let mut m = joined("Catalog cache version ", digits.as_str());
                m.append(" is unsupported");
                m
            },
            CatalogError::CacheUserMismatch => owned("Catalog cache belongs to a different Spotify account"),
            CatalogError::Clock => owned("The system clock is earlier than the Unix epoch"),
        }
    }
}

/// The error text the playlist view shows: Spotify refusing with 403 means
/// the playlist's track list is not exposed to desktop clients.
pub open spec fn playlist_error_message(e: CatalogErrorV) -> Seq<char> {
    if e matches CatalogErrorV::Spotify { status, .. } && status == 403 {
        "Spotify does not expose this playlist's track list to desktop clients. Double-click to play it."@
    } else {
        error_message(e)
    }
}

/// The text shown when a playlist's tracks could not be loaded.
pub fn playlist_tracks_error(e: &CatalogError) -> (m: String)
    ensures
        m@ == playlist_error_message(e@),
{
    if let CatalogError::Spotify { status, .. } = e {
        if *status == 403 {
            return owned("Spotify does not expose this playlist's track list to desktop clients. Double-click to play it.");
        }
    }
    e.message()
}

/// What a search looks for.
#[derive(Clone, Copy, Debug, PartialEq, Eq, Structural)]
pub enum SearchKind {
    Tracks,
    Playlists,
}

/// The `type` value Spotify's search API uses for a kind.
pub open spec fn kind_value(k: SearchKind) -> Seq<char> {
    match k {
        SearchKind::Tracks => "track"@,
        SearchKind::Playlists => "playlist"@,
    }
}

impl SearchKind {
    /// The `type` value Spotify's search API uses for this kind.
    pub fn spotify_value(self) -> (v: &'static str)
        ensures
            v@ == kind_value(self),
    {
        match self {
            SearchKind::Tracks => "track",
            SearchKind::Playlists => "playlist",
        }
    }
}

/// One page of search results and the cursor of the next page.
#[derive(Debug)]
pub enum SearchPage {
    Tracks { items: Vec<Track>, next_cursor: Option<String> },
    Playlists { items: Vec<Playlist>, next_cursor: Option<String> },
}

/// The view of a [`SearchPage`].
pub enum SearchPageV {
    Tracks { items: Seq<TrackV>, next_cursor: Option<Seq<char>> },
    Playlists { items: Seq<PlaylistV>, next_cursor: Option<Seq<char>> },
}

impl View for SearchPage {
    type V = SearchPageV;

    open spec fn view(&self) -> SearchPageV {
        match self {
            SearchPage::Tracks { items, next_cursor } => SearchPageV::Tracks {
                items: tracks_v(items@),
                next_cursor: opt_text(*next_cursor),
            },
            SearchPage::Playlists { items, next_cursor } => SearchPageV::Playlists {
                items: playlists_v(items@),
                next_cursor: opt_text(*next_cursor),
            },
        }
    }
}

/// The cursor of the page after `p`.
pub open spec fn page_cursor(p: SearchPageV) -> Option<Seq<char>> {
    match p {
        SearchPageV::Tracks { next_cursor, .. } => next_cursor,
        SearchPageV::Playlists { next_cursor, .. } => next_cursor,
    }
}

impl SearchPage {
    /// The cursor to pass back for the next page, if there is one.
    pub fn next_cursor(&self) -> (c: Option<&str>)
        ensures
            match c {
                Some(s) => page_cursor(self@) == Some(s@),
                None => page_cursor(self@) is None,
            },
    {
        match self {
            SearchPage::Tracks { next_cursor, .. } | SearchPage::Playlists { next_cursor, .. } => match next_cursor {
                Some(s) => Some(s.as_str()),
                None => None,
            },
        }
    }
}


/// A credited artist in a Spotify track object.
#[derive(Debug)]
pub struct SpotifyArtist {
    pub name: String,
}

/// The album of a Spotify track object.
#[derive(Debug)]
pub struct SpotifyAlbum {
    pub name: String,
}

/// A Spotify track object; local and unavailable tracks have no id.
#[derive(Debug)]
pub struct SpotifyTrack {
    pub id: Option<String>,
    pub name: String,
    pub artists: Vec<SpotifyArtist>,
    pub album: SpotifyAlbum,
    pub duration_ms: u32,
}

/// An entry of the account's saved tracks.
#[derive(Debug)]
pub struct SavedTrackItem {
    pub track: Option<SpotifyTrack>,
}

/// An entry of a playlist's items.
#[derive(Debug)]
pub struct PlaylistTrackItem {
    pub item: Option<SpotifyTrack>,
}

/// The owner of a Spotify playlist.
#[derive(Debug)]
pub struct SpotifyPlaylistOwner {
    pub display_name: Option<String>,
    pub id: String,
}

/// The track summary of a Spotify playlist.
#[derive(Debug)]
pub struct SpotifyPlaylistTracks {
    pub total: u32,
}

/// A simplified Spotify playlist object.
#[derive(Debug)]
pub struct SpotifyPlaylist {
    pub id: Option<String>,
    pub name: String,
    pub owner: SpotifyPlaylistOwner,
    pub tracks: SpotifyPlaylistTracks,
}

/// One page of a Spotify paging object.
#[derive(Debug)]
pub struct Page<T> {
    pub items: Vec<T>,
    pub next: Option<String>,
}

/// The names of a track's artists.
pub open spec fn artist_names(a: Seq<SpotifyArtist>) -> Seq<Seq<char>> {
    a.map_values(|x: SpotifyArtist| x.name@)
}

/// The library track for a Spotify track: none without an id.
pub open spec fn track_from(t: SpotifyTrack, saved: Option<bool>) -> Option<TrackV> {
    match t.id {
        Some(id) => Some(TrackV {
            id: id@,
            title: t.name@,
            artists: artist_names(t.artists@),
            album: t.album.name@,
            duration_ms: t.duration_ms,
            saved,
        }),
        None => None,
    }
}

/// The library playlist for a Spotify playlist: none without an id; the
/// owner is the display name, or the owner's id when there is none.
pub open spec fn playlist_from(p: SpotifyPlaylist) -> Option<PlaylistV> {
    match p.id {
        Some(id) => Some(PlaylistV {
            id: id@,
            name: p.name@,
            owner: match p.owner.display_name {
                Some(d) => d@,
                None => p.owner.id@,
            },
            track_count: p.tracks.total,
        }),
        None => None,
    }
}

/// The view of an optional library track.
pub open spec fn opt_track_v(o: Option<Track>) -> Option<TrackV> {
    match o {
        Some(t) => Some(t@),
        None => None,
    }
}

/// The view of an optional library playlist.
pub open spec fn opt_playlist_v(o: Option<Playlist>) -> Option<PlaylistV> {
    match o {
        Some(p) => Some(p@),
        None => None,
    }
}

fn artist_name_list(artists: Vec<SpotifyArtist>) -> (r: Vec<String>)
    ensures
        texts(r@) == artist_names(artists@),
{
    let ghost all = artists@;
    let mut r: Vec<String> = Vec::new();
    for artist in it: artists
        invariant
            it.seq() == all,
            r@.len() == it.index(),
            forall|k: int| 0 <= k < it.index() ==> r@[k]@ == all[k].name@,
    {
        r.push(artist.name);
    }
    assert(texts(r@) =~= artist_names(all));
    r
}

/// The library track for a Spotify track, with the given saved flag.
pub fn into_track(track: SpotifyTrack, saved: Option<bool>) -> (r: Option<Track>)
    ensures
        opt_track_v(r) == track_from(track, saved),
{
    let id = match track.id {
        Some(id) => id,
        None => {
            return None;
        },
    };
    Some(Track {
        id,
        title: track.name,
        artists: artist_name_list(track.artists),
        album: track.album.name,
        duration_ms: track.duration_ms,
        saved,
    })
}

/// The library playlist for a Spotify playlist.
pub fn into_playlist(playlist: SpotifyPlaylist) -> (r: Option<Playlist>)
    ensures
        opt_playlist_v(r) == playlist_from(playlist),
{
    let id = match playlist.id {
        Some(id) => id,
        None => {
            return None;
        },
    };
    let owner = match playlist.owner.display_name {
        Some(name) => name,
        None => playlist.owner.id,
    };
    Some(Playlist { id, name: playlist.name, owner, track_count: playlist.tracks.total })
}

/// The library track of a saved-tracks entry.
pub open spec fn saved_entry_track() -> spec_fn(SavedTrackItem) -> Option<TrackV> {
    |i: SavedTrackItem| match i.track {
        Some(t) => track_from(t, Some(true)),
        None => None,
    }
}

/// The library track of a playlist entry.
pub open spec fn playlist_entry_track() -> spec_fn(PlaylistTrackItem) -> Option<TrackV> {
    |i: PlaylistTrackItem| match i.item {
        Some(t) => track_from(t, None),
        None => None,
    }
}

/// The library track of a search result.
pub open spec fn search_result_track() -> spec_fn(SpotifyTrack) -> Option<TrackV> {
    |t: SpotifyTrack| track_from(t, None)
}

/// The library playlist of a nullable playlist entry.
pub open spec fn entry_playlist() -> spec_fn(Option<SpotifyPlaylist>) -> Option<PlaylistV> {
    |p: Option<SpotifyPlaylist>| match p {
        Some(p) => playlist_from(p),
        None => None,
    }
}

/// The saved tracks of a page, each entry converted on its own and those
/// without a track or an id skipped; all of them marked saved.
pub fn saved_tracks_of(items: Vec<SavedTrackItem>) -> (r: Vec<Track>)
    ensures
        tracks_v(r@) == items@.filter_map(saved_entry_track()),
{
    let ghost all = items@;
    let mut r: Vec<Track> = Vec::new();
    for item in it: items
        invariant
            it.seq() == all,
            tracks_v(r@) == all.take(it.index()).filter_map(saved_entry_track()),
    {
        let ghost k = it.index();
        assert(all.take(k + 1).drop_last() =~= all.take(k));
        let ghost before = r@;
        let converted = match item.track {
            Some(track) => into_track(track, Some(true)),
            None => None,
        };
        if let Some(t) = converted {
            r.push(t);
            assert(tracks_v(r@) =~= tracks_v(before).push(t@));
        }
    }
    assert(all.take(all.len() as int) =~= all);
    r
}

/// The tracks of a playlist page, each entry converted on its own.
pub fn playlist_tracks_of(items: Vec<PlaylistTrackItem>) -> (r: Vec<Track>)
    ensures
        tracks_v(r@) == items@.filter_map(playlist_entry_track()),
{
    let ghost all = items@;
    let mut r: Vec<Track> = Vec::new();
    for item in it: items
        invariant
            it.seq() == all,
            tracks_v(r@) == all.take(it.index()).filter_map(playlist_entry_track()),
    {
        let ghost k = it.index();
        assert(all.take(k + 1).drop_last() =~= all.take(k));
        let ghost before = r@;
        let converted = match item.item {
            Some(track) => into_track(track, None),
            None => None,
        };
        if let Some(t) = converted {
            r.push(t);
            assert(tracks_v(r@) =~= tracks_v(before).push(t@));
        }
    }
    assert(all.take(all.len() as int) =~= all);
    r
}

/// The tracks of a search page, each result converted on its own.
pub fn search_tracks_of(items: Vec<SpotifyTrack>) -> (r: Vec<Track>)
    ensures
        tracks_v(r@) == items@.filter_map(search_result_track()),
{
    let ghost all = items@;
    let mut r: Vec<Track> = Vec::new();
    for item in it: items
        invariant
            it.seq() == all,
            tracks_v(r@) == all.take(it.index()).filter_map(search_result_track()),
    {
        let ghost k = it.index();
        assert(all.take(k + 1).drop_last() =~= all.take(k));
        let ghost before = r@;
        if let Some(t) = into_track(item, None) {
            r.push(t);
            assert(tracks_v(r@) =~= tracks_v(before).push(t@));
        }
    }
    assert(all.take(all.len() as int) =~= all);
    r
}

/// The playlists of a page: null entries and playlists without an id are
/// skipped individually.
pub fn playlists_of(items: Vec<Option<SpotifyPlaylist>>) -> (r: Vec<Playlist>)
    ensures
        playlists_v(r@) == items@.filter_map(entry_playlist()),
{
    let ghost all = items@;
    let mut r: Vec<Playlist> = Vec::new();
    for item in it: items
        invariant
            it.seq() == all,
            playlists_v(r@) == all.take(it.index()).filter_map(entry_playlist()),
    {
        let ghost k = it.index();
        assert(all.take(k + 1).drop_last() =~= all.take(k));
        let ghost before = r@;
        let converted = match item {
            Some(p) => into_playlist(p),
            None => None,
        };
        if let Some(p) = converted {
            r.push(p);
            assert(playlists_v(r@) =~= playlists_v(before).push(p@));
        }
    }
    assert(all.take(all.len() as int) =~= all);
    r
}


/// The account's saved tracks, fifty per page.
pub const SAVED_TRACKS_URL: &'static str = "https://api.spotify.com/v1/me/tracks?limit=50";

/// The account's playlists, fifty per page.
pub const PLAYLISTS_URL: &'static str = "https://api.spotify.com/v1/me/playlists?limit=50";

/// The most pages one listing may take.
pub const MAX_PAGES: usize = 10000;

/// Walks the pages of a Spotify listing. The shell asks for the next URL,
/// fetches it, and hands back the converted items and the page's `next`
/// URL, until no URL is left.
#[derive(Debug)]
pub struct Paginator<T> {
    next: Option<String>,
    visited: Vec<String>,
    output: Vec<T>,
    pages: usize,
}

/// No text occurs twice.
pub open spec fn no_repeats(v: Seq<Seq<char>>) -> bool {
    forall|i: int, j: int| 0 <= i < v.len() && 0 <= j < v.len() && i != j ==> v[i] != v[j]
}

impl<T> Paginator<T> {
    /// The normalized URLs requested so far, in order.
    pub closed spec fn requested(&self) -> Seq<Seq<char>> {
        texts(self.visited@)
    }

    /// The URL to request next, if any.
    pub closed spec fn pending(&self) -> Option<Seq<char>> {
        opt_text(self.next)
    }

    /// The items collected so far, in page order.
    pub closed spec fn collected(&self) -> Seq<T> {
        self.output@
    }

    /// How many pages have been requested.
    pub closed spec fn page_count(&self) -> nat {
        self.pages as nat
    }

    /// No URL was requested twice, and at most `MAX_PAGES` pages were
    /// requested.
    pub closed spec fn wf(&self) -> bool {
        &&& no_repeats(texts(self.visited@))
        &&& self.visited@.len() == self.pages
        &&& self.pages <= MAX_PAGES
    }

    /// Starts a listing at `first_url`, which must be a Spotify API URL.
    pub fn start(first_url: &str) -> (r: Result<Self, CatalogError>)
        ensures
            match spotify_url_check(first_url@) {
                Ok(u) => r matches Ok(p) && p.wf() && p.pending() == Some(u.serialization)
                    && p.requested() == Seq::<Seq<char>>::empty() && p.collected() == Seq::<T>::empty()
                    && p.page_count() == 0,
                Err(e) => r matches Err(x) && x@ == e,
            },
    {
        let first = validate_spotify_url(first_url)?;
        let next = Some(first.serialization);
        let p = Paginator { next, visited: Vec::new(), output: Vec::new(), pages: 0 };
        assert(texts(p.visited@) =~= Seq::<Seq<char>>::empty());
        Ok(p)
    }
}


impl<T> Paginator<T> {
    /// The next URL to fetch, or `None` when the listing is complete. The
    /// URL is checked to be a Spotify API URL before it is handed out, and
    /// its normalized form must not have been requested before; after
    /// `MAX_PAGES` pages the listing fails.
    pub fn next_request(&mut self) -> (r: Result<Option<String>, CatalogError>)
        requires
            old(self).wf(),
        ensures
            final(self).wf(),
            final(self).collected() == old(self).collected(),
            old(self).page_count() == MAX_PAGES ==> r matches Err(CatalogError::TooManyPages),
            old(self).page_count() < MAX_PAGES ==> match old(self).pending() {
                None => r matches Ok(None) && final(self).requested() == old(self).requested(),
                Some(u) => match note_page_check(u, old(self).requested()) {
                    Ok(n) => r matches Ok(Some(x)) && x@ == u && spotify_url_check(u) is Ok
                        && final(self).requested() == old(self).requested().push(n)
                        && final(self).page_count() == old(self).page_count() + 1
                        && final(self).pending() is None,
                    Err(e) => r matches Err(x) && x@ == e,
                },
            },
    {
        if self.pages == MAX_PAGES {
            return Err(CatalogError::TooManyPages);
        }
        let url = match self.next.take() {
            Some(url) => url,
            None => {
                return Ok(None);
            },
        };
        let ghost before = texts(self.visited@);
        note_page(url.as_str(), &mut self.visited)?;
        proof {
            let n = note_page_check(url@, before)->Ok_0;
            assert(!crate::spotify_url::holds_text(before, n));
            assert forall|i: int, j: int|
                0 <= i < texts(self.visited@).len() && 0 <= j < texts(self.visited@).len() && i != j
                implies texts(self.visited@)[i] != texts(self.visited@)[j] by {
                if i < before.len() && j < before.len() {
                    assert(texts(self.visited@)[i] == before[i]);
                    assert(texts(self.visited@)[j] == before[j]);
                } else if i < before.len() {
                    assert(texts(self.visited@)[i] == before[i]);
                } else if j < before.len() {
                    assert(texts(self.visited@)[j] == before[j]);
                }
            }
        }
        self.pages = self.pages + 1;
        Ok(Some(url))
    }

    /// Adds the converted items of a fetched page and takes its `next` URL,
    /// normalized, as the URL to request next.
    pub fn accept_page(&mut self, items: Vec<T>, next: Option<String>) -> (r: Result<(), CatalogError>)
        requires
            old(self).wf(),
        ensures
            final(self).wf(),
            final(self).requested() == old(self).requested(),
            final(self).page_count() == old(self).page_count(),
            final(self).collected() == old(self).collected() + items@,
            match continuation_check(opt_text(next)) {
                Ok(n) => r is Ok && final(self).pending() == n,
                Err(e) => r matches Err(x) && x@ == e,
            },
    {
        let mut items = items;
        self.output.append(&mut items);
        let validated = validate_optional_continuation(next)?;
        self.next = validated;
        Ok(())
    }

    /// The items of every page, in page order.
    pub fn finish(self) -> (r: Vec<T>)
        ensures
            r@ == self.collected(),
    {
        self.output
    }
}

/// The view of a search page result.
pub open spec fn page_result_v(r: Result<SearchPage, CatalogError>) -> Result<SearchPageV, CatalogErrorV> {
    match r {
        Ok(p) => Ok(p@),
        Err(e) => Err(e@),
    }
}

/// A page of track search results: each result converted on its own, and
/// the continuation validated as a track search.
pub fn track_search_page(page: Page<SpotifyTrack>) -> (r: Result<SearchPage, CatalogError>)
    ensures
        page_result_v(r) == match search_continuation_check(opt_text(page.next), SearchKind::Tracks) {
            Ok(n) => Ok(SearchPageV::Tracks { items: page.items@.filter_map(search_result_track()), next_cursor: n }),
            Err(e) => Err(e),
        },
{
    let items = search_tracks_of(page.items);
    let next_cursor = validate_optional_search_continuation(page.next, SearchKind::Tracks)?;
    Ok(SearchPage::Tracks { items, next_cursor })
}

/// A page of playlist search results: null entries and playlists without
/// an id skipped individually, and the continuation validated as a
/// playlist search.
pub fn playlist_search_page(page: Page<Option<SpotifyPlaylist>>) -> (r: Result<SearchPage, CatalogError>)
    ensures
        page_result_v(r) == match search_continuation_check(opt_text(page.next), SearchKind::Playlists) {
            Ok(n) => Ok(SearchPageV::Playlists { items: page.items@.filter_map(entry_playlist()), next_cursor: n }),
            Err(e) => Err(e),
        },
{
    let items = playlists_of(page.items);
    let next_cursor = validate_optional_search_continuation(page.next, SearchKind::Playlists)?;
    Ok(SearchPage::Playlists { items, next_cursor })
}


/// The most characters of a refusal body kept in the error.
pub const MAX_ERROR_BODY_CHARS: usize = 512;

/// The first characters of a refusal body that an error keeps.
pub open spec fn body_excerpt(body: Seq<char>) -> Seq<char> {
    if body.len() <= MAX_ERROR_BODY_CHARS { body } else { body.take(MAX_ERROR_BODY_CHARS as int) }
}

/// The error for a request Spotify refused with a non-success status,
/// keeping at most the first 512 characters of the response body.
pub fn spotify_refusal(status: u16, status_text: String, body: &str) -> (e: CatalogError)
    ensures
        e@ == (CatalogErrorV::Spotify { status, status_text: status_text@, message: body_excerpt(body@) }),
{
    let chars = chars_of(body);
    let end = if chars.len() <= MAX_ERROR_BODY_CHARS { chars.len() } else { MAX_ERROR_BODY_CHARS };
    let mut message = String::new();
    let mut i: usize = 0;
    while i < end
        invariant
            chars@ == body@,
            end <= chars@.len(),
            i <= end,
            message@ == body@.take(i as int),
        decreases end - i,
    {
        push_char(&mut message, chars[i]);
        assert(body@.take(i + 1) =~= body@.take(i as int).push(chars@[i as int]));
        i = i + 1;
    }
    assert(body@.len() <= MAX_ERROR_BODY_CHARS ==> body@.take(end as int) =~= body@);
    CatalogError::Spotify { status, status_text, message }
}

/// The cache format this version writes and reads.
pub const COLLECTION_CACHE_VERSION: u32 = 1;

/// The account's collection as cached for offline start-up.
#[derive(Debug)]
pub struct CollectionCache {
    pub schema_version: u32,
    pub spotify_user_id: String,
    pub fetched_at_ms: u128,
    pub tracks: Vec<Track>,
    pub playlists: Vec<Playlist>,
}

/// The view of a [`CollectionCache`].
pub struct CollectionCacheV {
    pub schema_version: u32,
    pub spotify_user_id: Seq<char>,
    pub fetched_at_ms: u128,
    pub tracks: Seq<TrackV>,
    pub playlists: Seq<PlaylistV>,
}

impl View for CollectionCache {
    type V = CollectionCacheV;

    open spec fn view(&self) -> CollectionCacheV {
        CollectionCacheV {
            schema_version: self.schema_version,
            spotify_user_id: self.spotify_user_id@,
            fetched_at_ms: self.fetched_at_ms,
            tracks: tracks_v(self.tracks@),
            playlists: playlists_v(self.playlists@),
        }
    }
}

/// The view of a cache result.
pub open spec fn cache_result_v(r: Result<CollectionCache, CatalogError>) -> Result<CollectionCacheV, CatalogErrorV> {
    match r {
        Ok(c) => Ok(c@),
        Err(e) => Err(e@),
    }
}

impl CollectionCache {
    /// A cache of the current format, stamped with the clock reading; a
    /// clock set before the epoch is an error.
    pub fn fetched_at(spotify_user_id: String, tracks: Vec<Track>, playlists: Vec<Playlist>, clock_ms: Option<u128>) -> (r: Result<Self, CatalogError>)
        ensures
            match clock_ms {
                Some(ms) => r matches Ok(c) && c@ == (CollectionCacheV {
                    schema_version: COLLECTION_CACHE_VERSION,
                    spotify_user_id: spotify_user_id@,
                    fetched_at_ms: ms,
                    tracks: tracks_v(tracks@),
                    playlists: playlists_v(playlists@),
                }),
                None => r matches Err(CatalogError::Clock),
            },
    {
        let fetched_at_ms = match clock_ms {
            Some(ms) => ms,
            None => {
                return Err(CatalogError::Clock);
            },
        };
        Ok(CollectionCache { schema_version: COLLECTION_CACHE_VERSION, spotify_user_id, fetched_at_ms, tracks, playlists })
    }

    /// A cache of the current format stamped with the current time.
    pub fn new(spotify_user_id: String, tracks: Vec<Track>, playlists: Vec<Playlist>) -> (r: Result<Self, CatalogError>)
        ensures
            r matches Ok(c) ==> c@.schema_version == COLLECTION_CACHE_VERSION && c@.spotify_user_id == spotify_user_id@
                && c@.tracks == tracks_v(tracks@) && c@.playlists == playlists_v(playlists@),
            r matches Err(e) ==> e is Clock,
    {
        CollectionCache::fetched_at(spotify_user_id, tracks, playlists, unix_time_ms())
    }
}

/// A cache may be written only in the current format.
pub fn check_cache_version(cache: &CollectionCache) -> (r: Result<(), CatalogError>)
    ensures
        r is Ok <==> cache.schema_version == COLLECTION_CACHE_VERSION,
        r matches Err(e) ==> e@ == CatalogErrorV::UnsupportedCacheVersion(cache.schema_version),
{
    if cache.schema_version != COLLECTION_CACHE_VERSION {
        return Err(CatalogError::UnsupportedCacheVersion(cache.schema_version));
    }
    Ok(())
}

/// The outcome of accepting a cache that was read back.
pub open spec fn cache_check(c: CollectionCacheV, expected: Option<Seq<char>>) -> Result<CollectionCacheV, CatalogErrorV> {
    if c.schema_version != COLLECTION_CACHE_VERSION {
        Err(CatalogErrorV::UnsupportedCacheVersion(c.schema_version))
    } else if expected matches Some(id) && c.spotify_user_id != id {
        Err(CatalogErrorV::CacheUserMismatch)
    } else {
        Ok(c)
    }
}

/// Accepts a cache read back from disk only in the current format and, when
/// an account is expected, only for that account.
pub fn validate_cache(cache: CollectionCache, expected_spotify_user_id: Option<&str>) -> (r: Result<CollectionCache, CatalogError>)
    ensures
        cache_result_v(r) == cache_check(cache@, match expected_spotify_user_id {
            Some(e) => Some(e@),
            None => None,
        }),
{
    if cache.schema_version != COLLECTION_CACHE_VERSION {
        return Err(CatalogError::UnsupportedCacheVersion(cache.schema_version));
    }
    if let Some(expected) = expected_spotify_user_id {
        if cache.spotify_user_id != owned(expected) {
            return Err(CatalogError::CacheUserMismatch);
        }
    }
    Ok(cache)
}

/// An ASCII letter or digit.
pub open spec fn is_ascii_alphanumeric(b: u8) -> bool {
    (48 <= b && b <= 57) || (65 <= b && b <= 90) || (97 <= b && b <= 122)
}

/// A playlist id Spotify could have issued: 1 to 128 bytes, all ASCII
/// letters and digits.
pub open spec fn valid_playlist_id(id: &str) -> bool {
    let b = id.spec_bytes();
    &&& b.len() > 0
    &&& b.len() <= 128
    &&& forall|i: int| 0 <= i < b.len() ==> is_ascii_alphanumeric(b[i])
}

/// The first page of a playlist's items.
pub open spec fn playlist_items_url(id: Seq<char>) -> Seq<char> {
    "https://api.spotify.com/v1/playlists/"@ + id + "/items?limit=50"@
}

/// The first page of a playlist's items; identifiers that are not
/// alphanumeric, empty or too long are refused before any request.
pub fn playlist_tracks_url(playlist_id: &str) -> (r: Result<String, CatalogError>)
    ensures
        valid_playlist_id(playlist_id) ==> (r matches Ok(u) && u@ == playlist_items_url(playlist_id@)),
        !valid_playlist_id(playlist_id) ==> (r matches Err(CatalogError::InvalidContinuationUrl(m))
            && m@ == "invalid Spotify playlist identifier"@),
{
    let bytes = playlist_id.as_bytes();
    let mut valid = bytes.len() > 0 && bytes.len() <= 128;
    let mut i: usize = 0;
    while i < bytes.len()
        invariant
            bytes@ == playlist_id.spec_bytes(),
            i <= bytes@.len(),
            valid == (bytes@.len() > 0 && bytes@.len() <= 128 && forall|j: int| 0 <= j < i ==> is_ascii_alphanumeric(bytes@[j])),
        decreases bytes.len() - i,
    {
        let b = bytes[i];
        let alnum = (48 <= b && b <= 57) || (65 <= b && b <= 90) || (97 <= b && b <= 122);
        valid = valid && alnum;
        i = i + 1;
    }
    if !valid {
        return Err(CatalogError::InvalidContinuationUrl(owned("invalid Spotify playlist identifier")));
    }
    let mut url = owned("https://api.spotify.com/v1/playlists/");
    url.append(playlist_id);
    url.append("/items?limit=50");
    Ok(url)
}

/// The file name a cache write goes to before it replaces the cache:
/// hidden, and made unique by process, time and sequence number.
pub open spec fn temporary_name(name: Option<Seq<char>>, process_id: u32, nanos: u128, sequence: u64) -> Seq<char> {
    "."@ + match name {
        Some(n) => n,
        None => "spotify-collection-v1.json"@,
    } + "."@ + decimal(process_id as nat) + "."@ + decimal(nanos as nat) + "."@ + decimal(sequence as nat) + ".tmp"@
}

/// The name of the temporary file for a cache write; `name` is the cache
/// file's own name when it has one that is valid text.
pub fn temporary_file_name(name: Option<&str>, process_id: u32, nanos: u128, sequence: u64) -> (r: String)
    ensures
        r@ == temporary_name(match name {
            Some(n) => Some(n@),
            None => None,
        }, process_id, nanos, sequence),
{
    let mut r = owned(".");
    match name {
        Some(n) => r.append(n),
        None => r.append("spotify-collection-v1.json"),
    }
    r.append(".");
    r.append(decimal_string(process_id as u128).as_str());
    r.append(".");
    r.append(decimal_string(nanos).as_str());
    r.append(".");
    r.append(decimal_string(sequence as u128).as_str());
    r.append(".tmp");
    r
}

/// The outcome of a catalog request: the transport error, Spotify's
/// refusal with the start of its body, or the decoded page.
pub open spec fn catalog_outcome<T>(sent: Result<(u16, Seq<char>), Seq<char>>, body: Seq<char>, decoded: Result<T, Seq<char>>) -> Result<T, CatalogErrorV> {
    match sent {
        Err(e) => Err(CatalogErrorV::Http(e)),
        Ok((code, text)) => if !(200 <= code && code <= 299) {
            Err(CatalogErrorV::Spotify { status: code, status_text: text, message: body_excerpt(body) })
        } else {
            match decoded {
                Ok(v) => Ok(v),
                Err(e) => Err(CatalogErrorV::Http(e)),
            }
        },
    }
}

/// The view of a catalog request's outcome.
pub open spec fn catalog_result_v<T>(r: Result<T, CatalogError>) -> Result<T, CatalogErrorV> {
    match r {
        Ok(v) => Ok(v),
        Err(e) => Err(e@),
    }
}

/// Reads the response to a catalog request: `sent` is the status code and
/// text or the transport error, `body` the response text, and `decoded`
/// the body read as the expected page.
pub fn catalog_response<T>(sent: Result<(u16, String), String>, body: &str, decoded: Result<T, String>) -> (r: Result<T, CatalogError>)
    ensures
        catalog_result_v(r) == catalog_outcome(
            match sent {
                Ok((c, t)) => Ok((c, t@)),
                Err(e) => Err(e@),
            },
            body@,
            match decoded {
                Ok(v) => Ok(v),
                Err(e) => Err(e@),
            },
        ),
{
    match sent {
        Err(e) => Err(CatalogError::Http(e)),
        Ok((code, text)) => {
            if !(200 <= code && code <= 299) {
                return Err(spotify_refusal(code, text, body));
            }
            match decoded {
                Ok(v) => Ok(v),
                Err(e) => Err(CatalogError::Http(e)),
            }
        },
    }
}

/// A paginator never requests the same normalized URL twice.
pub proof fn law_pages_never_repeat<T>(p: Paginator<T>)
    requires
        p.wf(),
    ensures
        no_repeats(p.requested()),
        p.page_count() <= MAX_PAGES,
{
}

/// Noting the same page twice is a pagination loop.
pub proof fn law_repeated_page_is_a_loop(url: Seq<char>, visited: Seq<Seq<char>>)
    ensures
        note_page_check(url, visited) matches Ok(n) ==> note_page_check(url, visited.push(n))
            == Err::<Seq<char>, CatalogErrorV>(CatalogErrorV::PaginationLoop(n)),
{
    if let Ok(n) = note_page_check(url, visited) {
        assert(visited.push(n)[visited.len() as int] == n);
    }
}

/// A search continuation that is accepted stays on Spotify's search
/// endpoint, over HTTPS on the API host, for the kind being searched.
pub proof fn law_search_continuation_stays_in_kind(value: Seq<char>, kind: SearchKind)
    ensures
        crate::spotify_url::search_url_check(value, kind) matches Ok(u) ==> {
            &&& crate::spotify_url::is_spotify_api(u)
            &&& u.path == "/v1/search"@
            &&& crate::spotify_url::has_pair(u.query_pairs, "type"@, kind_value(kind))
        },
{
}

/// A cache read back is accepted only in the current format, and never for
/// another account than the one expected.
pub proof fn law_cache_belongs_to_account(c: CollectionCacheV, expected: Seq<char>)
    ensures
        cache_check(c, Some(expected)) is Ok ==> c.schema_version == COLLECTION_CACHE_VERSION && c.spotify_user_id == expected,
        c.schema_version == COLLECTION_CACHE_VERSION && c.spotify_user_id == expected ==> cache_check(c, Some(expected)) == Ok::<CollectionCacheV, CatalogErrorV>(c),
{
}

} // verus!
