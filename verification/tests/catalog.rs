use std::collections::VecDeque;

use magnet::catalog::{
    check_cache_version, into_playlist, into_track, playlist_search_page, playlist_tracks_error,
    playlist_tracks_url, playlists_of, saved_tracks_of, spotify_refusal, track_search_page, validate_cache,
    CatalogError, CollectionCache, Page, Paginator, SavedTrackItem, SearchKind, SearchPage, SpotifyAlbum,
    SpotifyArtist, SpotifyPlaylist, SpotifyPlaylistOwner, SpotifyPlaylistTracks, SpotifyTrack,
    COLLECTION_CACHE_VERSION, PLAYLISTS_URL, SAVED_TRACKS_URL,
};
use magnet::model::{Playlist, Track};
use magnet::spotify_url::{
    note_page, search_request_url, try_search_request_url, validate_optional_continuation,
    validate_optional_search_continuation, validate_search_url, validate_spotify_url,
};

fn track(id: &str) -> Track {
    Track {
        id: id.into(),
        title: format!("Track {id}"),
        artists: vec!["Artist".into()],
        album: "Album".into(),
        duration_ms: 123_000,
        saved: Some(true),
    }
}

fn playlist(id: &str) -> Playlist {
    Playlist {
        id: id.into(),
        name: format!("Playlist {id}"),
        owner: "Owner".into(),
        track_count: 7,
    }
}

fn playlist_payload(id: &str) -> SpotifyPlaylist {
    SpotifyPlaylist {
        id: Some(id.into()),
        name: format!("Playlist {id}"),
        owner: SpotifyPlaylistOwner {
            display_name: None,
            id: "owner".into(),
        },
        tracks: SpotifyPlaylistTracks { total: 1 },
    }
}

fn spotify_track(id: Option<&str>, name: &str) -> SpotifyTrack {
    SpotifyTrack {
        id: id.map(|id| id.to_string()),
        name: name.into(),
        artists: vec![
            SpotifyArtist { name: "First".into() },
            SpotifyArtist { name: "Second".into() },
        ],
        album: SpotifyAlbum { name: "Album".into() },
        duration_ms: 200_000,
    }
}

#[test]
fn nullable_and_unavailable_playlists_are_skipped_individually() {
    let page = Page {
        items: vec![
            None,
            Some(SpotifyPlaylist {
                id: Some("good".into()),
                name: "Good".into(),
                owner: SpotifyPlaylistOwner {
                    display_name: None,
                    id: "owner".into(),
                },
                tracks: SpotifyPlaylistTracks { total: 3 },
            }),
            Some(SpotifyPlaylist {
                id: None,
                name: "Unavailable".into(),
                owner: SpotifyPlaylistOwner {
                    display_name: Some("Owner".into()),
                    id: "owner".into(),
                },
                tracks: SpotifyPlaylistTracks { total: 0 },
            }),
        ],
        next: None,
    };
    let decoded = playlists_of(page.items);
    assert_eq!(decoded.len(), 1);
    assert_eq!(decoded[0].id, "good");
    assert_eq!(decoded[0].owner, "owner");
}

#[test]
fn current_spotify_playlist_items_shape_is_accepted() {
    let page = Page {
        items: vec![Some(SpotifyPlaylist {
            id: Some("good".into()),
            name: "Good".into(),
            owner: SpotifyPlaylistOwner {
                display_name: Some("Owner".into()),
                id: "owner".into(),
            },
            tracks: SpotifyPlaylistTracks { total: 12 },
        })],
        next: None,
    };
    let playlist = page
        .items
        .into_iter()
        .flatten()
        .next()
        .and_then(into_playlist)
        .unwrap();
    assert_eq!(playlist.track_count, 12);
}

#[test]
fn continuation_rejects_non_spotify_hosts_before_bearer_use() {
    assert!(matches!(
        validate_spotify_url("https://evil.example/v1/me/tracks"),
        Err(CatalogError::InvalidContinuationUrl(_))
    ));
    assert!(matches!(
        validate_spotify_url("http://api.spotify.com/v1/me/tracks"),
        Err(CatalogError::InvalidContinuationUrl(_))
    ));
    assert!(validate_spotify_url("https://api.spotify.com/v1/me/tracks?offset=50").is_ok());
}

#[test]
fn search_continuations_cannot_switch_catalog_endpoints_or_kinds() {
    assert!(validate_search_url(
        "https://api.spotify.com/v1/search?q=radiohead&type=track&limit=50&offset=50",
        SearchKind::Tracks,
    )
    .is_ok());
    assert!(matches!(
        validate_search_url(
            "https://api.spotify.com/v1/search?q=radiohead&type=playlist&limit=50&offset=50",
            SearchKind::Tracks,
        ),
        Err(CatalogError::InvalidContinuationUrl(_))
    ));
    assert!(matches!(
        validate_search_url(
            "https://api.spotify.com/v1/me/tracks?limit=50&offset=50",
            SearchKind::Tracks,
        ),
        Err(CatalogError::InvalidContinuationUrl(_))
    ));
}

#[test]
fn pagination_loop_is_detected() {
    let url = "https://api.spotify.com/v1/me/tracks?limit=50";
    let mut visited = Vec::new();
    note_page(url, &mut visited).unwrap();
    assert!(matches!(
        note_page(url, &mut visited),
        Err(CatalogError::PaginationLoop(_))
    ));
}

fn paginate(
    first_url: &str,
    pages: &mut VecDeque<Page<Option<SpotifyPlaylist>>>,
    requested: &mut Vec<String>,
) -> Result<Vec<Playlist>, CatalogError> {
    let mut paginator = Paginator::start(first_url)?;
    while let Some(url) = paginator.next_request()? {
        requested.push(url.to_string());
        let page = pages.pop_front().unwrap();
        paginator.accept_page(playlists_of(page.items), page.next)?;
    }
    Ok(paginator.finish())
}

#[test]
fn pagination_collects_every_page_and_filters_items_individually() {
    let second = "https://api.spotify.com/v1/me/playlists?limit=50&offset=50";
    let third = "https://api.spotify.com/v1/me/playlists?limit=50&offset=100";
    let mut pages = VecDeque::from([
        Page {
            items: vec![Some(playlist_payload("one")), None],
            next: Some(second.into()),
        },
        Page {
            items: vec![Some(playlist_payload("two"))],
            next: Some(third.into()),
        },
        Page {
            items: vec![Some(playlist_payload("three"))],
            next: None,
        },
    ]);
    let mut requested = Vec::new();
    let decoded = paginate(PLAYLISTS_URL, &mut pages, &mut requested).unwrap();

    assert_eq!(requested, [PLAYLISTS_URL, second, third]);
    assert_eq!(decoded.len(), 3);
    assert_eq!(decoded[2].id, "three");
}

#[test]
fn cache_rejects_wrong_version_and_account() {
    let cache = CollectionCache {
        schema_version: COLLECTION_CACHE_VERSION,
        spotify_user_id: "first".into(),
        fetched_at_ms: 1,
        tracks: vec![],
        playlists: vec![],
    };
    assert!(check_cache_version(&cache).is_ok());
    assert!(matches!(
        validate_cache(cache, Some("second")),
        Err(CatalogError::CacheUserMismatch)
    ));

    let unsupported = CollectionCache {
        schema_version: COLLECTION_CACHE_VERSION + 1,
        spotify_user_id: "first".into(),
        fetched_at_ms: 1,
        tracks: vec![],
        playlists: vec![],
    };
    assert!(matches!(
        check_cache_version(&unsupported),
        Err(CatalogError::UnsupportedCacheVersion(_))
    ));
}

#[test]
fn cache_for_the_expected_account_is_accepted_unchanged() {
    let cache = CollectionCache {
        schema_version: COLLECTION_CACHE_VERSION,
        spotify_user_id: "user".into(),
        fetched_at_ms: 2,
        tracks: vec![track("two")],
        playlists: vec![playlist("one")],
    };
    let restored = validate_cache(cache, Some("user")).unwrap();
    assert_eq!(restored.fetched_at_ms, 2);
    assert_eq!(restored.tracks[0].id, "two");
    assert_eq!(restored.playlists[0].id, "one");
    let unchecked = CollectionCache {
        schema_version: 2,
        spotify_user_id: "user".into(),
        fetched_at_ms: 2,
        tracks: vec![],
        playlists: vec![],
    };
    assert!(matches!(validate_cache(unchecked, None), Err(CatalogError::UnsupportedCacheVersion(2))));
}

#[test]
fn new_cache_is_stamped_in_the_current_format() {
    let cache = CollectionCache::new("user".into(), vec![track("one")], vec![]).unwrap();
    assert_eq!(cache.schema_version, 1);
    assert_eq!(cache.spotify_user_id, "user");
    assert!(cache.fetched_at_ms > 0);
    let stamped = CollectionCache::fetched_at("user".into(), vec![], vec![], Some(42)).unwrap();
    assert_eq!(stamped.fetched_at_ms, 42);
    assert!(matches!(
        CollectionCache::fetched_at("user".into(), vec![], vec![], None),
        Err(CatalogError::Clock)
    ));
}

#[test]
fn tracks_without_ids_are_skipped_and_fields_are_kept() {
    let converted = into_track(spotify_track(Some("abc"), "Song"), None).unwrap();
    assert_eq!(converted.id, "abc");
    assert_eq!(converted.title, "Song");
    assert_eq!(converted.artists, vec!["First".to_string(), "Second".to_string()]);
    assert_eq!(converted.album, "Album");
    assert_eq!(converted.duration_ms, 200_000);
    assert_eq!(converted.saved, None);
    assert!(into_track(spotify_track(None, "Local"), Some(true)).is_none());

    let saved = saved_tracks_of(vec![
        SavedTrackItem { track: Some(spotify_track(Some("a"), "A")) },
        SavedTrackItem { track: None },
        SavedTrackItem { track: Some(spotify_track(None, "Local")) },
        SavedTrackItem { track: Some(spotify_track(Some("b"), "B")) },
    ]);
    assert_eq!(saved.len(), 2);
    assert_eq!(saved[0].id, "a");
    assert_eq!(saved[1].id, "b");
    assert_eq!(saved[1].saved, Some(true));
}

#[test]
fn playlist_owner_falls_back_to_owner_id() {
    let mut named = playlist_payload("p");
    named.owner.display_name = Some("Display".into());
    assert_eq!(into_playlist(named).unwrap().owner, "Display");
    assert_eq!(into_playlist(playlist_payload("p")).unwrap().owner, "owner");
}

#[test]
fn continuations_are_normalized_and_checked() {
    assert_eq!(validate_optional_continuation(None).unwrap(), None);
    assert_eq!(
        validate_optional_continuation(Some("HTTPS://API.SPOTIFY.COM/v1/me/tracks?offset=50".into())).unwrap(),
        Some("https://api.spotify.com/v1/me/tracks?offset=50".to_string())
    );
    assert!(validate_optional_continuation(Some("https://user:pw@api.spotify.com/v1/me".into())).is_err());
    assert!(validate_optional_continuation(Some("not a url".into())).is_err());
    assert!(validate_optional_search_continuation(
        Some("https://api.spotify.com/v1/search?type=playlist&q=x".into()),
        SearchKind::Playlists
    )
    .unwrap()
    .is_some());
    assert!(validate_optional_search_continuation(
        Some("https://api.spotify.com/v1/search?type=playlist&q=x".into()),
        SearchKind::Tracks
    )
    .is_err());
}

#[test]
fn search_requests_trim_and_reject_blank_queries() {
    assert!(matches!(
        search_request_url("   ", SearchKind::Tracks, None),
        Err(CatalogError::EmptySearch)
    ));
    let url = search_request_url("  radio head ", SearchKind::Tracks, None).unwrap();
    assert_eq!(
        url,
        "https://api.spotify.com/v1/search?q=radio+head&type=track&limit=10&market=from_token&include_external=audio"
    );
    let cursor = "https://api.spotify.com/v1/search?q=x&type=playlist&offset=10";
    assert_eq!(search_request_url("x", SearchKind::Playlists, Some(cursor)).unwrap(), cursor);
    assert!(search_request_url("x", SearchKind::Tracks, Some(cursor)).is_err());
    assert!(try_search_request_url("x", SearchKind::Playlists, None).unwrap().is_ok());
    assert!(matches!(try_search_request_url(" \t", SearchKind::Tracks, None), Some(Err(CatalogError::EmptySearch))));
    assert!(matches!(try_search_request_url("", SearchKind::Playlists, Some(cursor)), Some(Err(CatalogError::EmptySearch))));
}

#[test]
fn search_pages_convert_results_and_validate_cursors() {
    let page = track_search_page(Page {
        items: vec![spotify_track(Some("a"), "A"), spotify_track(None, "B")],
        next: Some("https://api.spotify.com/v1/search?type=track&offset=10".into()),
    })
    .unwrap();
    assert_eq!(page.next_cursor(), Some("https://api.spotify.com/v1/search?type=track&offset=10"));
    match page {
        SearchPage::Tracks { items, .. } => assert_eq!(items.len(), 1),
        SearchPage::Playlists { .. } => panic!("expected tracks"),
    }
    assert!(matches!(
        playlist_search_page(Page {
            items: vec![],
            next: Some("https://api.spotify.com/v1/search?type=track&offset=10".into()),
        }),
        Err(CatalogError::InvalidContinuationUrl(_))
    ));
    let last = playlist_search_page(Page { items: vec![None, Some(playlist_payload("p"))], next: None }).unwrap();
    assert_eq!(last.next_cursor(), None);
}

#[test]
fn search_kinds_use_spotify_type_values() {
    assert_eq!(SearchKind::Tracks.spotify_value(), "track");
    assert_eq!(SearchKind::Playlists.spotify_value(), "playlist");
}

#[test]
fn playlist_urls_accept_only_alphanumeric_ids() {
    assert_eq!(
        playlist_tracks_url("37i9dQZF1DXcBWIGoYBM5M").unwrap(),
        "https://api.spotify.com/v1/playlists/37i9dQZF1DXcBWIGoYBM5M/items?limit=50"
    );
    assert!(playlist_tracks_url("").is_err());
    assert!(playlist_tracks_url("../me").is_err());
    assert!(playlist_tracks_url(&"a".repeat(129)).is_err());
    assert!(playlist_tracks_url(&"a".repeat(128)).is_ok());
    assert!(playlist_tracks_url("caf\u{e9}").is_err());
}

#[test]
fn error_messages_match_each_variant() {
    assert_eq!(CatalogError::TooManyPages.message(), "Spotify pagination exceeded its safety limit");
    assert_eq!(CatalogError::EmptySearch.message(), "Search text cannot be empty");
    assert_eq!(
        CatalogError::UnsupportedCacheVersion(2).message(),
        "Catalog cache version 2 is unsupported"
    );
    assert_eq!(
        CatalogError::PaginationLoop("u".into()).message(),
        "Spotify repeated a continuation URL: u"
    );
    assert_eq!(CatalogError::Http("boom".into()).message(), "Spotify request failed: boom");
    assert_eq!(CatalogError::Io("disk".into()).message(), "Catalog cache I/O failed: disk");
    assert_eq!(CatalogError::Json("bad".into()).message(), "Catalog JSON was invalid: bad");
    assert_eq!(
        CatalogError::CacheUserMismatch.message(),
        "Catalog cache belongs to a different Spotify account"
    );
    assert_eq!(CatalogError::Clock.message(), "The system clock is earlier than the Unix epoch");
    let refused = spotify_refusal(429, "429 Too Many Requests".into(), "");
    assert_eq!(refused.message(), "Spotify refused the request (429 Too Many Requests)");
    let long_body = "x".repeat(600);
    match spotify_refusal(403, "403 Forbidden".into(), &long_body) {
        CatalogError::Spotify { message, status, .. } => {
            assert_eq!(message.chars().count(), 512);
            assert_eq!(status, 403);
        }
        _ => panic!("expected a refusal"),
    }
    let forbidden = spotify_refusal(403, "403 Forbidden".into(), "no");
    assert_eq!(
        playlist_tracks_error(&forbidden),
        "Spotify does not expose this playlist's track list to desktop clients. Double-click to play it."
    );
    assert_eq!(
        playlist_tracks_error(&CatalogError::EmptySearch),
        "Search text cannot be empty"
    );
}

#[test]
fn paginator_stops_at_the_page_limit_and_rejects_foreign_hosts() {
    let mut paginator: Paginator<Track> = Paginator::start(SAVED_TRACKS_URL).unwrap();
    for page in 0..10_000usize {
        let url = paginator.next_request().unwrap().unwrap();
        assert!(url.starts_with("https://api.spotify.com/"));
        paginator
            .accept_page(vec![], Some(format!("https://api.spotify.com/v1/me/tracks?offset={}", page + 1)))
            .unwrap();
    }
    assert!(matches!(paginator.next_request(), Err(CatalogError::TooManyPages)));

    let mut foreign: Paginator<Track> = Paginator::start(SAVED_TRACKS_URL).unwrap();
    foreign.next_request().unwrap();
    assert!(matches!(
        foreign.accept_page(vec![track("a")], Some("https://evil.example/next".into())),
        Err(CatalogError::InvalidContinuationUrl(_))
    ));
    assert!(Paginator::<Track>::start("https://evil.example/v1/me/tracks").is_err());
}
