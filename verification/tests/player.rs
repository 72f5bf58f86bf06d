use magnet::lifecycle::{
    begin_catalog_loading, bump_revision, finish_catalog_loading, initial_snapshot, session_restore_failed,
    sync_library_snapshot, sync_playlists_snapshot, update_native_player_status, update_oauth_status,
};
use magnet::model::{AppSnapshot, Playlist, QueueEntry, RepeatMode, Track, ViewId};
use magnet::player::{
    action_needs_native_player, advance_commands, apply_native_event, apply_player_action, begin_queue_advance,
    forwards_to_native, native_commands, next_queue_id, note_feedback, player_feedback, queue_advance_failed,
    remote_edit, sync_native_track, track_id_from_uri, NativeCommand, NativeEvent, PlayerAction, RemoteEdit,
};

fn track(id: &str) -> Track {
    Track {
        id: id.into(),
        title: format!("Track {id}"),
        artists: vec!["Artist".into()],
        album: "Album".into(),
        duration_ms: 1000,
        saved: None,
    }
}

fn library_snapshot(ids: &[&str]) -> AppSnapshot {
    let mut s = initial_snapshot();
    s.library = ids.iter().map(|id| track(id)).collect();
    s.queue.clear();
    s.playback.track = s.library.first().cloned();
    s.playlist_context_id = None;
    s
}

fn queued(s: &AppSnapshot) -> Vec<String> {
    s.queue.iter().map(|e| e.queue_id.clone()).collect()
}

fn playing_id(s: &AppSnapshot) -> Option<String> {
    s.playback.track.as_ref().map(|t| t.id.clone())
}

#[test]
fn start_up_shows_three_demo_tracks_queued() {
    let s = initial_snapshot();
    assert_eq!(s.library.len(), 3);
    assert_eq!(queued(&s), ["demo-1", "demo-2", "demo-3"]);
    assert_eq!(playing_id(&s).as_deref(), Some("1"));
    assert_eq!(s.playback.position_ms, 194_000);
    assert!(s.playback.playing);
    assert!(!s.authenticated);
    assert_eq!(s.view, ViewId::Library);
    assert_eq!(s.library[0].title, "Nabokov");
    assert_eq!(s.library[0].duration_ms, 321_000);
}

#[test]
fn repeat_cycles_through_three_modes() {
    let mut s = initial_snapshot();
    let mut seq = 0;
    for expected in [RepeatMode::Context, RepeatMode::Track, RepeatMode::Off] {
        apply_player_action(&mut s, &PlayerAction::CycleRepeat, &mut seq).unwrap();
        assert_eq!(s.playback.repeat, expected);
    }
}

#[test]
fn toggles_undo_themselves() {
    let mut s = initial_snapshot();
    let mut seq = 0;
    apply_player_action(&mut s, &PlayerAction::TogglePlayback, &mut seq).unwrap();
    assert!(!s.playback.playing);
    apply_player_action(&mut s, &PlayerAction::TogglePlayback, &mut seq).unwrap();
    assert!(s.playback.playing);
    apply_player_action(&mut s, &PlayerAction::ToggleShuffle, &mut seq).unwrap();
    assert!(s.playback.shuffle);
    apply_player_action(&mut s, &PlayerAction::ToggleShuffle, &mut seq).unwrap();
    assert!(!s.playback.shuffle);
}

#[test]
fn next_and_previous_wrap_around_the_library() {
    let mut s = library_snapshot(&["a", "b", "c"]);
    let mut seq = 0;
    apply_player_action(&mut s, &PlayerAction::Previous, &mut seq).unwrap();
    assert_eq!(playing_id(&s).as_deref(), Some("c"));
    apply_player_action(&mut s, &PlayerAction::Next, &mut seq).unwrap();
    assert_eq!(playing_id(&s).as_deref(), Some("a"));
    apply_player_action(&mut s, &PlayerAction::Next, &mut seq).unwrap();
    apply_player_action(&mut s, &PlayerAction::Previous, &mut seq).unwrap();
    assert_eq!(playing_id(&s).as_deref(), Some("a"));
    assert_eq!(s.playback.position_ms, 0);
}

#[test]
fn next_takes_the_queue_first_and_previous_respects_playlist_context() {
    let mut s = library_snapshot(&["a", "b"]);
    let mut seq = 0;
    apply_player_action(&mut s, &PlayerAction::Enqueue { track_id: "b".into(), track: None }, &mut seq).unwrap();
    s.playlist_context_id = Some("ctx".into());
    apply_player_action(&mut s, &PlayerAction::Next, &mut seq).unwrap();
    assert_eq!(playing_id(&s).as_deref(), Some("b"));
    assert!(s.queue.is_empty());
    assert!(s.playlist_context_id.is_none());
    s.playlist_context_id = Some("ctx".into());
    apply_player_action(&mut s, &PlayerAction::Previous, &mut seq).unwrap();
    assert_eq!(playing_id(&s).as_deref(), Some("b"));
}

#[test]
fn enqueue_assigns_sequential_ids_and_prefers_the_carried_track() {
    let mut s = library_snapshot(&["a"]);
    let mut seq = 0;
    apply_player_action(&mut s, &PlayerAction::Enqueue { track_id: "a".into(), track: None }, &mut seq).unwrap();
    apply_player_action(
        &mut s,
        &PlayerAction::Enqueue { track_id: "z".into(), track: Some(track("z")) },
        &mut seq,
    )
    .unwrap();
    apply_player_action(&mut s, &PlayerAction::Enqueue { track_id: "missing".into(), track: None }, &mut seq).unwrap();
    assert_eq!(queued(&s), ["q-1", "q-2"]);
    assert_eq!(seq, 2);
    assert_eq!(s.queue[1].track.id, "z");
    let mut top = u64::MAX;
    assert_eq!(next_queue_id(&mut top), "q-0");
}

#[test]
fn queue_items_move_and_are_removed_by_id() {
    let mut s = library_snapshot(&["a", "b", "c"]);
    let mut seq = 0;
    for id in ["a", "b", "c"] {
        apply_player_action(&mut s, &PlayerAction::Enqueue { track_id: id.into(), track: None }, &mut seq).unwrap();
    }
    apply_player_action(&mut s, &PlayerAction::MoveQueueItem { queue_id: "q-1".into(), to_index: 99 }, &mut seq).unwrap();
    assert_eq!(queued(&s), ["q-2", "q-3", "q-1"]);
    apply_player_action(&mut s, &PlayerAction::MoveQueueItem { queue_id: "q-1".into(), to_index: 0 }, &mut seq).unwrap();
    assert_eq!(queued(&s), ["q-1", "q-2", "q-3"]);
    apply_player_action(&mut s, &PlayerAction::RemoveQueueItem { queue_id: "q-2".into() }, &mut seq).unwrap();
    assert_eq!(queued(&s), ["q-1", "q-3"]);
    apply_player_action(&mut s, &PlayerAction::ClearQueue, &mut seq).unwrap();
    assert!(s.queue.is_empty());
}

#[test]
fn saving_and_removing_tracks_updates_the_library() {
    let mut s = library_snapshot(&["a", "b"]);
    let mut seq = 0;
    apply_player_action(
        &mut s,
        &PlayerAction::SetSaved { track_id: "n".into(), track: Some(track("n")), saved: true },
        &mut seq,
    )
    .unwrap();
    assert_eq!(s.library[0].id, "n");
    assert_eq!(s.library[0].saved, Some(true));
    assert_eq!(s.message.as_deref(), Some("Saved to your library."));
    apply_player_action(&mut s, &PlayerAction::SetSaved { track_id: "b".into(), track: None, saved: true }, &mut seq)
        .unwrap();
    assert_eq!(s.library[2].saved, Some(true));
    apply_player_action(&mut s, &PlayerAction::SetSaved { track_id: "a".into(), track: None, saved: false }, &mut seq)
        .unwrap();
    assert!(s.library.iter().all(|t| t.id != "a"));
    assert_eq!(s.message.as_deref(), Some("Removed from your library."));
}

#[test]
fn playlist_edits_need_an_account() {
    let mut s = library_snapshot(&["a"]);
    let mut seq = 0;
    let action = PlayerAction::AddToPlaylist { track_id: "a".into(), playlist_id: "p".into() };
    let before = s.message.clone();
    assert_eq!(
        apply_player_action(&mut s, &action, &mut seq).unwrap_err(),
        "Connect Spotify to edit playlists."
    );
    assert_eq!(s.message, before);
    assert!(remote_edit(&s, &action).is_none());
    s.authenticated = true;
    s.playlists = vec![Playlist { id: "p".into(), name: "Road".into(), owner: "me".into(), track_count: 1 }];
    assert!(matches!(remote_edit(&s, &action), Some(RemoteEdit::AddToPlaylist { .. })));
    apply_player_action(&mut s, &action, &mut seq).unwrap();
    assert_eq!(s.message.as_deref(), Some("Added to Road."));
    let other = PlayerAction::AddToPlaylist { track_id: "a".into(), playlist_id: "x".into() };
    apply_player_action(&mut s, &other, &mut seq).unwrap();
    assert_eq!(s.message.as_deref(), Some("Added to playlist."));
}

#[test]
fn play_track_uses_the_carried_track_only_when_ids_agree() {
    let mut s = library_snapshot(&["a", "b"]);
    s.playlist_context_id = Some("ctx".into());
    let mut seq = 0;
    apply_player_action(
        &mut s,
        &PlayerAction::PlayTrack { track_id: "b".into(), track: Some(track("other")) },
        &mut seq,
    )
    .unwrap();
    assert_eq!(playing_id(&s).as_deref(), Some("b"));
    assert!(s.playlist_context_id.is_none());
    apply_player_action(&mut s, &PlayerAction::PlayPlaylist { playlist_id: "p".into() }, &mut seq).unwrap();
    assert_eq!(s.playlist_context_id.as_deref(), Some("p"));
    apply_player_action(&mut s, &PlayerAction::Seek { position_ms: 1200 }, &mut seq).unwrap();
    assert_eq!(s.playback.position_ms, 1200);
    apply_player_action(&mut s, &PlayerAction::SetView { view: ViewId::Queue }, &mut seq).unwrap();
    assert_eq!(s.view, ViewId::Queue);
}

#[test]
fn native_commands_follow_the_reducer() {
    let mut s = library_snapshot(&["a", "b"]);
    let mut seq = 0;
    apply_player_action(&mut s, &PlayerAction::Next, &mut seq).unwrap();
    let commands = native_commands(&PlayerAction::Next, &s.playback, false).unwrap();
    assert!(matches!(commands[0], NativeCommand::Activate));
    assert!(matches!(&commands[1], NativeCommand::LoadTracks { uri } if uri == "spotify:track:b"));
    let in_context = native_commands(&PlayerAction::Next, &s.playback, true).unwrap();
    assert!(matches!(in_context[..], [NativeCommand::Next]));
    s.playback.track = None;
    assert_eq!(
        native_commands(&PlayerAction::Previous, &s.playback, false).unwrap_err(),
        "there is no track selected"
    );
    let playlist = native_commands(&PlayerAction::PlayPlaylist { playlist_id: "p1".into() }, &s.playback, false).unwrap();
    assert!(matches!(&playlist[1], NativeCommand::LoadContext { uri } if uri == "spotify:playlist:p1"));
    s.playback.repeat = RepeatMode::Track;
    let repeat = native_commands(&PlayerAction::CycleRepeat, &s.playback, false).unwrap();
    assert!(matches!(
        repeat[..],
        [NativeCommand::Repeat { enabled: false }, NativeCommand::RepeatTrack { enabled: true }]
    ));
    assert!(native_commands(&PlayerAction::ClearQueue, &s.playback, false).unwrap().is_empty());
    assert!(!action_needs_native_player(&PlayerAction::ClearQueue));
    assert!(action_needs_native_player(&PlayerAction::SetVolume { level: 10 }));
}

#[test]
fn feedback_names_the_playing_track() {
    let mut s = library_snapshot(&["a"]);
    s.authenticated = true;
    assert_eq!(player_feedback(&PlayerAction::Next, &s.playback).as_deref(), Some("Playing Track a."));
    s.playback.playing = false;
    assert_eq!(player_feedback(&PlayerAction::TogglePlayback, &s.playback).as_deref(), Some("Paused."));
    assert_eq!(player_feedback(&PlayerAction::ClearQueue, &s.playback), None);
    assert!(forwards_to_native(&s, &PlayerAction::TogglePlayback));
    assert!(!forwards_to_native(&s, &PlayerAction::Enqueue { track_id: "a".into(), track: None }));
    note_feedback(&mut s, &PlayerAction::TogglePlayback);
    assert_eq!(s.message.as_deref(), Some("Paused."));
}

#[test]
fn native_events_update_playback() {
    let mut s = library_snapshot(&["a", "b"]);
    assert!(!apply_native_event(&mut s, &NativeEvent::Playing { track_uri: "spotify:track:b".into(), position_ms: 5 }));
    assert_eq!(playing_id(&s).as_deref(), Some("b"));
    assert!(s.playback.playing);
    assert_eq!(s.message.as_deref(), Some("Playing Track b."));
    apply_native_event(&mut s, &NativeEvent::Paused { track_uri: "spotify:track:zzz".into(), position_ms: 9 });
    assert_eq!(playing_id(&s).as_deref(), Some("b"));
    assert_eq!(s.playback.position_ms, 9);
    assert_eq!(s.message.as_deref(), Some("Paused."));
    apply_native_event(&mut s, &NativeEvent::RepeatChanged { context: true, track: false });
    assert_eq!(s.playback.repeat, RepeatMode::Context);
    apply_native_event(&mut s, &NativeEvent::Loading { track_uri: "spotify:track:a".into(), position_ms: 0 });
    assert_eq!(s.message.as_deref(), Some("Loading track\u{2026}"));
    apply_native_event(&mut s, &NativeEvent::Unavailable { track_uri: "spotify:track:a".into() });
    assert!(!s.playback.playing);
    assert!(apply_native_event(&mut s, &NativeEvent::EndOfTrack));
    sync_native_track(&mut s, "spotify:track:b");
    assert_eq!(playing_id(&s).as_deref(), Some("b"));
}

#[test]
fn track_ids_come_from_the_end_of_uris() {
    assert_eq!(track_id_from_uri("spotify:track:abc"), "abc");
    assert_eq!(track_id_from_uri("abc"), "abc");
    assert_eq!(track_id_from_uri("a:b:"), "");
}

#[test]
fn queue_advance_plays_the_head_or_reports_failure() {
    let mut s = library_snapshot(&["a"]);
    s.queue = vec![QueueEntry { queue_id: "q-1".into(), track: track("x") }];
    let next = begin_queue_advance(&mut s).unwrap();
    assert_eq!(next.id, "x");
    assert!(s.queue.is_empty());
    assert_eq!(s.message.as_deref(), Some("Playing Track x."));
    let commands = advance_commands(&next);
    assert!(matches!(&commands[1], NativeCommand::LoadTracks { uri } if uri == "spotify:track:x"));
    queue_advance_failed(&mut s, "offline");
    assert!(!s.playback.playing);
    assert_eq!(s.message.as_deref(), Some("Could not advance the queue: offline"));
    assert!(begin_queue_advance(&mut s).is_none());
}

#[test]
fn catalog_loading_clears_and_refills_the_snapshot() {
    let mut s = initial_snapshot();
    begin_catalog_loading(&mut s);
    assert!(s.catalog_loading && s.library.is_empty() && s.queue.is_empty() && s.playback.track.is_none());
    sync_library_snapshot(&mut s, vec![track("a"), track("b")]);
    assert_eq!(playing_id(&s).as_deref(), Some("a"));
    assert!(!s.playback.playing);
    sync_playlists_snapshot(&mut s, vec![Playlist { id: "p".into(), name: "P".into(), owner: "o".into(), track_count: 2 }]);
    assert_eq!(s.playlists.len(), 1);
    finish_catalog_loading(&mut s);
    assert!(!s.catalog_loading);
    let revision = s.revision;
    bump_revision(&mut s);
    assert_eq!(s.revision, revision + 1);
    s.revision = u64::MAX;
    bump_revision(&mut s);
    assert_eq!(s.revision, 0);
}

#[test]
fn status_lines_keep_catalog_warnings_visible() {
    let mut s = initial_snapshot();
    update_oauth_status(&mut s, true, "Spotify connected \u{b7} could not load playlists: x.");
    assert!(s.authenticated && s.spotify_configured);
    update_native_player_status(&mut s, "Native Spotify audio is ready on this device.");
    assert_eq!(s.message.as_deref(), Some("Spotify connected \u{b7} could not load playlists: x."));
    update_oauth_status(&mut s, true, "Spotify connected.");
    update_native_player_status(&mut s, "Native Spotify audio is ready on this device.");
    assert_eq!(s.message.as_deref(), Some("Native Spotify audio is ready on this device."));
    session_restore_failed(&mut s, "refused");
    assert!(!s.authenticated);
    assert_eq!(s.message.as_deref(), Some("Saved Spotify session could not be restored: refused"));
}
