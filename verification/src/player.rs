//! The player reducer: how each renderer action changes the snapshot, which
//! native Spotify Connect commands it needs, and how native player events
//! and queue advancement update the snapshot.

use vstd::prelude::*;
use crate::model::{
    AppSnapshot, PlaybackState, PlaybackV, Playlist, PlaylistV, QueueEntry, QueueEntryV, RepeatMode, SnapshotV,
    Track, TrackV, ViewId, opt_text, opt_track, playlists_v, queue_v, tracks_v,
};
use crate::text::{chars_of, decimal, decimal_string, lemma_decimal_injective, owned};

verus! {

/// The first position of `key` in `keys`.
pub open spec fn is_first(keys: Seq<Seq<char>>, key: Seq<char>, i: int) -> bool {
    &&& 0 <= i < keys.len()
    &&& keys[i] == key
    &&& forall|j: int| 0 <= j < i ==> keys[j] != key
}

/// Where `key` first occurs in `keys`, if anywhere.
pub open spec fn first_index(keys: Seq<Seq<char>>, key: Seq<char>) -> Option<int> {
    if exists|i: int| is_first(keys, key, i) {
        Some(choose|i: int| is_first(keys, key, i))
    } else {
        None
    }
}

/// A found position as a mathematical index.
pub open spec fn as_index(r: Option<usize>) -> Option<int> {
    match r {
        Some(i) => Some(i as int),
        None => None,
    }
}

/// A search result that names the first match, or says there is none, is
/// the value of [`first_index`].
pub proof fn lemma_first_index(keys: Seq<Seq<char>>, key: Seq<char>, r: Option<int>)
    requires
        r matches Some(i) ==> is_first(keys, key, i),
        r is None ==> forall|j: int| 0 <= j < keys.len() ==> keys[j] != key,
    ensures
        first_index(keys, key) == r,
{
    if let Some(i) = r {
        assert(is_first(keys, key, i));
        let k = choose|k: int| is_first(keys, key, k);
        if k < i {
            assert(keys[k] != key);
        } else if i < k {
            assert(keys[i] != key);
        }
    } else {
        assert forall|i: int| !is_first(keys, key, i) by {
            if 0 <= i < keys.len() {
                assert(keys[i] != key);
            }
        }
    }
}

/// The ids of a sequence of tracks.
pub open spec fn track_ids(s: Seq<TrackV>) -> Seq<Seq<char>> {
    s.map_values(|t: TrackV| t.id)
}

/// The ids of a sequence of playlists.
pub open spec fn playlist_ids(s: Seq<PlaylistV>) -> Seq<Seq<char>> {
    s.map_values(|p: PlaylistV| p.id)
}

/// The queue ids of a queue.
pub open spec fn queue_ids(s: Seq<QueueEntryV>) -> Seq<Seq<char>> {
    s.map_values(|e: QueueEntryV| e.queue_id)
}

/// Position of the first library track with the id `id`.
pub fn find_track(library: &Vec<Track>, id: &String) -> (r: Option<usize>)
    ensures
        as_index(r) == first_index(track_ids(tracks_v(library@)), id@),
        r matches Some(i) ==> i < library@.len(),
{
    let ghost keys = track_ids(tracks_v(library@));
    let mut i: usize = 0;
    while i < library.len()
        invariant
            keys == track_ids(tracks_v(library@)),
            i <= library@.len(),
            forall|j: int| 0 <= j < i ==> keys[j] != id@,
        decreases library.len() - i,
    {
        if library[i].id == *id {
            proof {
                lemma_first_index(keys, id@, Some(i as int));
            }
            return Some(i);
        }
        i = i + 1;
    }
    proof {
        lemma_first_index(keys, id@, None);
    }
    None
}

/// Position of the first playlist with the id `id`.
pub fn find_playlist(playlists: &Vec<Playlist>, id: &String) -> (r: Option<usize>)
    ensures
        as_index(r) == first_index(playlist_ids(playlists_v(playlists@)), id@),
        r matches Some(i) ==> i < playlists@.len(),
{
    let ghost keys = playlist_ids(playlists_v(playlists@));
    let mut i: usize = 0;
    while i < playlists.len()
        invariant
            keys == playlist_ids(playlists_v(playlists@)),
            i <= playlists@.len(),
            forall|j: int| 0 <= j < i ==> keys[j] != id@,
        decreases playlists.len() - i,
    {
        if playlists[i].id == *id {
            proof {
                lemma_first_index(keys, id@, Some(i as int));
            }
            return Some(i);
        }
        i = i + 1;
    }
    proof {
        lemma_first_index(keys, id@, None);
    }
    None
}

/// Position of the first queue entry with the queue id `id`.
pub fn find_queue_entry(queue: &Vec<QueueEntry>, id: &String) -> (r: Option<usize>)
    ensures
        as_index(r) == first_index(queue_ids(queue_v(queue@)), id@),
        r matches Some(i) ==> i < queue@.len(),
{
    let ghost keys = queue_ids(queue_v(queue@));
    let mut i: usize = 0;
    while i < queue.len()
        invariant
            keys == queue_ids(queue_v(queue@)),
            i <= queue@.len(),
            forall|j: int| 0 <= j < i ==> keys[j] != id@,
        decreases queue.len() - i,
    {
        if queue[i].queue_id == *id {
            proof {
                lemma_first_index(keys, id@, Some(i as int));
            }
            return Some(i);
        }
        i = i + 1;
    }
    proof {
        lemma_first_index(keys, id@, None);
    }
    None
}


/// What the renderer asks the player to do. The volume travels as the
/// native level `0..=65535` that the shell derives from the renderer's
/// fraction.
#[derive(Debug)]
pub enum PlayerAction {
    PlayTrack { track_id: String, track: Option<Track> },
    PlayPlaylist { playlist_id: String },
    SetSaved { track_id: String, track: Option<Track>, saved: bool },
    AddToPlaylist { track_id: String, playlist_id: String },
    TogglePlayback,
    Next,
    Previous,
    Seek { position_ms: u32 },
    SetVolume { level: u16 },
    ToggleShuffle,
    CycleRepeat,
    Enqueue { track_id: String, track: Option<Track> },
    MoveQueueItem { queue_id: String, to_index: usize },
    RemoveQueueItem { queue_id: String },
    ClearQueue,
    SetView { view: ViewId },
}

/// The track an action names: the track it carries when that has the right
/// id, else the first library track with that id.
pub open spec fn chosen_track(library: Seq<TrackV>, track_id: Seq<char>, track: Option<TrackV>) -> Option<TrackV> {
    if track is Some && track->0.id == track_id {
        track
    } else {
        match first_index(track_ids(library), track_id) {
            Some(i) => Some(library[i]),
            None => None,
        }
    }
}

/// `s` after starting `t` from its beginning, outside any playlist context.
pub open spec fn started(s: SnapshotV, t: TrackV) -> SnapshotV {
    SnapshotV {
        playback: PlaybackV { track: Some(t), position_ms: 0, playing: true, ..s.playback },
        playlist_context_id: None,
        ..s
    }
}

/// `s` playing `t` from its beginning, with the context left as it is.
pub open spec fn playing_from_start(s: SnapshotV, t: TrackV) -> SnapshotV {
    SnapshotV { playback: PlaybackV { track: Some(t), position_ms: 0, playing: true, ..s.playback }, ..s }
}

/// The successor of a queue sequence number, wrapping at the top.
pub open spec fn wrapping_next(n: u64) -> u64 {
    if n == u64::MAX { 0 } else { (n + 1) as u64 }
}

/// The queue id given to the `n`th enqueued track.
pub open spec fn queue_id_for(n: u64) -> Seq<char> {
    "q-"@ + decimal(n as nat)
}

/// The position of the playing track in the library, or 0 when it is not
/// there.
pub open spec fn current_index(s: SnapshotV) -> int {
    match s.playback.track {
        Some(t) => match first_index(track_ids(s.library), t.id) {
            Some(i) => i,
            None => 0,
        },
        None => 0,
    }
}

/// The queue with the entry at `i` moved to `to_index`, or to the end when
/// `to_index` lies beyond it.
pub open spec fn moved(q: Seq<QueueEntryV>, i: int, to_index: int) -> Seq<QueueEntryV> {
    let rest = q.remove(i);
    let dest = if to_index < rest.len() { to_index } else { rest.len() as int };
    rest.insert(dest, q[i])
}

/// Keeps the tracks whose id is not `id`.
pub open spec fn track_not(id: Seq<char>) -> spec_fn(TrackV) -> bool {
    |t: TrackV| t.id != id
}

/// Keeps the queue entries whose queue id is not `id`.
pub open spec fn entry_not(id: Seq<char>) -> spec_fn(QueueEntryV) -> bool {
    |e: QueueEntryV| e.queue_id != id
}

/// `t` marked as saved.
pub open spec fn marked_saved(t: TrackV) -> TrackV {
    TrackV { saved: Some(true), ..t }
}

/// The library after saving or removing `id`.
pub open spec fn library_after_save(library: Seq<TrackV>, id: Seq<char>, track: Option<TrackV>, saved: bool) -> Seq<TrackV> {
    if saved {
        match first_index(track_ids(library), id) {
            Some(i) => library.update(i, marked_saved(library[i])),
            None => match track {
                Some(t) => seq![marked_saved(t)] + library,
                None => library,
            },
        }
    } else {
        library.filter(track_not(id))
    }
}

/// The message shown after adding a track to a playlist.
pub open spec fn added_message(playlists: Seq<PlaylistV>, playlist_id: Seq<char>) -> Seq<char> {
    let name = match first_index(playlist_ids(playlists), playlist_id) {
        Some(i) => playlists[i].name,
        None => "playlist"@,
    };
    "Added to "@ + name + "."@
}

/// The repeat mode that follows `r` in the cycle Off, Context, Track.
pub open spec fn next_repeat(r: RepeatMode) -> RepeatMode {
    match r {
        RepeatMode::Off => RepeatMode::Context,
        RepeatMode::Context => RepeatMode::Track,
        RepeatMode::Track => RepeatMode::Off,
    }
}

/// `s` after the Next action.
pub open spec fn after_next(s: SnapshotV) -> SnapshotV {
    if s.queue.len() > 0 {
        started(SnapshotV { queue: s.queue.drop_first(), ..s }, s.queue[0].track)
    } else if s.playlist_context_id is Some {
        s
    } else if s.library.len() > 0 {
        let i = current_index(s);
        let n = if i + 1 == s.library.len() { 0 } else { i + 1 };
        playing_from_start(s, s.library[n])
    } else {
        s
    }
}

/// `s` after the Previous action.
pub open spec fn after_previous(s: SnapshotV) -> SnapshotV {
    if s.playlist_context_id is Some {
        s
    } else if s.library.len() > 0 {
        let i = current_index(s);
        let p = if i == 0 { s.library.len() - 1 } else { i - 1 };
        playing_from_start(s, s.library[p])
    } else {
        s
    }
}

/// The result of an action: the new snapshot, the new queue sequence
/// number, and the reason when the action is refused.
pub struct ActionOutcome {
    pub snapshot: SnapshotV,
    pub sequence: u64,
    pub refusal: Option<Seq<char>>,
}

/// An accepted action that leaves the sequence number alone.
pub open spec fn accepted(s: SnapshotV, sequence: u64) -> ActionOutcome {
    ActionOutcome { snapshot: s, sequence, refusal: None }
}

/// What an action does to the snapshot `s` when the queue sequence number is
/// `seq`.
pub open spec fn after_action(s: SnapshotV, a: PlayerAction, seq: u64) -> ActionOutcome {
    match a {
        PlayerAction::SetView { view } => accepted(SnapshotV { view, ..s }, seq),
        PlayerAction::PlayTrack { track_id, track } => match chosen_track(s.library, track_id@, opt_track(track)) {
            Some(t) => accepted(started(s, t), seq),
            None => accepted(s, seq),
        },
        PlayerAction::PlayPlaylist { playlist_id } => accepted(
            SnapshotV {
                playlist_context_id: Some(playlist_id@),
                playback: PlaybackV { position_ms: 0, playing: true, ..s.playback },
                ..s
            },
            seq,
        ),
        PlayerAction::SetSaved { track_id, track, saved } => accepted(
            SnapshotV {
                library: library_after_save(s.library, track_id@, opt_track(track), saved),
                message: Some(if saved { "Saved to your library."@ } else { "Removed from your library."@ }),
                ..s
            },
            seq,
        ),
        PlayerAction::AddToPlaylist { track_id, playlist_id } => if !s.authenticated {
            ActionOutcome { snapshot: s, sequence: seq, refusal: Some("Connect Spotify to edit playlists."@) }
        } else {
            accepted(SnapshotV { message: Some(added_message(s.playlists, playlist_id@)), ..s }, seq)
        },
        PlayerAction::TogglePlayback => accepted(
            SnapshotV { playback: PlaybackV { playing: !s.playback.playing, ..s.playback }, ..s },
            seq,
        ),
        PlayerAction::Next => accepted(after_next(s), seq),
        PlayerAction::Previous => accepted(after_previous(s), seq),
        PlayerAction::Seek { position_ms } => accepted(
            SnapshotV { playback: PlaybackV { position_ms, ..s.playback }, ..s },
            seq,
        ),
        PlayerAction::SetVolume { level } => accepted(s, seq),
        PlayerAction::ToggleShuffle => accepted(
            SnapshotV { playback: PlaybackV { shuffle: !s.playback.shuffle, ..s.playback }, ..s },
            seq,
        ),
        PlayerAction::CycleRepeat => accepted(
            SnapshotV { playback: PlaybackV { repeat: next_repeat(s.playback.repeat), ..s.playback }, ..s },
            seq,
        ),
        PlayerAction::Enqueue { track_id, track } => match chosen_track(s.library, track_id@, opt_track(track)) {
            Some(t) => {
                let n = wrapping_next(seq);
                ActionOutcome {
                    snapshot: SnapshotV { queue: s.queue.push(QueueEntryV { queue_id: queue_id_for(n), track: t }), ..s },
                    sequence: n,
                    refusal: None,
                }
            },
            None => accepted(s, seq),
        },
        PlayerAction::MoveQueueItem { queue_id, to_index } => match first_index(queue_ids(s.queue), queue_id@) {
            Some(i) => accepted(SnapshotV { queue: moved(s.queue, i, to_index as int), ..s }, seq),
            None => accepted(s, seq),
        },
        PlayerAction::RemoveQueueItem { queue_id } => accepted(
            SnapshotV { queue: s.queue.filter(entry_not(queue_id@)), ..s },
            seq,
        ),
        PlayerAction::ClearQueue => accepted(SnapshotV { queue: Seq::empty(), ..s }, seq),
    }
}


/// The track an action names, copied out of the action or the library.
pub fn choose_track(library: &Vec<Track>, track_id: &String, track: &Option<Track>) -> (r: Option<Track>)
    ensures
        opt_track(r) == chosen_track(tracks_v(library@), track_id@, opt_track(*track)),
{
    if let Some(t) = track {
        if t.id == *track_id {
            return Some(t.clone());
        }
    }
    match find_track(library, track_id) {
        Some(i) => Some(library[i].clone()),
        None => None,
    }
}

fn start_track(s: &mut AppSnapshot, t: Track)
    ensures
        final(s)@ == started(old(s)@, t@),
{
    s.playback.track = Some(t);
    s.playback.position_ms = 0;
    s.playback.playing = true;
    s.playlist_context_id = None;
}

fn play_from_start(s: &mut AppSnapshot, t: Track)
    ensures
        final(s)@ == playing_from_start(old(s)@, t@),
{
    s.playback.track = Some(t);
    s.playback.position_ms = 0;
    s.playback.playing = true;
}

/// The next queue id, `q-` followed by the incremented sequence number.
pub fn next_queue_id(sequence: &mut u64) -> (id: String)
    ensures
        *final(sequence) == wrapping_next(*old(sequence)),
        id@ == queue_id_for(*final(sequence)),
{
    *sequence = sequence.wrapping_add(1);
    let mut id = owned("q-");
    let digits = decimal_string(*sequence as u128);
    id.append(digits.as_str());
    id
}

/// The library without the tracks whose id is `id`.
pub fn tracks_without(library: &Vec<Track>, id: &String) -> (r: Vec<Track>)
    ensures
        tracks_v(r@) == tracks_v(library@).filter(track_not(id@)),
{
    let ghost all = tracks_v(library@);
    let mut r: Vec<Track> = Vec::new();
    let mut i: usize = 0;
    while i < library.len()
        invariant
            all == tracks_v(library@),
            i <= library@.len(),
            tracks_v(r@) == all.subrange(0, i as int).filter(track_not(id@)),
        decreases library.len() - i,
    {
        let ghost before = r@;
        proof {
            reveal(Seq::filter);
            assert(all.subrange(0, i + 1).drop_last() =~= all.subrange(0, i as int));
        }
        if library[i].id != *id {
            r.push(library[i].clone());
            assert(tracks_v(r@) =~= tracks_v(before).push(all[i as int]));
        }
        i = i + 1;
    }
    assert(all.subrange(0, library@.len() as int) =~= all);
    r
}

/// The queue without the entries whose queue id is `id`.
pub fn entries_without(queue: &Vec<QueueEntry>, id: &String) -> (r: Vec<QueueEntry>)
    ensures
        queue_v(r@) == queue_v(queue@).filter(entry_not(id@)),
{
    let ghost all = queue_v(queue@);
    let mut r: Vec<QueueEntry> = Vec::new();
    let mut i: usize = 0;
    while i < queue.len()
        invariant
            all == queue_v(queue@),
            i <= queue@.len(),
            queue_v(r@) == all.subrange(0, i as int).filter(entry_not(id@)),
        decreases queue.len() - i,
    {
        let ghost before = r@;
        proof {
            reveal(Seq::filter);
            assert(all.subrange(0, i + 1).drop_last() =~= all.subrange(0, i as int));
        }
        if queue[i].queue_id != *id {
            r.push(queue[i].clone());
            assert(queue_v(r@) =~= queue_v(before).push(all[i as int]));
        }
        i = i + 1;
    }
    assert(all.subrange(0, queue@.len() as int) =~= all);
    r
}

fn save_in_library(library: &mut Vec<Track>, track_id: &String, track: &Option<Track>)
    ensures
        tracks_v(final(library)@) == library_after_save(tracks_v(old(library)@), track_id@, opt_track(*track), true),
{
    match find_track(library, track_id) {
        Some(i) => {
            let mut t = library[i].clone();
            t.saved = Some(true);
            let ghost before = library@;
            library.set(i, t);
            assert(tracks_v(library@) =~= tracks_v(before).update(i as int, marked_saved(tracks_v(before)[i as int])));
        },
        None => {
            if let Some(t) = track {
                let mut t = t.clone();
                t.saved = Some(true);
                let ghost before = library@;
                library.insert(0, t);
                assert(tracks_v(library@) =~= seq![marked_saved(opt_track(*track)->0)] + tracks_v(before));
            }
        },
    }
}

fn added_message_text(playlists: &Vec<Playlist>, playlist_id: &String) -> (m: String)
    ensures
        m@ == added_message(playlists_v(playlists@), playlist_id@),
{
    let mut m = owned("Added to ");
    match find_playlist(playlists, playlist_id) {
        Some(i) => m.append(playlists[i].name.as_str()),
        None => m.append("playlist"),
    }
    m.append(".");
    m
}

fn move_entry(queue: &mut Vec<QueueEntry>, i: usize, to_index: usize)
    requires
        i < old(queue)@.len(),
    ensures
        queue_v(final(queue)@) == moved(queue_v(old(queue)@), i as int, to_index as int),
{
    let ghost before = queue_v(queue@);
    let entry = queue.remove(i);
    assert(queue_v(queue@) =~= before.remove(i as int));
    let dest = if to_index < queue.len() { to_index } else { queue.len() };
    let ghost rest = queue@;
    queue.insert(dest, entry);
    assert(queue_v(queue@) =~= queue_v(rest).insert(dest as int, before[i as int]));
}

fn current_index_of(s: &AppSnapshot) -> (i: usize)
    ensures
        i as int == current_index(s@),
        s@.library.len() > 0 ==> i < s@.library.len(),
{
    match &s.playback.track {
        Some(t) => match find_track(&s.library, &t.id) {
            Some(i) => i,
            None => 0,
        },
        None => 0,
    }
}

fn play_next(s: &mut AppSnapshot)
    ensures
        final(s)@ == after_next(old(s)@),
{
    if s.queue.len() > 0 {
        let ghost before = s.queue@;
        let entry = s.queue.remove(0);
        assert(queue_v(s.queue@) =~= queue_v(before).drop_first());
        start_track(s, entry.track);
        return;
    }
    if s.playlist_context_id.is_some() {
        return;
    }
    let count = s.library.len();
    if count > 0 {
        let i = current_index_of(s);
        let n = if i + 1 == count { 0 } else { i + 1 };
        let t = s.library[n].clone();
        play_from_start(s, t);
    }
}

fn play_previous(s: &mut AppSnapshot)
    ensures
        final(s)@ == after_previous(old(s)@),
{
    if s.playlist_context_id.is_some() {
        return;
    }
    let count = s.library.len();
    if count > 0 {
        let i = current_index_of(s);
        let p = if i == 0 { count - 1 } else { i - 1 };
        let t = s.library[p].clone();
        play_from_start(s, t);
    }
}

/// Applies a renderer action to the snapshot. The only refusal is adding to
/// a playlist while no Spotify account is connected; a refused action leaves
/// everything unchanged.
pub fn apply_player_action(snapshot: &mut AppSnapshot, action: &PlayerAction, queue_sequence: &mut u64) -> (r: Result<(), String>)
    ensures
        final(snapshot)@ == after_action(old(snapshot)@, *action, *old(queue_sequence)).snapshot,
        *final(queue_sequence) == after_action(old(snapshot)@, *action, *old(queue_sequence)).sequence,
        r is Err <==> after_action(old(snapshot)@, *action, *old(queue_sequence)).refusal is Some,
        r matches Err(e) ==> e@ == after_action(old(snapshot)@, *action, *old(queue_sequence)).refusal->0,
{
    match action {
        PlayerAction::SetView { view } => {
            snapshot.view = *view;
        },
        PlayerAction::PlayTrack { track_id, track } => {
            if let Some(t) = choose_track(&snapshot.library, track_id, track) {
                start_track(snapshot, t);
            }
        },
        PlayerAction::PlayPlaylist { playlist_id } => {
            snapshot.playlist_context_id = Some(playlist_id.clone());
            snapshot.playback.position_ms = 0;
            snapshot.playback.playing = true;
        },
        PlayerAction::SetSaved { track_id, track, saved } => {
            if *saved {
                save_in_library(&mut snapshot.library, track_id, track);
                snapshot.message = Some(owned("Saved to your library."));
            } else {
                snapshot.library = tracks_without(&snapshot.library, track_id);
                snapshot.message = Some(owned("Removed from your library."));
            }
        },
        PlayerAction::AddToPlaylist { track_id, playlist_id } => {
            if !snapshot.authenticated {
                return Err(owned("Connect Spotify to edit playlists."));
            }
            snapshot.message = Some(added_message_text(&snapshot.playlists, playlist_id));
        },
        PlayerAction::TogglePlayback => {
            snapshot.playback.playing = !snapshot.playback.playing;
        },
        PlayerAction::Next => {
            play_next(snapshot);
        },
        PlayerAction::Previous => {
            play_previous(snapshot);
        },
        PlayerAction::Seek { position_ms } => {
            snapshot.playback.position_ms = *position_ms;
        },
        PlayerAction::SetVolume { level } => {},
        PlayerAction::ToggleShuffle => {
            snapshot.playback.shuffle = !snapshot.playback.shuffle;
        },
        PlayerAction::CycleRepeat => {
            snapshot.playback.repeat = match snapshot.playback.repeat {
                RepeatMode::Off => RepeatMode::Context,
                RepeatMode::Context => RepeatMode::Track,
                RepeatMode::Track => RepeatMode::Off,
            };
        },
        PlayerAction::Enqueue { track_id, track } => {
            if let Some(t) = choose_track(&snapshot.library, track_id, track) {
                let queue_id = next_queue_id(queue_sequence);
                let ghost before = snapshot.queue@;
                let ghost tv = t@;
                snapshot.queue.push(QueueEntry { queue_id, track: t });
                assert(queue_v(snapshot.queue@) =~= queue_v(before).push(
                    QueueEntryV { queue_id: queue_id_for(*queue_sequence), track: tv },
                ));
            }
        },
        PlayerAction::MoveQueueItem { queue_id, to_index } => {
            if let Some(i) = find_queue_entry(&snapshot.queue, queue_id) {
                move_entry(&mut snapshot.queue, i, *to_index);
            }
        },
        PlayerAction::RemoveQueueItem { queue_id } => {
            snapshot.queue = entries_without(&snapshot.queue, queue_id);
        },
        PlayerAction::ClearQueue => {
            snapshot.queue.clear();
            assert(queue_v(snapshot.queue@) =~= Seq::<QueueEntryV>::empty());
        },
    }
    Ok(())
}


/// A command for the native Spotify Connect player.
#[derive(Debug)]
pub enum NativeCommand {
    Activate,
    LoadTracks { uri: String },
    LoadContext { uri: String },
    Play,
    Pause,
    Next,
    Previous,
    SetPosition { position_ms: u32 },
    SetVolume { level: u16 },
    Shuffle { enabled: bool },
    Repeat { enabled: bool },
    RepeatTrack { enabled: bool },
}

/// The view of a [`NativeCommand`].
pub enum CommandV {
    Activate,
    LoadTracks { uri: Seq<char> },
    LoadContext { uri: Seq<char> },
    Play,
    Pause,
    Next,
    Previous,
    SetPosition { position_ms: u32 },
    SetVolume { level: u16 },
    Shuffle { enabled: bool },
    Repeat { enabled: bool },
    RepeatTrack { enabled: bool },
}

impl View for NativeCommand {
    type V = CommandV;

    open spec fn view(&self) -> CommandV {
        match self {
            NativeCommand::Activate => CommandV::Activate,
            NativeCommand::LoadTracks { uri } => CommandV::LoadTracks { uri: uri@ },
            NativeCommand::LoadContext { uri } => CommandV::LoadContext { uri: uri@ },
            NativeCommand::Play => CommandV::Play,
            NativeCommand::Pause => CommandV::Pause,
            NativeCommand::Next => CommandV::Next,
            NativeCommand::Previous => CommandV::Previous,
            NativeCommand::SetPosition { position_ms } => CommandV::SetPosition { position_ms: *position_ms },
            NativeCommand::SetVolume { level } => CommandV::SetVolume { level: *level },
            NativeCommand::Shuffle { enabled } => CommandV::Shuffle { enabled: *enabled },
            NativeCommand::Repeat { enabled } => CommandV::Repeat { enabled: *enabled },
            NativeCommand::RepeatTrack { enabled } => CommandV::RepeatTrack { enabled: *enabled },
        }
    }
}

/// The views of a sequence of commands.
pub open spec fn commands_v(v: Seq<NativeCommand>) -> Seq<CommandV> {
    v.map_values(|c: NativeCommand| c@)
}

/// The Spotify URI of a track.
pub open spec fn track_uri(id: Seq<char>) -> Seq<char> {
    "spotify:track:"@ + id
}

/// The Spotify URI of a playlist.
pub open spec fn playlist_uri(id: Seq<char>) -> Seq<char> {
    "spotify:playlist:"@ + id
}

/// Activate the device, then load `uri` as a single-track context.
pub open spec fn load_track_plan(id: Seq<char>) -> Seq<CommandV> {
    seq![CommandV::Activate, CommandV::LoadTracks { uri: track_uri(id) }]
}

/// Next and Previous outside a playlist context load the exact track that
/// the reducer selected.
pub open spec fn selected_track_plan(p: PlaybackV) -> Result<Seq<CommandV>, Seq<char>> {
    match p.track {
        Some(t) => Ok(load_track_plan(t.id)),
        None => Err("there is no track selected"@),
    }
}

/// The native commands that carry out `a`, given the playback state the
/// reducer produced and whether a playlist context is active.
pub open spec fn native_plan(a: PlayerAction, p: PlaybackV, context_active: bool) -> Result<Seq<CommandV>, Seq<char>> {
    match a {
        PlayerAction::PlayTrack { track_id, track } => Ok(load_track_plan(track_id@)),
        PlayerAction::PlayPlaylist { playlist_id } => Ok(
            seq![CommandV::Activate, CommandV::LoadContext { uri: playlist_uri(playlist_id@) }],
        ),
        PlayerAction::TogglePlayback => Ok(seq![if p.playing { CommandV::Play } else { CommandV::Pause }]),
        PlayerAction::Next => if context_active { Ok(seq![CommandV::Next]) } else { selected_track_plan(p) },
        PlayerAction::Previous => if context_active { Ok(seq![CommandV::Previous]) } else { selected_track_plan(p) },
        PlayerAction::Seek { position_ms } => Ok(seq![CommandV::SetPosition { position_ms }]),
        PlayerAction::SetVolume { level } => Ok(seq![CommandV::SetVolume { level }]),
        PlayerAction::ToggleShuffle => Ok(seq![CommandV::Shuffle { enabled: p.shuffle }]),
        PlayerAction::CycleRepeat => Ok(
            seq![
                CommandV::Repeat { enabled: p.repeat == RepeatMode::Context },
                CommandV::RepeatTrack { enabled: p.repeat == RepeatMode::Track },
            ],
        ),
        _ => Ok(Seq::empty()),
    }
}

/// Whether `a` changes what the native player does.
pub open spec fn spec_needs_native(a: PlayerAction) -> bool {
    !(a is SetView || a is Enqueue || a is SetSaved || a is AddToPlaylist || a is MoveQueueItem
        || a is RemoveQueueItem || a is ClearQueue)
}

/// Whether the action must be forwarded to the native player.
pub fn action_needs_native_player(action: &PlayerAction) -> (b: bool)
    ensures
        b == spec_needs_native(*action),
{
    match action {
        PlayerAction::SetView { .. } | PlayerAction::Enqueue { .. } | PlayerAction::SetSaved { .. }
        | PlayerAction::AddToPlaylist { .. } | PlayerAction::MoveQueueItem { .. }
        | PlayerAction::RemoveQueueItem { .. } | PlayerAction::ClearQueue => false,
        _ => true,
    }
}

fn load_track_commands(id: &String) -> (r: Vec<NativeCommand>)
    ensures
        commands_v(r@) == load_track_plan(id@),
{
    let mut uri = owned("spotify:track:");
    uri.append(id.as_str());
    let r = vec![NativeCommand::Activate, NativeCommand::LoadTracks { uri }];
    assert(commands_v(r@) =~= load_track_plan(id@));
    r
}

fn one_command(c: NativeCommand) -> (r: Vec<NativeCommand>)
    ensures
        commands_v(r@) == seq![c@],
{
    let r = vec![c];
    assert(commands_v(r@) =~= seq![c@]);
    r
}

fn selected_track_commands(playback: &PlaybackState) -> (r: Result<Vec<NativeCommand>, String>)
    ensures
        match (r, selected_track_plan(playback@)) {
            (Ok(v), Ok(plan)) => commands_v(v@) == plan,
            (Err(e), Err(m)) => e@ == m,
            _ => false,
        },
{
    match &playback.track {
        Some(t) => Ok(load_track_commands(&t.id)),
        None => Err(owned("there is no track selected")),
    }
}

/// The native commands that carry out `action`, in order; the shell stops
/// at the first one that fails.
pub fn native_commands(action: &PlayerAction, playback: &PlaybackState, context_active: bool) -> (r: Result<Vec<NativeCommand>, String>)
    ensures
        match (r, native_plan(*action, playback@, context_active)) {
            (Ok(v), Ok(plan)) => commands_v(v@) == plan,
            (Err(e), Err(m)) => e@ == m,
            _ => false,
        },
{
    match action {
        PlayerAction::PlayTrack { track_id, .. } => Ok(load_track_commands(track_id)),
        PlayerAction::PlayPlaylist { playlist_id } => {
            let mut uri = owned("spotify:playlist:");
            uri.append(playlist_id.as_str());
            let r = vec![NativeCommand::Activate, NativeCommand::LoadContext { uri }];
            assert(commands_v(r@) =~= native_plan(*action, playback@, context_active)->Ok_0);
            Ok(r)
        },
        PlayerAction::TogglePlayback => {
            if playback.playing {
                Ok(one_command(NativeCommand::Play))
            } else {
                Ok(one_command(NativeCommand::Pause))
            }
        },
        PlayerAction::Next => {
            if context_active {
                Ok(one_command(NativeCommand::Next))
            } else {
                selected_track_commands(playback)
            }
        },
        PlayerAction::Previous => {
            if context_active {
                Ok(one_command(NativeCommand::Previous))
            } else {
                selected_track_commands(playback)
            }
        },
        PlayerAction::Seek { position_ms } => Ok(one_command(NativeCommand::SetPosition { position_ms: *position_ms })),
        PlayerAction::SetVolume { level } => Ok(one_command(NativeCommand::SetVolume { level: *level })),
        PlayerAction::ToggleShuffle => Ok(one_command(NativeCommand::Shuffle { enabled: playback.shuffle })),
        PlayerAction::CycleRepeat => {
            let repeat_context = match playback.repeat {
                RepeatMode::Context => true,
                _ => false,
            };
            let repeat_track = match playback.repeat {
                RepeatMode::Track => true,
                _ => false,
            };
            let r = vec![
                NativeCommand::Repeat { enabled: repeat_context },
                NativeCommand::RepeatTrack { enabled: repeat_track },
            ];
            assert(commands_v(r@) =~= native_plan(*action, playback@, context_active)->Ok_0);
            Ok(r)
        },
        _ => {
            let r: Vec<NativeCommand> = Vec::new();
            assert(commands_v(r@) =~= Seq::<CommandV>::empty());
            Ok(r)
        },
    }
}

/// "Playing {title}." for the track being played.
pub open spec fn playing_message(title: Seq<char>) -> Seq<char> {
    "Playing "@ + title + "."@
}

/// The status line an accepted native command earns.
pub open spec fn feedback(a: PlayerAction, p: PlaybackV) -> Option<Seq<char>> {
    if a is PlayTrack || a is PlayPlaylist || a is Next || a is Previous {
        match p.track {
            Some(t) => Some(playing_message(t.title)),
            None => None,
        }
    } else if a is TogglePlayback {
        Some(if p.playing { "Playing."@ } else { "Paused."@ })
    } else {
        None
    }
}

fn playing_text(title: &String) -> (m: String)
    ensures
        m@ == playing_message(title@),
{
    let mut m = owned("Playing ");
    m.append(title.as_str());
    m.append(".");
    m
}

/// The status line for an action the native player accepted.
pub fn player_feedback(action: &PlayerAction, playback: &PlaybackState) -> (r: Option<String>)
    ensures
        opt_text(r) == feedback(*action, playback@),
{
    match action {
        PlayerAction::PlayTrack { .. } | PlayerAction::PlayPlaylist { .. } | PlayerAction::Next
        | PlayerAction::Previous => match &playback.track {
            Some(t) => Some(playing_text(&t.title)),
            None => None,
        },
        PlayerAction::TogglePlayback => Some(if playback.playing { owned("Playing.") } else { owned("Paused.") }),
        _ => None,
    }
}


/// `k` is the position of the last `:` in `u`.
pub open spec fn is_last_colon(u: Seq<char>, k: int) -> bool {
    &&& 0 <= k < u.len()
    &&& u[k] == ':'
    &&& forall|j: int| k < j < u.len() ==> u[j] != ':'
}

/// The id in a Spotify URI: what follows its last `:`, or the whole text
/// when there is none.
pub open spec fn uri_track_id(u: Seq<char>) -> Seq<char> {
    if exists|k: int| is_last_colon(u, k) {
        u.subrange((choose|k: int| is_last_colon(u, k)) + 1, u.len() as int)
    } else {
        u
    }
}

/// The track id at the end of a `spotify:track:<id>` URI.
pub fn track_id_from_uri(uri: &str) -> (r: &str)
    ensures
        r@ == uri_track_id(uri@),
{
    let chars = chars_of(uri);
    let n = chars.len();
    let mut i = n;
    while i > 0
        invariant
            chars@ == uri@,
            n == uri@.len(),
            i <= n,
            forall|j: int| i <= j < n ==> uri@[j] != ':',
        decreases i,
    {
        if chars[i - 1] == ':' {
            proof {
                let k = (i - 1) as int;
                assert(is_last_colon(uri@, k));
                let c = choose|c: int| is_last_colon(uri@, c);
                if c < k {
                    assert(uri@[k] != ':');
                } else if k < c {
                    assert(uri@[c] != ':');
                }
            }
            return uri.substring_char(i, n);
        }
        i = i - 1;
    }
    proof {
        assert forall|k: int| !is_last_colon(uri@, k) by {
            if 0 <= k < n {
                assert(uri@[k] != ':');
            }
        }
    }
    uri
}

/// An event reported by the native player.
#[derive(Debug)]
pub enum NativeEvent {
    EndOfTrack,
    Loading { track_uri: String, position_ms: u32 },
    Playing { track_uri: String, position_ms: u32 },
    Paused { track_uri: String, position_ms: u32 },
    PositionChanged { track_uri: String, position_ms: u32 },
    VolumeChanged { volume: u16 },
    ShuffleChanged { shuffle: bool },
    RepeatChanged { context: bool, track: bool },
    Unavailable { track_uri: String },
    Stopped,
    Other,
}

/// `s` showing the library track that the native player reports, when the
/// library has it.
pub open spec fn synced(s: SnapshotV, uri: Seq<char>) -> SnapshotV {
    match first_index(track_ids(s.library), uri_track_id(uri)) {
        Some(i) => SnapshotV { playback: PlaybackV { track: Some(s.library[i]), ..s.playback }, ..s },
        None => s,
    }
}

/// The repeat mode a native repeat report stands for.
pub open spec fn repeat_mode_of(context: bool, track: bool) -> RepeatMode {
    if track {
        RepeatMode::Track
    } else if context {
        RepeatMode::Context
    } else {
        RepeatMode::Off
    }
}

/// What a native player event does to the snapshot. The end of a track
/// advances the queue instead, and a volume report only moves the shell's
/// volume.
pub open spec fn after_event(s: SnapshotV, e: NativeEvent) -> SnapshotV {
    match e {
        NativeEvent::Loading { track_uri, position_ms } => {
            let t = synced(s, track_uri@);
            SnapshotV {
                playback: PlaybackV { position_ms, playing: false, ..t.playback },
                message: Some("Loading track\u{2026}"@),
                ..t
            }
        },
        NativeEvent::Playing { track_uri, position_ms } => {
            let t = synced(s, track_uri@);
            SnapshotV {
                playback: PlaybackV { position_ms, playing: true, ..t.playback },
                message: match t.playback.track {
                    Some(tr) => Some(playing_message(tr.title)),
                    None => None,
                },
                ..t
            }
        },
        NativeEvent::Paused { track_uri, position_ms } => {
            let t = synced(s, track_uri@);
            SnapshotV {
                playback: PlaybackV { position_ms, playing: false, ..t.playback },
                message: Some("Paused."@),
                ..t
            }
        },
        NativeEvent::PositionChanged { track_uri, position_ms } => {
            let t = synced(s, track_uri@);
            SnapshotV { playback: PlaybackV { position_ms, ..t.playback }, ..t }
        },
        NativeEvent::ShuffleChanged { shuffle } => SnapshotV {
            playback: PlaybackV { shuffle, ..s.playback },
            ..s
        },
        NativeEvent::RepeatChanged { context, track } => SnapshotV {
            playback: PlaybackV { repeat: repeat_mode_of(context, track), ..s.playback },
            ..s
        },
        NativeEvent::Unavailable { track_uri } => {
            let t = synced(s, track_uri@);
            SnapshotV {
                playback: PlaybackV { playing: false, ..t.playback },
                message: Some("This track is unavailable for playback."@),
                ..t
            }
        },
        NativeEvent::Stopped => SnapshotV { playback: PlaybackV { playing: false, ..s.playback }, ..s },
        _ => s,
    }
}

/// Shows the library track that the native player reports.
pub fn sync_native_track(snapshot: &mut AppSnapshot, track_uri: &str)
    ensures
        final(snapshot)@ == synced(old(snapshot)@, track_uri@),
{
    let id = owned(track_id_from_uri(track_uri));
    if let Some(i) = find_track(&snapshot.library, &id) {
        let t = snapshot.library[i].clone();
        snapshot.playback.track = Some(t);
    }
}

/// Applies a native player event. Returns whether the event ends the
/// current track, in which case the shell advances the queue.
pub fn apply_native_event(snapshot: &mut AppSnapshot, event: &NativeEvent) -> (advance: bool)
    ensures
        advance == (*event is EndOfTrack),
        final(snapshot)@ == after_event(old(snapshot)@, *event),
{
    match event {
        NativeEvent::EndOfTrack => {
            return true;
        },
        NativeEvent::Loading { track_uri, position_ms } => {
            sync_native_track(snapshot, track_uri.as_str());
            snapshot.playback.position_ms = *position_ms;
            snapshot.playback.playing = false;
            snapshot.message = Some(owned("Loading track\u{2026}"));
        },
        NativeEvent::Playing { track_uri, position_ms } => {
            sync_native_track(snapshot, track_uri.as_str());
            snapshot.playback.position_ms = *position_ms;
            snapshot.playback.playing = true;
            snapshot.message = match &snapshot.playback.track {
                Some(t) => Some(playing_text(&t.title)),
                None => None,
            };
        },
        NativeEvent::Paused { track_uri, position_ms } => {
            sync_native_track(snapshot, track_uri.as_str());
            snapshot.playback.position_ms = *position_ms;
            snapshot.playback.playing = false;
            snapshot.message = Some(owned("Paused."));
        },
        NativeEvent::PositionChanged { track_uri, position_ms } => {
            sync_native_track(snapshot, track_uri.as_str());
            snapshot.playback.position_ms = *position_ms;
        },
        NativeEvent::ShuffleChanged { shuffle } => {
            snapshot.playback.shuffle = *shuffle;
        },
        NativeEvent::RepeatChanged { context, track } => {
            snapshot.playback.repeat = if *track {
                RepeatMode::Track
            } else if *context {
                RepeatMode::Context
            } else {
                RepeatMode::Off
            };
        },
        NativeEvent::Unavailable { track_uri } => {
            sync_native_track(snapshot, track_uri.as_str());
            snapshot.playback.playing = false;
            snapshot.message = Some(owned("This track is unavailable for playback."));
        },
        NativeEvent::Stopped => {
            snapshot.playback.playing = false;
        },
        _ => {},
    }
    false
}

/// `s` after the track at the head of the queue starts because the
/// previous one ended, with that track; `s` unchanged and no track when the
/// queue is empty.
pub open spec fn after_advance(s: SnapshotV) -> (SnapshotV, Option<TrackV>) {
    if s.queue.len() == 0 {
        (s, None)
    } else {
        let t = s.queue[0].track;
        (
            SnapshotV {
                queue: s.queue.drop_first(),
                playback: PlaybackV { track: Some(t), position_ms: 0, playing: true, ..s.playback },
                message: Some(playing_message(t.title)),
                ..s
            },
            Some(t),
        )
    }
}

/// Takes the head of the queue as the new current track after the previous
/// one ended, and returns it for the native player to load.
pub fn begin_queue_advance(snapshot: &mut AppSnapshot) -> (r: Option<Track>)
    ensures
        final(snapshot)@ == after_advance(old(snapshot)@).0,
        opt_track(r) == after_advance(old(snapshot)@).1,
{
    if snapshot.queue.len() == 0 {
        return None;
    }
    let ghost before = snapshot.queue@;
    let entry = snapshot.queue.remove(0);
    assert(queue_v(snapshot.queue@) =~= queue_v(before).drop_first());
    snapshot.playback.track = Some(entry.track.clone());
    snapshot.playback.position_ms = 0;
    snapshot.playback.playing = true;
    snapshot.message = Some(playing_text(&entry.track.title));
    Some(entry.track)
}

/// The commands that load a track the queue advanced to.
pub fn advance_commands(track: &Track) -> (r: Vec<NativeCommand>)
    ensures
        commands_v(r@) == load_track_plan(track.id@),
{
    load_track_commands(&track.id)
}

/// Records that the native player could not load the next queued track.
pub fn queue_advance_failed(snapshot: &mut AppSnapshot, error: &str)
    ensures
        final(snapshot)@ == (SnapshotV {
            playback: PlaybackV { playing: false, ..old(snapshot)@.playback },
            message: Some("Could not advance the queue: "@ + error@),
            ..old(snapshot)@
        }),
{
    snapshot.playback.playing = false;
    let mut m = owned("Could not advance the queue: ");
    m.append(error);
    snapshot.message = Some(m);
}

/// Whether a dispatched action goes on to the native player: only for a
/// connected account and an action that changes playback.
pub fn forwards_to_native(next: &AppSnapshot, action: &PlayerAction) -> (b: bool)
    ensures
        b == (next@.authenticated && spec_needs_native(*action)),
{
    next.authenticated && action_needs_native_player(action)
}

/// Shows the status line of an action the native player accepted.
pub fn note_feedback(next: &mut AppSnapshot, action: &PlayerAction)
    ensures
        final(next)@ == (match feedback(*action, old(next)@.playback) {
            Some(m) => SnapshotV { message: Some(m), ..old(next)@ },
            None => old(next)@,
        }),
{
    if let Some(m) = player_feedback(action, &next.playback) {
        next.message = Some(m);
    }
}

/// A change to the Spotify account that an action requires first.
#[derive(Debug)]
pub enum RemoteEdit {
    SaveTrack { track_id: String, saved: bool },
    AddToPlaylist { playlist_id: String, track_id: String },
}

/// Which account change, if any, must succeed before `action` applies: a
/// library or playlist edit while an account is connected.
pub fn remote_edit(snapshot: &AppSnapshot, action: &PlayerAction) -> (r: Option<RemoteEdit>)
    ensures
        r is Some <==> snapshot@.authenticated && (*action is SetSaved || *action is AddToPlaylist),
        r matches Some(RemoteEdit::SaveTrack { track_id, saved }) ==> *action matches PlayerAction::SetSaved {
            track_id: id, saved: s, ..
        } && id@ == track_id@ && s == saved,
        r matches Some(RemoteEdit::AddToPlaylist { playlist_id, track_id }) ==> *action matches PlayerAction::AddToPlaylist {
            track_id: t, playlist_id: p,
        } && t@ == track_id@ && p@ == playlist_id@,
{
    if !snapshot.authenticated {
        return None;
    }
    match action {
        PlayerAction::SetSaved { track_id, saved, .. } => Some(RemoteEdit::SaveTrack { track_id: track_id.clone(), saved: *saved }),
        PlayerAction::AddToPlaylist { track_id, playlist_id } => Some(
            RemoteEdit::AddToPlaylist { playlist_id: playlist_id.clone(), track_id: track_id.clone() },
        ),
        _ => None,
    }
}


/// Cycling the repeat mode three times brings it back to where it started.
pub proof fn law_repeat_cycles_in_three(s: SnapshotV, seq: u64)
    ensures
        ({
            let s1 = after_action(s, PlayerAction::CycleRepeat, seq).snapshot;
            let s2 = after_action(s1, PlayerAction::CycleRepeat, seq).snapshot;
            after_action(s2, PlayerAction::CycleRepeat, seq).snapshot
        }) == s,
{
}

/// Toggling playback twice, or shuffle twice, changes nothing.
pub proof fn law_toggles_are_involutions(s: SnapshotV, seq: u64)
    ensures
        after_action(after_action(s, PlayerAction::TogglePlayback, seq).snapshot, PlayerAction::TogglePlayback, seq).snapshot == s,
        after_action(after_action(s, PlayerAction::ToggleShuffle, seq).snapshot, PlayerAction::ToggleShuffle, seq).snapshot == s,
{
}

/// No two library tracks share an id.
pub open spec fn distinct_ids(library: Seq<TrackV>) -> bool {
    forall|i: int, j: int| 0 <= i < library.len() && 0 <= j < library.len() && i != j ==> library[i].id != library[j].id
}

proof fn lemma_position_of_distinct(library: Seq<TrackV>, k: int)
    requires
        distinct_ids(library),
        0 <= k < library.len(),
    ensures
        first_index(track_ids(library), library[k].id) == Some(k),
{
    let keys = track_ids(library);
    assert forall|j: int| 0 <= j < k implies keys[j] != library[k].id by {
        assert(library[j].id != library[k].id);
    }
    lemma_first_index(keys, library[k].id, Some(k));
}

/// Browsing the library outside any queue or playlist context, Previous
/// undoes Next and Next undoes Previous: the same library track plays
/// again.
pub proof fn law_previous_undoes_next(s: SnapshotV)
    requires
        s.queue.len() == 0,
        s.playlist_context_id is None,
        distinct_ids(s.library),
        s.library.len() > 0,
    ensures
        after_previous(after_next(s)).playback.track == Some(s.library[current_index(s)]),
        after_next(after_previous(s)).playback.track == Some(s.library[current_index(s)]),
{
    let i = current_index(s);
    let n = after_next(s);
    let k = if i + 1 == s.library.len() { 0 } else { i + 1 };
    lemma_position_of_distinct(s.library, k);
    assert(current_index(n) == k);
    let p = after_previous(s);
    let m = if i == 0 { s.library.len() - 1 } else { i - 1 };
    lemma_position_of_distinct(s.library, m);
    assert(current_index(p) == m);
}

/// Moving a queue entry reorders the queue without adding, losing or
/// changing any entry.
pub proof fn law_move_keeps_entries(s: SnapshotV, queue_id: String, to_index: usize, seq: u64)
    ensures
        ({
            let q = after_action(s, PlayerAction::MoveQueueItem { queue_id, to_index }, seq).snapshot.queue;
            q.len() == s.queue.len() && q.to_multiset() == s.queue.to_multiset()
        }),
{
    broadcast use vstd::seq_lib::group_to_multiset_ensures, vstd::multiset::group_multiset_axioms;
    if let Some(i) = first_index(queue_ids(s.queue), queue_id@) {
        let q = s.queue;
        let rest = q.remove(i);
        let dest = if to_index < rest.len() { to_index as int } else { rest.len() as int };
        vstd::seq_lib::to_multiset_remove(q, i);
        vstd::seq_lib::to_multiset_insert(rest, dest, q[i]);
        assert(q.to_multiset().count(q[i]) > 0);
        assert(q.to_multiset().remove(q[i]).insert(q[i]) =~= q.to_multiset());
    }
}

/// After removing a queue id, no entry with that id is left, and every
/// entry left was in the queue before.
pub proof fn law_removed_id_is_gone(s: SnapshotV, queue_id: String, seq: u64)
    ensures
        ({
            let q = after_action(s, PlayerAction::RemoveQueueItem { queue_id }, seq).snapshot.queue;
            forall|k: int| 0 <= k < q.len() ==> q[k].queue_id != queue_id@ && s.queue.contains(q[k])
        }),
{
    let q = s.queue.filter(entry_not(queue_id@));
    assert forall|k: int| 0 <= k < q.len() implies q[k].queue_id != queue_id@ && s.queue.contains(q[k]) by {
        s.queue.lemma_filter_pred(entry_not(queue_id@), k);
        s.queue.lemma_filter_contains_rev(entry_not(queue_id@), q[k]);
    }
}

/// Removing a track from the library removes every copy of it.
pub proof fn law_unsaved_track_is_gone(s: SnapshotV, track_id: String, track: Option<Track>, seq: u64)
    ensures
        ({
            let l = after_action(s, PlayerAction::SetSaved { track_id, track, saved: false }, seq).snapshot.library;
            forall|k: int| 0 <= k < l.len() ==> l[k].id != track_id@
        }),
{
    let l = s.library.filter(track_not(track_id@));
    assert forall|k: int| 0 <= k < l.len() implies l[k].id != track_id@ by {
        s.library.lemma_filter_pred(track_not(track_id@), k);
    }
}

/// Saving a track that is in the library, or that the action carries,
/// leaves a saved track with that id in the library.
pub proof fn law_saved_track_is_saved(s: SnapshotV, track_id: String, track: Option<Track>, seq: u64)
    requires
        first_index(track_ids(s.library), track_id@) is Some || (track matches Some(t) && t.id@ == track_id@),
    ensures
        ({
            let l = after_action(s, PlayerAction::SetSaved { track_id, track, saved: true }, seq).snapshot.library;
            exists|k: int| 0 <= k < l.len() && l[k].id == track_id@ && l[k].saved == Some(true)
        }),
{
    let l = library_after_save(s.library, track_id@, opt_track(track), true);
    assert(after_action(s, PlayerAction::SetSaved { track_id, track, saved: true }, seq).snapshot.library == l);
    match first_index(track_ids(s.library), track_id@) {
        Some(i) => {
            assert(is_first(track_ids(s.library), track_id@, i));
            assert(l[i].id == track_id@ && l[i].saved == Some(true));
        },
        None => {
            assert(l[0].id == track_id@ && l[0].saved == Some(true));
        },
    }
}

/// The only refused action is a playlist edit without a connected account,
/// and a refused action changes nothing.
pub proof fn law_refusal_changes_nothing(s: SnapshotV, a: PlayerAction, seq: u64)
    ensures
        after_action(s, a, seq).refusal is Some ==> {
            &&& a is AddToPlaylist
            &&& !s.authenticated
            &&& after_action(s, a, seq).snapshot == s
            &&& after_action(s, a, seq).sequence == seq
        },
{
}

/// Actions that only edit the queue, the library, playlists or the view
/// send nothing to the native player.
pub proof fn law_local_edits_stay_local(a: PlayerAction, p: PlaybackV, context_active: bool)
    requires
        !spec_needs_native(a),
    ensures
        native_plan(a, p, context_active) == Ok::<Seq<CommandV>, Seq<char>>(Seq::empty()),
{
}

/// Outside a playlist context, Next and Previous load exactly the track the
/// reducer selected.
pub proof fn law_native_follows_reducer(s: SnapshotV, seq: u64)
    requires
        s.playlist_context_id is None,
    ensures
        ({
            let n = after_action(s, PlayerAction::Next, seq).snapshot;
            n.playback.track matches Some(t) ==> native_plan(PlayerAction::Next, n.playback, n.playlist_context_id is Some) == Ok::<Seq<CommandV>, Seq<char>>(load_track_plan(t.id))
        }),
        ({
            let p = after_action(s, PlayerAction::Previous, seq).snapshot;
            p.playback.track matches Some(t) ==> native_plan(PlayerAction::Previous, p.playback, p.playlist_context_id is Some) == Ok::<Seq<CommandV>, Seq<char>>(load_track_plan(t.id))
        }),
{
}

/// A track loaded by its URI is found again by the id the native player
/// reports: the id at the end of `spotify:track:<id>` is `<id>`.
pub proof fn law_track_uri_round_trip(id: Seq<char>)
    requires
        forall|i: int| 0 <= i < id.len() ==> id[i] != ':',
    ensures
        uri_track_id(track_uri(id)) == id,
{
    reveal_strlit("spotify:track:");
    let u = track_uri(id);
    let k = 13int;
    assert(u[k] == ':');
    assert forall|j: int| k < j < u.len() implies u[j] != ':' by {
        assert(u[j] == id[j - 14]);
    }
    assert(is_last_colon(u, k));
    let c = choose|c: int| is_last_colon(u, c);
    if c < k {
        assert(u[k] != ':');
    } else if k < c {
        assert(u[c] != ':');
    }
    assert(u.subrange(k + 1, u.len() as int) =~= id);
}

/// No queue entry carries the id of a sequence number after `seq`.
pub open spec fn ids_issued_up_to(q: Seq<QueueEntryV>, seq: u64) -> bool {
    forall|i: int, k: u64| 0 <= i < q.len() && k > seq ==> q[i].queue_id != queue_id_for(k)
}

proof fn lemma_queue_ids_differ(a: u64, b: u64)
    requires
        a != b,
    ensures
        queue_id_for(a) != queue_id_for(b),
{
    reveal_strlit("q-");
    if queue_id_for(a) == queue_id_for(b) {
        assert(queue_id_for(a).subrange(2, queue_id_for(a).len() as int) =~= decimal(a as nat));
        assert(queue_id_for(b).subrange(2, queue_id_for(b).len() as int) =~= decimal(b as nat));
        lemma_decimal_injective(a as nat, b as nat);
    }
}

/// Enqueued entries get fresh ids: while no entry carries the id of a
/// later sequence number, the entry Enqueue adds has an id no other entry
/// has, and that stays so for the sequence number after it.
pub proof fn law_enqueue_ids_are_fresh(s: SnapshotV, track_id: String, track: Option<Track>, seq: u64)
    requires
        seq < u64::MAX,
        ids_issued_up_to(s.queue, seq),
    ensures
        ({
            let out = after_action(s, PlayerAction::Enqueue { track_id, track }, seq);
            let q = out.snapshot.queue;
            &&& ids_issued_up_to(q, out.sequence)
            &&& q.len() > s.queue.len() ==> forall|i: int| 0 <= i < q.len() - 1 ==> #[trigger] q[i].queue_id != q[q.len() - 1].queue_id
        }),
{
    let out = after_action(s, PlayerAction::Enqueue { track_id, track }, seq);
    let q = out.snapshot.queue;
    if q.len() > s.queue.len() {
        let n = (seq + 1) as u64;
        assert(out.sequence == n);
        assert(q[q.len() - 1].queue_id == queue_id_for(n));
        assert forall|i: int, k: u64| 0 <= i < q.len() && k > n implies q[i].queue_id != queue_id_for(k) by {
            if i == q.len() - 1 {
                lemma_queue_ids_differ(n, k);
            } else {
                assert(q[i] == s.queue[i]);
            }
        }
        assert forall|i: int| 0 <= i < q.len() - 1 implies #[trigger] q[i].queue_id != q[q.len() - 1].queue_id by {
            assert(q[i] == s.queue[i]);
        }
    }
}


/// Moving a queue entry takes out the first entry with that id, at `i`,
/// and puts it back at `to_index`, or last when `to_index` lies beyond the
/// rest of the queue; the other entries keep their order around it.
pub proof fn law_move_places_entry(s: SnapshotV, queue_id: String, to_index: usize, seq: u64, i: int)
    requires
        0 <= i < s.queue.len(),
        s.queue[i].queue_id == queue_id@,
        forall|j: int| 0 <= j < i ==> s.queue[j].queue_id != queue_id@,
    ensures
        ({
            let q = after_action(s, PlayerAction::MoveQueueItem { queue_id, to_index }, seq).snapshot.queue;
            let n = s.queue.len() as int;
            let d = if (to_index as int) < n - 1 { to_index as int } else { n - 1 };
            &&& q.len() == n
            &&& q[d] == s.queue[i]
            &&& forall|k: int| 0 <= k < d ==> #[trigger] q[k] == s.queue[if k < i { k } else { k + 1 }]
            &&& forall|k: int| d < k < n ==> #[trigger] q[k] == s.queue[if k <= i { k - 1 } else { k }]
        }),
{
    let keys = queue_ids(s.queue);
    lemma_first_index(keys, queue_id@, Some(i));
}

/// Moving an id the queue does not hold changes nothing.
pub proof fn law_move_of_unknown_id_changes_nothing(s: SnapshotV, queue_id: String, to_index: usize, seq: u64)
    requires
        forall|j: int| 0 <= j < s.queue.len() ==> s.queue[j].queue_id != queue_id@,
    ensures
        after_action(s, PlayerAction::MoveQueueItem { queue_id, to_index }, seq).snapshot == s,
{
    lemma_first_index(queue_ids(s.queue), queue_id@, None);
}

/// Toggling playback sends the native player one command: Play exactly
/// when the playback it hands over is playing, Pause exactly when it is
/// not. So a toggle that resumed playback sends Play, and one that paused
/// it sends Pause.
pub proof fn law_toggle_sends_what_it_did(s: SnapshotV, seq: u64, p: PlaybackV, context_active: bool)
    ensures
        ({
            let plan = native_plan(PlayerAction::TogglePlayback, p, context_active);
            &&& plan is Ok
            &&& plan->Ok_0.len() == 1
            &&& (plan->Ok_0[0] == CommandV::Play) <==> p.playing
            &&& (plan->Ok_0[0] == CommandV::Pause) <==> !p.playing
        }),
        ({
            let after = after_action(s, PlayerAction::TogglePlayback, seq).snapshot.playback;
            let plan = native_plan(PlayerAction::TogglePlayback, after, context_active);
            &&& !s.playback.playing ==> plan == Ok::<Seq<CommandV>, Seq<char>>(seq![CommandV::Play])
            &&& s.playback.playing ==> plan == Ok::<Seq<CommandV>, Seq<char>>(seq![CommandV::Pause])
        }),
{
}

/// A native report of loading, playing, pausing or a new position sets
/// the playback position to the one reported. Loading and pausing leave
/// playback stopped, playing leaves it running, and a new position does not
/// change whether it runs.
pub proof fn law_events_set_position(s: SnapshotV, e: NativeEvent)
    ensures
        e matches NativeEvent::Loading { position_ms, .. } ==> after_event(s, e).playback.position_ms == position_ms
            && !after_event(s, e).playback.playing,
        e matches NativeEvent::Playing { position_ms, .. } ==> after_event(s, e).playback.position_ms == position_ms
            && after_event(s, e).playback.playing,
        e matches NativeEvent::Paused { position_ms, .. } ==> after_event(s, e).playback.position_ms == position_ms
            && !after_event(s, e).playback.playing,
        e matches NativeEvent::PositionChanged { position_ms, .. } ==> after_event(s, e).playback.position_ms
            == position_ms && after_event(s, e).playback.playing == s.playback.playing,
{
}

/// When a track ends the queue is played first in, first out: the track
/// handed to the native player, and now shown playing from the start, is
/// the old first entry's, and the queue keeps the other entries in their
/// order. An empty queue advances nothing.
pub proof fn law_queue_advances_from_the_head(s: SnapshotV)
    ensures
        ({
            let (t, next) = after_advance(s);
            &&& s.queue.len() > 0 ==> {
                &&& next == Some(s.queue[0].track)
                &&& t.playback.track == Some(s.queue[0].track)
                &&& t.playback.position_ms == 0
                &&& t.playback.playing
                &&& t.queue.len() == s.queue.len() - 1
                &&& forall|k: int| 0 <= k < t.queue.len() ==> #[trigger] t.queue[k] == s.queue[k + 1]
            }
            &&& s.queue.len() == 0 ==> next is None && t == s
        }),
{
}

} // verus!
