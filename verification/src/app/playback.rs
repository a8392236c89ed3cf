//! Playback decisions: moving through the queue, pausing and resuming,
//! gapless preloading and restoring a saved queue. The audio backends are
//! queried and driven by the caller.

use vstd::prelude::*;

verus! {

/// The playback state.
#[derive(Clone, Copy, PartialEq, Eq, Structural, Debug)]
pub enum PlaybackState {
    Stopped,
    Playing,
    Paused,
}

/// What skipping to the next track does.
#[derive(Clone, Copy, PartialEq, Eq, Structural, Debug)]
pub enum NextTrack {
    /// The queue is empty: nothing happens.
    Nothing,
    /// Play the queue entry at this position.
    Play(usize),
    /// The end of the queue was reached: stop playback.
    EndOfQueue,
}

/// The next track of a queue of `queue_len` songs playing at `position`.
pub open spec fn next_track_spec(queue_len: usize, position: Option<usize>) -> NextTrack {
    if queue_len == 0 {
        NextTrack::Nothing
    } else {
        match position {
            Some(pos) => if pos + 1 < queue_len {
                NextTrack::Play((pos + 1) as usize)
            } else {
                NextTrack::EndOfQueue
            },
            None => NextTrack::EndOfQueue,
        }
    }
}

/// Decides what skipping to the next track does.
pub fn next_track(queue_len: usize, position: Option<usize>) -> (r: NextTrack)
    ensures
        r == next_track_spec(queue_len, position),
{
    if queue_len == 0 {
        return NextTrack::Nothing;
    }
    match position {
        Some(pos) => if pos < queue_len - 1 {
            NextTrack::Play(pos + 1)
        } else {
            NextTrack::EndOfQueue
        },
        None => NextTrack::EndOfQueue,
    }
}

/// What going back a track does.
#[derive(Clone, Copy, PartialEq, Eq, Structural, Debug)]
pub enum PrevTrack {
    /// The queue is empty: nothing happens.
    Nothing,
    /// Play the queue entry at this position.
    Play(usize),
    /// Seek the current track back to its start.
    Restart,
}

/// Going back: within the first three seconds of a track, restart it;
/// later, play the entry before it, or restart the current track when it is
/// the first one. `early` tells whether the track is within its first three
/// seconds.
pub open spec fn prev_track_spec(queue_len: usize, position: Option<usize>, early: bool) -> PrevTrack {
    if queue_len == 0 {
        PrevTrack::Nothing
    } else {
        match position {
            Some(pos) => if !early && pos > 0 {
                PrevTrack::Play((pos - 1) as usize)
            } else {
                PrevTrack::Restart
            },
            None => PrevTrack::Restart,
        }
    }
}

/// Decides what going back a track does.
pub fn prev_track(queue_len: usize, position: Option<usize>, early: bool) -> (r: PrevTrack)
    ensures
        r == prev_track_spec(queue_len, position, early),
{
    if queue_len == 0 {
        return PrevTrack::Nothing;
    }
    if !early {
        if let Some(pos) = position {
            if pos > 0 {
                return PrevTrack::Play(pos - 1);
            }
        }
    }
    PrevTrack::Restart
}

/// Going back then forward returns to the same song: when going back plays
/// the previous entry of the queue, skipping forward from there plays the
/// entry that was playing.
pub proof fn prev_then_next_returns(queue_len: usize, position: Option<usize>, early: bool)
    requires
        position matches Some(p) ==> p < queue_len,
        prev_track_spec(queue_len, position, early) matches PrevTrack::Play(_),
    ensures
        next_track_spec(queue_len, Some(prev_track_spec(queue_len, position, early)->Play_0))
            == NextTrack::Play(position->0),
{
}

/// Skipping forward stays in the queue: a position to play is always the
/// entry after the current one, and inside the queue.
pub proof fn next_track_in_queue(queue_len: usize, position: Option<usize>)
    ensures
        next_track_spec(queue_len, position) matches NextTrack::Play(p) ==> p < queue_len && position
            == Some((p - 1) as usize) && p >= 1,
{
}

/// Whether toggling pause does anything: only while playing or paused.
pub open spec fn can_toggle(state: PlaybackState) -> bool {
    state == PlaybackState::Playing || state == PlaybackState::Paused
}

/// The state after a toggle, from whether the backend says it is now
/// paused.
pub fn state_after_toggle(now_paused: bool) -> (s: PlaybackState)
    ensures
        s == if now_paused {
            PlaybackState::Paused
        } else {
            PlaybackState::Playing
        },
{
    if now_paused {
        PlaybackState::Paused
    } else {
        PlaybackState::Playing
    }
}

/// Whether pause can be toggled in `state`.
pub fn toggle_allowed(state: PlaybackState) -> (b: bool)
    ensures
        b == can_toggle(state),
{
    state == PlaybackState::Playing || state == PlaybackState::Paused
}

/// Whether pausing does anything: only while playing.
pub fn pause_allowed(state: PlaybackState) -> (b: bool)
    ensures
        b == (state == PlaybackState::Playing),
{
    state == PlaybackState::Playing
}

/// Whether resuming does anything: only while paused.
pub fn resume_allowed(state: PlaybackState) -> (b: bool)
    ensures
        b == (state == PlaybackState::Paused),
{
    state == PlaybackState::Paused
}

/// Whether the playback information is refreshed: while a track is
/// playing or paused and the backend runs.
pub fn refresh_needed(state: PlaybackState, backend_running: bool) -> (b: bool)
    ensures
        b == (can_toggle(state) && backend_running),
{
    toggle_allowed(state) && backend_running
}

/// Whether the queue has an entry after `position`.
pub open spec fn has_next_spec(queue_len: usize, position: Option<usize>) -> bool {
    position matches Some(p) && p + 1 < queue_len
}

/// Whether the queue has an entry after `position`.
pub fn has_next(queue_len: usize, position: Option<usize>) -> (b: bool)
    ensures
        b == has_next_spec(queue_len, position),
{
    match position {
        Some(p) => queue_len > 0 && p < queue_len - 1,
        None => false,
    }
}

/// Whether to skip to the next track before the current one ends: when a
/// next entry exists, the track is in its last two seconds (`near_end`) and
/// the backend holds fewer than two tracks (the next one is not preloaded).
pub fn advance_early(queue_len: usize, position: Option<usize>, near_end: bool, playlist_count: usize) -> (b: bool)
    ensures
        b == (has_next_spec(queue_len, position) && near_end && playlist_count < 2),
{
    has_next(queue_len, position) && near_end && playlist_count < 2
}

/// The position whose successor must be preloaded again, when the backend
/// holds a single track although the queue continues.
pub fn repreload_position(queue_len: usize, position: Option<usize>, playlist_count: usize) -> (r: Option<usize>)
    ensures
        r == if playlist_count == 1 && has_next_spec(queue_len, position) {
            position
        } else {
            None::<usize>
        },
{
    if playlist_count == 1 && has_next(queue_len, position) {
        position
    } else {
        None
    }
}

/// The new queue position after a gapless transition: when the backend
/// moved on to its second track (`backend_position` 1) and the queue has
/// an entry after the current one.
pub fn gapless_advance(queue_len: usize, position: Option<usize>, backend_position: Option<i64>) -> (r: Option<usize>)
    ensures
        r == if backend_position == Some(1i64) && has_next_spec(queue_len, position) {
            Some((position->0 + 1) as usize)
        } else {
            None::<usize>
        },
{
    if backend_position == Some(1i64) && has_next(queue_len, position) {
        match position {
            Some(p) => Some(p + 1),
            None => None,
        }
    } else {
        None
    }
}

/// The position to preload after `current`, when the queue has one.
pub fn preload_position(queue_len: usize, current: usize) -> (r: Option<usize>)
    ensures
        r == if current + 1 < queue_len {
            Some((current + 1) as usize)
        } else {
            None::<usize>
        },
{
    if queue_len > 0 && current < queue_len - 1 {
        Some(current + 1)
    } else {
        None
    }
}

/// A restored queue position is kept only when it points into the queue.
pub open spec fn restored_position_spec(saved: Option<usize>, queue_len: usize) -> Option<usize> {
    match saved {
        Some(p) => if p < queue_len {
            Some(p)
        } else {
            None
        },
        None => None,
    }
}

/// The position and selection of a restored queue: the saved position when
/// it points into the queue; the selection at that position, or at the
/// first entry, or none when the queue is empty.
pub fn restore_queue_position(saved: Option<usize>, queue_len: usize) -> (r: (Option<usize>, Option<usize>))
    ensures
        r.0 == restored_position_spec(saved, queue_len),
        r.1 == if queue_len == 0 {
            None::<usize>
        } else {
            match restored_position_spec(saved, queue_len) {
                Some(p) => Some(p),
                None => Some(0usize),
            }
        },
{
    let position = clamp_index(saved, queue_len);
    let selected = if queue_len == 0 {
        None
    } else {
        match position {
            Some(p) => Some(p),
            None => Some(0),
        }
    };
    (position, selected)
}

/// An index kept only when it is below `len`.
pub fn clamp_index(index: Option<usize>, len: usize) -> (r: Option<usize>)
    ensures
        r == restored_position_spec(index, len),
{
    match index {
        Some(i) => if i < len {
            Some(i)
        } else {
            None
        },
        None => None,
    }
}

/// A restored queue is consistent: its position and selection point into
/// the queue.
pub proof fn restored_queue_is_consistent(saved: Option<usize>, queue_len: usize)
    ensures
        restored_position_spec(saved, queue_len) matches Some(p) ==> p < queue_len,
{
}

/// The rating stored for a song after the user rated it: none for 0, the
/// rating otherwise.
pub fn stored_rating(rating: u8) -> (r: Option<u8>)
    ensures
        r == if rating == 0 {
            None::<u8>
        } else {
            Some(rating)
        },
{
    if rating == 0 {
        None
    } else {
        Some(rating)
    }
}

/// Whether a rating can be sent to the server: 0 (clear) to 5.
pub fn rating_is_valid(rating: u8) -> (b: bool)
    ensures
        b == (rating <= 5),
{
    rating <= 5
}

/// How the equalizer filter is handed to the audio backend.
#[derive(Clone, Copy, PartialEq, Eq, Structural, Debug)]
pub enum EqualizerFilter {
    /// No filter (the equalizer is off).
    Off,
    /// The FFmpeg filter chain.
    FfmpegChain,
    /// The MPV `lavfi` wrapper of the same chain.
    MpvLavfi,
}

/// The filter form for the backend, and whether the FFmpeg stream must be
/// restarted from its beginning (a live radio stream cannot seek back to
/// the current position).
pub fn equalizer_filter_choice(enabled: bool, use_ffmpeg: bool, playing_radio: bool) -> (r: (EqualizerFilter, bool))
    ensures
        r.0 == if !enabled {
            EqualizerFilter::Off
        } else if use_ffmpeg {
            EqualizerFilter::FfmpegChain
        } else {
            EqualizerFilter::MpvLavfi
        },
        r.1 == (use_ffmpeg && playing_radio),
{
    let filter = if enabled {
        if use_ffmpeg {
            EqualizerFilter::FfmpegChain
        } else {
            EqualizerFilter::MpvLavfi
        }
    } else {
        EqualizerFilter::Off
    };
    (filter, use_ffmpeg && playing_radio)
}

/// The album shown for a radio station playing now.
pub const RADIO_ALBUM: &'static str = "Internet Radio";

/// The artist shown for a radio station playing now: its home page when it
/// has one, otherwise "Radio".
pub fn radio_artist(home_page_url: Option<String>) -> (artist: String)
    ensures
        match home_page_url {
            Some(u) => artist@ == u@,
            None => artist@ == "Radio"@,
        },
{
    match home_page_url {
        Some(u) => u,
        None => String::from_str("Radio"),
    }
}

/// The playback side of the player's state: the length of the queue, the
/// entry playing, whether a track plays, and whether a radio stream plays.
#[derive(Clone, Copy, PartialEq, Eq, Structural, Debug)]
pub struct PlayerState {
    pub queue_len: usize,
    pub position: Option<usize>,
    pub state: PlaybackState,
    pub playing_radio: bool,
}

/// What happened: a request of the user, or the outcome of work the caller
/// did on the audio backend.
#[derive(Clone, Copy, PartialEq, Eq, Structural, Debug)]
pub enum PlayerEvent {
    /// Skip to the next entry.
    Next,
    /// Go back; `early` when within the first three seconds of the track.
    Prev { early: bool },
    /// The stream of the queue entry at this index is ready to play.
    PlayAt(usize),
    /// Stop playback and clear the queue.
    Stop,
    /// The user chose a radio station: it replaces the queue.
    RadioRequested,
    /// The radio stream could not be loaded.
    RadioFailed,
    /// The backend toggled pause and is now paused or not.
    Toggled { now_paused: bool },
    /// The backend paused.
    Paused,
    /// The backend resumed.
    Resumed,
    /// The backend moved on to its preloaded next track.
    GaplessAdvanced,
}

/// What the caller does on the audio backend after an event.
#[derive(Clone, Copy, PartialEq, Eq, Structural, Debug)]
pub enum PlayerAction {
    /// Nothing.
    Idle,
    /// Fetch the stream of this queue entry (then report `PlayAt`).
    Fetch(usize),
    /// Resume the backend if it reports being paused, load the stream of
    /// this queue entry, then preload the entry after it (see
    /// [`preload_position`]).
    Load(usize),
    /// Seek the current track back to its start.
    SeekToStart,
    /// Stop the backend.
    StopBackend,
    /// Stop the backend, then load the radio station's stream (and report
    /// `RadioFailed` if that fails).
    LoadRadio,
}

/// Whether the state is consistent: the entry playing lies in the queue.
pub open spec fn player_consistent(s: PlayerState) -> bool {
    s.position matches Some(p) ==> p < s.queue_len
}

/// The next state and the action for an event.
pub open spec fn player_step_spec(s: PlayerState, e: PlayerEvent) -> (PlayerState, PlayerAction) {
    match e {
        PlayerEvent::Next => match next_track_spec(s.queue_len, s.position) {
            NextTrack::Nothing => (s, PlayerAction::Idle),
            NextTrack::Play(p) => (s, PlayerAction::Fetch(p)),
            NextTrack::EndOfQueue => (
                PlayerState { state: PlaybackState::Stopped, ..s },
                PlayerAction::StopBackend,
            ),
        },
        PlayerEvent::Prev { early } => match prev_track_spec(s.queue_len, s.position, early) {
            PrevTrack::Nothing => (s, PlayerAction::Idle),
            PrevTrack::Play(p) => (s, PlayerAction::Fetch(p)),
            PrevTrack::Restart => (s, PlayerAction::SeekToStart),
        },
        PlayerEvent::PlayAt(p) => if p < s.queue_len {
            (
                PlayerState { position: Some(p), state: PlaybackState::Playing, ..s },
                PlayerAction::Load(p),
            )
        } else {
            (s, PlayerAction::Idle)
        },
        PlayerEvent::Stop => (
            PlayerState {
                queue_len: 0,
                position: None,
                state: PlaybackState::Stopped,
                playing_radio: false,
            },
            PlayerAction::StopBackend,
        ),
        PlayerEvent::RadioRequested => (
            PlayerState {
                queue_len: 0,
                position: None,
                state: PlaybackState::Playing,
                playing_radio: true,
            },
            PlayerAction::LoadRadio,
        ),
        PlayerEvent::RadioFailed => (
            PlayerState { state: PlaybackState::Stopped, playing_radio: false, ..s },
            PlayerAction::Idle,
        ),
        PlayerEvent::Toggled { now_paused } => if can_toggle(s.state) {
            (
                PlayerState {
                    state: if now_paused {
                        PlaybackState::Paused
                    } else {
                        PlaybackState::Playing
                    },
                    ..s
                },
                PlayerAction::Idle,
            )
        } else {
            (s, PlayerAction::Idle)
        },
        PlayerEvent::Paused => if s.state == PlaybackState::Playing {
            (PlayerState { state: PlaybackState::Paused, ..s }, PlayerAction::Idle)
        } else {
            (s, PlayerAction::Idle)
        },
        PlayerEvent::Resumed => if s.state == PlaybackState::Paused {
            (PlayerState { state: PlaybackState::Playing, ..s }, PlayerAction::Idle)
        } else {
            (s, PlayerAction::Idle)
        },
        PlayerEvent::GaplessAdvanced => if has_next_spec(s.queue_len, s.position) {
            (PlayerState { position: Some((s.position->0 + 1) as usize), ..s }, PlayerAction::Idle)
        } else {
            (s, PlayerAction::Idle)
        },
    }
}

/// Applies an event to the player's state and tells what to do on the
/// backend.
pub fn player_step(s: &mut PlayerState, e: PlayerEvent) -> (a: PlayerAction)
    ensures
        (*final(s), a) == player_step_spec(*old(s), e),
{
    match e {
        PlayerEvent::Next => match next_track(s.queue_len, s.position) {
            NextTrack::Nothing => PlayerAction::Idle,
            NextTrack::Play(p) => PlayerAction::Fetch(p),
            NextTrack::EndOfQueue => {
                s.state = PlaybackState::Stopped;
                PlayerAction::StopBackend
            },
        },
        PlayerEvent::Prev { early } => match prev_track(s.queue_len, s.position, early) {
            PrevTrack::Nothing => PlayerAction::Idle,
            PrevTrack::Play(p) => PlayerAction::Fetch(p),
            PrevTrack::Restart => PlayerAction::SeekToStart,
        },
        PlayerEvent::PlayAt(p) => if p < s.queue_len {
            s.position = Some(p);
            s.state = PlaybackState::Playing;
            PlayerAction::Load(p)
        } else {
            PlayerAction::Idle
        },
        PlayerEvent::Stop => {
            *s = PlayerState {
                queue_len: 0,
                position: None,
                state: PlaybackState::Stopped,
                playing_radio: false,
            };
            PlayerAction::StopBackend
        },
        PlayerEvent::RadioRequested => {
            *s = PlayerState {
                queue_len: 0,
                position: None,
                state: PlaybackState::Playing,
                playing_radio: true,
            };
            PlayerAction::LoadRadio
        },
        PlayerEvent::RadioFailed => {
            s.state = PlaybackState::Stopped;
            s.playing_radio = false;
            PlayerAction::Idle
        },
        PlayerEvent::Toggled { now_paused } => {
            if toggle_allowed(s.state) {
                s.state = state_after_toggle(now_paused);
            }
            PlayerAction::Idle
        },
        PlayerEvent::Paused => {
            if pause_allowed(s.state) {
                s.state = PlaybackState::Paused;
            }
            PlayerAction::Idle
        },
        PlayerEvent::Resumed => {
            if resume_allowed(s.state) {
                s.state = PlaybackState::Playing;
            }
            PlayerAction::Idle
        },
        PlayerEvent::GaplessAdvanced => {
            if has_next(s.queue_len, s.position) {
                match s.position {
                    Some(p) => {
                        s.position = Some(p + 1);
                    },
                    None => {},
                }
            }
            PlayerAction::Idle
        },
    }
}

/// Every event keeps the player consistent, and every entry it asks to
/// fetch or load lies in the queue.
pub proof fn player_stays_consistent(s: PlayerState, e: PlayerEvent)
    requires
        player_consistent(s),
    ensures
        player_consistent(player_step_spec(s, e).0),
        player_step_spec(s, e).1 matches PlayerAction::Fetch(p) ==> p < s.queue_len,
        player_step_spec(s, e).1 matches PlayerAction::Load(p) ==> p < s.queue_len,
{
}

/// Stopping leaves nothing: an empty queue, no entry, no radio, stopped;
/// a radio station that fails to load leaves the same; and the queue's
/// length never changes but by stopping or choosing a radio station.
pub proof fn stop_clears_player(s: PlayerState, e: PlayerEvent)
    ensures
        player_step_spec(s, PlayerEvent::Stop).0 == (PlayerState {
            queue_len: 0,
            position: None,
            state: PlaybackState::Stopped,
            playing_radio: false,
        }),
        player_step_spec(player_step_spec(s, PlayerEvent::RadioRequested).0, PlayerEvent::RadioFailed).0
            == (PlayerState {
            queue_len: 0,
            position: None,
            state: PlaybackState::Stopped,
            playing_radio: false,
        }),
        e != PlayerEvent::Stop && e != PlayerEvent::RadioRequested ==> player_step_spec(s, e).0.queue_len
            == s.queue_len,
{
}

/// What the caller read from the backend for one refresh of the playback
/// information (`None` where the query failed).
#[derive(Clone, Copy, PartialEq, Eq, Structural, Debug)]
pub struct TickReadings {
    /// Whether the backend runs.
    pub backend_running: bool,
    /// Whether the track has less than two seconds left (and some left).
    pub near_end: bool,
    /// The number of tracks the backend holds, read for the early advance.
    pub playlist_count: Option<usize>,
    /// The same number, read again for the re-preload.
    pub playlist_count_again: Option<usize>,
    /// The backend's position in its playlist.
    pub playlist_pos: Option<Option<i64>>,
    /// Whether the backend is idle.
    pub idle: Option<bool>,
}

/// How a refresh of the playback information ends.
#[derive(Clone, Copy, PartialEq, Eq, Structural, Debug)]
pub enum TickOutcome {
    /// Nothing plays, or the backend does not run: nothing to do.
    Inactive,
    /// Skip to the next track now, before the current one ends (the next
    /// one was not preloaded).
    AdvanceEarly,
    /// The backend moved on to the preloaded track: this entry now plays;
    /// drop the finished track from the backend and preload the next one.
    Gapless(usize),
    /// The track ended: skip to the next one.
    TrackEnded,
    /// Read the position, the duration and, while unknown, the audio
    /// properties.
    Refresh,
}

/// The decisions of one refresh: which entry to preload again first, if
/// any, then how the refresh ends.
#[derive(Clone, Copy, PartialEq, Eq, Structural, Debug)]
pub struct TickAction {
    pub repreload: Option<usize>,
    pub outcome: TickOutcome,
}

/// The decisions of one refresh, in their order: nothing unless playing or
/// paused with the backend running; while paused, only the refresh; while
/// playing, first the early advance (which ends the refresh), then the
/// re-preload, then the gapless advance (which ends it), then the end of
/// the track (which ends it), else the refresh.
pub open spec fn tick_spec(s: PlayerState, r: TickReadings) -> TickAction {
    if !can_toggle(s.state) || !r.backend_running {
        TickAction { repreload: None, outcome: TickOutcome::Inactive }
    } else if s.state != PlaybackState::Playing {
        TickAction { repreload: None, outcome: TickOutcome::Refresh }
    } else if has_next_spec(s.queue_len, s.position) && r.near_end && (r.playlist_count matches Some(c)
        && c < 2) {
        TickAction { repreload: None, outcome: TickOutcome::AdvanceEarly }
    } else {
        let repreload = if r.playlist_count_again == Some(1usize) && has_next_spec(s.queue_len, s.position) {
            s.position
        } else {
            None
        };
        if r.playlist_pos == Some(Some(1i64)) && has_next_spec(s.queue_len, s.position) {
            TickAction { repreload, outcome: TickOutcome::Gapless((s.position->0 + 1) as usize) }
        } else if r.idle == Some(true) {
            TickAction { repreload, outcome: TickOutcome::TrackEnded }
        } else {
            TickAction { repreload, outcome: TickOutcome::Refresh }
        }
    }
}

/// Decides one refresh of the playback information.
pub fn playback_tick(s: PlayerState, r: TickReadings) -> (a: TickAction)
    ensures
        a == tick_spec(s, r),
{
    if !refresh_needed(s.state, r.backend_running) {
        return TickAction { repreload: None, outcome: TickOutcome::Inactive };
    }
    if s.state != PlaybackState::Playing {
        return TickAction { repreload: None, outcome: TickOutcome::Refresh };
    }
    let early = match r.playlist_count {
        Some(c) => advance_early(s.queue_len, s.position, r.near_end, c),
        None => false,
    };
    if early {
        return TickAction { repreload: None, outcome: TickOutcome::AdvanceEarly };
    }
    let repreload = match r.playlist_count_again {
        Some(c) => repreload_position(s.queue_len, s.position, c),
        None => None,
    };
    let backend_pos = match r.playlist_pos {
        Some(p) => p,
        None => None,
    };
    match gapless_advance(s.queue_len, s.position, backend_pos) {
        Some(next) => TickAction { repreload, outcome: TickOutcome::Gapless(next) },
        None => if r.idle == Some(true) {
            TickAction { repreload, outcome: TickOutcome::TrackEnded }
        } else {
            TickAction { repreload, outcome: TickOutcome::Refresh }
        },
    }
}

/// A gapless advance always moves to the entry after the current one,
/// inside the queue, and it is what [`PlayerEvent::GaplessAdvanced`] does.
pub proof fn gapless_tick_matches_step(s: PlayerState, r: TickReadings)
    requires
        player_consistent(s),
        tick_spec(s, r).outcome matches TickOutcome::Gapless(_),
    ensures
        tick_spec(s, r).outcome->Gapless_0 < s.queue_len,
        player_step_spec(s, PlayerEvent::GaplessAdvanced).0.position == Some(
            tick_spec(s, r).outcome->Gapless_0,
        ),
{
}

/// Pausing and resuming are recorded and undo each other: when a track
/// plays, the backend's pause leaves the player paused with the same
/// queue, entry and radio flag, and its resume then brings back exactly
/// the state before; when paused, a resume plays again and a pause then
/// brings back the paused state. Neither asks anything of the backend.
pub proof fn pause_resume_undo(s: PlayerState)
    ensures
        s.state == PlaybackState::Playing ==> player_step_spec(s, PlayerEvent::Paused) == (
            PlayerState { state: PlaybackState::Paused, ..s },
            PlayerAction::Idle,
        ),
        s.state == PlaybackState::Playing ==> player_step_spec(
            player_step_spec(s, PlayerEvent::Paused).0,
            PlayerEvent::Resumed,
        ).0 == s,
        s.state == PlaybackState::Paused ==> player_step_spec(s, PlayerEvent::Resumed) == (
            PlayerState { state: PlaybackState::Playing, ..s },
            PlayerAction::Idle,
        ),
        s.state == PlaybackState::Paused ==> player_step_spec(
            player_step_spec(s, PlayerEvent::Resumed).0,
            PlayerEvent::Paused,
        ).0 == s,
        s.state == PlaybackState::Stopped ==> player_step_spec(s, PlayerEvent::Paused).0 == s
            && player_step_spec(s, PlayerEvent::Resumed).0 == s,
{
}

/// A toggle records what the backend reports: when playing or paused, the
/// player is paused exactly when the backend says it now is, with the same
/// queue, entry and radio flag; when stopped nothing changes.
pub proof fn toggle_follows_backend(s: PlayerState, now_paused: bool)
    ensures
        s.state != PlaybackState::Stopped ==> player_step_spec(s, PlayerEvent::Toggled { now_paused }).0 == (
        PlayerState {
            state: if now_paused {
                PlaybackState::Paused
            } else {
                PlaybackState::Playing
            },
            ..s
        }),
        s.state == PlaybackState::Stopped ==> player_step_spec(s, PlayerEvent::Toggled { now_paused }).0 == s,
{
}

/// Moving through the queue, event by event, for a player on entry `p` of
/// a queue of `n` entries:
/// - Next asks to fetch entry `p + 1` and changes nothing yet; on the last
///   entry it stops the player (queue and entry kept) and the backend.
/// - Prev within the first seconds, or on the first entry, seeks back to
///   the start; later it asks to fetch entry `p - 1`. Neither changes the
///   state.
/// - A ready stream for entry `q` of the queue makes `q` the entry playing
///   and asks to load it; one outside the queue changes nothing.
/// - A gapless advance moves to entry `p + 1` when there is one.
/// - Choosing a radio station empties the queue, plays, marks the radio and
///   asks to load the station.
/// An empty queue makes Next and Prev do nothing.
pub proof fn queue_navigation(s: PlayerState, p: usize, q: usize, early: bool)
    requires
        s.position == Some(p),
        p < s.queue_len,
    ensures
        p + 1 < s.queue_len ==> player_step_spec(s, PlayerEvent::Next) == (s, PlayerAction::Fetch(
            (p + 1) as usize,
        )),
        p + 1 == s.queue_len ==> player_step_spec(s, PlayerEvent::Next) == (
            PlayerState { state: PlaybackState::Stopped, ..s },
            PlayerAction::StopBackend,
        ),
        (early || p == 0) ==> player_step_spec(s, PlayerEvent::Prev { early }) == (
            s,
            PlayerAction::SeekToStart,
        ),
        (!early && p > 0) ==> player_step_spec(s, PlayerEvent::Prev { early }) == (
            s,
            PlayerAction::Fetch((p - 1) as usize),
        ),
        q < s.queue_len ==> player_step_spec(s, PlayerEvent::PlayAt(q)) == (
            PlayerState { position: Some(q), state: PlaybackState::Playing, ..s },
            PlayerAction::Load(q),
        ),
        q >= s.queue_len ==> player_step_spec(s, PlayerEvent::PlayAt(q)) == (s, PlayerAction::Idle),
        p + 1 < s.queue_len ==> player_step_spec(s, PlayerEvent::GaplessAdvanced) == (
            PlayerState { position: Some((p + 1) as usize), ..s },
            PlayerAction::Idle,
        ),
        player_step_spec(s, PlayerEvent::RadioRequested) == (
            PlayerState {
                queue_len: 0,
                position: None,
                state: PlaybackState::Playing,
                playing_radio: true,
            },
            PlayerAction::LoadRadio,
        ),
        player_step_spec(PlayerState { queue_len: 0, ..s }, PlayerEvent::Next) == (
            PlayerState { queue_len: 0, ..s },
            PlayerAction::Idle,
        ),
        player_step_spec(PlayerState { queue_len: 0, ..s }, PlayerEvent::Prev { early }) == (
            PlayerState { queue_len: 0, ..s },
            PlayerAction::Idle,
        ),
{
}

/// The refresh decides in order. Stopped, or with the backend down,
/// nothing happens; paused, it only refreshes, whatever the backend says.
/// Playing entry `p` with an entry after it: near the end with fewer than
/// two tracks in the backend it advances early, before anything else; a
/// backend that reports one track has the current entry preloaded again; a
/// backend on its second track means a gapless advance to `p + 1`, even if
/// it also reports idle; otherwise an idle backend ends the track. On the
/// last entry there is no early or gapless advance and no preload.
pub proof fn refresh_order(s: PlayerState, r: TickReadings, p: usize)
    requires
        s.position == Some(p),
        p < s.queue_len,
    ensures
        (s.state == PlaybackState::Stopped || !r.backend_running) ==> tick_spec(s, r) == (TickAction {
            repreload: None,
            outcome: TickOutcome::Inactive,
        }),
        (s.state == PlaybackState::Paused && r.backend_running) ==> tick_spec(s, r) == (TickAction {
            repreload: None,
            outcome: TickOutcome::Refresh,
        }),
        (s.state == PlaybackState::Playing && r.backend_running && p + 1 < s.queue_len && r.near_end
            && r.playlist_count == Some(1usize)) ==> tick_spec(s, r) == (TickAction {
            repreload: None,
            outcome: TickOutcome::AdvanceEarly,
        }),
        (s.state == PlaybackState::Playing && r.backend_running && p + 1 < s.queue_len && !r.near_end
            && r.playlist_count_again == Some(1usize)) ==> tick_spec(s, r).repreload == Some(p),
        (s.state == PlaybackState::Playing && r.backend_running && p + 1 < s.queue_len && !r.near_end
            && r.playlist_pos == Some(Some(1i64))) ==> tick_spec(s, r).outcome == TickOutcome::Gapless(
            (p + 1) as usize,
        ),
        (s.state == PlaybackState::Playing && r.backend_running && !r.near_end && r.playlist_pos
            == Some(Some(0i64)) && r.idle == Some(true)) ==> tick_spec(s, r).outcome
            == TickOutcome::TrackEnded,
        (s.state == PlaybackState::Playing && r.backend_running && p + 1 == s.queue_len) ==> {
            &&& tick_spec(s, r).repreload is None
            &&& tick_spec(s, r).outcome != TickOutcome::AdvanceEarly
            &&& !(tick_spec(s, r).outcome is Gapless)
        },
{
}

} // verus!
