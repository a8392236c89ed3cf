use ferrosonic::app::cava::{cava_screen_after, terminal_screen, CavaColor, CavaTerminal};
use ferrosonic::app::now_playing::{
    apply_audio_properties, clear_now_playing, continue_gapless, needs_audio_properties,
    play_queue_position, play_radio_station, start_radio, start_song, stop_playback, AudioProps,
    NowPlaying, SongInfo,
};
use ferrosonic::app::playback::{
    playback_tick, PlaybackState, PlayerAction, PlayerState, TickOutcome, TickReadings,
};

fn song(id: &str) -> SongInfo {
    SongInfo {
        id: id.to_string(),
        title: format!("Song {}", id),
        album: None,
        artist: None,
        duration: Some(200),
    }
}

fn empty() -> NowPlaying {
    NowPlaying { song: None, sample_rate: None, bit_depth: None, format: None, channels: None }
}

fn props(rate: Option<u32>) -> AudioProps {
    AudioProps {
        sample_rate: rate,
        bit_depth: Some(24),
        format: Some("flac".to_string()),
        channels: Some("Stereo".to_string()),
    }
}

#[test]
fn audio_properties_are_taken_once_a_rate_is_known() {
    let mut np = empty();
    start_song(&mut np, song("s1"));
    assert!(needs_audio_properties(&np));
    apply_audio_properties(&mut np, props(None));
    assert_eq!(np.sample_rate, None);
    assert_eq!(np.bit_depth, None);
    apply_audio_properties(&mut np, props(Some(96000)));
    assert_eq!(np.sample_rate, Some(96000));
    assert_eq!(np.bit_depth, Some(24));
    assert_eq!(np.format.as_deref(), Some("flac"));
    assert_eq!(np.channels.as_deref(), Some("Stereo"));
    assert_eq!(np.song.as_ref().map(|s| s.id.as_str()), Some("s1"));
    assert!(!needs_audio_properties(&np));
}

#[test]
fn a_new_song_forgets_the_properties_and_gapless_keeps_them() {
    let mut np = empty();
    start_song(&mut np, song("s1"));
    apply_audio_properties(&mut np, props(Some(44100)));
    continue_gapless(&mut np, song("s2"));
    assert_eq!(np.song.as_ref().map(|s| s.id.as_str()), Some("s2"));
    assert_eq!(np.sample_rate, Some(44100));
    start_song(&mut np, song("s3"));
    assert_eq!(np.song.as_ref().map(|s| s.id.as_str()), Some("s3"));
    assert_eq!(np.sample_rate, None);
    assert_eq!(np.format, None);
    clear_now_playing(&mut np);
    assert!(np.song.is_none());
    assert!(np.channels.is_none());
}

#[test]
fn radio_station_is_shown_as_a_song() {
    let mut np = empty();
    apply_audio_properties(&mut np, props(Some(48000)));
    start_radio(&mut np, "st1", "Jazz FM", None);
    let s = np.song.clone().unwrap();
    assert_eq!(s.id, "st1");
    assert_eq!(s.title, "Jazz FM");
    assert_eq!(s.album.as_deref(), Some("Internet Radio"));
    assert_eq!(s.artist.as_deref(), Some("Radio"));
    assert_eq!(s.duration, None);
    assert_eq!(np.sample_rate, None);
    start_radio(&mut np, "st2", "Rock", Some("https://rock.example".to_string()));
    assert_eq!(np.song.unwrap().artist.as_deref(), Some("https://rock.example"));
}

fn playing(queue_len: usize, position: Option<usize>) -> PlayerState {
    PlayerState { queue_len, position, state: PlaybackState::Playing, playing_radio: false }
}

fn quiet() -> TickReadings {
    TickReadings {
        backend_running: true,
        near_end: false,
        playlist_count: Some(2),
        playlist_count_again: Some(2),
        playlist_pos: Some(Some(0)),
        idle: Some(false),
    }
}

#[test]
fn tick_does_nothing_when_stopped_or_backend_down() {
    let stopped = PlayerState { state: PlaybackState::Stopped, ..playing(3, Some(0)) };
    assert_eq!(playback_tick(stopped, quiet()).outcome, TickOutcome::Inactive);
    let down = TickReadings { backend_running: false, ..quiet() };
    assert_eq!(playback_tick(playing(3, Some(0)), down).outcome, TickOutcome::Inactive);
    let paused = PlayerState { state: PlaybackState::Paused, ..playing(3, Some(0)) };
    let ended = TickReadings { idle: Some(true), ..quiet() };
    let a = playback_tick(paused, ended);
    assert_eq!(a.outcome, TickOutcome::Refresh);
    assert_eq!(a.repreload, None);
}

#[test]
fn tick_advances_early_before_anything_else() {
    let r = TickReadings { near_end: true, playlist_count: Some(1), playlist_count_again: Some(1), idle: Some(true), ..quiet() };
    let a = playback_tick(playing(3, Some(0)), r);
    assert_eq!(a.outcome, TickOutcome::AdvanceEarly);
    assert_eq!(a.repreload, None);
    // On the last entry there is nothing to advance to.
    let a = playback_tick(playing(3, Some(2)), r);
    assert_eq!(a.outcome, TickOutcome::TrackEnded);
}

#[test]
fn tick_repreloads_then_goes_on() {
    let r = TickReadings { playlist_count_again: Some(1), ..quiet() };
    let a = playback_tick(playing(3, Some(1)), r);
    assert_eq!(a.repreload, Some(1));
    assert_eq!(a.outcome, TickOutcome::Refresh);
}

#[test]
fn tick_follows_a_gapless_advance_before_the_end() {
    let r = TickReadings { playlist_pos: Some(Some(1)), idle: Some(true), ..quiet() };
    let a = playback_tick(playing(3, Some(0)), r);
    assert_eq!(a.outcome, TickOutcome::Gapless(1));
    let ended = TickReadings { idle: Some(true), ..quiet() };
    assert_eq!(playback_tick(playing(3, Some(0)), ended).outcome, TickOutcome::TrackEnded);
    let unknown = TickReadings { idle: None, ..quiet() };
    assert_eq!(playback_tick(playing(3, Some(0)), unknown).outcome, TickOutcome::Refresh);
}

#[test]
fn cava_output_is_drawn_into_the_terminal() {
    let mut term = CavaTerminal::new(2, 3);
    let blank = terminal_screen(&term);
    assert_eq!(blank.len(), 2);
    assert_eq!(blank[0].spans.len(), 1);
    assert_eq!(blank[0].spans[0].text, "   ");
    assert!(cava_screen_after(&mut term, b"").is_none());
    let rows = cava_screen_after(&mut term, b"ab").unwrap();
    assert_eq!(rows.len(), 2);
    assert_eq!(rows[0].spans.len(), 1);
    assert_eq!(rows[0].spans[0].text, "ab ");
    assert_eq!(rows[0].spans[0].fg, CavaColor::Default);
    assert_eq!(rows[1].spans[0].text, "   ");
    let rows = cava_screen_after(&mut term, b"\x1b[31mc").unwrap();
    assert_eq!(rows[0].spans.len(), 2);
    assert_eq!(rows[0].spans[0].text, "ab");
    assert_eq!(rows[0].spans[1].text, "c");
    assert_eq!(rows[0].spans[1].fg, CavaColor::Indexed(1));
}

#[test]
fn stopping_clears_queue_and_song() {
    let mut s = playing(4, Some(2));
    let mut np = empty();
    start_song(&mut np, song("s1"));
    apply_audio_properties(&mut np, props(Some(44100)));
    assert_eq!(stop_playback(&mut s, &mut np), PlayerAction::StopBackend);
    assert_eq!(s, PlayerState { queue_len: 0, position: None, state: PlaybackState::Stopped, playing_radio: false });
    assert!(np.song.is_none());
    assert!(np.sample_rate.is_none() && np.bit_depth.is_none() && np.format.is_none() && np.channels.is_none());
}

#[test]
fn playing_a_queue_entry_shows_it() {
    let mut s = PlayerState { state: PlaybackState::Paused, ..playing(3, Some(0)) };
    let mut np = empty();
    start_song(&mut np, song("s0"));
    apply_audio_properties(&mut np, props(Some(48000)));
    assert_eq!(play_queue_position(&mut s, &mut np, 2, song("s2")), PlayerAction::Load(2));
    assert_eq!(s.position, Some(2));
    assert_eq!(s.state, PlaybackState::Playing);
    assert_eq!(np.song.as_ref().map(|x| x.id.as_str()), Some("s2"));
    assert_eq!(np.sample_rate, None);
    assert_eq!(play_queue_position(&mut s, &mut np, 5, song("s5")), PlayerAction::Idle);
    assert_eq!(s.position, Some(2));
    assert_eq!(np.song.as_ref().map(|x| x.id.as_str()), Some("s2"));
}

#[test]
fn radio_station_plays_or_stops() {
    let mut s = playing(3, Some(1));
    let mut np = empty();
    play_radio_station(&mut s, &mut np, "st", "Jazz", None, true);
    assert_eq!(s, PlayerState { queue_len: 0, position: None, state: PlaybackState::Playing, playing_radio: true });
    let shown = np.song.clone().unwrap();
    assert_eq!(shown.title, "Jazz");
    assert_eq!(shown.album.as_deref(), Some("Internet Radio"));
    let mut s = playing(3, Some(1));
    play_radio_station(&mut s, &mut np, "st", "Jazz", None, false);
    assert_eq!(s, PlayerState { queue_len: 0, position: None, state: PlaybackState::Stopped, playing_radio: false });
    assert!(np.song.is_none());
}
