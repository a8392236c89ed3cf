use ferrosonic::app::schedule::{equalizer_deadline, equalizer_due, is_due, tick_millis};
use ferrosonic::app::cava::{cava_height, generate_cava_config, group_cells, CavaCell, CavaColor};
use ferrosonic::app::playback::{
    advance_early, clamp_index, equalizer_filter_choice, gapless_advance, has_next, next_track,
    pause_allowed, preload_position, prev_track, radio_artist, rating_is_valid, refresh_needed,
    repreload_position, restore_queue_position, resume_allowed, state_after_toggle, stored_rating,
    toggle_allowed, EqualizerFilter, NextTrack, PlaybackState, PrevTrack, RADIO_ALBUM,
};
use ferrosonic::app::session::{
    cap_rating, restore_ui_selection, should_persist, sync_now_playing_rating, sync_song_rating,
    RatedSong, UiListLengths, UiSelection,
};
use ferrosonic::app::startup::{
    cava_enabled_at_start, first_selection, mpv_start_needed, startup_plan, StartupNotice,
};

#[test]
fn next_track_moves_forward_or_ends() {
    assert_eq!(next_track(0, None), NextTrack::Nothing);
    assert_eq!(next_track(3, Some(0)), NextTrack::Play(1));
    assert_eq!(next_track(3, Some(2)), NextTrack::EndOfQueue);
    assert_eq!(next_track(3, None), NextTrack::EndOfQueue);
}

#[test]
fn prev_track_restarts_early_and_goes_back_later() {
    assert_eq!(prev_track(0, Some(1), false), PrevTrack::Nothing);
    assert_eq!(prev_track(3, Some(2), true), PrevTrack::Restart);
    assert_eq!(prev_track(3, Some(2), false), PrevTrack::Play(1));
    assert_eq!(prev_track(3, Some(0), false), PrevTrack::Restart);
    assert_eq!(prev_track(3, None, false), PrevTrack::Restart);
}

#[test]
fn back_then_forward_returns_to_the_same_song() {
    if let PrevTrack::Play(p) = prev_track(5, Some(3), false) {
        assert_eq!(next_track(5, Some(p)), NextTrack::Play(3));
    } else {
        panic!("expected to go back");
    }
}

#[test]
fn pause_controls_depend_on_state() {
    assert!(toggle_allowed(PlaybackState::Playing));
    assert!(toggle_allowed(PlaybackState::Paused));
    assert!(!toggle_allowed(PlaybackState::Stopped));
    assert!(pause_allowed(PlaybackState::Playing));
    assert!(!pause_allowed(PlaybackState::Paused));
    assert!(resume_allowed(PlaybackState::Paused));
    assert!(!resume_allowed(PlaybackState::Stopped));
    assert_eq!(state_after_toggle(true), PlaybackState::Paused);
    assert_eq!(state_after_toggle(false), PlaybackState::Playing);
    assert!(refresh_needed(PlaybackState::Paused, true));
    assert!(!refresh_needed(PlaybackState::Playing, false));
    assert!(!refresh_needed(PlaybackState::Stopped, true));
}

#[test]
fn gapless_bookkeeping() {
    assert!(has_next(3, Some(1)));
    assert!(!has_next(3, Some(2)));
    assert!(!has_next(0, None));
    assert!(advance_early(3, Some(0), true, 1));
    assert!(!advance_early(3, Some(0), true, 2));
    assert!(!advance_early(3, Some(0), false, 1));
    assert!(!advance_early(3, Some(2), true, 0));
    assert_eq!(repreload_position(3, Some(1), 1), Some(1));
    assert_eq!(repreload_position(3, Some(1), 2), None);
    assert_eq!(repreload_position(3, Some(2), 1), None);
    assert_eq!(gapless_advance(3, Some(0), Some(1)), Some(1));
    assert_eq!(gapless_advance(3, Some(2), Some(1)), None);
    assert_eq!(gapless_advance(3, Some(0), Some(0)), None);
    assert_eq!(gapless_advance(3, Some(0), None), None);
    assert_eq!(preload_position(3, 1), Some(2));
    assert_eq!(preload_position(3, 2), None);
    assert_eq!(preload_position(0, 0), None);
}

#[test]
fn restored_queue_position_is_checked() {
    assert_eq!(restore_queue_position(Some(2), 5), (Some(2), Some(2)));
    assert_eq!(restore_queue_position(Some(7), 5), (None, Some(0)));
    assert_eq!(restore_queue_position(None, 5), (None, Some(0)));
    assert_eq!(restore_queue_position(Some(0), 0), (None, None));
    assert_eq!(clamp_index(Some(4), 4), None);
    assert_eq!(clamp_index(Some(3), 4), Some(3));
}

#[test]
fn ratings() {
    assert_eq!(stored_rating(0), None);
    assert_eq!(stored_rating(4), Some(4));
    assert!(rating_is_valid(0) && rating_is_valid(5));
    assert!(!rating_is_valid(6));
    assert_eq!(cap_rating(3), 3);
    assert_eq!(cap_rating(200), 5);
}

#[test]
fn equalizer_filter_forms() {
    assert_eq!(equalizer_filter_choice(false, true, true), (EqualizerFilter::Off, true));
    assert_eq!(equalizer_filter_choice(true, true, false), (EqualizerFilter::FfmpegChain, false));
    assert_eq!(equalizer_filter_choice(true, false, true), (EqualizerFilter::MpvLavfi, false));
}

#[test]
fn radio_pseudo_song() {
    assert_eq!(radio_artist(Some("https://radio.example".to_string())), "https://radio.example");
    assert_eq!(radio_artist(None), "Radio");
    assert_eq!(RADIO_ALBUM, "Internet Radio");
}

fn saved() -> UiSelection {
    UiSelection {
        artists_selected_index: Some(10),
        artists_selected_song: Some(1),
        artists_focus: 3,
        queue_selected: Some(4),
        queue_min_playback_rating: 9,
        playlists_selected_playlist: Some(0),
        playlists_selected_song: None,
        playlists_focus: 0,
        radio_selected: Some(2),
    }
}

fn lengths() -> UiListLengths {
    UiListLengths { artist_tree: 5, artist_songs: 2, queue: 4, playlists: 1, playlist_songs: 0, stations: 3 }
}

#[test]
fn ui_selection_is_restored_within_lists() {
    let r = restore_ui_selection(saved(), lengths());
    assert_eq!(r.artists_selected_index, None);
    assert_eq!(r.artists_selected_song, Some(1));
    assert_eq!(r.artists_focus, 1);
    assert_eq!(r.queue_selected, None);
    assert_eq!(r.queue_min_playback_rating, 5);
    assert_eq!(r.playlists_selected_playlist, Some(0));
    assert_eq!(r.playlists_selected_song, None);
    assert_eq!(r.playlists_focus, 0);
    assert_eq!(r.radio_selected, Some(2));
    assert_eq!(restore_ui_selection(r, lengths()), r);
}

#[test]
fn snapshots_are_written_only_when_changed() {
    assert!(should_persist(None, "{}"));
    assert!(!should_persist(Some("{\"a\":1}"), "{\"a\":1}"));
    assert!(should_persist(Some("{\"a\":1}"), "{\"a\":2}"));
}

#[test]
fn ratings_are_synced_by_song_id() {
    let mut songs = vec![
        RatedSong { id: "a".to_string(), user_rating: Some(2) },
        RatedSong { id: "b".to_string(), user_rating: None },
        RatedSong { id: "a".to_string(), user_rating: None },
    ];
    sync_song_rating(&mut songs, "a", 4);
    assert_eq!(songs[0].user_rating, Some(4));
    assert_eq!(songs[1].user_rating, None);
    assert_eq!(songs[2].user_rating, Some(4));
    assert_eq!(songs[2].id, "a");
    sync_song_rating(&mut songs, "a", 0);
    assert_eq!(songs[0].user_rating, None);
    let mut now = Some(RatedSong { id: "b".to_string(), user_rating: None });
    sync_now_playing_rating(&mut now, "b", 3);
    assert_eq!(now.as_ref().unwrap().user_rating, Some(3));
    sync_now_playing_rating(&mut now, "c", 1);
    assert_eq!(now.as_ref().unwrap().user_rating, Some(3));
    let mut nothing: Option<RatedSong> = None;
    sync_now_playing_rating(&mut nothing, "b", 3);
    assert!(nothing.is_none());
}

#[test]
fn backend_startup_outcomes() {
    let p = startup_plan(true, true, true, false);
    assert!(p.use_ffmpeg);
    assert_eq!(p.notice, StartupNotice::Quiet);
    assert!(!mpv_start_needed(true, true, true));
    let p = startup_plan(true, true, false, true);
    assert!(!p.use_ffmpeg);
    assert_eq!(p.notice, StartupNotice::FfmpegFailed);
    let p = startup_plan(true, false, false, true);
    assert!(!p.use_ffmpeg);
    assert!(p.switch_setting_to_mpv);
    assert_eq!(p.notice, StartupNotice::FfmpegMissing);
    let p = startup_plan(true, false, false, false);
    assert!(p.use_ffmpeg);
    let p = startup_plan(false, false, false, false);
    assert!(!p.use_ffmpeg);
    assert_eq!(p.notice, StartupNotice::MpvFailed);
    assert!(mpv_start_needed(false, true, true));
    assert!(cava_enabled_at_start(true, true));
    assert!(!cava_enabled_at_start(true, false));
    assert_eq!(first_selection(0), None);
    assert_eq!(first_selection(7), Some(0));
}

fn cell(s: &str, fg: CavaColor) -> CavaCell {
    CavaCell { contents: s.to_string(), fg, bg: CavaColor::Default }
}

#[test]
fn cava_cells_group_into_color_runs() {
    let red = CavaColor::Rgb(255, 0, 0);
    let cells = vec![
        cell("▁", red),
        cell("", red),
        cell("█", CavaColor::Indexed(3)),
        cell("a", CavaColor::Indexed(3)),
        cell("b", red),
    ];
    let row = group_cells(&cells);
    assert_eq!(row.spans.len(), 3);
    assert_eq!(row.spans[0].text, "▁ ");
    assert_eq!(row.spans[0].fg, red);
    assert_eq!(row.spans[1].text, "█a");
    assert_eq!(row.spans[1].fg, CavaColor::Indexed(3));
    assert_eq!(row.spans[2].text, "b");
    assert_eq!(group_cells(&[]).spans.len(), 0);
}

#[test]
fn cava_height_is_a_percentage_with_a_minimum() {
    assert_eq!(cava_height(50, 40), 20);
    assert_eq!(cava_height(10, 10), 4);
    assert_eq!(cava_height(0, 80), 4);
    assert_eq!(cava_height(99, 33), 32);
}

#[test]
fn cava_config_holds_the_gradients() {
    let g: [String; 8] = std::array::from_fn(|i| format!("#00000{}", i));
    let h: [String; 8] = std::array::from_fn(|i| format!("#11111{}", i));
    let config = generate_cava_config(&g, &h);
    assert!(config.starts_with("[general]\nframerate = 60\n"));
    assert!(config.contains("method = noncurses\n"));
    assert!(config.contains("gradient_color_1 = '#000000'\ngradient_color_2 = '#000001'"));
    assert!(config.contains("horizontal_gradient_color_8 = '#111117'\n\n[smoothing]"));
    assert!(config.ends_with("noise_reduction = 11\n"));
}

#[test]
fn event_loop_timing() {
    assert_eq!(tick_millis(true), 16);
    assert_eq!(tick_millis(false), 100);
    assert!(is_due(1000, 1500, 500));
    assert!(!is_due(1000, 1499, 500));
    assert!(!is_due(2000, 1000, 500));
    let d = equalizer_deadline(5000);
    assert_eq!(d, 6000);
    assert_eq!(equalizer_deadline(u64::MAX - 10), u64::MAX);
    assert_eq!(equalizer_due(Some(d), 5999), (false, Some(6000)));
    let (apply, left) = equalizer_due(Some(d), 6000);
    assert!(apply);
    assert_eq!(left, None);
    assert_eq!(equalizer_due(left, 9000), (false, None));
}

#[test]
fn cava_spans_spell_the_row_and_alternate_colors() {
    let a = CavaColor::Indexed(1);
    let b = CavaColor::Indexed(2);
    let cells = vec![cell("x", a), cell("", a), cell("y", b), cell("z", a), cell("", a)];
    let row = group_cells(&cells);
    let text: String = row.spans.iter().map(|s| s.text.as_str()).collect();
    assert_eq!(text, "x yz ");
    for pair in row.spans.windows(2) {
        assert!(pair[0].fg != pair[1].fg || pair[0].bg != pair[1].bg);
    }
    assert!(row.spans.iter().all(|s| !s.text.is_empty()));
}
