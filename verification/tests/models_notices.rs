use ferrosonic::app::equalizer::EqNotice;
use ferrosonic::app::notices::{
    eq_notice_text, failure_text, radio_playing_text, rating_notice_text, settings_notice_text,
    startup_notice_text, RATING_OUT_OF_RANGE, SERVER_NOT_CONFIGURED,
};
use ferrosonic::app::playback::{player_step, PlaybackState, PlayerAction, PlayerEvent, PlayerState};
use ferrosonic::app::settings::{AudioBackend, Direction, SettingsChange};
use ferrosonic::app::startup::StartupNotice;
use ferrosonic::audio::pipewire::{PipeWireController, RateCommand};
use ferrosonic::subsonic::models::{
    album_from_detail, artist_from_detail, artists_of_index, playlist_from_detail, Album,
};

fn album(id: &str) -> Album {
    Album {
        id: id.to_string(),
        name: format!("Album {}", id),
        artist: None,
        artist_id: None,
        cover_art: Some("c".to_string()),
        song_count: None,
        duration: None,
        year: None,
        genre: None,
    }
}

#[test]
fn artist_detail_counts_its_albums() {
    let (artist, albums) = artist_from_detail("ar1".to_string(), "Band".to_string(), vec![album("a"), album("b")]);
    assert_eq!(artist.id, "ar1");
    assert_eq!(artist.name, "Band");
    assert_eq!(artist.album_count, Some(2));
    assert_eq!(artist.cover_art, None);
    assert_eq!(albums.iter().map(|a| a.id.as_str()).collect::<Vec<_>>(), vec!["a", "b"]);
}

#[test]
fn album_and_playlist_details() {
    let (a, songs) = album_from_detail(
        "al".to_string(),
        "Name".to_string(),
        Some("Artist".to_string()),
        Some("ar".to_string()),
        Some(1999),
        vec![1, 2, 3],
    );
    assert_eq!(a.song_count, Some(3));
    assert_eq!(a.year, Some(1999));
    assert_eq!(a.artist.as_deref(), Some("Artist"));
    assert!(a.cover_art.is_none() && a.duration.is_none() && a.genre.is_none());
    assert_eq!(songs, vec![1, 2, 3]);
    let (p, entries) = playlist_from_detail("p".to_string(), "Mix".to_string(), Some("me".to_string()), Some(7), Some(300), vec!['x']);
    assert_eq!(p.song_count, Some(7));
    assert_eq!(p.duration, Some(300));
    assert!(p.cover_art.is_none() && p.public.is_none() && p.comment.is_none());
    assert_eq!(entries, vec!['x']);
}

#[test]
fn artist_index_is_flattened_in_order() {
    assert_eq!(artists_of_index(vec![vec![1, 2], vec![], vec![3]]), vec![1, 2, 3]);
    assert_eq!(artists_of_index(Vec::<Vec<u8>>::new()), Vec::<u8>::new());
}

#[test]
fn forced_rate_follows_the_last_successful_command() {
    let mut c = PipeWireController::new(Some(48000));
    // (command, succeeded)
    let history = [
        (RateCommand::Force(44100), true),
        (RateCommand::Force(96000), false),
        (RateCommand::Clear, true),
        (RateCommand::Force(88200), true),
        (RateCommand::Clear, false),
    ];
    for (cmd, ok) in history {
        if ok {
            c.command_succeeded(cmd);
        }
    }
    assert_eq!(c.get_current_rate(), Some(88200));
    assert_eq!(PipeWireController::new(None).get_current_rate(), None);
}

#[test]
fn equalizer_notices() {
    assert_eq!(eq_notice_text(EqNotice::Status, true, "loudness", ""), ("EQ: On (loudness)".to_string(), false));
    assert_eq!(eq_notice_text(EqNotice::CannotDeleteLast, false, "x", ""), ("Cannot delete the last preset".to_string(), true));
    assert_eq!(eq_notice_text(EqNotice::DuplicateName, false, "x", "Pop"), ("A preset named \"Pop\" already exists".to_string(), true));
    assert_eq!(eq_notice_text(EqNotice::Renamed, false, "old", "new").0, "Renamed preset: old -> new");
    assert_eq!(eq_notice_text(EqNotice::RenameCanceled, false, "", "").0, "EQ preset rename canceled");
    assert_eq!(eq_notice_text(EqNotice::EmptyName, false, "", ""), ("Preset name cannot be empty".to_string(), true));
    assert_eq!(eq_notice_text(EqNotice::PresetSaved, false, "a", "").0, "EQ preset saved: a");
    assert!(eq_notice_text(EqNotice::EditingHelp, false, "a", "").0.starts_with("Editing \"a\": ↑↓ band"));
    assert!(eq_notice_text(EqNotice::RenameHelp, false, "", "").0.starts_with("Rename preset:"));
    assert_eq!(eq_notice_text(EqNotice::BandsReset, false, "", "").0, "All bands reset to 0 dB");
    assert_eq!(eq_notice_text(EqNotice::Created, false, "a", "Custom 1").0, "Created preset: Custom 1");
    assert_eq!(eq_notice_text(EqNotice::Deleted, false, "gone", "").0, "Deleted preset: gone");
}

#[test]
fn settings_notices() {
    assert_eq!(settings_notice_text(SettingsChange::Theme(Direction::Next), "Nord", "", ""), "Theme: Nord");
    assert_eq!(settings_notice_text(SettingsChange::Cava(false), "", "", ""), "Cava: Off");
    assert_eq!(settings_notice_text(SettingsChange::CavaSize(45), "", "", ""), "Cava Size: 45%");
    assert_eq!(
        settings_notice_text(SettingsChange::Backend(AudioBackend::Ffmpeg), "", "FFmpeg", ""),
        "Audio Backend: FFmpeg (restart required)"
    );
    assert_eq!(settings_notice_text(SettingsChange::NonStopMode(true), "", "", ""), "Non-stop mode: On");
    assert_eq!(settings_notice_text(SettingsChange::Equalizer(true), "", "", "flat"), "Equalizer: On (flat)");
}

#[test]
fn startup_and_other_notices() {
    assert_eq!(startup_notice_text(StartupNotice::Quiet, "x"), None);
    assert_eq!(startup_notice_text(StartupNotice::FfmpegMissing, ""), Some("FFmpeg not found. Using MPV instead.".to_string()));
    assert_eq!(startup_notice_text(StartupNotice::FfmpegFailed, "no device"), Some("FFmpeg error: no device. Falling back to MPV.".to_string()));
    assert_eq!(startup_notice_text(StartupNotice::MpvFailed, "gone"), Some("Failed to start MPV: gone. Is mpv installed?".to_string()));
    assert_eq!(rating_notice_text(4, "Song"), "Rating: 4/5 - Song");
    assert_eq!(radio_playing_text("Jazz FM"), "Playing: Jazz FM");
    assert_eq!(failure_text("Failed to set rating", "timeout"), "Failed to set rating: timeout");
    assert_eq!(RATING_OUT_OF_RANGE, "Rating must be between 0 and 5");
    assert_eq!(SERVER_NOT_CONFIGURED, "Server not configured");
}

#[test]
fn player_state_machine() {
    let mut s = PlayerState { queue_len: 3, position: Some(0), state: PlaybackState::Playing, playing_radio: false };
    assert_eq!(player_step(&mut s, PlayerEvent::Next), PlayerAction::Fetch(1));
    assert_eq!(player_step(&mut s, PlayerEvent::PlayAt(1)), PlayerAction::Load(1));
    assert_eq!(s.position, Some(1));
    assert_eq!(player_step(&mut s, PlayerEvent::Prev { early: true }), PlayerAction::SeekToStart);
    assert_eq!(player_step(&mut s, PlayerEvent::Prev { early: false }), PlayerAction::Fetch(0));
    assert_eq!(player_step(&mut s, PlayerEvent::GaplessAdvanced), PlayerAction::Idle);
    assert_eq!(s.position, Some(2));
    assert_eq!(player_step(&mut s, PlayerEvent::Toggled { now_paused: true }), PlayerAction::Idle);
    assert_eq!(s.state, PlaybackState::Paused);
    player_step(&mut s, PlayerEvent::Resumed);
    assert_eq!(s.state, PlaybackState::Playing);
    assert_eq!(player_step(&mut s, PlayerEvent::Next), PlayerAction::StopBackend);
    assert_eq!(s.state, PlaybackState::Stopped);
    assert_eq!(player_step(&mut s, PlayerEvent::PlayAt(9)), PlayerAction::Idle);
    player_step(&mut s, PlayerEvent::RadioRequested);
    assert!(s.playing_radio && s.queue_len == 0 && s.position.is_none());
    player_step(&mut s, PlayerEvent::Stop);
    assert_eq!(s, PlayerState { queue_len: 0, position: None, state: PlaybackState::Stopped, playing_radio: false });
}
