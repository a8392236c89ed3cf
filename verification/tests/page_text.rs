use ferrosonic::error::UiError;
use ferrosonic::ui::pages::equalizer::{
    band_highlighted, equalizer_fits, help_text, preset_line, rename_line, status_line,
};
use ferrosonic::ui::pages::queue::{
    playing_indicator, queue_row_kind, queue_title, row_number, track_info, QueueRowKind,
};
use ferrosonic::ui::pages::radio::{
    home_page_info, radio_title, station_is_playing, station_row_kind, StationRowKind,
};

#[test]
fn row_numbers_are_right_aligned() {
    assert_eq!(row_number(0), "  1. ");
    assert_eq!(row_number(9), " 10. ");
    assert_eq!(row_number(98), " 99. ");
    assert_eq!(row_number(999), "1000. ");
}

#[test]
fn track_info_shows_disc_only_past_the_first() {
    assert_eq!(track_info(Some(2), Some(7)), " [2.7]");
    assert_eq!(track_info(Some(1), Some(7)), " [#7]");
    assert_eq!(track_info(None, Some(12)), " [#12]");
    assert_eq!(track_info(Some(3), None), "");
    assert_eq!(track_info(None, None), "");
}

#[test]
fn queue_rows_are_classified() {
    assert_eq!(queue_row_kind(2, Some(2), Some(2)), QueueRowKind::Current);
    assert_eq!(queue_row_kind(0, Some(2), Some(0)), QueueRowKind::Played { selected: true });
    assert_eq!(queue_row_kind(1, Some(2), None), QueueRowKind::Played { selected: false });
    assert_eq!(queue_row_kind(3, Some(2), Some(3)), QueueRowKind::Selected);
    assert_eq!(queue_row_kind(3, None, None), QueueRowKind::Upcoming);
    assert_eq!(playing_indicator(true), "▶ ");
    assert_eq!(playing_indicator(false), "  ");
    assert_eq!(queue_title(12), " Queue (12) ");
}

#[test]
fn radio_rows() {
    assert!(station_is_playing(true, Some("Jazz FM"), "Jazz FM"));
    assert!(!station_is_playing(false, Some("Jazz FM"), "Jazz FM"));
    assert!(!station_is_playing(true, Some("Jazz"), "Jazz FM"));
    assert!(!station_is_playing(true, None, "Jazz FM"));
    assert_eq!(station_row_kind(true, true), StationRowKind::Playing);
    assert_eq!(station_row_kind(false, true), StationRowKind::Selected);
    assert_eq!(station_row_kind(false, false), StationRowKind::Normal);
    assert_eq!(home_page_info(Some("https://jazz.fm")), " (https://jazz.fm)");
    assert_eq!(home_page_info(Some("")), "");
    assert_eq!(home_page_info(None), "");
    assert_eq!(radio_title(0), " Radio Stations (0) ");
}

#[test]
fn equalizer_page_text() {
    assert_eq!(preset_line("reference", true), "> reference");
    assert_eq!(preset_line("loudness", false), "  loudness");
    assert_eq!(status_line(true, "loudness"), "Status: ON  Preset: loudness");
    assert_eq!(status_line(false, "x"), "Status: OFF  Preset: x");
    assert_eq!(rename_line("abc"), "Rename: abc_");
    assert!(band_highlighted(false, true, 3, 3));
    assert!(!band_highlighted(true, true, 3, 3));
    assert!(!band_highlighted(false, true, 2, 3));
    assert!(!band_highlighted(false, false, 3, 3));
    assert!(help_text(true, true).starts_with("Type new name"));
    assert!(help_text(false, true).starts_with("↑↓ band"));
    assert!(help_text(false, false).ends_with("D delete"));
    assert!(!equalizer_fits(7));
    assert!(equalizer_fits(8));
}

#[test]
fn ui_errors_carry_the_io_error() {
    let e = UiError::Render(std::io::Error::new(std::io::ErrorKind::Other, "boom"));
    match e {
        UiError::Render(inner) => assert_eq!(inner.to_string(), "boom"),
        _ => panic!("wrong variant"),
    }
    assert!(matches!(UiError::TerminalInit(std::io::Error::from(std::io::ErrorKind::NotFound)), UiError::TerminalInit(_)));
    assert!(matches!(UiError::Input(std::io::Error::from(std::io::ErrorKind::NotFound)), UiError::Input(_)));
}
