//! Verified core of a terminal Subsonic music player: the audio sample ring
//! buffer and the FFmpeg decoder's command line, PipeWire sample-rate
//! control, Subsonic authentication, request URLs and response checks, the
//! key handling and playback decisions of the application, equalizer preset
//! files, themes, and the text of the pages.

pub mod app;
pub mod audio;
pub mod config;
pub mod error;
pub mod subsonic;
pub mod text;
pub mod ui;
