//! Decisions of the application: cava, playback and key handling.

pub mod cava;
pub mod keys;
pub mod settings;
pub mod radio;
pub mod equalizer;
pub mod playback;
pub mod session;
pub mod startup;
pub mod schedule;
pub mod notices;
pub mod now_playing;
