//! Audio backend logic.

pub mod ring;
pub mod pipewire;
pub mod ffmpeg;
