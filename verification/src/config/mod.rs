//! Configuration helpers.

pub mod equalizer;
