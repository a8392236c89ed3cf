//! The text and highlighting decisions of the pages; drawing the widgets
//! is left to the caller.

pub mod queue;
pub mod radio;
pub mod equalizer;
