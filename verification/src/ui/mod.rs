//! User-interface helpers: themes and the text shown on pages.

pub mod theme;
pub mod pages;
