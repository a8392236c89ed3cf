//! Subsonic protocol: authentication, request URLs and response checks.

pub mod auth;
pub mod request;
pub mod client;
pub mod response;
pub mod models;
