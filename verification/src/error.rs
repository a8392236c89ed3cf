//! Error types of the library.

use vstd::prelude::*;

verus! {

/// `reqwest::Error`, carried through unread.
#[verifier::external_type_specification]
#[verifier::external_body]
pub struct ExReqwestError(reqwest::Error);

/// `url::ParseError`, carried through unread.
#[verifier::external_type_specification]
#[verifier::external_body]
pub struct ExUrlParseError(url::ParseError);

/// `std::io::Error`, carried through unread.
#[verifier::external_type_specification]
#[verifier::external_body]
pub struct ExIoError(std::io::Error);

/// Subsonic API errors.
#[derive(Debug)]
pub enum SubsonicError {
    /// The HTTP client failed.
    Http(reqwest::Error),
    /// The server answered with an error.
    Api { code: i32, message: String },
    /// Authentication failed.
    AuthFailed,
    /// No server is configured.
    NotConfigured,
    /// The response could not be understood.
    Parse(String),
    /// A URL could not be parsed.
    UrlParse(url::ParseError),
}

/// Errors of the terminal user interface.
#[derive(Debug)]
pub enum UiError {
    /// The terminal could not be set up or restored.
    TerminalInit(std::io::Error),
    /// A frame could not be drawn.
    Render(std::io::Error),
    /// Input could not be read.
    Input(std::io::Error),
}

} // verus!
