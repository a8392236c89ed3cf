//! Subsonic API client: the server address and credentials, with the HTTP
//! client that carries the requests.

use vstd::prelude::*;
use crate::error::SubsonicError;
use crate::subsonic::auth::{generate_salt, is_salt};
use crate::subsonic::request::{
    auth_pairs, parse_base_url, parsed_url, rating_url, rating_url_with_salt, request_url,
    request_url_with_salt, stream_url, stream_url_with_salt, CLIENT_NAME, query_pairs_of,
    first_value, song_id_from_url,
};
use crate::text::decimal;

verus! {

/// `reqwest::Client`, the HTTP client, carried through unread.
#[verifier::external_type_specification]
#[verifier::external_body]
pub struct ExReqwestClient(reqwest::Client);

/// `reqwest::ClientBuilder`, carried through unread.
#[verifier::external_type_specification]
#[verifier::external_body]
pub struct ExReqwestClientBuilder(reqwest::ClientBuilder);

/// `reqwest::Client::builder`: a builder with default settings.
#[verifier::external_body]
fn http_client_builder() -> reqwest::ClientBuilder {
    reqwest::Client::builder()
}

/// `ClientBuilder::user_agent`: the builder with the given user agent.
#[verifier::external_body]
fn with_user_agent(builder: reqwest::ClientBuilder, user_agent: &str) -> reqwest::ClientBuilder {
    builder.user_agent(user_agent)
}

/// `ClientBuilder::build`. Whether it succeeds depends on the environment
/// (TLS backend, system configuration); nothing is stated of the outcome.
#[verifier::external_body]
fn build_http_client(builder: reqwest::ClientBuilder) -> Result<reqwest::Client, reqwest::Error> {
    builder.build()
}

/// Subsonic API client.
pub struct SubsonicClient {
    base_url: String,
    username: String,
    password: String,
    http: reqwest::Client,
}

impl SubsonicClient {
    /// Serialization of the server's base URL.
    pub closed spec fn base(&self) -> Seq<char> {
        self.base_url@
    }

    /// The user name sent with every request.
    pub closed spec fn user(&self) -> Seq<char> {
        self.username@
    }

    /// The password the tokens are made from.
    pub closed spec fn secret(&self) -> Seq<char> {
        self.password@
    }

    /// The HTTP client this client sends its requests with.
    pub closed spec fn http_client(&self) -> reqwest::Client {
        self.http
    }

    /// Creates a client for the server at `base_url`. Fails with a URL
    /// error exactly when `base_url` does not parse; otherwise fails only if
    /// the HTTP client cannot be built.
    pub fn new(base_url: &str, username: &str, password: &str) -> (r: Result<Self, SubsonicError>)
        ensures
            match r {
                Ok(c) => {
                    &&& parsed_url(base_url@) == Some(c.base())
                    &&& c.user() == username@
                    &&& c.secret() == password@
                },
                Err(e) => {
                    ||| (parsed_url(base_url@) is None && e is UrlParse)
                    ||| (parsed_url(base_url@) is Some && e is Http)
                },
            },
    {
        let base = parse_base_url(base_url)?;
        let builder = with_user_agent(http_client_builder(), CLIENT_NAME);
        let http = match build_http_client(builder) {
            Ok(h) => h,
            Err(e) => {
                return Err(SubsonicError::Http(e));
            },
        };
        Ok(SubsonicClient {
            base_url: base,
            username: username.to_owned(),
            password: password.to_owned(),
            http,
        })
    }

    /// Parses the song id from a stream URL: the value of its first `id`
    /// query pair, `None` when it has none or does not parse.
    pub fn parse_song_id_from_url(url: &str) -> (id: Option<String>)
        ensures
            match query_pairs_of(url@) {
                Some(pairs) => match first_value(pairs, "id"@) {
                    Some(v) => id matches Some(s) && s@ == v,
                    None => id is None,
                },
                None => id is None,
            },
    {
        song_id_from_url(url)
    }

    /// The HTTP client that carries the requests: the one this client holds.
    pub fn http(&self) -> (h: &reqwest::Client)
        ensures
            *h == self.http_client(),
    {
        &self.http
    }

    /// Builds the URL of an API request with a fresh random salt: the
    /// request URL of `endpoint` for some salt of 16 digits and lowercase
    /// letters.
    pub fn build_url(&self, endpoint: &str) -> (r: Result<String, SubsonicError>)
        ensures
            r matches Ok(u) ==> (!endpoint@.contains(':') && !endpoint@.contains('?') ==> exists|
                salt: Seq<char>,
            |
                is_salt(salt) && query_pairs_of(u@) == Some(
                    #[trigger] auth_pairs(self.user(), self.secret(), salt).push(("f"@, "json"@)),
                )),
            match r {
                Ok(u) => exists|salt: Seq<char>|
                    is_salt(salt) && #[trigger] request_url(
                        self.base(),
                        self.user(),
                        self.secret(),
                        endpoint@,
                        salt,
                    ) == Some(u@),
                Err(e) => e is UrlParse && exists|salt: Seq<char>|
                    is_salt(salt) && #[trigger] request_url(
                        self.base(),
                        self.user(),
                        self.secret(),
                        endpoint@,
                        salt,
                    ) is None,
            },
    {
        let salt = generate_salt();
        let r = request_url_with_salt(
            self.base_url.as_str(),
            self.username.as_str(),
            self.password.as_str(),
            endpoint,
            salt.as_str(),
        );
        proof {
            let _ = request_url(self.base(), self.user(), self.secret(), endpoint@, salt@);
        }
        r
    }

    /// Gets the stream URL of a song, with authentication and a fresh
    /// random salt, to hand to the audio backend. The song id is the first
    /// `id` pair of its query, so [`Self::parse_song_id_from_url`] gives it
    /// back.
    pub fn get_stream_url(&self, song_id: &str) -> (r: Result<String, SubsonicError>)
        ensures
            r matches Ok(u) ==> query_pairs_of(u@) matches Some(p) && first_value(p, "id"@) == Some(
                song_id@,
            ),
            match r {
                Ok(u) => exists|salt: Seq<char>|
                    is_salt(salt) && #[trigger] stream_url(
                        self.base(),
                        self.user(),
                        self.secret(),
                        song_id@,
                        salt,
                    ) == Some(u@) && query_pairs_of(u@) == Some(
                        seq![("id"@, song_id@)] + auth_pairs(self.user(), self.secret(), salt),
                    ),
                Err(e) => e is UrlParse && exists|salt: Seq<char>|
                    is_salt(salt) && #[trigger] stream_url(
                        self.base(),
                        self.user(),
                        self.secret(),
                        song_id@,
                        salt,
                    ) is None,
            },
    {
        let salt = generate_salt();
        let r = stream_url_with_salt(
            self.base_url.as_str(),
            self.username.as_str(),
            self.password.as_str(),
            song_id,
            salt.as_str(),
        );
        proof {
            let _ = stream_url(self.base(), self.user(), self.secret(), song_id@, salt@);
        }
        r
    }

    /// Builds the URL that sets the rating of a song (0 clears it, 1 to 5
    /// set it), with a fresh random salt.
    pub fn set_rating_url(&self, id: &str, rating: u8) -> (r: Result<String, SubsonicError>)
        ensures
            r matches Ok(u) ==> query_pairs_of(u@) matches Some(p) && first_value(p, "id"@) == Some(id@)
                && first_value(p, "rating"@) == Some(decimal(rating as nat)),
            match r {
                Ok(u) => exists|salt: Seq<char>|
                    is_salt(salt) && #[trigger] rating_url(
                        self.base(),
                        self.user(),
                        self.secret(),
                        id@,
                        rating,
                        salt,
                    ) == Some(u@) && query_pairs_of(u@) == Some(
                        auth_pairs(self.user(), self.secret(), salt).push(("f"@, "json"@)) + seq![
                            ("id"@, id@),
                            ("rating"@, decimal(rating as nat)),
                        ],
                    ),
                Err(e) => e is UrlParse && exists|salt: Seq<char>|
                    is_salt(salt) && #[trigger] rating_url(
                        self.base(),
                        self.user(),
                        self.secret(),
                        id@,
                        rating,
                        salt,
                    ) is None,
            },
    {
        let salt = generate_salt();
        let r = rating_url_with_salt(
            self.base_url.as_str(),
            self.username.as_str(),
            self.password.as_str(),
            id,
            rating,
            salt.as_str(),
        );
        proof {
            let _ = rating_url(self.base(), self.user(), self.secret(), id@, rating, salt@);
        }
        r
    }
}

} // verus!
