//! Request URLs of the Subsonic API: the server's base URL joined with
//! `rest/<endpoint>`, followed by the authentication query pairs. Parsing,
//! joining and query encoding are done by the `url` crate.

use url::Url;
use vstd::prelude::*;
use crate::error::SubsonicError;
use crate::subsonic::auth::{generate_token, token_of};
use crate::text::{decimal, decimal_string, push_str};

verus! {

/// Client name sent to the Subsonic server.
pub const CLIENT_NAME: &'static str = "ferrosonic-rs";

/// API version this client speaks.
pub const API_VERSION: &'static str = "1.16.1";

/// A query string as a sequence of (name, value) pairs of characters.
pub type QueryPairs = Seq<(Seq<char>, Seq<char>)>;

/// The serialization of the URL that `Url::parse` makes of `input`, if it
/// parses.
pub uninterp spec fn parsed_url(input: Seq<char>) -> Option<Seq<char>>;

/// The serialization of the URL that `Url::join` makes of `input` against
/// the URL whose serialization is `base`, if both parse.
pub uninterp spec fn joined_url(base: Seq<char>, input: Seq<char>) -> Option<Seq<char>>;

/// The serialization of the URL `url` after `query_pairs_mut().extend_pairs`
/// appended `pairs` (form-urlencoded) to its query, if `url` parses.
pub uninterp spec fn url_with_pairs(url: Seq<char>, pairs: QueryPairs) -> Option<Seq<char>>;

/// The views of a slice of (name, value) string pairs.
pub open spec fn pairs_view(pairs: Seq<(String, String)>) -> QueryPairs {
    pairs.map_values(|p: (String, String)| (p.0@, p.1@))
}

/// `Url::parse`, giving the serialization of the parsed URL.
#[verifier::external_body]
fn url_parse(input: &str) -> (r: Result<String, url::ParseError>)
    ensures
        r is Ok <==> parsed_url(input@) is Some,
        r matches Ok(s) ==> parsed_url(input@) == Some(s@),
{
    match Url::parse(input) {
        Ok(u) => Ok(String::from(u)),
        Err(e) => Err(e),
    }
}

/// A relative reference to a path below the base: it starts with an ASCII
/// letter and holds neither `:` nor `?`, so it has no scheme and no query of
/// its own.
pub open spec fn plain_relative_path(input: Seq<char>) -> bool {
    &&& input.len() > 0
    &&& ('a' <= input[0] <= 'z' || 'A' <= input[0] <= 'Z')
    &&& !input.contains(':')
    &&& !input.contains('?')
}

/// `Url::join` of `input` against the URL serialized as `base`. When
/// `input` is a plain relative path the joined URL has no query (the
/// WHATWG URL parser that `url` implements sets the query to null in its
/// relative and file states for such an input), so its query yields no
/// pairs.
#[verifier::external_body]
fn url_join(base: &str, input: &str) -> (r: Result<String, url::ParseError>)
    ensures
        r is Ok <==> joined_url(base@, input@) is Some,
        r matches Ok(s) ==> joined_url(base@, input@) == Some(s@),
        r matches Ok(s) ==> (plain_relative_path(input@) ==> query_pairs_of(s@) == Some(
            Seq::<(Seq<char>, Seq<char>)>::empty(),
        )),
{
    match Url::parse(base) {
        Ok(b) => match b.join(input) {
            Ok(u) => Ok(String::from(u)),
            Err(e) => Err(e),
        },
        Err(e) => Err(e),
    }
}

/// `Serializer::extend_pairs` on the query of the URL serialized as `url`.
/// The pairs are form-urlencoded and appended after the existing query
/// (separated by `&`), so reading the query back yields the pairs that were
/// there followed by the appended ones, each decoded to what it was.
#[verifier::external_body]
fn url_extend_query(url: &str, pairs: &[(String, String)]) -> (r: Result<String, url::ParseError>)
    ensures
        r is Ok <==> url_with_pairs(url@, pairs_view(pairs@)) is Some,
        r matches Ok(s) ==> url_with_pairs(url@, pairs_view(pairs@)) == Some(s@),
        r matches Ok(s) ==> (query_pairs_of(url@) matches Some(q) ==> query_pairs_of(s@) == Some(
            q + pairs_view(pairs@),
        )),
{
    match Url::parse(url) {
        Ok(mut u) => {
            u.query_pairs_mut().extend_pairs(pairs.iter());
            Ok(String::from(u))
        },
        Err(e) => Err(e),
    }
}

/// Parses a base URL, giving its serialization.
pub fn parse_base_url(input: &str) -> (r: Result<String, SubsonicError>)
    ensures
        match r {
            Ok(s) => parsed_url(input@) == Some(s@),
            Err(e) => parsed_url(input@) is None && e is UrlParse,
        },
{
    match url_parse(input) {
        Ok(s) => Ok(s),
        Err(e) => Err(SubsonicError::UrlParse(e)),
    }
}

/// The authentication pairs sent with every request.
pub open spec fn auth_pairs(username: Seq<char>, password: Seq<char>, salt: Seq<char>) -> QueryPairs {
    seq![
        ("u"@, username),
        ("t"@, token_of(password, salt)),
        ("s"@, salt),
        ("v"@, API_VERSION@),
        ("c"@, CLIENT_NAME@),
    ]
}

/// The URL of an API request: `rest/<endpoint>` joined to the base URL,
/// then the authentication pairs and `f=json`.
pub open spec fn request_url(
    base: Seq<char>,
    username: Seq<char>,
    password: Seq<char>,
    endpoint: Seq<char>,
    salt: Seq<char>,
) -> Option<Seq<char>> {
    match joined_url(base, "rest/"@ + endpoint) {
        Some(joined) => url_with_pairs(
            joined,
            auth_pairs(username, password, salt).push(("f"@, "json"@)),
        ),
        None => None,
    }
}

/// The URL of a song's stream: `rest/stream` joined to the base URL, then
/// the song id and the authentication pairs (no format pair).
pub open spec fn stream_url(
    base: Seq<char>,
    username: Seq<char>,
    password: Seq<char>,
    song_id: Seq<char>,
    salt: Seq<char>,
) -> Option<Seq<char>> {
    match joined_url(base, "rest/stream"@) {
        Some(joined) => url_with_pairs(
            joined,
            seq![("id"@, song_id)] + auth_pairs(username, password, salt),
        ),
        None => None,
    }
}

/// The URL that sets a song's rating: the `setRating` request URL followed
/// by the song id and the rating in decimal.
pub open spec fn rating_url(
    base: Seq<char>,
    username: Seq<char>,
    password: Seq<char>,
    song_id: Seq<char>,
    rating: u8,
    salt: Seq<char>,
) -> Option<Seq<char>> {
    match request_url(base, username, password, "setRating"@, salt) {
        Some(url) => url_with_pairs(url, seq![("id"@, song_id), ("rating"@, decimal(rating as nat))]),
        None => None,
    }
}

fn pair(name: &str, value: &str) -> (p: (String, String))
    ensures
        p.0@ == name@,
        p.1@ == value@,
{
    (name.to_owned(), value.to_owned())
}

fn auth_pair_vec(username: &str, password: &str, salt: &str) -> (v: Vec<(String, String)>)
    ensures
        pairs_view(v@) == auth_pairs(username@, password@, salt@),
{
    let token = generate_token(password, salt);
    let mut v: Vec<(String, String)> = Vec::new();
    v.push(pair("u", username));
    v.push(pair("t", token.as_str()));
    v.push(pair("s", salt));
    v.push(pair("v", API_VERSION));
    v.push(pair("c", CLIENT_NAME));
    proof {
        assert(pairs_view(v@) =~= auth_pairs(username@, password@, salt@));
    }
    v
}

/// Builds the URL of an API request with the given salt.
pub fn request_url_with_salt(
    base: &str,
    username: &str,
    password: &str,
    endpoint: &str,
    salt: &str,
) -> (r: Result<String, SubsonicError>)
    ensures
        match r {
            Ok(u) => request_url(base@, username@, password@, endpoint@, salt@) == Some(u@),
            Err(e) => request_url(base@, username@, password@, endpoint@, salt@) is None
                && e is UrlParse,
        },
        r matches Ok(u) ==> (!endpoint@.contains(':') && !endpoint@.contains('?') ==> query_pairs_of(
            u@,
        ) == Some(auth_pairs(username@, password@, salt@).push(("f"@, "json"@)))),
{
    proof {
        reveal_strlit("rest/");
    }
    let mut path = "rest/".to_owned();
    push_str(&mut path, endpoint);
    proof {
        if !endpoint@.contains(':') && !endpoint@.contains('?') {
            assert(path@[0] == 'r');
            assert(!path@.contains(':')) by {
                if path@.contains(':') {
                    let k = choose|k: int| 0 <= k < path@.len() && path@[k] == ':';
                    if k >= 5 {
                        assert(endpoint@[k - 5] == ':');
                    }
                }
            }
            assert(!path@.contains('?')) by {
                if path@.contains('?') {
                    let k = choose|k: int| 0 <= k < path@.len() && path@[k] == '?';
                    if k >= 5 {
                        assert(endpoint@[k - 5] == '?');
                    }
                }
            }
        }
    }
    let joined = match url_join(base, path.as_str()) {
        Ok(j) => j,
        Err(e) => {
            return Err(SubsonicError::UrlParse(e));
        },
    };
    let mut pairs = auth_pair_vec(username, password, salt);
    let ghost before = pairs@;
    pairs.push(pair("f", "json"));
    proof {
        assert(pairs_view(pairs@) =~= pairs_view(before).push(("f"@, "json"@)));
    }
    match url_extend_query(joined.as_str(), pairs.as_slice()) {
        Ok(u) => Ok(u),
        Err(e) => Err(SubsonicError::UrlParse(e)),
    }
}

/// Builds the stream URL of a song with the given salt.
pub fn stream_url_with_salt(
    base: &str,
    username: &str,
    password: &str,
    song_id: &str,
    salt: &str,
) -> (r: Result<String, SubsonicError>)
    ensures
        match r {
            Ok(u) => stream_url(base@, username@, password@, song_id@, salt@) == Some(u@),
            Err(e) => stream_url(base@, username@, password@, song_id@, salt@) is None
                && e is UrlParse,
        },
        r matches Ok(u) ==> query_pairs_of(u@) == Some(
            seq![("id"@, song_id@)] + auth_pairs(username@, password@, salt@),
        ),
        r matches Ok(u) ==> first_value(query_pairs_of(u@)->0, "id"@) == Some(song_id@),
{
    proof {
        reveal_strlit("rest/stream");
        reveal_strlit("id");
    }
    let joined = match url_join(base, "rest/stream") {
        Ok(j) => j,
        Err(e) => {
            return Err(SubsonicError::UrlParse(e));
        },
    };
    let auth = auth_pair_vec(username, password, salt);
    let mut pairs: Vec<(String, String)> = Vec::new();
    pairs.push(pair("id", song_id));
    let mut i: usize = 0;
    while i < auth.len()
        invariant
            i <= auth@.len(),
            pairs_view(pairs@) == seq![("id"@, song_id@)] + pairs_view(auth@.take(i as int)),
        decreases auth.len() - i,
    {
        let p = pair(auth[i].0.as_str(), auth[i].1.as_str());
        let ghost before = pairs@;
        pairs.push(p);
        proof {
            assert(auth@.take(i + 1) =~= auth@.take(i as int).push(auth@[i as int]));
            assert(pairs_view(pairs@) =~= pairs_view(before).push((p.0@, p.1@)));
            assert(pairs_view(auth@.take(i + 1)) =~= pairs_view(auth@.take(i as int)).push(
                (auth@[i as int].0@, auth@[i as int].1@),
            ));
        }
        i = i + 1;
    }
    proof {
        assert(auth@.take(auth@.len() as int) =~= auth@);
    }
    match url_extend_query(joined.as_str(), pairs.as_slice()) {
        Ok(u) => Ok(u),
        Err(e) => Err(SubsonicError::UrlParse(e)),
    }
}

/// Builds the URL that sets a song's rating, with the given salt.
pub fn rating_url_with_salt(
    base: &str,
    username: &str,
    password: &str,
    song_id: &str,
    rating: u8,
    salt: &str,
) -> (r: Result<String, SubsonicError>)
    ensures
        match r {
            Ok(u) => rating_url(base@, username@, password@, song_id@, rating, salt@) == Some(u@),
            Err(e) => rating_url(base@, username@, password@, song_id@, rating, salt@) is None
                && e is UrlParse,
        },
        r matches Ok(u) ==> query_pairs_of(u@) == Some(
            auth_pairs(username@, password@, salt@).push(("f"@, "json"@)) + seq![
                ("id"@, song_id@),
                ("rating"@, decimal(rating as nat)),
            ],
        ),
        r matches Ok(u) ==> first_value(query_pairs_of(u@)->0, "id"@) == Some(song_id@)
            && first_value(query_pairs_of(u@)->0, "rating"@) == Some(decimal(rating as nat)),
{
    proof {
        reveal_strlit("setRating");
        assert(!"setRating"@.contains(':') && !"setRating"@.contains('?'));
    }
    let url = request_url_with_salt(base, username, password, "setRating", salt)?;
    let rating_text = decimal_string(rating as u64);
    let mut pairs: Vec<(String, String)> = Vec::new();
    pairs.push(pair("id", song_id));
    pairs.push(pair("rating", rating_text.as_str()));
    proof {
        assert(pairs_view(pairs@) =~= seq![("id"@, song_id@), ("rating"@, decimal(rating as nat))]);
    }
    let r = url_extend_query(url.as_str(), pairs.as_slice());
    proof {
        reveal_strlit("id");
        reveal_strlit("rating");
        reveal_strlit("u");
        reveal_strlit("t");
        reveal_strlit("s");
        reveal_strlit("v");
        reveal_strlit("c");
        reveal_strlit("f");
        let all = auth_pairs(username@, password@, salt@).push(("f"@, "json"@)) + seq![
            ("id"@, song_id@),
            ("rating"@, decimal(rating as nat)),
        ];
        assert(all[0].0 == "u"@ && all[1].0 == "t"@ && all[2].0 == "s"@);
        assert(all[3].0 == "v"@ && all[4].0 == "c"@ && all[5].0 == "f"@);
        assert forall|i: int| 0 <= i < 6 implies (#[trigger] all[i]).0.len() == 1 by {
            if i == 0 {
            } else if i == 1 {
            } else if i == 2 {
            } else if i == 3 {
            } else if i == 4 {
            } else {
            }
        }
        lemma_first_value_after(all, 6, "id"@);
        lemma_first_value_after(all, 6, "rating"@);
        assert(all.skip(6) =~= seq![("id"@, song_id@), ("rating"@, decimal(rating as nat))]);
        assert(all.skip(6).drop_first() =~= seq![("rating"@, decimal(rating as nat))]);
        assert(first_value(all.skip(6), "id"@) == Some(song_id@));
        assert("id"@.len() != "rating"@.len());
        assert(first_value(all.skip(6).drop_first(), "rating"@) == Some(decimal(rating as nat)));
        assert(first_value(all.skip(6), "rating"@) == Some(decimal(rating as nat)));
        assert(first_value(all, "id"@) == Some(song_id@));
        assert(first_value(all, "rating"@) == Some(decimal(rating as nat)));
    }
    match r {
        Ok(u) => Ok(u),
        Err(e) => Err(SubsonicError::UrlParse(e)),
    }
}

/// The first value named `name` is found after the first `k` pairs when
/// none of them has that name.
proof fn lemma_first_value_after(pairs: QueryPairs, k: int, name: Seq<char>)
    requires
        0 <= k <= pairs.len(),
        forall|i: int| 0 <= i < k ==> pairs[i].0 != name,
    ensures
        first_value(pairs, name) == first_value(pairs.skip(k), name),
    decreases k,
{
    if k > 0 {
        assert(pairs.drop_first().skip(k - 1) =~= pairs.skip(k));
        lemma_first_value_after(pairs.drop_first(), k - 1, name);
    } else {
        assert(pairs.skip(0) =~= pairs);
    }
}

/// An endpoint with an `id` parameter: `<name>?id=<id>`.
pub fn endpoint_with_id(name: &str, id: &str) -> (endpoint: String)
    ensures
        endpoint@ == name@ + "?id="@ + id@,
{
    let mut e = name.to_owned();
    push_str(&mut e, "?id=");
    push_str(&mut e, id);
    e
}

/// The similar-songs endpoint: `getSimilarSongs2?id=<id>&count=<count>`.
pub fn similar_songs_endpoint(id: &str, count: usize) -> (endpoint: String)
    ensures
        endpoint@ == "getSimilarSongs2?id="@ + id@ + "&count="@ + decimal(count as nat),
{
    let mut e = "getSimilarSongs2?id=".to_owned();
    push_str(&mut e, id);
    push_str(&mut e, "&count=");
    let n = decimal_string(count as u64);
    push_str(&mut e, n.as_str());
    e
}

/// The decoded (name, value) pairs of the query of the URL `url`, as
/// `Url::query_pairs` yields them, if `url` parses.
pub uninterp spec fn query_pairs_of(url: Seq<char>) -> Option<QueryPairs>;

/// `Url::parse` followed by `Url::query_pairs`, collected.
#[verifier::external_body]
fn url_query_pairs(url: &str) -> (r: Option<Vec<(String, String)>>)
    ensures
        r is Some <==> query_pairs_of(url@) is Some,
        r matches Some(v) ==> query_pairs_of(url@) == Some(pairs_view(v@)),
{
    match Url::parse(url) {
        Ok(u) => Some(u.query_pairs().map(|(k, v)| (k.into_owned(), v.into_owned())).collect()),
        Err(_) => None,
    }
}

/// The value of the first pair named `name`, if any.
pub open spec fn first_value(pairs: QueryPairs, name: Seq<char>) -> Option<Seq<char>>
    decreases pairs.len(),
{
    if pairs.len() == 0 {
        None
    } else if pairs[0].0 == name {
        Some(pairs[0].1)
    } else {
        first_value(pairs.drop_first(), name)
    }
}

/// The song id in a stream URL: the value of its first `id` query pair.
pub fn song_id_from_url(url: &str) -> (id: Option<String>)
    ensures
        match query_pairs_of(url@) {
            Some(pairs) => match first_value(pairs, "id"@) {
                Some(v) => id matches Some(s) && s@ == v,
                None => id is None,
            },
            None => id is None,
        },
{
    let pairs = match url_query_pairs(url) {
        Some(p) => p,
        None => {
            return None;
        },
    };
    let ghost all = pairs_view(pairs@);
    let mut i: usize = 0;
    proof {
        assert(all.skip(0) =~= all);
    }
    while i < pairs.len()
        invariant
            i <= pairs@.len(),
            all == pairs_view(pairs@),
            query_pairs_of(url@) == Some(all),
            first_value(all, "id"@) == first_value(all.skip(i as int), "id"@),
        decreases pairs.len() - i,
    {
        proof {
            assert(all.skip(i as int)[0] == (pairs@[i as int].0@, pairs@[i as int].1@));
            assert(all.skip(i as int).drop_first() =~= all.skip(i + 1));
        }
        if crate::text::str_eq(pairs[i].0.as_str(), "id") {
            return Some(pairs[i].1.clone());
        }
        i = i + 1;
    }
    proof {
        assert(all.skip(i as int).len() == 0);
    }
    None
}

} // verus!
