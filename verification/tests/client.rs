use ferrosonic::error::SubsonicError;
use ferrosonic::subsonic::client::SubsonicClient;
use ferrosonic::subsonic::request::{
    endpoint_with_id, rating_url_with_salt, request_url_with_salt, similar_songs_endpoint,
    stream_url_with_salt,
};

#[test]
fn test_parse_song_id() {
    let url = "https://example.com/rest/stream?id=12345&u=user&t=token&s=salt&v=1.16.1&c=test";
    let id = SubsonicClient::parse_song_id_from_url(url);
    assert_eq!(id, Some("12345".to_string()));
}

#[test]
fn test_parse_song_id_missing() {
    let url = "https://example.com/rest/stream?u=user";
    let id = SubsonicClient::parse_song_id_from_url(url);
    assert_eq!(id, None);
}

#[test]
fn song_id_takes_first_id_and_decodes_it() {
    let url = "https://example.com/rest/stream?id=a%20b&id=second";
    assert_eq!(SubsonicClient::parse_song_id_from_url(url), Some("a b".to_string()));
    assert_eq!(SubsonicClient::parse_song_id_from_url("not a url"), None);
}

#[test]
fn new_rejects_invalid_base_url() {
    match SubsonicClient::new("not a url", "user", "pw") {
        Err(SubsonicError::UrlParse(_)) => {}
        _ => panic!("expected a URL parse error"),
    }
}

#[test]
fn stream_url_has_id_then_auth_pairs() {
    let token = ferrosonic::subsonic::auth::generate_token("pw", "abcdefghijklmnop");
    let url = stream_url_with_salt("https://music.example.com/", "user", "pw", "42", "abcdefghijklmnop").unwrap();
    assert_eq!(
        url,
        format!(
            "https://music.example.com/rest/stream?id=42&u=user&t={}&s=abcdefghijklmnop&v=1.16.1&c=ferrosonic-rs",
            token
        )
    );
}

#[test]
fn request_url_appends_format_json() {
    let token = ferrosonic::subsonic::auth::generate_token("pw", "0123456789abcdef");
    let url = request_url_with_salt("https://music.example.com/", "me", "pw", "ping", "0123456789abcdef").unwrap();
    assert_eq!(
        url,
        format!(
            "https://music.example.com/rest/ping?u=me&t={}&s=0123456789abcdef&v=1.16.1&c=ferrosonic-rs&f=json",
            token
        )
    );
}

#[test]
fn request_url_keeps_endpoint_query() {
    let endpoint = endpoint_with_id("getArtist", "7");
    assert_eq!(endpoint, "getArtist?id=7");
    let url = request_url_with_salt("http://h/", "u", "p", &endpoint, "0000000000000000").unwrap();
    assert!(url.starts_with("http://h/rest/getArtist?id=7&u=u&t="));
    assert!(url.ends_with("&f=json"));
}

#[test]
fn rating_url_appends_id_and_rating() {
    let url = rating_url_with_salt("http://h/", "u", "p", "song 1", 4, "0000000000000000").unwrap();
    assert!(url.starts_with("http://h/rest/setRating?u=u&t="));
    assert!(url.ends_with("&f=json&id=song+1&rating=4"));
}

#[test]
fn similar_songs_endpoint_has_count() {
    assert_eq!(similar_songs_endpoint("x9", 50), "getSimilarSongs2?id=x9&count=50");
}

#[test]
fn client_stream_url_differs_only_by_salt() {
    let client = SubsonicClient::new("https://music.example.com/base/", "u", "p").unwrap();
    let url = client.get_stream_url("99").unwrap();
    assert!(url.starts_with("https://music.example.com/base/rest/stream?id=99&u=u&t="));
    let id = SubsonicClient::parse_song_id_from_url(&url);
    assert_eq!(id, Some("99".to_string()));
}

#[test]
fn stream_url_gives_back_awkward_song_ids() {
    let client = SubsonicClient::new("https://music.example.com/base/?x=1#frag", "u", "p").unwrap();
    for id in ["a&b=c", "ü ñ+%", "", "id=7"] {
        let url = client.get_stream_url(id).unwrap();
        assert_eq!(SubsonicClient::parse_song_id_from_url(&url), Some(id.to_string()));
    }
}

fn pairs_of(u: &str) -> Vec<(String, String)> {
    url::Url::parse(u).unwrap().query_pairs().map(|(k, v)| (k.into_owned(), v.into_owned())).collect()
}

#[test]
fn rating_url_carries_id_and_rating() {
    let client = SubsonicClient::new("http://h:4533/", "me", "pw").unwrap();
    let u = client.set_rating_url("song 1&2", 5).unwrap();
    let pairs = pairs_of(&u);
    let names: Vec<&str> = pairs.iter().map(|(k, _)| k.as_str()).collect();
    assert_eq!(names, vec!["u", "t", "s", "v", "c", "f", "id", "rating"]);
    assert_eq!(pairs[6].1, "song 1&2");
    assert_eq!(pairs[7].1, "5");
    assert_eq!(SubsonicClient::parse_song_id_from_url(&u), Some("song 1&2".to_string()));
}

#[test]
fn request_url_carries_only_auth_and_format() {
    let client = SubsonicClient::new("http://h/music/?stale=1", "me", "pw").unwrap();
    let u = client.build_url("getPlaylists").unwrap();
    let pairs = pairs_of(&u);
    assert_eq!(pairs.len(), 6);
    assert_eq!(pairs[0], ("u".to_string(), "me".to_string()));
    assert_eq!(pairs[5], ("f".to_string(), "json".to_string()));
    let salt = &pairs[2].1;
    assert_eq!(pairs[1].1, ferrosonic::subsonic::auth::generate_token("pw", salt));
}
