//! The library entries the client hands out, and how they are built from
//! the detail responses of the server (artist, album and playlist details
//! come with their albums, songs or entries, which are handed out beside
//! the summary).

use vstd::prelude::*;

verus! {

/// An artist.
pub struct Artist {
    pub id: String,
    pub name: String,
    pub album_count: Option<i32>,
    pub cover_art: Option<String>,
}

/// An album.
pub struct Album {
    pub id: String,
    pub name: String,
    pub artist: Option<String>,
    pub artist_id: Option<String>,
    pub cover_art: Option<String>,
    pub song_count: Option<i32>,
    pub duration: Option<i32>,
    pub year: Option<i32>,
    pub genre: Option<String>,
}

/// A playlist.
pub struct Playlist {
    pub id: String,
    pub name: String,
    pub owner: Option<String>,
    pub song_count: Option<i32>,
    pub duration: Option<i32>,
    pub cover_art: Option<String>,
    pub public: Option<bool>,
    pub comment: Option<String>,
}

/// A count as the API reports it: a 32-bit integer (truncated, as `as`
/// does, for counts that do not fit).
pub open spec fn api_count(n: nat) -> i32 {
    n as i32
}

/// The artist of an artist detail response: its id and name, the number
/// of its albums and no cover art; the albums are handed out as they came.
pub fn artist_from_detail(id: String, name: String, albums: Vec<Album>) -> (r: (Artist, Vec<Album>))
    ensures
        r.0.id@ == id@,
        r.0.name@ == name@,
        r.0.album_count == Some(api_count(albums@.len())),
        r.0.cover_art is None,
        r.1@ == albums@,
{
    let count = albums.len() as i32;
    (Artist { id, name, album_count: Some(count), cover_art: None }, albums)
}

/// The album of an album detail response: its id, name, artist, artist id
/// and year, the number of its songs, and no cover art, duration or genre;
/// the songs are handed out as they came.
pub fn album_from_detail<T>(
    id: String,
    name: String,
    artist: Option<String>,
    artist_id: Option<String>,
    year: Option<i32>,
    songs: Vec<T>,
) -> (r: (Album, Vec<T>))
    ensures
        r.0.id@ == id@,
        r.0.name@ == name@,
        r.0.artist == artist,
        r.0.artist_id == artist_id,
        r.0.year == year,
        r.0.song_count == Some(api_count(songs@.len())),
        r.0.cover_art is None,
        r.0.duration is None,
        r.0.genre is None,
        r.1@ == songs@,
{
    let count = songs.len() as i32;
    (
        Album {
            id,
            name,
            artist,
            artist_id,
            cover_art: None,
            song_count: Some(count),
            duration: None,
            year,
            genre: None,
        },
        songs,
    )
}

/// The playlist of a playlist detail response: its id, name, owner, song
/// count and duration as the server gave them, and no cover art, public
/// flag or comment; the entries are handed out as they came.
pub fn playlist_from_detail<T>(
    id: String,
    name: String,
    owner: Option<String>,
    song_count: Option<i32>,
    duration: Option<i32>,
    entries: Vec<T>,
) -> (r: (Playlist, Vec<T>))
    ensures
        r.0.id@ == id@,
        r.0.name@ == name@,
        r.0.owner == owner,
        r.0.song_count == song_count,
        r.0.duration == duration,
        r.0.cover_art is None,
        r.0.public is None,
        r.0.comment is None,
        r.1@ == entries@,
{
    (
        Playlist {
            id,
            name,
            owner,
            song_count,
            duration,
            cover_art: None,
            public: None,
            comment: None,
        },
        entries,
    )
}

/// The items of all groups, group after group, each in its order.
pub open spec fn concat_groups<T>(groups: Seq<Seq<T>>) -> Seq<T>
    decreases groups.len(),
{
    if groups.len() == 0 {
        Seq::empty()
    } else {
        groups[0] + concat_groups(groups.drop_first())
    }
}

/// The artists of an artist index response: the artists of every index
/// letter, letter after letter.
pub fn artists_of_index<T>(index: Vec<Vec<T>>) -> (artists: Vec<T>)
    ensures
        artists@ == concat_groups(index@.map_values(|g: Vec<T>| g@)),
{
    let ghost groups = index@.map_values(|g: Vec<T>| g@);
    let mut rest = index;
    let mut artists: Vec<T> = Vec::new();
    proof {
        assert(groups.skip(groups.len() as int) =~= Seq::<Seq<T>>::empty());
    }
    while rest.len() > 0
        invariant
            rest@.len() <= groups.len(),
            forall|k: int| 0 <= k < rest@.len() ==> (#[trigger] rest@[k])@ == groups[k],
            artists@ == concat_groups(groups.skip(rest@.len() as int)),
        decreases rest@.len(),
    {
        let ghost k = rest@.len() - 1;
        let mut g = rest.pop().unwrap();
        proof {
            assert(g@ == groups[k]);
            assert(groups.skip(k).drop_first() =~= groups.skip(k + 1));
            assert(groups.skip(k)[0] == groups[k]);
        }
        let ghost before = artists@;
        g.append(&mut artists);
        artists = g;
        proof {
            assert(artists@ =~= groups[k] + before);
        }
    }
    proof {
        assert(groups.skip(0) =~= groups);
    }
    artists
}

} // verus!
