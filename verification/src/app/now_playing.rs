//! What is playing now: the song shown and the audio properties the
//! backend reported for it. Its position and duration in seconds are
//! floating-point and kept by the caller.

use vstd::prelude::*;
use crate::app::playback::{
    player_step, player_step_spec, PlayerAction, PlayerEvent, PlayerState, RADIO_ALBUM,
};

verus! {

/// The song shown as playing.
#[derive(Clone, Debug)]
pub struct SongInfo {
    pub id: String,
    pub title: String,
    pub album: Option<String>,
    pub artist: Option<String>,
    /// Length in seconds, as the server reports it.
    pub duration: Option<i32>,
}

/// The song playing now and its audio properties.
#[derive(Clone, Debug)]
pub struct NowPlaying {
    pub song: Option<SongInfo>,
    pub sample_rate: Option<u32>,
    pub bit_depth: Option<u32>,
    pub format: Option<String>,
    pub channels: Option<String>,
}

/// The audio properties the backend reported (each `None` when it could
/// not tell).
#[derive(Clone, Debug)]
pub struct AudioProps {
    pub sample_rate: Option<u32>,
    pub bit_depth: Option<u32>,
    pub format: Option<String>,
    pub channels: Option<String>,
}

/// Whether the audio properties are still to be read: until a sample rate
/// is known.
pub fn needs_audio_properties(np: &NowPlaying) -> (b: bool)
    ensures
        b == np.sample_rate is None,
{
    np.sample_rate.is_none()
}

/// Takes the backend's audio properties once they are ready: when the
/// backend reports a sample rate, the rate, bit depth, format and channels
/// all take its values (whether or not forcing that rate in PipeWire
/// worked); without a rate nothing changes. The song stays.
pub fn apply_audio_properties(np: &mut NowPlaying, props: AudioProps)
    ensures
        props.sample_rate is Some ==> final(np).song == old(np).song && final(np).sample_rate
            == props.sample_rate && final(np).bit_depth == props.bit_depth && final(np).format
            == props.format && final(np).channels == props.channels,
        props.sample_rate is None ==> *final(np) == *old(np),
{
    if props.sample_rate.is_some() {
        np.sample_rate = props.sample_rate;
        np.bit_depth = props.bit_depth;
        np.format = props.format;
        np.channels = props.channels;
    }
}

/// A queue entry starts playing: it becomes the song shown and its audio
/// properties are forgotten until the backend reports them (they stay
/// forgotten even if loading the stream then fails).
pub fn start_song(np: &mut NowPlaying, song: SongInfo)
    ensures
        final(np).song == Some(song),
        final(np).sample_rate is None,
        final(np).bit_depth is None,
        final(np).format is None,
        final(np).channels is None,
{
    np.song = Some(song);
    np.sample_rate = None;
    np.bit_depth = None;
    np.format = None;
    np.channels = None;
}

/// The backend moved on to the preloaded next song: it becomes the song
/// shown, and the audio properties are kept (the next song of an album
/// usually has the same ones).
pub fn continue_gapless(np: &mut NowPlaying, song: SongInfo)
    ensures
        final(np).song == Some(song),
        final(np).sample_rate == old(np).sample_rate,
        final(np).bit_depth == old(np).bit_depth,
        final(np).format == old(np).format,
        final(np).channels == old(np).channels,
{
    np.song = Some(song);
}

/// Playback stopped: no song is shown and no audio properties are known.
pub fn clear_now_playing(np: &mut NowPlaying)
    ensures
        final(np).song is None,
        final(np).sample_rate is None,
        final(np).bit_depth is None,
        final(np).format is None,
        final(np).channels is None,
{
    np.song = None;
    np.sample_rate = None;
    np.bit_depth = None;
    np.format = None;
    np.channels = None;
}

/// The song shown for a radio station: the station's id and name, the
/// album "Internet Radio", the station's home page as artist (or "Radio"),
/// and no duration.
pub open spec fn radio_song_spec(s: SongInfo, id: Seq<char>, name: Seq<char>, home_page_url: Option<String>) -> bool {
    &&& s.id@ == id
    &&& s.title@ == name
    &&& s.album matches Some(a) && a@ == RADIO_ALBUM@
    &&& s.artist matches Some(a) && a@ == match home_page_url {
        Some(u) => u@,
        None => "Radio"@,
    }
    &&& s.duration is None
}

/// A radio station starts playing: its pseudo-song is shown and the audio
/// properties are forgotten.
pub fn start_radio(np: &mut NowPlaying, id: &str, name: &str, home_page_url: Option<String>)
    ensures
        final(np).song matches Some(s) && radio_song_spec(s, id@, name@, home_page_url),
        final(np).sample_rate is None,
        final(np).bit_depth is None,
        final(np).format is None,
        final(np).channels is None,
{
    let song = SongInfo {
        id: id.to_owned(),
        title: name.to_owned(),
        album: Some(RADIO_ALBUM.to_owned()),
        artist: Some(crate::app::playback::radio_artist(home_page_url)),
        duration: None,
    };
    start_song(np, song);
}

/// Stops playback: the queue is emptied and the player stopped (see
/// [`PlayerEvent::Stop`]), no song is shown and no audio properties are
/// known. The backend is to be stopped.
pub fn stop_playback(s: &mut PlayerState, np: &mut NowPlaying) -> (a: PlayerAction)
    ensures
        (*final(s), a) == player_step_spec(*old(s), PlayerEvent::Stop),
        final(np).song is None,
        final(np).sample_rate is None,
        final(np).bit_depth is None,
        final(np).format is None,
        final(np).channels is None,
{
    let a = player_step(s, PlayerEvent::Stop);
    clear_now_playing(np);
    a
}

/// Plays the queue entry at `pos`, whose song is `song`, once its stream
/// is known: the entry becomes current and playing (see
/// [`PlayerEvent::PlayAt`]), the song is shown and its audio properties
/// are forgotten; the action says to resume a paused backend, load the
/// stream and preload the next entry. An index outside the queue changes
/// nothing.
pub fn play_queue_position(s: &mut PlayerState, np: &mut NowPlaying, pos: usize, song: SongInfo) -> (a: PlayerAction)
    ensures
        (*final(s), a) == player_step_spec(*old(s), PlayerEvent::PlayAt(pos)),
        pos < old(s).queue_len ==> {
            &&& final(np).song == Some(song)
            &&& final(np).sample_rate is None
            &&& final(np).bit_depth is None
            &&& final(np).format is None
            &&& final(np).channels is None
        },
        pos >= old(s).queue_len ==> *final(np) == *old(np),
{
    let a = player_step(s, PlayerEvent::PlayAt(pos));
    if pos < s.queue_len {
        start_song(np, song);
    }
    a
}

/// Plays a radio station, after the caller stopped the backend and tried
/// to load the station's stream (`loaded` tells whether that worked). The
/// queue is emptied either way. When the stream loaded, the station plays
/// as a radio stream and is shown as a song (see [`radio_song_spec`]);
/// when it did not, the player is stopped and no song is shown. No audio
/// properties are known either way.
pub fn play_radio_station(
    s: &mut PlayerState,
    np: &mut NowPlaying,
    id: &str,
    name: &str,
    home_page_url: Option<String>,
    loaded: bool,
)
    ensures
        loaded ==> *final(s) == player_step_spec(*old(s), PlayerEvent::RadioRequested).0,
        !loaded ==> *final(s) == player_step_spec(
            player_step_spec(*old(s), PlayerEvent::RadioRequested).0,
            PlayerEvent::RadioFailed,
        ).0,
        loaded ==> (final(np).song matches Some(song) && radio_song_spec(song, id@, name@, home_page_url)),
        !loaded ==> final(np).song is None,
        final(np).sample_rate is None,
        final(np).bit_depth is None,
        final(np).format is None,
        final(np).channels is None,
{
    let _ = player_step(s, PlayerEvent::RadioRequested);
    if loaded {
        start_radio(np, id, name, home_page_url);
    } else {
        let _ = player_step(s, PlayerEvent::RadioFailed);
        clear_now_playing(np);
    }
}

} // verus!
