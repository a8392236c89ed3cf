//! What is saved between sessions and restored from it: the selections of
//! the pages, the queue position, and the ratings shown for songs.

use vstd::prelude::*;

verus! {

/// The selections and focus of the pages, as saved at the end of a session.
#[derive(Clone, Copy, PartialEq, Eq, Structural, Debug)]
pub struct UiSelection {
    pub artists_selected_index: Option<usize>,
    pub artists_selected_song: Option<usize>,
    pub artists_focus: usize,
    pub queue_selected: Option<usize>,
    pub queue_min_playback_rating: u8,
    pub playlists_selected_playlist: Option<usize>,
    pub playlists_selected_song: Option<usize>,
    pub playlists_focus: usize,
    pub radio_selected: Option<usize>,
}

/// The lengths of the lists that the selections point into.
#[derive(Clone, Copy, PartialEq, Eq, Structural, Debug)]
pub struct UiListLengths {
    pub artist_tree: usize,
    pub artist_songs: usize,
    pub queue: usize,
    pub playlists: usize,
    pub playlist_songs: usize,
    pub stations: usize,
}

/// An index kept only when it points into a list of `len` entries.
pub open spec fn index_within(index: Option<usize>, len: usize) -> Option<usize> {
    match index {
        Some(i) => if i < len {
            Some(i)
        } else {
            None
        },
        None => None,
    }
}

/// The smaller of `a` and `b`.
pub open spec fn min_usize(a: usize, b: usize) -> usize {
    if a < b {
        a
    } else {
        b
    }
}

/// The highest rating a song can have.
pub const MAX_RATING: u8 = 5;

/// A minimum playback rating, capped at the highest rating.
pub open spec fn capped_rating(r: u8) -> u8 {
    if r < MAX_RATING {
        r
    } else {
        MAX_RATING
    }
}

/// The restored selections: each index kept only when it points into its
/// list, each focus at most 1 (two panes), the minimum rating capped.
pub open spec fn restored_selection(saved: UiSelection, lens: UiListLengths) -> UiSelection {
    UiSelection {
        artists_selected_index: index_within(saved.artists_selected_index, lens.artist_tree),
        artists_selected_song: index_within(saved.artists_selected_song, lens.artist_songs),
        artists_focus: min_usize(saved.artists_focus, 1),
        queue_selected: index_within(saved.queue_selected, lens.queue),
        queue_min_playback_rating: capped_rating(saved.queue_min_playback_rating),
        playlists_selected_playlist: index_within(saved.playlists_selected_playlist, lens.playlists),
        playlists_selected_song: index_within(saved.playlists_selected_song, lens.playlist_songs),
        playlists_focus: min_usize(saved.playlists_focus, 1),
        radio_selected: index_within(saved.radio_selected, lens.stations),
    }
}

/// Whether every selection points into its list, every focus names one of
/// two panes and the minimum rating is a rating.
pub open spec fn selection_fits(sel: UiSelection, lens: UiListLengths) -> bool {
    &&& (sel.artists_selected_index matches Some(i) ==> i < lens.artist_tree)
    &&& (sel.artists_selected_song matches Some(i) ==> i < lens.artist_songs)
    &&& sel.artists_focus <= 1
    &&& (sel.queue_selected matches Some(i) ==> i < lens.queue)
    &&& sel.queue_min_playback_rating <= MAX_RATING
    &&& (sel.playlists_selected_playlist matches Some(i) ==> i < lens.playlists)
    &&& (sel.playlists_selected_song matches Some(i) ==> i < lens.playlist_songs)
    &&& sel.playlists_focus <= 1
    &&& (sel.radio_selected matches Some(i) ==> i < lens.stations)
}

fn keep_within(index: Option<usize>, len: usize) -> (r: Option<usize>)
    ensures
        r == index_within(index, len),
{
    match index {
        Some(i) => if i < len {
            Some(i)
        } else {
            None
        },
        None => None,
    }
}

/// The minimum playback rating as it is saved and restored: at most 5.
pub fn cap_rating(r: u8) -> (c: u8)
    ensures
        c == capped_rating(r),
{
    if r < MAX_RATING {
        r
    } else {
        MAX_RATING
    }
}

/// Restores the saved selections against the lists as they are now.
pub fn restore_ui_selection(saved: UiSelection, lens: UiListLengths) -> (r: UiSelection)
    ensures
        r == restored_selection(saved, lens),
{
    UiSelection {
        artists_selected_index: keep_within(saved.artists_selected_index, lens.artist_tree),
        artists_selected_song: keep_within(saved.artists_selected_song, lens.artist_songs),
        artists_focus: if saved.artists_focus < 1 {
            saved.artists_focus
        } else {
            1
        },
        queue_selected: keep_within(saved.queue_selected, lens.queue),
        queue_min_playback_rating: cap_rating(saved.queue_min_playback_rating),
        playlists_selected_playlist: keep_within(saved.playlists_selected_playlist, lens.playlists),
        playlists_selected_song: keep_within(saved.playlists_selected_song, lens.playlist_songs),
        playlists_focus: if saved.playlists_focus < 1 {
            saved.playlists_focus
        } else {
            1
        },
        radio_selected: keep_within(saved.radio_selected, lens.stations),
    }
}

/// Restored selections always fit the lists they were restored against.
pub proof fn restored_selection_fits(saved: UiSelection, lens: UiListLengths)
    ensures
        selection_fits(restored_selection(saved, lens), lens),
{
}

/// Restoring is idempotent: restoring what was restored changes nothing,
/// and a selection that already fits is restored unchanged.
pub proof fn restore_is_idempotent(saved: UiSelection, lens: UiListLengths)
    ensures
        restored_selection(restored_selection(saved, lens), lens) == restored_selection(saved, lens),
        selection_fits(saved, lens) ==> restored_selection(saved, lens) == saved,
{
}

/// Whether a freshly serialised snapshot must be written: only when it
/// differs from the one saved last.
pub fn should_persist(last_saved: Option<&str>, json: &str) -> (b: bool)
    ensures
        b == !(last_saved matches Some(l) && l@ == json@),
{
    match last_saved {
        Some(l) => !crate::text::str_eq(l, json),
        None => true,
    }
}

/// A song as far as its rating goes: its id and the user's rating.
#[derive(Clone, Debug)]
pub struct RatedSong {
    pub id: String,
    pub user_rating: Option<u8>,
}

/// The rating a song has after the user rated `song_id` with `rating`:
/// songs with that id get the stored rating, others keep theirs.
pub open spec fn rating_after(id: Seq<char>, old_rating: Option<u8>, song_id: Seq<char>, rating: u8) -> Option<u8> {
    if id == song_id {
        if rating == 0 {
            None
        } else {
            Some(rating)
        }
    } else {
        old_rating
    }
}

/// Updates the rating of every song of `songs` whose id is `song_id`.
pub fn sync_song_rating(songs: &mut Vec<RatedSong>, song_id: &str, rating: u8)
    ensures
        final(songs)@.len() == old(songs)@.len(),
        forall|i: int|
            0 <= i < old(songs)@.len() ==> (#[trigger] final(songs)@[i]).id@ == old(songs)@[i].id@
                && final(songs)@[i].user_rating == rating_after(
                old(songs)@[i].id@,
                old(songs)@[i].user_rating,
                song_id@,
                rating,
            ),
{
    let new_rating = crate::app::playback::stored_rating(rating);
    let mut i: usize = 0;
    while i < songs.len()
        invariant
            songs@.len() == old(songs)@.len(),
            i <= songs@.len(),
            new_rating == (if rating == 0 {
                None::<u8>
            } else {
                Some(rating)
            }),
            forall|k: int|
                0 <= k < old(songs)@.len() ==> (#[trigger] songs@[k]).id@ == old(songs)@[k].id@,
            forall|k: int|
                0 <= k < i ==> (#[trigger] songs@[k]).user_rating == rating_after(
                    old(songs)@[k].id@,
                    old(songs)@[k].user_rating,
                    song_id@,
                    rating,
                ),
            forall|k: int| i <= k < songs@.len() ==> (#[trigger] songs@[k]).user_rating == old(songs)@[k].user_rating,
        decreases songs@.len() - i,
    {
        if crate::text::str_eq(songs[i].id.as_str(), song_id) {
            let id = songs[i].id.clone();
            songs.set(i, RatedSong { id, user_rating: new_rating });
        }
        i = i + 1;
    }
}

/// Updates the rating of the song playing now when its id is `song_id`.
pub fn sync_now_playing_rating(song: &mut Option<RatedSong>, song_id: &str, rating: u8)
    ensures
        match (*old(song), *final(song)) {
            (Some(a), Some(b)) => b.id@ == a.id@ && b.user_rating == rating_after(
                a.id@,
                a.user_rating,
                song_id@,
                rating,
            ),
            (None, None) => true,
            _ => false,
        },
{
    let new_rating = crate::app::playback::stored_rating(rating);
    if let Some(s) = song {
        if crate::text::str_eq(s.id.as_str(), song_id) {
            s.user_rating = new_rating;
        }
    }
}

} // verus!
