//! Text of the queue page: the rating stars, the track numbers and how
//! each row is highlighted.

use vstd::prelude::*;
use crate::text::{decimal, pad_left, push_decimal, push_padded_decimal, push_repeated, push_str, repeat};

verus! {

/// The rating shown for a song: the user's rating, else the rounded
/// average rating, else 0; capped at 5.
pub open spec fn shown_rating(user_rating: Option<u8>, average_rating: Option<u8>) -> u8 {
    let r: u8 = match user_rating {
        Some(r) => r,
        None => match average_rating {
            Some(a) => a,
            None => 0,
        },
    };
    if r < 5 {
        r
    } else {
        5
    }
}

/// Five stars, the first `rating` of them filled.
pub open spec fn stars(rating: u8) -> Seq<char> {
    repeat("★"@, rating as nat) + repeat("☆"@, (5 - rating) as nat)
}

/// The rating stars of a song: `user_rating` is the user's own rating,
/// `average_rating` the server's average rounded to a whole number.
pub fn song_rating_stars(user_rating: Option<u8>, average_rating: Option<u8>) -> (s: String)
    ensures
        s@ == stars(shown_rating(user_rating, average_rating)),
{
    let given: u8 = match user_rating {
        Some(r) => r,
        None => match average_rating {
            Some(a) => a,
            None => 0,
        },
    };
    let rating: u8 = if given < 5 {
        given
    } else {
        5
    };
    let mut s = String::new();
    push_repeated(&mut s, "★", rating as usize);
    push_repeated(&mut s, "☆", (5 - rating) as usize);
    proof {
        assert(Seq::<char>::empty() + repeat("★"@, rating as nat) + repeat("☆"@, (5 - rating) as nat)
            =~= stars(rating));
    }
    s
}

/// The number in front of the row at `index`: its 1-based position,
/// right-aligned in three characters, then ". ".
pub open spec fn row_number_spec(index: usize) -> Seq<char> {
    pad_left(decimal((index + 1) as nat), 3) + ". "@
}

/// The number in front of the row at `index`.
pub fn row_number(index: usize) -> (s: String)
    requires
        index < u64::MAX,
    ensures
        s@ == row_number_spec(index),
{
    let mut s = String::new();
    push_padded_decimal(&mut s, (index as u64) + 1, 3);
    push_str(&mut s, ". ");
    s
}

/// The disc and track shown after a title: ` [disc.track]` for songs past
/// the first disc, ` [#track]` otherwise, nothing without a track number.
pub open spec fn track_info_spec(disc: Option<u32>, track: Option<u32>) -> Seq<char> {
    match track {
        Some(t) => match disc {
            Some(d) => if d > 1 {
                " ["@ + decimal(d as nat) + "."@ + decimal(t as nat) + "]"@
            } else {
                " [#"@ + decimal(t as nat) + "]"@
            },
            None => " [#"@ + decimal(t as nat) + "]"@,
        },
        None => Seq::empty(),
    }
}

/// The disc and track shown after a title.
pub fn track_info(disc: Option<u32>, track: Option<u32>) -> (s: String)
    ensures
        s@ == track_info_spec(disc, track),
{
    let mut s = String::new();
    match track {
        Some(t) => {
            let multi_disc = match disc {
                Some(d) => d > 1,
                None => false,
            };
            if multi_disc {
                push_str(&mut s, " [");
                push_decimal(&mut s, disc.unwrap() as u64);
                push_str(&mut s, ".");
            } else {
                push_str(&mut s, " [#");
            }
            push_decimal(&mut s, t as u64);
            push_str(&mut s, "]");
        },
        None => {},
    }
    s
}

/// How a queue row is highlighted.
#[derive(Clone, Copy, PartialEq, Eq, Structural, Debug)]
pub enum QueueRowKind {
    /// The song playing now.
    Current,
    /// A song before the one playing; `selected` makes its title bold.
    Played { selected: bool },
    /// The selected song, not yet played.
    Selected,
    /// A song still to come.
    Upcoming,
}

/// The highlighting of the row at `index`, given the queue position and
/// the selection: the current song first, then played songs, then the
/// selection.
pub open spec fn queue_row_kind_spec(index: usize, position: Option<usize>, selected: Option<usize>) -> QueueRowKind {
    if position == Some(index) {
        QueueRowKind::Current
    } else if position matches Some(p) && index < p {
        QueueRowKind::Played { selected: selected == Some(index) }
    } else if selected == Some(index) {
        QueueRowKind::Selected
    } else {
        QueueRowKind::Upcoming
    }
}

/// Decides the highlighting of a queue row.
pub fn queue_row_kind(index: usize, position: Option<usize>, selected: Option<usize>) -> (k: QueueRowKind)
    ensures
        k == queue_row_kind_spec(index, position, selected),
{
    let is_current = match position {
        Some(p) => p == index,
        None => false,
    };
    let is_played = match position {
        Some(p) => index < p,
        None => false,
    };
    let is_selected = match selected {
        Some(s) => s == index,
        None => false,
    };
    if is_current {
        QueueRowKind::Current
    } else if is_played {
        QueueRowKind::Played { selected: is_selected }
    } else if is_selected {
        QueueRowKind::Selected
    } else {
        QueueRowKind::Upcoming
    }
}

/// The playing indicator of a row.
pub fn playing_indicator(is_current: bool) -> (s: &'static str)
    ensures
        s@ == if is_current {
            "▶ "@
        } else {
            "  "@
        },
{
    if is_current {
        "▶ "
    } else {
        "  "
    }
}

/// The title of the queue pane: ` Queue (<length>) `.
pub fn queue_title(len: usize) -> (s: String)
    ensures
        s@ == " Queue ("@ + decimal(len as nat) + ") "@,
{
    let mut s = String::new();
    push_str(&mut s, " Queue (");
    push_decimal(&mut s, len as u64);
    push_str(&mut s, ") ");
    s
}

} // verus!
