//! Text of the radio page: which station plays and how each row is
//! highlighted.

use vstd::prelude::*;
use crate::text::{decimal, push_decimal, push_str, str_eq};

verus! {

/// How a station row is highlighted.
#[derive(Clone, Copy, PartialEq, Eq, Structural, Debug)]
pub enum StationRowKind {
    /// The station playing now.
    Playing,
    /// The selected station.
    Selected,
    /// Any other station.
    Normal,
}

/// A station is shown as playing when a radio stream plays and the title
/// of what plays now is the station's name.
pub open spec fn station_playing_spec(playing_radio: bool, now_playing_title: Option<Seq<char>>, name: Seq<char>) -> bool {
    playing_radio && now_playing_title == Some(name)
}

/// Whether the station named `name` is the one playing.
pub fn station_is_playing(playing_radio: bool, now_playing_title: Option<&str>, name: &str) -> (b: bool)
    ensures
        b == station_playing_spec(
            playing_radio,
            match now_playing_title {
                Some(t) => Some(t@),
                None => None,
            },
            name@,
        ),
{
    if !playing_radio {
        return false;
    }
    match now_playing_title {
        Some(t) => str_eq(t, name),
        None => false,
    }
}

/// Decides the highlighting of a station row: playing first, then
/// selected.
pub fn station_row_kind(is_playing: bool, is_selected: bool) -> (k: StationRowKind)
    ensures
        k == if is_playing {
            StationRowKind::Playing
        } else if is_selected {
            StationRowKind::Selected
        } else {
            StationRowKind::Normal
        },
{
    if is_playing {
        StationRowKind::Playing
    } else if is_selected {
        StationRowKind::Selected
    } else {
        StationRowKind::Normal
    }
}

/// The home page shown after a station's name: ` (<url>)`, or nothing when
/// the station has none or it is empty.
pub fn home_page_info(home_page_url: Option<&str>) -> (s: String)
    ensures
        s@ == match home_page_url {
            Some(u) => if u@.len() > 0 {
                " ("@ + u@ + ")"@
            } else {
                Seq::empty()
            },
            None => Seq::empty(),
        },
{
    let mut s = String::new();
    match home_page_url {
        Some(u) => {
            if !u.is_empty() {
                push_str(&mut s, " (");
                push_str(&mut s, u);
                push_str(&mut s, ")");
            }
        },
        None => {},
    }
    s
}

/// The title of the radio pane: ` Radio Stations (<count>) `.
pub fn radio_title(count: usize) -> (s: String)
    ensures
        s@ == " Radio Stations ("@ + decimal(count as nat) + ") "@,
{
    let mut s = String::new();
    push_str(&mut s, " Radio Stations (");
    push_decimal(&mut s, count as u64);
    push_str(&mut s, ") ");
    s
}

} // verus!
