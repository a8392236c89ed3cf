//! The radio page: choosing a station with the keyboard.

use vstd::prelude::*;
use crate::app::keys::{is_down, is_up, key_is_char, key_is_down, key_is_up, Key};

verus! {

/// What the radio page asks the player to do.
#[derive(Clone, Copy, PartialEq, Eq, Debug)]
pub enum RadioAction {
    /// Nothing to do.
    Nothing,
    /// Play the station at this index.
    Play(usize),
    /// Stop the radio stream.
    Stop,
}

/// The effect of a key on the radio page, given the selection, the number
/// of stations and whether a radio stream is playing: the new selection
/// and the action.
pub open spec fn radio_step(selected: Option<usize>, stations: nat, playing_radio: bool, key: Key) -> (Option<usize>, RadioAction) {
    if is_up(key) {
        match selected {
            Some(sel) => if sel > 0 {
                (Some((sel - 1) as usize), RadioAction::Nothing)
            } else {
                (selected, RadioAction::Nothing)
            },
            None => if stations > 0 {
                (Some(0), RadioAction::Nothing)
            } else {
                (selected, RadioAction::Nothing)
            },
        }
    } else if is_down(key) {
        let max = if stations > 0 { stations - 1 } else { 0 };
        match selected {
            Some(sel) => if sel < max {
                (Some((sel + 1) as usize), RadioAction::Nothing)
            } else {
                (selected, RadioAction::Nothing)
            },
            None => if stations > 0 {
                (Some(0), RadioAction::Nothing)
            } else {
                (selected, RadioAction::Nothing)
            },
        }
    } else if key == Key::Enter {
        match selected {
            Some(idx) => if idx < stations {
                (selected, RadioAction::Play(idx))
            } else {
                (selected, RadioAction::Nothing)
            },
            None => (selected, RadioAction::Nothing),
        }
    } else if key == Key::Char('s') {
        (selected, if playing_radio { RadioAction::Stop } else { RadioAction::Nothing })
    } else {
        (selected, RadioAction::Nothing)
    }
}

/// Handles a key on the radio page: moves the selection and tells what to
/// play or stop.
pub fn handle_radio_key(selected: &mut Option<usize>, stations: usize, playing_radio: bool, key: Key) -> (action: RadioAction)
    ensures
        (*final(selected), action) == radio_step(*old(selected), stations as nat, playing_radio, key),
{
    if key_is_up(key) {
        match *selected {
            Some(sel) => {
                if sel > 0 {
                    *selected = Some(sel - 1);
                }
            },
            None => {
                if stations > 0 {
                    *selected = Some(0);
                }
            },
        }
        RadioAction::Nothing
    } else if key_is_down(key) {
        let max = if stations > 0 { stations - 1 } else { 0 };
        match *selected {
            Some(sel) => {
                if sel < max {
                    *selected = Some(sel + 1);
                }
            },
            None => {
                if stations > 0 {
                    *selected = Some(0);
                }
            },
        }
        RadioAction::Nothing
    } else if key == Key::Enter {
        match *selected {
            Some(idx) => if idx < stations {
                RadioAction::Play(idx)
            } else {
                RadioAction::Nothing
            },
            None => RadioAction::Nothing,
        }
    } else if key_is_char(key, 's') {
        if playing_radio {
            RadioAction::Stop
        } else {
            RadioAction::Nothing
        }
    } else {
        RadioAction::Nothing
    }
}

/// The selection stays on a station: when it points at a station (or is
/// empty), after any key it still points at a station (or is empty), and a
/// station to play is always one of the list.
pub proof fn radio_selection_stays_in_list(selected: Option<usize>, stations: nat, playing_radio: bool, key: Key)
    requires
        selected matches Some(s) ==> s < stations,
    ensures
        radio_step(selected, stations, playing_radio, key).0 matches Some(s) ==> s < stations,
        radio_step(selected, stations, playing_radio, key).1 matches RadioAction::Play(i) ==> i < stations,
{
}

/// Moving the selection undoes itself: Down then Up comes back to a
/// selection before the last station, Up then Down to one after the first.
pub proof fn radio_moves_undo(sel: usize, stations: nat, playing_radio: bool)
    requires
        stations <= usize::MAX,
    ensures
        sel + 1 < stations ==> radio_step(
            radio_step(Some(sel), stations, playing_radio, Key::Down).0,
            stations,
            playing_radio,
            Key::Up,
        ).0 == Some(sel),
        0 < sel < stations ==> radio_step(
            radio_step(Some(sel), stations, playing_radio, Key::Up).0,
            stations,
            playing_radio,
            Key::Down,
        ).0 == Some(sel),
{
}

} // verus!
