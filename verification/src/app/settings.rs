//! The settings page: moving between fields and changing them with the
//! keyboard. Saving the configuration and restarting cava are left to the
//! caller, which is told what changed.

use vstd::prelude::*;
use crate::app::keys::{is_down, is_left, is_right, is_up, key_is_down, key_is_left, key_is_right, key_is_up, Key};

verus! {

/// The audio backend.
#[derive(Clone, Copy, PartialEq, Eq, Structural, Debug)]
pub enum AudioBackend {
    Mpv,
    Ffmpeg,
}

impl AudioBackend {
    /// The other backend.
    pub open spec fn other(self) -> AudioBackend {
        match self {
            AudioBackend::Mpv => AudioBackend::Ffmpeg,
            AudioBackend::Ffmpeg => AudioBackend::Mpv,
        }
    }

    /// Switches to the other backend.
    pub fn toggle(self) -> (b: AudioBackend)
        ensures
            b == self.other(),
    {
        match self {
            AudioBackend::Mpv => AudioBackend::Ffmpeg,
            AudioBackend::Ffmpeg => AudioBackend::Mpv,
        }
    }

    /// The name written to the configuration file.
    pub fn config_name(self) -> (s: String)
        ensures
            s@ == match self {
                AudioBackend::Ffmpeg => "ffmpeg"@,
                AudioBackend::Mpv => "mpv"@,
            },
    {
        match self {
            AudioBackend::Ffmpeg => "ffmpeg".to_owned(),
            AudioBackend::Mpv => "mpv".to_owned(),
        }
    }
}

/// The number of the last field of the settings page.
pub const LAST_SETTINGS_FIELD: usize = 5;

/// The state the settings page edits. Fields: 0 theme, 1 cava on/off,
/// 2 cava size, 3 audio backend, 4 non-stop mode, 5 equalizer on/off.
#[derive(Clone, Copy, PartialEq, Eq, Structural, Debug)]
pub struct SettingsPage {
    pub selected_field: usize,
    pub cava_available: bool,
    pub cava_enabled: bool,
    pub cava_size: u32,
    pub audio_backend: AudioBackend,
    pub non_stop_mode: bool,
    pub equalizer_enabled: bool,
}

/// A step through a list.
#[derive(Clone, Copy, PartialEq, Eq, Structural, Debug)]
pub enum Direction {
    Previous,
    Next,
}

/// What a key changed; each change is saved to the configuration.
#[derive(Clone, Copy, PartialEq, Eq, Structural, Debug)]
pub enum SettingsChange {
    /// Switch to the previous or next theme.
    Theme(Direction),
    /// Cava is now on or off.
    Cava(bool),
    /// The new cava size, in percent.
    CavaSize(u32),
    /// The new audio backend (used after a restart).
    Backend(AudioBackend),
    /// Non-stop mode is now on or off.
    NonStopMode(bool),
    /// The equalizer is now on or off.
    Equalizer(bool),
}

/// The effect of changing the selected field: `grow` for Right, Enter and
/// Space, not for Left.
pub open spec fn change_field(p: SettingsPage, grow: bool) -> (SettingsPage, Option<SettingsChange>) {
    let f = p.selected_field;
    if f == 0 {
        (p, Some(SettingsChange::Theme(if grow { Direction::Next } else { Direction::Previous })))
    } else if f == 1 && p.cava_available {
        (
            SettingsPage { cava_enabled: !p.cava_enabled, ..p },
            Some(SettingsChange::Cava(!p.cava_enabled)),
        )
    } else if f == 2 && p.cava_available {
        if grow && p.cava_size < 80 {
            (
                SettingsPage { cava_size: (p.cava_size + 5) as u32, ..p },
                Some(SettingsChange::CavaSize((p.cava_size + 5) as u32)),
            )
        } else if !grow && p.cava_size > 10 {
            (
                SettingsPage { cava_size: (p.cava_size - 5) as u32, ..p },
                Some(SettingsChange::CavaSize((p.cava_size - 5) as u32)),
            )
        } else {
            (p, None)
        }
    } else if f == 3 {
        (
            SettingsPage { audio_backend: p.audio_backend.other(), ..p },
            Some(SettingsChange::Backend(p.audio_backend.other())),
        )
    } else if f == 4 {
        (
            SettingsPage { non_stop_mode: !p.non_stop_mode, ..p },
            Some(SettingsChange::NonStopMode(!p.non_stop_mode)),
        )
    } else if f == 5 {
        (
            SettingsPage { equalizer_enabled: !p.equalizer_enabled, ..p },
            Some(SettingsChange::Equalizer(!p.equalizer_enabled)),
        )
    } else {
        (p, None)
    }
}

/// The effect of a key on the settings page: Up/`k` and Down/`j` move
/// between fields 0 to 5; Left/`h` and Right/`l`/Enter/Space change the
/// selected field; the cava fields do nothing when cava is unavailable.
pub open spec fn settings_step(p: SettingsPage, key: Key) -> (SettingsPage, Option<SettingsChange>) {
    if is_up(key) {
        if p.selected_field > 0 {
            (SettingsPage { selected_field: (p.selected_field - 1) as usize, ..p }, None)
        } else {
            (p, None)
        }
    } else if is_down(key) {
        if p.selected_field < 5 {
            (SettingsPage { selected_field: (p.selected_field + 1) as usize, ..p }, None)
        } else {
            (p, None)
        }
    } else if is_left(key) {
        change_field(p, false)
    } else if is_right(key) || key == Key::Enter || key == Key::Char(' ') {
        change_field(p, true)
    } else {
        (p, None)
    }
}

fn change_field_exec(page: &mut SettingsPage, grow: bool) -> (change: Option<SettingsChange>)
    ensures
        (*final(page), change) == change_field(*old(page), grow),
{
    let f = page.selected_field;
    if f == 0 {
        Some(SettingsChange::Theme(if grow { Direction::Next } else { Direction::Previous }))
    } else if f == 1 && page.cava_available {
        page.cava_enabled = !page.cava_enabled;
        Some(SettingsChange::Cava(page.cava_enabled))
    } else if f == 2 && page.cava_available {
        let cur = page.cava_size;
        if grow && cur < 80 {
            page.cava_size = cur + 5;
            Some(SettingsChange::CavaSize(cur + 5))
        } else if !grow && cur > 10 {
            page.cava_size = cur - 5;
            Some(SettingsChange::CavaSize(cur - 5))
        } else {
            None
        }
    } else if f == 3 {
        let b = page.audio_backend.toggle();
        page.audio_backend = b;
        Some(SettingsChange::Backend(b))
    } else if f == 4 {
        page.non_stop_mode = !page.non_stop_mode;
        Some(SettingsChange::NonStopMode(page.non_stop_mode))
    } else if f == 5 {
        page.equalizer_enabled = !page.equalizer_enabled;
        Some(SettingsChange::Equalizer(page.equalizer_enabled))
    } else {
        None
    }
}

/// Handles a key on the settings page and reports what changed.
pub fn handle_settings_key(page: &mut SettingsPage, key: Key) -> (change: Option<SettingsChange>)
    ensures
        (*final(page), change) == settings_step(*old(page), key),
{
    if key_is_up(key) {
        if page.selected_field > 0 {
            page.selected_field = page.selected_field - 1;
        }
        None
    } else if key_is_down(key) {
        if page.selected_field < LAST_SETTINGS_FIELD {
            page.selected_field = page.selected_field + 1;
        }
        None
    } else if key_is_left(key) {
        change_field_exec(page, false)
    } else if key_is_right(key) || key == Key::Enter || key == Key::Char(' ') {
        change_field_exec(page, true)
    } else {
        None
    }
}

/// What happens to the visualiser once a change has been saved.
#[derive(Clone, Copy, PartialEq, Eq, Structural, Debug)]
pub enum CavaFollowUp {
    /// (Re)start it, picking up the new theme colors or size.
    Restart,
    /// Stop it and clear its screen.
    Stop,
    /// Leave it as it is.
    Keep,
}

/// After a change was saved: restart the visualiser when it is enabled,
/// stop it when it is disabled but still running; and whether the
/// equalizer must be applied again (after a short delay).
pub fn settings_follow_up(change: SettingsChange, cava_enabled: bool, cava_running: bool) -> (r: (
    CavaFollowUp,
    bool,
))
    ensures
        r.0 == if cava_enabled {
            CavaFollowUp::Restart
        } else if cava_running {
            CavaFollowUp::Stop
        } else {
            CavaFollowUp::Keep
        },
        r.1 == change is Equalizer,
{
    let cava = if cava_enabled {
        CavaFollowUp::Restart
    } else if cava_running {
        CavaFollowUp::Stop
    } else {
        CavaFollowUp::Keep
    };
    let equalizer = match change {
        SettingsChange::Equalizer(_) => true,
        _ => false,
    };
    (cava, equalizer)
}

/// The selected field never leaves the page: from a field between 0 and 5,
/// every key leads to a field between 0 and 5.
pub proof fn settings_field_stays_on_page(p: SettingsPage, key: Key)
    requires
        p.selected_field <= 5,
    ensures
        settings_step(p, key).0.selected_field <= 5,
{
}

/// The cava size keeps to its steps: from a multiple of 5 between 10 and
/// 80, every key leads to a multiple of 5 between 10 and 80.
pub proof fn cava_size_stays_in_range(p: SettingsPage, key: Key)
    requires
        10 <= p.cava_size <= 80,
        p.cava_size % 5 == 0,
    ensures
        10 <= settings_step(p, key).0.cava_size <= 80,
        settings_step(p, key).0.cava_size % 5 == 0,
{
}

/// Toggling twice undoes itself: on the cava (when available), backend,
/// non-stop and equalizer fields, pressing Enter twice restores the page.
pub proof fn settings_toggle_twice_restores(p: SettingsPage)
    requires
        p.selected_field == 3 || p.selected_field == 4 || p.selected_field == 5 || (
        p.selected_field == 1 && p.cava_available),
    ensures
        settings_step(settings_step(p, Key::Enter).0, Key::Enter).0 == p,
{
}

/// Shrinking then growing the cava pane restores its size, when cava is
/// available and the size is between 15 and 80.
pub proof fn cava_size_shrink_grow_restores(p: SettingsPage)
    requires
        p.selected_field == 2,
        p.cava_available,
        15 <= p.cava_size <= 80,
    ensures
        settings_step(settings_step(p, Key::Left).0, Key::Right).0 == p,
{
}

/// Moving between fields undoes itself: Down then Up, or Up then Down,
/// comes back to the same page, away from the first and last fields.
pub proof fn settings_moves_undo(p: SettingsPage)
    ensures
        p.selected_field < 5 ==> settings_step(settings_step(p, Key::Down).0, Key::Up).0 == p,
        0 < p.selected_field <= 5 ==> settings_step(settings_step(p, Key::Up).0, Key::Down).0 == p,
{
}

/// On a field that is switched on or off (cava when available, backend,
/// non-stop mode, equalizer), the direction does not matter: Left/`h`,
/// Right/`l`, Enter and Space all flip the field and report its new value.
/// On the cava field this means cava is turned on when off and off when on.
pub proof fn toggles_ignore_direction(p: SettingsPage)
    requires
        p.selected_field == 3 || p.selected_field == 4 || p.selected_field == 5 || (
        p.selected_field == 1 && p.cava_available),
    ensures
        settings_step(p, Key::Left) == settings_step(p, Key::Right),
        settings_step(p, Key::Char('h')) == settings_step(p, Key::Enter),
        settings_step(p, Key::Char('h')) == settings_step(p, Key::Char(' ')),
        settings_step(p, Key::Left) == settings_step(p, Key::Char('l')),
        settings_step(p, Key::Left).1 is Some,
        settings_step(p, Key::Left).0 != p,
        p.selected_field == 1 ==> settings_step(p, Key::Left) == (
            SettingsPage { cava_enabled: !p.cava_enabled, ..p },
            Some(SettingsChange::Cava(!p.cava_enabled)),
        ),
{
}

/// On the theme field Left/`h` steps to the previous theme and
/// Right/`l`/Enter/Space to the next; the page itself is unchanged.
pub proof fn theme_keys_step_opposite_ways(p: SettingsPage)
    requires
        p.selected_field == 0,
    ensures
        settings_step(p, Key::Left) == (p, Some(SettingsChange::Theme(Direction::Previous))),
        settings_step(p, Key::Char('h')) == settings_step(p, Key::Left),
        settings_step(p, Key::Right) == (p, Some(SettingsChange::Theme(Direction::Next))),
        settings_step(p, Key::Char('l')) == settings_step(p, Key::Right),
        settings_step(p, Key::Enter) == settings_step(p, Key::Right),
{
}

/// What Right/Enter changes on each field, and the cava size steps: the
/// backend field switches to the other backend, the non-stop and equalizer
/// fields flip their setting, each reporting the new value; on the cava
/// size field Right grows the pane by 5 up to 80 and Left shrinks it by 5
/// down to 10, and at the limit nothing changes; without cava both cava
/// fields ignore Left and Right.
pub proof fn settings_field_changes(p: SettingsPage)
    ensures
        p.selected_field == 3 ==> settings_step(p, Key::Right) == (
            SettingsPage { audio_backend: p.audio_backend.other(), ..p },
            Some(SettingsChange::Backend(p.audio_backend.other())),
        ),
        p.selected_field == 3 ==> settings_step(p, Key::Right).0.audio_backend != p.audio_backend,
        p.selected_field == 4 ==> settings_step(p, Key::Right) == (
            SettingsPage { non_stop_mode: !p.non_stop_mode, ..p },
            Some(SettingsChange::NonStopMode(!p.non_stop_mode)),
        ),
        p.selected_field == 5 ==> settings_step(p, Key::Right) == (
            SettingsPage { equalizer_enabled: !p.equalizer_enabled, ..p },
            Some(SettingsChange::Equalizer(!p.equalizer_enabled)),
        ),
        p.selected_field == 2 && p.cava_available && p.cava_size < 80 ==> settings_step(p, Key::Right)
            == (
            SettingsPage { cava_size: (p.cava_size + 5) as u32, ..p },
            Some(SettingsChange::CavaSize((p.cava_size + 5) as u32)),
        ),
        p.selected_field == 2 && p.cava_available && p.cava_size >= 80 ==> settings_step(p, Key::Right)
            == (p, None::<SettingsChange>),
        p.selected_field == 2 && p.cava_available && p.cava_size > 10 ==> settings_step(p, Key::Left)
            == (
            SettingsPage { cava_size: (p.cava_size - 5) as u32, ..p },
            Some(SettingsChange::CavaSize((p.cava_size - 5) as u32)),
        ),
        p.selected_field == 2 && p.cava_available && p.cava_size <= 10 ==> settings_step(p, Key::Left)
            == (p, None::<SettingsChange>),
        (p.selected_field == 1 || p.selected_field == 2) && !p.cava_available ==> settings_step(
            p,
            Key::Left,
        ) == (p, None::<SettingsChange>) && settings_step(p, Key::Right) == (p, None::<SettingsChange>),
{
}

} // verus!
