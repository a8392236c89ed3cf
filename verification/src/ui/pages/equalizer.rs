//! Text of the equalizer page: the preset list, the status line, the line
//! of the name being typed, which band is highlighted and the help bar.
//! The band gains themselves are floating-point and drawn by the caller.

use vstd::prelude::*;
use crate::text::push_str;

verus! {

/// A line of the preset list: `> ` before the selected preset, two spaces
/// before the others.
pub fn preset_line(name: &str, selected: bool) -> (s: String)
    ensures
        s@ == (if selected {
            "> "@
        } else {
            "  "@
        }) + name@,
{
    let mut s = String::new();
    if selected {
        push_str(&mut s, "> ");
    } else {
        push_str(&mut s, "  ");
    }
    push_str(&mut s, name);
    s
}

/// The status line: `Status: ON  Preset: <name>` (or `OFF`).
pub fn status_line(enabled: bool, preset_name: &str) -> (s: String)
    ensures
        s@ == "Status: "@ + (if enabled {
            "ON"@
        } else {
            "OFF"@
        }) + "  Preset: "@ + preset_name@,
{
    let mut s = String::new();
    push_str(&mut s, "Status: ");
    if enabled {
        push_str(&mut s, "ON");
    } else {
        push_str(&mut s, "OFF");
    }
    push_str(&mut s, "  Preset: ");
    push_str(&mut s, preset_name);
    s
}

/// The line shown while a name is typed: `Rename: <typed>_`.
pub fn rename_line(buffer: &str) -> (s: String)
    ensures
        s@ == "Rename: "@ + buffer@ + "_"@,
{
    let mut s = String::new();
    push_str(&mut s, "Rename: ");
    push_str(&mut s, buffer);
    push_str(&mut s, "_");
    s
}

/// Whether the line of band `band` is highlighted: only the edited band
/// while editing, none while a name is typed.
pub fn band_highlighted(renaming: bool, editing: bool, band: usize, selected_band: usize) -> (b: bool)
    ensures
        b == (!renaming && editing && band == selected_band),
{
    !renaming && editing && band == selected_band
}

/// The help bar: the keys of the current mode.
pub fn help_text(renaming: bool, editing: bool) -> (s: &'static str)
    ensures
        s@ == if renaming {
            "Type new name  Enter save rename  Backspace delete char  Esc cancel"@
        } else if editing {
            "↑↓ band  ←/→ ±0.5dB  ⇧←/⇧→ ±2dB  0 zero band  r reset all  Esc save & exit"@
        } else {
            "↑↓ select  ←/→ prev-next  Enter on/off  e edit bands  R rename  n new  D delete"@
        },
{
    if renaming {
        "Type new name  Enter save rename  Backspace delete char  Esc cancel"
    } else if editing {
        "↑↓ band  ←/→ ±0.5dB  ⇧←/⇧→ ±2dB  0 zero band  r reset all  Esc save & exit"
    } else {
        "↑↓ select  ←/→ prev-next  Enter on/off  e edit bands  R rename  n new  D delete"
    }
}

/// The page needs at least this many rows inside its border to be drawn.
pub const MIN_EQUALIZER_ROWS: u16 = 8;

/// Whether the page is drawn in an inner area of `height` rows.
pub fn equalizer_fits(height: u16) -> (b: bool)
    ensures
        b == (height >= MIN_EQUALIZER_ROWS),
{
    height >= MIN_EQUALIZER_ROWS
}

} // verus!
