//! The texts of the notifications the application shows, and whether each
//! is shown as an error.

use vstd::prelude::*;
use crate::app::equalizer::EqNotice;
use crate::app::settings::SettingsChange;
use crate::app::startup::StartupNotice;
use crate::text::{decimal, push_decimal, push_str};

verus! {

/// `On` or `Off`.
pub open spec fn on_off(b: bool) -> Seq<char> {
    if b {
        "On"@
    } else {
        "Off"@
    }
}

fn push_on_off(s: &mut String, b: bool)
    ensures
        final(s)@ == old(s)@ + on_off(b),
{
    if b {
        push_str(s, "On");
    } else {
        push_str(s, "Off");
    }
}

/// The text of an equalizer notice and whether it is an error. `name` is
/// the selected preset's name (before a rename, the old name) and `other`
/// the name typed or created.
pub open spec fn eq_notice_spec(notice: EqNotice, enabled: bool, name: Seq<char>, other: Seq<char>) -> (Seq<char>, bool) {
    match notice {
        EqNotice::RenameCanceled => ("EQ preset rename canceled"@, false),
        EqNotice::EmptyName => ("Preset name cannot be empty"@, true),
        EqNotice::DuplicateName => ("A preset named \""@ + other + "\" already exists"@, true),
        EqNotice::PresetSaved => ("EQ preset saved: "@ + name, false),
        EqNotice::EditingHelp => (
            "Editing \""@ + name
                + "\": ↑↓ band  ←/→ ±0.5dB  ⇧←/⇧→ ±2dB  0 zero  r reset  Esc save"@,
            false,
        ),
        EqNotice::RenameHelp => ("Rename preset: type a new name and press Enter (Esc to cancel)"@, false),
        EqNotice::Status => ("EQ: "@ + on_off(enabled) + " ("@ + name + ")"@, false),
        EqNotice::CannotDeleteLast => ("Cannot delete the last preset"@, true),
        EqNotice::BandsReset => ("All bands reset to 0 dB"@, false),
        EqNotice::Renamed => ("Renamed preset: "@ + name + " -> "@ + other, false),
        EqNotice::Created => ("Created preset: "@ + other, false),
        EqNotice::Deleted => ("Deleted preset: "@ + name, false),
    }
}

/// The text of an equalizer notice and whether it is an error.
pub fn eq_notice_text(notice: EqNotice, enabled: bool, name: &str, other: &str) -> (r: (String, bool))
    ensures
        (r.0@, r.1) == eq_notice_spec(notice, enabled, name@, other@),
{
    let mut s = String::new();
    let error = match notice {
        EqNotice::RenameCanceled => {
            push_str(&mut s, "EQ preset rename canceled");
            false
        },
        EqNotice::EmptyName => {
            push_str(&mut s, "Preset name cannot be empty");
            true
        },
        EqNotice::DuplicateName => {
            push_str(&mut s, "A preset named \"");
            push_str(&mut s, other);
            push_str(&mut s, "\" already exists");
            true
        },
        EqNotice::PresetSaved => {
            push_str(&mut s, "EQ preset saved: ");
            push_str(&mut s, name);
            false
        },
        EqNotice::EditingHelp => {
            push_str(&mut s, "Editing \"");
            push_str(&mut s, name);
            push_str(&mut s, "\": ↑↓ band  ←/→ ±0.5dB  ⇧←/⇧→ ±2dB  0 zero  r reset  Esc save");
            false
        },
        EqNotice::RenameHelp => {
            push_str(&mut s, "Rename preset: type a new name and press Enter (Esc to cancel)");
            false
        },
        EqNotice::Status => {
            push_str(&mut s, "EQ: ");
            push_on_off(&mut s, enabled);
            push_str(&mut s, " (");
            push_str(&mut s, name);
            push_str(&mut s, ")");
            false
        },
        EqNotice::CannotDeleteLast => {
            push_str(&mut s, "Cannot delete the last preset");
            true
        },
        EqNotice::BandsReset => {
            push_str(&mut s, "All bands reset to 0 dB");
            false
        },
        EqNotice::Renamed => {
            push_str(&mut s, "Renamed preset: ");
            push_str(&mut s, name);
            push_str(&mut s, " -> ");
            push_str(&mut s, other);
            false
        },
        EqNotice::Created => {
            push_str(&mut s, "Created preset: ");
            push_str(&mut s, other);
            false
        },
        EqNotice::Deleted => {
            push_str(&mut s, "Deleted preset: ");
            push_str(&mut s, name);
            false
        },
    };
    (s, error)
}

/// The text shown after a settings change. `theme_label` is the name of
/// the theme now selected, `backend_label` the display name of the backend
/// now chosen and `preset_name` the selected equalizer preset.
pub open spec fn settings_notice_spec(
    change: SettingsChange,
    theme_label: Seq<char>,
    backend_label: Seq<char>,
    preset_name: Seq<char>,
) -> Seq<char> {
    match change {
        SettingsChange::Theme(_) => "Theme: "@ + theme_label,
        SettingsChange::Cava(on) => "Cava: "@ + on_off(on),
        SettingsChange::CavaSize(n) => "Cava Size: "@ + decimal(n as nat) + "%"@,
        SettingsChange::Backend(_) => "Audio Backend: "@ + backend_label + " (restart required)"@,
        SettingsChange::NonStopMode(on) => "Non-stop mode: "@ + on_off(on),
        SettingsChange::Equalizer(on) => "Equalizer: "@ + on_off(on) + " ("@ + preset_name + ")"@,
    }
}

/// The text shown after a settings change.
pub fn settings_notice_text(
    change: SettingsChange,
    theme_label: &str,
    backend_label: &str,
    preset_name: &str,
) -> (s: String)
    ensures
        s@ == settings_notice_spec(change, theme_label@, backend_label@, preset_name@),
{
    let mut s = String::new();
    match change {
        SettingsChange::Theme(_) => {
            push_str(&mut s, "Theme: ");
            push_str(&mut s, theme_label);
        },
        SettingsChange::Cava(on) => {
            push_str(&mut s, "Cava: ");
            push_on_off(&mut s, on);
        },
        SettingsChange::CavaSize(n) => {
            push_str(&mut s, "Cava Size: ");
            push_decimal(&mut s, n as u64);
            push_str(&mut s, "%");
        },
        SettingsChange::Backend(_) => {
            push_str(&mut s, "Audio Backend: ");
            push_str(&mut s, backend_label);
            push_str(&mut s, " (restart required)");
        },
        SettingsChange::NonStopMode(on) => {
            push_str(&mut s, "Non-stop mode: ");
            push_on_off(&mut s, on);
        },
        SettingsChange::Equalizer(on) => {
            push_str(&mut s, "Equalizer: ");
            push_on_off(&mut s, on);
            push_str(&mut s, " (");
            push_str(&mut s, preset_name);
            push_str(&mut s, ")");
        },
    }
    s
}

/// The error shown when starting the audio backend, with the message of
/// the failure; none when it started quietly.
pub open spec fn startup_notice_spec(notice: StartupNotice, error: Seq<char>) -> Option<Seq<char>> {
    match notice {
        StartupNotice::Quiet => None,
        StartupNotice::FfmpegFailed => Some("FFmpeg error: "@ + error + ". Falling back to MPV."@),
        StartupNotice::FfmpegMissing => Some("FFmpeg not found. Using MPV instead."@),
        StartupNotice::MpvFailed => Some("Failed to start MPV: "@ + error + ". Is mpv installed?"@),
    }
}

/// The error shown when starting the audio backend.
pub fn startup_notice_text(notice: StartupNotice, error: &str) -> (r: Option<String>)
    ensures
        match r {
            Some(s) => startup_notice_spec(notice, error@) == Some(s@),
            None => startup_notice_spec(notice, error@) is None,
        },
{
    let mut s = String::new();
    match notice {
        StartupNotice::Quiet => {
            return None;
        },
        StartupNotice::FfmpegFailed => {
            push_str(&mut s, "FFmpeg error: ");
            push_str(&mut s, error);
            push_str(&mut s, ". Falling back to MPV.");
        },
        StartupNotice::FfmpegMissing => {
            push_str(&mut s, "FFmpeg not found. Using MPV instead.");
        },
        StartupNotice::MpvFailed => {
            push_str(&mut s, "Failed to start MPV: ");
            push_str(&mut s, error);
            push_str(&mut s, ". Is mpv installed?");
        },
    }
    Some(s)
}

/// The error shown for a rating out of range.
pub const RATING_OUT_OF_RANGE: &'static str = "Rating must be between 0 and 5";

/// The error shown when no server is configured.
pub const SERVER_NOT_CONFIGURED: &'static str = "Server not configured";

/// The notice after a song was rated: `Rating: <r>/5 - <title>`.
pub fn rating_notice_text(rating: u8, title: &str) -> (s: String)
    ensures
        s@ == "Rating: "@ + decimal(rating as nat) + "/5 - "@ + title@,
{
    let mut s = String::new();
    push_str(&mut s, "Rating: ");
    push_decimal(&mut s, rating as u64);
    push_str(&mut s, "/5 - ");
    push_str(&mut s, title);
    s
}

/// The notice after a radio station started: `Playing: <name>`.
pub fn radio_playing_text(name: &str) -> (s: String)
    ensures
        s@ == "Playing: "@ + name@,
{
    let mut s = String::new();
    push_str(&mut s, "Playing: ");
    push_str(&mut s, name);
    s
}

/// An error message with what failed in front: `<what>: <error>` (as in
/// `Failed to set rating: ...`, `Radio error: ...`).
pub fn failure_text(what: &str, error: &str) -> (s: String)
    ensures
        s@ == what@ + ": "@ + error@,
{
    let mut s = String::new();
    push_str(&mut s, what);
    push_str(&mut s, ": ");
    push_str(&mut s, error);
    s
}

} // verus!
