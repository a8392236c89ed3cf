//! Decisions taken when the application starts: which audio backend ends
//! up in use, whether the visualiser runs, and the first selections once
//! the library is loaded. The caller checks for programs and starts them.

use vstd::prelude::*;

verus! {

/// What the user is told about starting the audio backend.
#[derive(Clone, Copy, PartialEq, Eq, Structural, Debug)]
pub enum StartupNotice {
    /// Nothing to report.
    Quiet,
    /// FFmpeg was chosen but failed to start: MPV is used instead.
    FfmpegFailed,
    /// FFmpeg was chosen but is not installed: MPV is used instead, and the
    /// setting is switched to MPV.
    FfmpegMissing,
    /// MPV was chosen and failed to start.
    MpvFailed,
}

/// The outcome of starting the audio backend.
#[derive(Clone, Copy, PartialEq, Eq, Structural, Debug)]
pub struct StartupPlan {
    /// Whether playback goes through the FFmpeg backend.
    pub use_ffmpeg: bool,
    /// What to tell the user.
    pub notice: StartupNotice,
    /// Whether the backend setting is switched to MPV.
    pub switch_setting_to_mpv: bool,
}

/// Whether MPV must be started: when it was chosen, or when FFmpeg was
/// chosen and is missing or failed to start. `ffmpeg_started` is only
/// consulted when FFmpeg was chosen and is installed.
pub open spec fn mpv_needed(prefer_ffmpeg: bool, ffmpeg_available: bool, ffmpeg_started: bool) -> bool {
    !prefer_ffmpeg || !ffmpeg_available || !ffmpeg_started
}

/// Whether MPV must be started.
pub fn mpv_start_needed(prefer_ffmpeg: bool, ffmpeg_available: bool, ffmpeg_started: bool) -> (b: bool)
    ensures
        b == mpv_needed(prefer_ffmpeg, ffmpeg_available, ffmpeg_started),
{
    !prefer_ffmpeg || !ffmpeg_available || !ffmpeg_started
}

/// The outcome of starting the backend, from the user's choice and the
/// results of the starts that were made. When FFmpeg was chosen and MPV,
/// the fallback, fails too, the FFmpeg flag stays set.
pub open spec fn startup_plan_spec(
    prefer_ffmpeg: bool,
    ffmpeg_available: bool,
    ffmpeg_started: bool,
    mpv_started: bool,
) -> StartupPlan {
    if !prefer_ffmpeg {
        StartupPlan {
            use_ffmpeg: false,
            notice: if mpv_started {
                StartupNotice::Quiet
            } else {
                StartupNotice::MpvFailed
            },
            switch_setting_to_mpv: false,
        }
    } else if !ffmpeg_available {
        StartupPlan {
            use_ffmpeg: !mpv_started,
            notice: StartupNotice::FfmpegMissing,
            switch_setting_to_mpv: true,
        }
    } else if !ffmpeg_started {
        StartupPlan {
            use_ffmpeg: !mpv_started,
            notice: StartupNotice::FfmpegFailed,
            switch_setting_to_mpv: false,
        }
    } else {
        StartupPlan { use_ffmpeg: true, notice: StartupNotice::Quiet, switch_setting_to_mpv: false }
    }
}

/// Decides the outcome of starting the backend.
pub fn startup_plan(prefer_ffmpeg: bool, ffmpeg_available: bool, ffmpeg_started: bool, mpv_started: bool) -> (p:
    StartupPlan)
    ensures
        p == startup_plan_spec(prefer_ffmpeg, ffmpeg_available, ffmpeg_started, mpv_started),
{
    if !prefer_ffmpeg {
        let notice = if mpv_started {
            StartupNotice::Quiet
        } else {
            StartupNotice::MpvFailed
        };
        StartupPlan { use_ffmpeg: false, notice, switch_setting_to_mpv: false }
    } else if !ffmpeg_available {
        StartupPlan {
            use_ffmpeg: !mpv_started,
            notice: StartupNotice::FfmpegMissing,
            switch_setting_to_mpv: true,
        }
    } else if !ffmpeg_started {
        StartupPlan {
            use_ffmpeg: !mpv_started,
            notice: StartupNotice::FfmpegFailed,
            switch_setting_to_mpv: false,
        }
    } else {
        StartupPlan { use_ffmpeg: true, notice: StartupNotice::Quiet, switch_setting_to_mpv: false }
    }
}

/// A working backend is the one in use: when the FFmpeg backend started it
/// is used, and when MPV started it is used.
pub proof fn started_backend_is_used(
    prefer_ffmpeg: bool,
    ffmpeg_available: bool,
    ffmpeg_started: bool,
    mpv_started: bool,
)
    ensures
        prefer_ffmpeg && ffmpeg_available && ffmpeg_started ==> startup_plan_spec(
            prefer_ffmpeg,
            ffmpeg_available,
            ffmpeg_started,
            mpv_started,
        ).use_ffmpeg,
        mpv_needed(prefer_ffmpeg, ffmpeg_available, ffmpeg_started) && mpv_started
            ==> !startup_plan_spec(prefer_ffmpeg, ffmpeg_available, ffmpeg_started, mpv_started).use_ffmpeg,
{
}

/// Whether the visualiser stays enabled and is started: only when it is
/// enabled and the `cava` program is installed.
pub fn cava_enabled_at_start(enabled: bool, available: bool) -> (b: bool)
    ensures
        b == (enabled && available),
{
    enabled && available
}

/// The selection of a list that was just loaded: its first entry, or none
/// when it is empty.
pub fn first_selection(count: usize) -> (r: Option<usize>)
    ensures
        r == if count > 0 {
            Some(0usize)
        } else {
            None::<usize>
        },
{
    if count > 0 {
        Some(0)
    } else {
        None
    }
}

} // verus!
