//! Playback commands and the volume scale they carry.
//!
//! Volume is measured in thousandths of full volume, so the legal range
//! `[0, 1]` of the outside world becomes `[0, VOLUME_SCALE]` here.
//! Seek positions and durations are measured in milliseconds.

use vstd::prelude::*;

verus! {

/// Full volume, in thousandths.
pub const VOLUME_SCALE: u32 = 1000;

/// The volume the player starts with: three quarters of full volume.
pub const DEFAULT_VOLUME: u32 = 750;

/// A directive sent from the control surface to the playback worker.
/// Immutable once constructed; consumed exactly once by the worker.
#[derive(Debug, Clone, PartialEq, Eq)]
pub enum PlaybackCommand {
    /// Record the given path as the current track; do not start playback.
    Load(String),
    /// Start playing the current track from the beginning.
    Play,
    /// Pause the active sink, if any.
    Pause,
    /// Resume the active sink, if any.
    Resume,
    /// Stop and discard the active sink, if any.
    Stop,
    /// Update the worker's cached volume (in thousandths of full volume)
    /// and apply it to the active sink, if any.
    SetVolume(u32),
    /// Ask the active sink, if any, to seek to the given offset in
    /// milliseconds; best effort.
    Seek(u64),
}

impl PlaybackCommand {
    /// A command is well formed when any volume it carries is within the
    /// legal range.  The control surface clamps before sending, so the
    /// worker only ever sees well-formed commands.
    pub open spec fn wf(self) -> bool {
        match self {
            PlaybackCommand::SetVolume(v) => v <= VOLUME_SCALE,
            _ => true,
        }
    }
}

/// What a requested volume becomes once the control surface has clamped
/// it to the legal range.
pub open spec fn clamped_volume(v: i64) -> u32 {
    if v < 0 {
        0
    } else if v > VOLUME_SCALE {
        VOLUME_SCALE as u32
    } else {
        v as u32
    }
}

/// Clamp a requested volume (in thousandths of full volume) to the legal
/// range `[0, VOLUME_SCALE]`.
pub fn clamp_volume(v: i64) -> (r: u32)
    ensures
        r == clamped_volume(v),
        r <= VOLUME_SCALE,
{
    if v < 0 {
        0
    } else if v > VOLUME_SCALE as i64 {
        VOLUME_SCALE
    } else {
        v as u32
    }
}

} // verus!
