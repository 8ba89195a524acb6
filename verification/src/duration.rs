//! Track duration: what a duration probe's outcome becomes in the
//! track's metadata.
//!
//! The probe itself — opening the file on disk and walking its frames —
//! happens outside the library, which only ever sees the plain outcome:
//! milliseconds on success, nothing on any failure.  Whatever came
//! back, the rule here turns a failure into a zero duration, so a
//! caller cannot tell a zero-length track from a failed probe and no
//! error is ever surfaced.

use vstd::prelude::*;

verus! {

/// What a duration probe becomes in the track's metadata: the measured
/// milliseconds, or zero when the probe failed.
pub open spec fn duration_or_zero_spec(probe: Option<u64>) -> u64 {
    match probe {
        Some(d) => d,
        None => 0,
    }
}

/// Turn a probe's outcome into the reported duration: a failed probe
/// reports zero rather than an error.
pub fn duration_or_zero(probe: Option<u64>) -> (r: u64)
    ensures
        r == duration_or_zero_spec(probe),
{
    match probe {
        Some(d) => d,
        None => 0,
    }
}

} // verus!
