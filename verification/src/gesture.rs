//! Tap/hold disambiguation: a press-release pair is classified once, at
//! release time, from the elapsed duration against a single named threshold.

use vstd::prelude::*;

verus! {

/// The single tunable gesture threshold, in milliseconds. A hold of at
/// least this long (inclusive) deletes the recording; anything shorter
/// plays it back.
pub const HOLD_THRESHOLD_MS: u64 = 2000;

/// The two gestures a press-release pair on a key with a recording can mean.
#[derive(Clone, Copy, Debug, PartialEq, Eq, Structural)]
pub enum Gesture {
    /// A short press: play the recording back.
    Tap,
    /// A long press: delete the recording.
    Hold,
}

/// What `elapsed_ms` milliseconds between press and release mean.
/// The threshold is inclusive: exactly `HOLD_THRESHOLD_MS` is a hold.
pub open spec fn spec_classify(elapsed_ms: int) -> Gesture {
    if elapsed_ms >= HOLD_THRESHOLD_MS {
        Gesture::Hold
    } else {
        Gesture::Tap
    }
}

/// The one place where an elapsed press duration is compared against
/// the threshold.
pub fn classify_gesture(elapsed_ms: u64) -> (g: Gesture)
    ensures
        g == spec_classify(elapsed_ms as int),
{
    if elapsed_ms >= HOLD_THRESHOLD_MS {
        Gesture::Hold
    } else {
        Gesture::Tap
    }
}

} // verus!
