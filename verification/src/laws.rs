//! The guarantees the state machine gives across transitions, proved once
//! and for all states: mutual exclusion of the recording slot, the no-op
//! behaviour of refused presses, the inclusive hold threshold, the
//! equivalence of a deleted key with a never-recorded one, the STOP retry
//! discipline, and the unconditional exit gesture.

use vstd::prelude::*;

use crate::gesture::{spec_classify, Gesture, HOLD_THRESHOLD_MS};
use crate::icons::IconState;
use crate::machine::{
    spec_press, spec_release, spec_status_reply, spec_stop_reply, EffectView, OutcomeView,
    StateView,
};
use crate::protocol::signals_listening;

verus! {

/// Global mutual exclusion: at most one key is in the Recording state at
/// any time.
pub proof fn lemma_recording_mutual_exclusion(s: StateView, k1: u8, k2: u8)
    requires
        s.is_recording(k1),
        s.is_recording(k2),
    ensures
        k1 == k2,
{
}

/// A press-down on an empty key changes nothing by itself: it only asks
/// the event loop to query `STATUS`.
pub proof fn lemma_empty_press_queries(s: StateView, key: u8, now_ms: u64)
    requires
        s.is_bound(key),
        !s.is_recording(key),
    ensures
        spec_press(s, key, false, now_ms).0 == s,
        spec_press(s, key, false, now_ms).1 == (OutcomeView {
            effect: EffectView::QueryStatus,
            icon: None,
            error: None,
        }),
{
}

/// A `STATUS` reply that does not signal "Listening" — or a failed
/// exchange — never changes the recording session or the icon: the state
/// is left as it was, no command is issued, and nothing is drawn.
pub proof fn lemma_not_listening_is_noop(s: StateView, key: u8, reply: Option<Seq<char>>)
    requires
        (match reply {
            Some(line) => !signals_listening(line),
            None => true,
        }),
    ensures
        spec_status_reply(s, key, reply).0 == s,
        spec_status_reply(s, key, reply).1.effect == EffectView::NoEffect,
        spec_status_reply(s, key, reply).1.icon is None,
{
}

/// A release at exactly the threshold takes the delete branch: the hold
/// threshold is inclusive.
pub proof fn lemma_boundary_release_deletes(s: StateView, key: u8, key_count: u8, now_ms: u64)
    requires
        s.wf(),
        s.is_held(key),
        !s.is_recording(key),
        key as int != key_count as int - 1,
        now_ms == s.hold_started_at(key) + HOLD_THRESHOLD_MS,
    ensures
        spec_release(s, key, now_ms, key_count).1.effect == EffectView::DeleteFile(
            s.binding(key),
        ),
{
}

/// After a hold-delete completes on a key, the next press with the file
/// absent behaves exactly as a press on a key that never had a file: the
/// state is untouched and the daemon is queried — the key is
/// START-eligible again.
pub proof fn lemma_delete_then_press_is_empty_press(
    s: StateView,
    key: u8,
    key_count: u8,
    release_ms: u64,
    press_ms: u64,
)
    requires
        s.wf(),
        s.is_held(key),
        !s.is_recording(key),
        key as int != key_count as int - 1,
        spec_classify(release_ms - s.hold_started_at(key)) == Gesture::Hold,
    ensures
        ({
            let ended = spec_release(s, key, release_ms, key_count).0;
            &&& spec_release(s, key, release_ms, key_count).1.effect == EffectView::DeleteFile(
                s.binding(key),
            )
            &&& ended.is_bound(key)
            &&& !ended.is_held(key)
            &&& !ended.is_recording(key)
            &&& spec_press(ended, key, false, press_ms).0 == ended
            &&& spec_press(ended, key, false, press_ms).1 == (OutcomeView {
                effect: EffectView::QueryStatus,
                icon: None,
                error: None,
            })
        }),
{
}

/// A failed `STOP` never silently resets the live slot: the key stays in
/// the Recording state, the next release of it retries `STOP`, and only a
/// successful reply frees the slot and switches the icon to has-file.
pub proof fn lemma_stop_retry(s: StateView, key: u8, key_count: u8, t1: u64, t2: u64)
    requires
        s.wf(),
        s.is_recording(key),
        key as int != key_count as int - 1,
    ensures
        ({
            let first = spec_release(s, key, t1, key_count);
            let failed = spec_stop_reply(first.0, key, false);
            let second = spec_release(failed.0, key, t2, key_count);
            let succeeded = spec_stop_reply(second.0, key, true);
            &&& first.1.effect == EffectView::SendStop
            &&& failed.0 == s
            &&& failed.0.is_recording(key)
            &&& failed.1.icon is None
            &&& second.1.effect == EffectView::SendStop
            &&& succeeded.0.active is None
            &&& succeeded.1.icon == Some(IconState::HasFile)
        }),
{
}

/// Releasing the highest-indexed key exits the loop whatever the state:
/// recording in progress, hold in flight, or nothing at all — and the
/// state is left untouched on the way out.
pub proof fn lemma_exit_gesture(s: StateView, now_ms: u64, key_count: u8)
    requires
        key_count >= 1,
    ensures
        spec_release(s, (key_count - 1) as u8, now_ms, key_count).1.effect == EffectView::Exit,
        spec_release(s, (key_count - 1) as u8, now_ms, key_count).0 == s,
{
}

} // verus!
