//! The per-key button state machine: consumes press/release events, keeps
//! the single live-recording slot and the in-flight hold timers, and tells
//! the event loop which outside effect to perform and which icon to draw.
//!
//! A key's logical state is computed on demand, never stored: it is Empty
//! when its file is absent and it is not the active key, Recording when it
//! is the active key, and HasFile when its file is present — subdivided by
//! hold-tracker membership into idle-with-file and held. File presence is
//! supplied by the caller at each press, so the filesystem itself stays
//! the source of truth.

use vstd::prelude::*;
use vstd::pervasive::unreached;

use crate::gesture::{classify_gesture, spec_classify, Gesture};
use crate::icons::IconState;
use crate::protocol::{
    response_signals_listening, signals_listening, start_command, start_command_view,
};

verus! {

/// The failure kinds the controller recovers from locally: each is logged
/// by the event loop and folded into a no-op or "state unchanged" outcome,
/// never ending the loop itself.
#[derive(Clone, Copy, Debug, PartialEq, Eq, Structural)]
pub enum ErrorKind {
    /// The daemon could not be reached, or the exchange broke off.
    ConnectionError,
    /// The daemon's `STATUS` reply did not signal that it is idle.
    DaemonBusyOrUnknown,
    /// Deleting a recording file failed; the file is left in place.
    FileSystemError,
    /// The external player could not be spawned or exited non-zero.
    PlaybackError,
}

/// What the daemon client handed back for one command: the single reply
/// line it read, or the fact that the exchange failed.
pub enum DaemonReply {
    Line(String),
    ConnectionFailed,
}

impl View for DaemonReply {
    type V = Option<Seq<char>>;

    open spec fn view(&self) -> Option<Seq<char>> {
        match self {
            DaemonReply::Line(s) => Some(s@),
            DaemonReply::ConnectionFailed => None,
        }
    }
}

/// The outside work one transition asks the event loop to perform before
/// the next event is processed.
pub enum Effect {
    /// Nothing beyond the icon and log entries of the outcome.
    NoEffect,
    /// Send `STATUS` to the daemon and report its reply via `on_status_reply`.
    QueryStatus,
    /// Send the given `START` command line; report via `on_start_reply`.
    SendStart(String),
    /// Send `STOP`; report via `on_stop_reply`.
    SendStop,
    /// Delete the file at the given path; render `delete_reply_outcome`.
    DeleteFile(String),
    /// Launch playback of the given path, fire-and-forget.
    LaunchPlayback(String),
    /// Terminate the control loop: the exit gesture was released.
    Exit,
}

#[verifier::ext_equal]
pub enum EffectView {
    NoEffect,
    QueryStatus,
    SendStart(Seq<char>),
    SendStop,
    DeleteFile(Seq<char>),
    LaunchPlayback(Seq<char>),
    Exit,
}

impl View for Effect {
    type V = EffectView;

    open spec fn view(&self) -> EffectView {
        match self {
            Effect::NoEffect => EffectView::NoEffect,
            Effect::QueryStatus => EffectView::QueryStatus,
            Effect::SendStart(cmd) => EffectView::SendStart(cmd@),
            Effect::SendStop => EffectView::SendStop,
            Effect::DeleteFile(path) => EffectView::DeleteFile(path@),
            Effect::LaunchPlayback(path) => EffectView::LaunchPlayback(path@),
            Effect::Exit => EffectView::Exit,
        }
    }
}

/// Everything one transition tells the event loop: the effect to perform,
/// the icon (if any) to draw on the key — every icon write is followed by
/// a flush before the next event — and the error (if any) to log.
pub struct Outcome {
    pub effect: Effect,
    pub icon: Option<IconState>,
    pub error: Option<ErrorKind>,
}

#[verifier::ext_equal]
pub struct OutcomeView {
    pub effect: EffectView,
    pub icon: Option<IconState>,
    pub error: Option<ErrorKind>,
}

impl View for Outcome {
    type V = OutcomeView;

    open spec fn view(&self) -> OutcomeView {
        OutcomeView { effect: self.effect@, icon: self.icon, error: self.error }
    }
}

/// An outcome that asks for nothing: the event was ignored.
pub open spec fn quiet() -> OutcomeView {
    OutcomeView { effect: EffectView::NoEffect, icon: None, error: None }
}

/// The controller's state as contracts speak of it.
#[verifier::ext_equal]
pub struct StateView {
    /// Per key: the bound recording path, or `None` for an unbound key.
    pub bindings: Seq<Option<Seq<char>>>,
    /// The single live recording slot: the key whose `START` succeeded and
    /// whose `STOP` has not succeeded yet, if any.
    pub active: Option<u8>,
    /// Per key: the press instant of the in-flight hold, in milliseconds.
    pub holds: Seq<Option<u64>>,
}

impl StateView {
    pub open spec fn wf(self) -> bool {
        &&& self.holds.len() == self.bindings.len()
        &&& forall|i: int|
            0 <= i < self.holds.len() && self.holds[i] is Some ==> self.bindings[i] is Some
        &&& match self.active {
            Some(k) => k < self.bindings.len() && self.bindings[k as int] is Some,
            None => true,
        }
    }

    /// The key has a recording path bound to it.
    pub open spec fn is_bound(self, key: u8) -> bool {
        key < self.bindings.len() && self.bindings[key as int] is Some
    }

    /// The path bound to the key.
    pub open spec fn binding(self, key: u8) -> Seq<char> {
        self.bindings[key as int]->0
    }

    /// The key is in the Recording state: it owns the live recording slot.
    pub open spec fn is_recording(self, key: u8) -> bool {
        self.active == Some(key)
    }

    /// A hold gesture is in flight on the key.
    pub open spec fn is_held(self, key: u8) -> bool {
        key < self.holds.len() && self.holds[key as int] is Some
    }

    /// When the in-flight hold on the key began.
    pub open spec fn hold_started_at(self, key: u8) -> u64 {
        self.holds[key as int]->0
    }
}

/// The state a freshly constructed controller is in: nothing recording,
/// no hold in flight.
pub open spec fn spec_initial(bindings: Seq<Option<Seq<char>>>) -> StateView {
    StateView {
        bindings,
        active: None,
        holds: Seq::new(bindings.len(), |i: int| None::<u64>),
    }
}

/// Press-down. An unbound key and a re-press of the active key are
/// ignored. A key whose file exists starts a hold and arms the
/// "recording" icon; an empty key asks the event loop to query `STATUS`
/// and changes nothing yet.
pub open spec fn spec_press(s: StateView, key: u8, file_exists: bool, now_ms: u64) -> (
    StateView,
    OutcomeView,
) {
    if !s.is_bound(key) {
        (s, quiet())
    } else if s.is_recording(key) {
        (s, quiet())
    } else if file_exists {
        (
            StateView { holds: s.holds.update(key as int, Some(now_ms)), ..s },
            OutcomeView {
                effect: EffectView::NoEffect,
                icon: Some(IconState::Recording),
                error: None,
            },
        )
    } else {
        (s, OutcomeView { effect: EffectView::QueryStatus, icon: None, error: None })
    }
}

/// The `STATUS` reply came back. Only a reply that signals the daemon is
/// idle leads anywhere: a `START` command for the key's path. A busy or
/// unknown reply, a failed exchange, or a key that lost its binding
/// changes nothing; the state is never touched here.
pub open spec fn spec_status_reply(s: StateView, key: u8, reply: Option<Seq<char>>) -> (
    StateView,
    OutcomeView,
) {
    match reply {
        None => (
            s,
            OutcomeView {
                effect: EffectView::NoEffect,
                icon: None,
                error: Some(ErrorKind::ConnectionError),
            },
        ),
        Some(line) => {
            if !signals_listening(line) {
                (
                    s,
                    OutcomeView {
                        effect: EffectView::NoEffect,
                        icon: None,
                        error: Some(ErrorKind::DaemonBusyOrUnknown),
                    },
                )
            } else if s.is_bound(key) {
                (
                    s,
                    OutcomeView {
                        effect: EffectView::SendStart(start_command_view(s.binding(key))),
                        icon: None,
                        error: None,
                    },
                )
            } else {
                (s, quiet())
            }
        },
    }
}

/// The `START` command's send completed. Success makes the key the active
/// recording and shows the "recording" icon; failure leaves the state and
/// the icon untouched.
pub open spec fn spec_start_reply(s: StateView, key: u8, ok: bool) -> (StateView, OutcomeView) {
    if ok {
        (
            StateView { bindings: s.bindings, active: Some(key), holds: s.holds },
            OutcomeView {
                effect: EffectView::NoEffect,
                icon: Some(IconState::Recording),
                error: None,
            },
        )
    } else {
        (
            s,
            OutcomeView {
                effect: EffectView::NoEffect,
                icon: None,
                error: Some(ErrorKind::ConnectionError),
            },
        )
    }
}

/// Release. The highest-indexed key exits the loop unconditionally.
/// Releasing the active key asks for `STOP`. Releasing a held key ends
/// the hold and classifies the gesture: a hold of at least the threshold
/// asks for the delete, a shorter one launches playback and shows the
/// has-file icon at once. Any other release is ignored.
pub open spec fn spec_release(s: StateView, key: u8, now_ms: u64, key_count: u8) -> (
    StateView,
    OutcomeView,
) {
    if key as int == key_count as int - 1 {
        (s, OutcomeView { effect: EffectView::Exit, icon: None, error: None })
    } else if s.is_recording(key) {
        (s, OutcomeView { effect: EffectView::SendStop, icon: None, error: None })
    } else if s.is_held(key) {
        let ended = StateView {
            bindings: s.bindings,
            active: s.active,
            holds: s.holds.update(key as int, None::<u64>),
        };
        if spec_classify(now_ms - s.hold_started_at(key)) == Gesture::Hold {
            (
                ended,
                OutcomeView {
                    effect: EffectView::DeleteFile(s.binding(key)),
                    icon: None,
                    error: None,
                },
            )
        } else {
            (
                ended,
                OutcomeView {
                    effect: EffectView::LaunchPlayback(s.binding(key)),
                    icon: Some(IconState::HasFile),
                    error: None,
                },
            )
        }
    } else {
        (s, quiet())
    }
}

/// The `STOP` command's send completed. Success frees the recording slot
/// and shows the has-file icon; failure leaves the key recording — and the
/// icon on "recording" — so that the next release retries the `STOP`.
pub open spec fn spec_stop_reply(s: StateView, key: u8, ok: bool) -> (StateView, OutcomeView) {
    if ok {
        (
            StateView { bindings: s.bindings, active: None, holds: s.holds },
            OutcomeView {
                effect: EffectView::NoEffect,
                icon: Some(IconState::HasFile),
                error: None,
            },
        )
    } else {
        (
            s,
            OutcomeView {
                effect: EffectView::NoEffect,
                icon: None,
                error: Some(ErrorKind::ConnectionError),
            },
        )
    }
}

/// The hold-gesture delete completed. Success returns the key to the
/// empty icon; failure leaves the file in place, shows the has-file icon
/// again, and is not retried.
pub open spec fn spec_delete_reply(ok: bool) -> OutcomeView {
    if ok {
        OutcomeView { effect: EffectView::NoEffect, icon: Some(IconState::Empty), error: None }
    } else {
        OutcomeView {
            effect: EffectView::NoEffect,
            icon: Some(IconState::HasFile),
            error: Some(ErrorKind::FileSystemError),
        }
    }
}

/// The icon a bound key shows at startup, before any event.
pub open spec fn spec_initial_icon(file_exists: bool) -> IconState {
    if file_exists {
        IconState::HasFile
    } else {
        IconState::Empty
    }
}

/// The per-key button state machine.
pub struct Controller {
    bindings: Vec<Option<String>>,
    active: Option<u8>,
    holds: Vec<Option<u64>>,
}

impl View for Controller {
    type V = StateView;

    closed spec fn view(&self) -> StateView {
        StateView {
            bindings: self.bindings.deep_view(),
            active: self.active,
            holds: self.holds@,
        }
    }
}

impl Controller {
    /// A controller over the given key-to-path table, indexed by key.
    /// Bindings are immutable from here on.
    pub fn new(bindings: Vec<Option<String>>) -> (c: Controller)
        ensures
            c@ == spec_initial(bindings.deep_view()),
            c@.wf(),
    {
        let n = bindings.len();
        let mut holds: Vec<Option<u64>> = Vec::new();
        let mut i: usize = 0;
        while i < n
            invariant
                i <= n,
                holds@.len() == i,
                forall|k: int| 0 <= k < i ==> holds@[k] is None,
            decreases n - i,
        {
            holds.push(None);
            i += 1;
        }
        let c = Controller { bindings, active: None, holds };
        proof {
            assert(c@.holds =~= spec_initial(c@.bindings).holds);
            assert(c@ =~= spec_initial(c@.bindings));
        }
        c
    }

    /// The key currently holding the live recording slot, if any.
    pub fn active_key(&self) -> (k: Option<u8>)
        ensures
            k == self@.active,
    {
        self.active
    }

    /// The path bound to the key, or `None` for an unbound key.
    pub fn binding_path(&self, key: u8) -> (p: Option<&String>)
        ensures
            match p {
                Some(path) => self@.is_bound(key) && path@ == self@.binding(key),
                None => !self@.is_bound(key),
            },
    {
        let ki = key as usize;
        if ki < self.bindings.len() {
            match &self.bindings[ki] {
                Some(path) => Some(path),
                None => None,
            }
        } else {
            None
        }
    }

    fn is_active(&self, key: u8) -> (b: bool)
        ensures
            b == self@.is_recording(key),
    {
        match self.active {
            Some(a) => a == key,
            None => false,
        }
    }

    /// Press-down on `key`, with whether the key's file currently exists
    /// and the monotonic time in milliseconds.
    pub fn on_press(&mut self, key: u8, file_exists: bool, now_ms: u64) -> (o: Outcome)
        requires
            old(self)@.wf(),
        ensures
            final(self)@ == spec_press(old(self)@, key, file_exists, now_ms).0,
            o@ == spec_press(old(self)@, key, file_exists, now_ms).1,
            final(self)@.wf(),
    {
        let ki = key as usize;
        if ki >= self.bindings.len() {
            return quiet_outcome();
        }
        if self.bindings[ki].is_none() {
            return quiet_outcome();
        }
        if self.is_active(key) {
            return quiet_outcome();
        }
        if file_exists {
            self.holds.set(ki, Some(now_ms));
            proof {
                assert(self@ =~= spec_press(old(self)@, key, file_exists, now_ms).0);
            }
            Outcome {
                effect: Effect::NoEffect,
                icon: Some(IconState::Recording),
                error: None,
            }
        } else {
            Outcome { effect: Effect::QueryStatus, icon: None, error: None }
        }
    }

    /// The reply to the `STATUS` query issued for a press on `key`.
    /// Never changes the state: only a reply that signals the daemon is
    /// idle asks for a `START`, anything else is logged and dropped.
    pub fn on_status_reply(&self, key: u8, reply: &DaemonReply) -> (o: Outcome)
        ensures
            o@ == spec_status_reply(self@, key, reply@).1,
            spec_status_reply(self@, key, reply@).0 == self@,
    {
        match reply {
            DaemonReply::ConnectionFailed => Outcome {
                effect: Effect::NoEffect,
                icon: None,
                error: Some(ErrorKind::ConnectionError),
            },
            DaemonReply::Line(line) => {
                if !response_signals_listening(line.as_str()) {
                    Outcome {
                        effect: Effect::NoEffect,
                        icon: None,
                        error: Some(ErrorKind::DaemonBusyOrUnknown),
                    }
                } else {
                    let ki = key as usize;
                    if ki < self.bindings.len() {
                        match &self.bindings[ki] {
                            Some(path) => Outcome {
                                effect: Effect::SendStart(start_command(path.as_str())),
                                icon: None,
                                error: None,
                            },
                            None => quiet_outcome(),
                        }
                    } else {
                        quiet_outcome()
                    }
                }
            },
        }
    }

    /// The `START` command's send completed; `ok` is whether it succeeded.
    pub fn on_start_reply(&mut self, key: u8, ok: bool) -> (o: Outcome)
        requires
            old(self)@.wf(),
            old(self)@.is_bound(key),
        ensures
            final(self)@ == spec_start_reply(old(self)@, key, ok).0,
            o@ == spec_start_reply(old(self)@, key, ok).1,
            final(self)@.wf(),
    {
        if ok {
            self.active = Some(key);
            Outcome { effect: Effect::NoEffect, icon: Some(IconState::Recording), error: None }
        } else {
            Outcome {
                effect: Effect::NoEffect,
                icon: None,
                error: Some(ErrorKind::ConnectionError),
            }
        }
    }

    /// Release of `key` on a panel of `key_count` keys, at monotonic time
    /// `now_ms`. Time never runs backwards between a press and its release.
    pub fn on_release(&mut self, key: u8, now_ms: u64, key_count: u8) -> (o: Outcome)
        requires
            old(self)@.wf(),
            key_count >= 1,
            old(self)@.is_held(key) ==> now_ms >= old(self)@.hold_started_at(key),
        ensures
            final(self)@ == spec_release(old(self)@, key, now_ms, key_count).0,
            o@ == spec_release(old(self)@, key, now_ms, key_count).1,
            final(self)@.wf(),
    {
        if key == key_count - 1 {
            return Outcome { effect: Effect::Exit, icon: None, error: None };
        }
        if self.is_active(key) {
            return Outcome { effect: Effect::SendStop, icon: None, error: None };
        }
        let ki = key as usize;
        if ki >= self.holds.len() {
            return quiet_outcome();
        }
        match self.holds[ki] {
            Some(press_start) => {
                self.holds.set(ki, None);
                let path = match &self.bindings[ki] {
                    Some(p) => p.clone(),
                    None => unreached(),
                };
                let elapsed = now_ms - press_start;
                proof {
                    assert(self@ =~= spec_release(old(self)@, key, now_ms, key_count).0);
                }
                match classify_gesture(elapsed) {
                    Gesture::Hold => Outcome {
                        effect: Effect::DeleteFile(path),
                        icon: None,
                        error: None,
                    },
                    Gesture::Tap => Outcome {
                        effect: Effect::LaunchPlayback(path),
                        icon: Some(IconState::HasFile),
                        error: None,
                    },
                }
            },
            None => quiet_outcome(),
        }
    }

    /// The `STOP` command's send completed; `ok` is whether it succeeded.
    /// Only success frees the live recording slot.
    pub fn on_stop_reply(&mut self, key: u8, ok: bool) -> (o: Outcome)
        requires
            old(self)@.wf(),
            old(self)@.is_recording(key),
        ensures
            final(self)@ == spec_stop_reply(old(self)@, key, ok).0,
            o@ == spec_stop_reply(old(self)@, key, ok).1,
            final(self)@.wf(),
    {
        if ok {
            self.active = None;
            Outcome { effect: Effect::NoEffect, icon: Some(IconState::HasFile), error: None }
        } else {
            Outcome {
                effect: Effect::NoEffect,
                icon: None,
                error: Some(ErrorKind::ConnectionError),
            }
        }
    }
}

/// The icon a bound key shows at startup, from whether its file exists.
pub fn initial_icon(file_exists: bool) -> (i: IconState)
    ensures
        i == spec_initial_icon(file_exists),
{
    if file_exists {
        IconState::HasFile
    } else {
        IconState::Empty
    }
}

/// The outcome to render once the event loop attempted the hold-gesture
/// delete.
pub fn delete_reply_outcome(ok: bool) -> (o: Outcome)
    ensures
        o@ == spec_delete_reply(ok),
{
    if ok {
        Outcome { effect: Effect::NoEffect, icon: Some(IconState::Empty), error: None }
    } else {
        Outcome {
            effect: Effect::NoEffect,
            icon: Some(IconState::HasFile),
            error: Some(ErrorKind::FileSystemError),
        }
    }
}

fn quiet_outcome() -> (o: Outcome)
    ensures
        o@ == quiet(),
{
    Outcome { effect: Effect::NoEffect, icon: None, error: None }
}

} // verus!
