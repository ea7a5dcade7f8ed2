use deck_recorder::icons::IconState;
use deck_recorder::machine::{
    delete_reply_outcome, initial_icon, Controller, DaemonReply, Effect, ErrorKind, Outcome,
};

const PATH_A: &str = "/tmp/recording_A.wav";
const PATH_B: &str = "/tmp/recording_B.wav";
const KEY_COUNT: u8 = 15;

fn two_key_controller() -> Controller {
    Controller::new(vec![Some(PATH_A.to_string()), Some(PATH_B.to_string())])
}

fn assert_quiet(o: &Outcome) {
    assert!(matches!(o.effect, Effect::NoEffect));
    assert_eq!(o.icon, None);
    assert_eq!(o.error, None);
}

#[test]
fn record_and_stop_cycle() {
    // Key 0 bound to an absent file: press queries STATUS, "Listening"
    // leads to START, success arms the icon; release stops and frees.
    let mut c = two_key_controller();
    let o = c.on_press(0, false, 1000);
    assert!(matches!(o.effect, Effect::QueryStatus));
    assert_eq!(o.icon, None);

    let o = c.on_status_reply(0, &DaemonReply::Line("Listening".to_string()));
    match &o.effect {
        Effect::SendStart(cmd) => assert_eq!(cmd, "START /tmp/recording_A.wav"),
        _ => panic!("expected SendStart"),
    }
    assert_eq!(o.icon, None);

    let o = c.on_start_reply(0, true);
    assert!(matches!(o.effect, Effect::NoEffect));
    assert_eq!(o.icon, Some(IconState::Recording));
    assert_eq!(c.active_key(), Some(0));

    let o = c.on_release(0, 4000, KEY_COUNT);
    assert!(matches!(o.effect, Effect::SendStop));
    assert_eq!(o.icon, None);

    let o = c.on_stop_reply(0, true);
    assert!(matches!(o.effect, Effect::NoEffect));
    assert_eq!(o.icon, Some(IconState::HasFile));
    assert_eq!(c.active_key(), None);
}

#[test]
fn hold_deletes_and_no_daemon_command_is_sent() {
    // Key 0's file exists: press, wait 2.5 s, release. The file is
    // deleted and the icon returns to empty; no daemon command occurs
    // anywhere in the sequence.
    let mut c = two_key_controller();
    let o = c.on_press(0, true, 0);
    assert!(matches!(o.effect, Effect::NoEffect));
    assert_eq!(o.icon, Some(IconState::Recording));

    let o = c.on_release(0, 2500, KEY_COUNT);
    match &o.effect {
        Effect::DeleteFile(path) => assert_eq!(path, PATH_A),
        _ => panic!("expected DeleteFile"),
    }
    assert_eq!(o.icon, None);

    let o = delete_reply_outcome(true);
    assert!(matches!(o.effect, Effect::NoEffect));
    assert_eq!(o.icon, Some(IconState::Empty));
    assert_eq!(o.error, None);
}

#[test]
fn failed_delete_reverts_to_has_file_icon() {
    let o = delete_reply_outcome(false);
    assert!(matches!(o.effect, Effect::NoEffect));
    assert_eq!(o.icon, Some(IconState::HasFile));
    assert_eq!(o.error, Some(ErrorKind::FileSystemError));
}

#[test]
fn short_tap_launches_playback() {
    // Key 0's file exists: press, release after 500 ms. Playback is
    // launched for that path and the icon shows has-file at once.
    let mut c = two_key_controller();
    let o = c.on_press(0, true, 0);
    assert_eq!(o.icon, Some(IconState::Recording));

    let o = c.on_release(0, 500, KEY_COUNT);
    match &o.effect {
        Effect::LaunchPlayback(path) => assert_eq!(path, PATH_A),
        _ => panic!("expected LaunchPlayback"),
    }
    assert_eq!(o.icon, Some(IconState::HasFile));
}

#[test]
fn threshold_boundary_is_inclusive() {
    // Exactly 2000 ms of hold takes the delete branch.
    let mut c = two_key_controller();
    c.on_press(0, true, 100);
    let o = c.on_release(0, 2100, KEY_COUNT);
    assert!(matches!(o.effect, Effect::DeleteFile(_)));

    // One millisecond less is a tap.
    let mut c = two_key_controller();
    c.on_press(0, true, 100);
    let o = c.on_release(0, 2099, KEY_COUNT);
    assert!(matches!(o.effect, Effect::LaunchPlayback(_)));
}

#[test]
fn busy_status_changes_nothing() {
    // A STATUS reply that does not signal "Listening" never changes the
    // session or the icon.
    let mut c = two_key_controller();
    let o = c.on_press(0, false, 0);
    assert!(matches!(o.effect, Effect::QueryStatus));

    let o = c.on_status_reply(0, &DaemonReply::Line("Recording in progress".to_string()));
    assert!(matches!(o.effect, Effect::NoEffect));
    assert_eq!(o.icon, None);
    assert_eq!(o.error, Some(ErrorKind::DaemonBusyOrUnknown));
    assert_eq!(c.active_key(), None);
}

#[test]
fn connection_failures_are_logged_only() {
    let mut c = two_key_controller();
    c.on_press(0, false, 0);
    let o = c.on_status_reply(0, &DaemonReply::ConnectionFailed);
    assert!(matches!(o.effect, Effect::NoEffect));
    assert_eq!(o.icon, None);
    assert_eq!(o.error, Some(ErrorKind::ConnectionError));
    assert_eq!(c.active_key(), None);

    // A failed START leaves the state and icon untouched too.
    let o = c.on_start_reply(0, false);
    assert!(matches!(o.effect, Effect::NoEffect));
    assert_eq!(o.icon, None);
    assert_eq!(o.error, Some(ErrorKind::ConnectionError));
    assert_eq!(c.active_key(), None);
}

#[test]
fn stop_failure_keeps_key_recording_until_retry_succeeds() {
    // A STOP failure leaves the key recording; a second release retries
    // STOP; only the successful reply clears the active slot.
    let mut c = two_key_controller();
    c.on_press(0, false, 0);
    c.on_status_reply(0, &DaemonReply::Line("Listening".to_string()));
    c.on_start_reply(0, true);
    assert_eq!(c.active_key(), Some(0));

    let o = c.on_release(0, 900, KEY_COUNT);
    assert!(matches!(o.effect, Effect::SendStop));
    let o = c.on_stop_reply(0, false);
    assert!(matches!(o.effect, Effect::NoEffect));
    assert_eq!(o.icon, None);
    assert_eq!(o.error, Some(ErrorKind::ConnectionError));
    assert_eq!(c.active_key(), Some(0));

    let o = c.on_release(0, 1800, KEY_COUNT);
    assert!(matches!(o.effect, Effect::SendStop));
    let o = c.on_stop_reply(0, true);
    assert_eq!(o.icon, Some(IconState::HasFile));
    assert_eq!(c.active_key(), None);
}

#[test]
fn deleted_key_presses_like_a_fresh_one() {
    // Hold-delete a key's file, then press it again with the file gone:
    // the press queries STATUS exactly as on a key that never had a file.
    let mut c = two_key_controller();
    c.on_press(0, true, 0);
    let o = c.on_release(0, 3000, KEY_COUNT);
    assert!(matches!(o.effect, Effect::DeleteFile(_)));
    delete_reply_outcome(true);

    let o = c.on_press(0, false, 5000);
    assert!(matches!(o.effect, Effect::QueryStatus));
    assert_eq!(o.icon, None);

    let mut fresh = two_key_controller();
    let o2 = fresh.on_press(0, false, 5000);
    assert!(matches!(o2.effect, Effect::QueryStatus));
    assert_eq!(o2.icon, o.icon);
    assert_eq!(o2.error, o.error);
}

#[test]
fn exit_key_release_terminates_regardless_of_state() {
    // The highest-indexed key exits even while a recording and a hold
    // are in progress.
    let mut c = two_key_controller();
    c.on_press(0, false, 0);
    c.on_status_reply(0, &DaemonReply::Line("Listening".to_string()));
    c.on_start_reply(0, true);
    c.on_press(1, true, 10);
    assert_eq!(c.active_key(), Some(0));

    let o = c.on_release(KEY_COUNT - 1, 20, KEY_COUNT);
    assert!(matches!(o.effect, Effect::Exit));
    assert_eq!(o.icon, None);
    assert_eq!(c.active_key(), Some(0));
}

#[test]
fn at_most_one_key_records_at_a_time() {
    // The live slot holds a single key: starting key 1 after key 0
    // stopped leaves exactly one active key at each point.
    let mut c = two_key_controller();
    c.on_press(0, false, 0);
    c.on_status_reply(0, &DaemonReply::Line("Listening".to_string()));
    c.on_start_reply(0, true);
    assert_eq!(c.active_key(), Some(0));

    c.on_release(0, 100, KEY_COUNT);
    c.on_stop_reply(0, true);
    assert_eq!(c.active_key(), None);

    c.on_press(1, false, 200);
    c.on_status_reply(1, &DaemonReply::Line("Listening".to_string()));
    c.on_start_reply(1, true);
    assert_eq!(c.active_key(), Some(1));
}

#[test]
fn unbound_keys_are_ignored() {
    let mut c = two_key_controller();
    let o = c.on_press(7, true, 0);
    assert_quiet(&o);
    let o = c.on_press(7, false, 0);
    assert_quiet(&o);
    let o = c.on_release(7, 10, KEY_COUNT);
    assert_quiet(&o);
}

#[test]
fn release_without_tracked_press_is_ignored() {
    let mut c = two_key_controller();
    let o = c.on_release(0, 10, KEY_COUNT);
    assert_quiet(&o);
}

#[test]
fn repress_of_active_key_is_ignored() {
    let mut c = two_key_controller();
    c.on_press(0, false, 0);
    c.on_status_reply(0, &DaemonReply::Line("Listening".to_string()));
    c.on_start_reply(0, true);

    let o = c.on_press(0, false, 50);
    assert_quiet(&o);
    // Even if the file has appeared mid-recording, a re-press is a no-op.
    let o = c.on_press(0, true, 60);
    assert_quiet(&o);
    assert_eq!(c.active_key(), Some(0));
}

#[test]
fn initial_icons_follow_file_presence() {
    assert_eq!(initial_icon(true), IconState::HasFile);
    assert_eq!(initial_icon(false), IconState::Empty);
}

#[test]
fn binding_paths_are_reported() {
    let c = two_key_controller();
    assert_eq!(c.binding_path(0).map(|p| p.as_str()), Some(PATH_A));
    assert_eq!(c.binding_path(1).map(|p| p.as_str()), Some(PATH_B));
    assert_eq!(c.binding_path(2), None);
}
