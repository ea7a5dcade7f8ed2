use deck_recorder::playback::playback_command;

#[test]
fn playback_routes_to_configured_sink() {
    let argv = playback_command(&Some("MyMixer".to_string()), "/tmp/recording_A.wav");
    assert_eq!(argv, vec!["pw-play", "--target", "MyMixer", "/tmp/recording_A.wav"]);
}

#[test]
fn playback_uses_default_output_without_a_sink() {
    let argv = playback_command(&None, "/tmp/recording_B.wav");
    assert_eq!(argv, vec!["pw-play", "/tmp/recording_B.wav"]);
}
