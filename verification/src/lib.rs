//! Controller core for a multi-button panel that drives audio-recording
//! sessions: tap/hold gesture disambiguation, the per-key button state
//! machine, the daemon line protocol, icon selection, and playback
//! command assembly.

pub mod gesture;
pub mod icons;
pub mod laws;
pub mod machine;
pub mod playback;
pub mod protocol;
