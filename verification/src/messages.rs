//! Messages exchanged between the daemon core and an attached user
//! interface: plain values, consumed exactly once.

use vstd::prelude::*;

use crate::config::WhisperMode;

verus! {

#[derive(Debug, Clone, Copy, PartialEq, Eq, Structural)]
pub enum RecordingState {
    Idle,
    Recording,
    Transcribing,
    Typing,
}

#[derive(Debug, Clone)]
pub enum DaemonMsg {
    StateChanged(RecordingState),
    /// A windowed loudness value, in the amplitude estimator's fixed-point
    /// scale.
    Amplitude(u64),
    WhisperModeChanged(WhisperMode),
    ModelChanged(String),
    ModelLoading,
    Error(String),
}

#[derive(Debug, Clone)]
pub enum GuiMsg {
    ToggleRecording,
    SetWhisperMode(WhisperMode),
    SetModel(String),
    Quit,
}

} // verus!
