//! Core state and event types for the voice application.
use vstd::prelude::*;

verus! {

/// The recording state machine.
#[derive(Debug, Clone, Copy, PartialEq, Eq, Structural)]
pub enum RecordingState {
    Idle,
    Recording,
    Transcribing,
    Injecting,
    ApprovalPending,
    Error,
}

/// Input events from keyboard or global hotkey.
#[derive(Debug, Clone, Copy, PartialEq, Eq, Structural)]
pub enum InputEvent {
    Toggle,
    KeyDown,
    KeyUp,
    Quit,
}

} // verus!
