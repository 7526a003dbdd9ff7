//! The voice application's state machine: the recording state, the queue of
//! pending approvals, the active OpenCode session and what the display shows.
//!
//! Everything that waits on the outside world (the microphone, whisper, the
//! OpenCode server, timers) is done by the caller; the functions here decide
//! what happens next, and their contracts say it through the transitions of
//! the session's model.
use crate::approval::queue::has_id;
use crate::approval::queue::law_add_then_remove;
use crate::approval::queue::without_first_id;
use crate::approval::queue::ApprovalQueue;
use crate::approval::types::approval_id;
use crate::approval::types::PendingApprovalV;
use crate::config::opt_view;
use crate::config::AppConfig;
use crate::state::InputEvent;
use crate::ui::display::DisplayMeta;
use crate::state::RecordingState;
use vstd::prelude::*;

pub mod approval;
pub mod recording;

verus! {

broadcast use vstd::string::group_string_axioms;

/// The state of a running voice session.
pub struct VoiceApp {
    /// Resolved application configuration.
    pub config: AppConfig,
    /// Current recording state machine state.
    pub state: RecordingState,
    /// FIFO queue of pending permission and question approvals.
    pub approval_queue: ApprovalQueue,
    /// The OpenCode session that transcripts are sent to, once there is one.
    pub active_session: Option<String>,
    /// Last transcription text shown in the idle display.
    pub last_transcript: Option<String>,
    /// Current error message for the error display.
    pub current_error: Option<String>,
    /// Whether the level meter shows a reading; cleared on every change of
    /// state that starts or ends a recording.
    pub level_shown: bool,
    /// Guard against double shutdown.
    pub is_shutting_down: bool,
}

/// The model of a voice session.
pub struct VoiceAppV {
    pub config: AppConfig,
    pub state: RecordingState,
    pub queue: Seq<PendingApprovalV>,
    pub active_session: Option<Seq<char>>,
    pub last_transcript: Option<Seq<char>>,
    pub current_error: Option<Seq<char>>,
    pub level_shown: bool,
    pub is_shutting_down: bool,
}

impl View for VoiceApp {
    type V = VoiceAppV;

    open spec fn view(&self) -> VoiceAppV {
        VoiceAppV {
            config: self.config,
            state: self.state,
            queue: self.approval_queue@,
            active_session: opt_view(self.active_session),
            last_transcript: opt_view(self.last_transcript),
            current_error: opt_view(self.current_error),
            level_shown: self.level_shown,
            is_shutting_down: self.is_shutting_down,
        }
    }
}

/// What the caller does in answer to an input event.
#[derive(Clone, Copy, Debug, PartialEq, Eq, Structural)]
pub enum InputAction {
    /// Nothing happens.
    Nothing,
    /// The state changed: render the display again.
    Render,
    /// Open the microphone and start a push-to-talk recording.
    StartRecording,
    /// Stop the push-to-talk recording and transcribe it.
    StopRecording,
    /// Shut down: cancel the background tasks and clear the display.
    Shutdown,
}

// ───────────────────────── the transitions ─────────────────────────

/// The approval-pending state is only held while something is pending.
pub open spec fn pending_consistent(v: VoiceAppV) -> bool {
    v.state == RecordingState::ApprovalPending ==> v.queue.len() > 0
}

/// A new session: idle, with nothing pending.
pub open spec fn fresh(config: AppConfig) -> VoiceAppV {
    VoiceAppV {
        config,
        state: RecordingState::Idle,
        queue: Seq::empty(),
        active_session: None,
        last_transcript: None,
        current_error: None,
        level_shown: false,
        is_shutting_down: false,
    }
}

/// `v` in state `s`, with the level meter cleared.
pub open spec fn moved_to(v: VoiceAppV, s: RecordingState) -> VoiceAppV {
    VoiceAppV { state: s, level_shown: false, ..v }
}

/// The error state with message `e`.
pub open spec fn errored(v: VoiceAppV, e: Seq<char>) -> VoiceAppV {
    VoiceAppV { state: RecordingState::Error, current_error: Some(e), ..v }
}

/// Recovery from the error state to idle; other states are left alone.
pub open spec fn recovered(v: VoiceAppV) -> VoiceAppV {
    if v.state == RecordingState::Error {
        VoiceAppV { state: RecordingState::Idle, current_error: None, ..v }
    } else {
        v
    }
}

/// The session marked as shutting down.
pub open spec fn shut_down(v: VoiceAppV) -> VoiceAppV {
    VoiceAppV { is_shutting_down: true, ..v }
}

/// A toggle in standard (not push-to-talk) mode: a recording starts from idle
/// or approval-pending and stops from recording; other states ignore it.
pub open spec fn toggled(v: VoiceAppV) -> VoiceAppV {
    match v.state {
        RecordingState::Idle | RecordingState::ApprovalPending => moved_to(
            v,
            RecordingState::Recording,
        ),
        RecordingState::Recording => moved_to(v, RecordingState::Transcribing),
        _ => v,
    }
}

/// Whether a push-to-talk recording may start in state `s`.
pub open spec fn may_start_recording(s: RecordingState) -> bool {
    s == RecordingState::Idle || s == RecordingState::ApprovalPending
}

/// The resting state after a recording is dealt with: approval-pending while
/// something is pending, else idle.
pub open spec fn at_rest(v: VoiceAppV) -> VoiceAppV {
    if v.queue.len() > 0 {
        moved_to(v, RecordingState::ApprovalPending)
    } else {
        moved_to(v, RecordingState::Idle)
    }
}

/// The state after a pending approval was answered by voice: with something
/// still pending, idle becomes approval-pending; with nothing pending,
/// approval-pending becomes idle; any other state stays.
pub open spec fn refreshed(v: VoiceAppV) -> VoiceAppV {
    if v.queue.len() > 0 {
        if v.state == RecordingState::Idle || v.state == RecordingState::ApprovalPending {
            VoiceAppV { state: RecordingState::ApprovalPending, ..v }
        } else {
            v
        }
    } else if v.state == RecordingState::ApprovalPending {
        VoiceAppV { state: RecordingState::Idle, ..v }
    } else {
        v
    }
}

/// A permission or question asked by OpenCode: queued at the back, and the
/// state becomes approval-pending.
pub open spec fn asked(v: VoiceAppV, a: PendingApprovalV) -> VoiceAppV {
    VoiceAppV { queue: v.queue.push(a), state: RecordingState::ApprovalPending, ..v }
}

/// A request answered elsewhere: the first item with its ID leaves the queue,
/// and approval-pending becomes idle when nothing is left.
pub open spec fn resolved(v: VoiceAppV, id: Seq<char>) -> VoiceAppV {
    let q = without_first_id(v.queue, id);
    VoiceAppV {
        queue: q,
        state: if q.len() == 0 && v.state == RecordingState::ApprovalPending {
            RecordingState::Idle
        } else {
            v.state
        },
        ..v
    }
}

/// The OpenCode session became busy or idle: whatever is still pending was
/// answered elsewhere or is stale, so the queue is emptied, and
/// approval-pending becomes idle; any other state stays.
pub open spec fn status_changed(v: VoiceAppV) -> VoiceAppV {
    if v.queue.len() > 0 {
        VoiceAppV {
            queue: Seq::empty(),
            state: if v.state == RecordingState::ApprovalPending {
                RecordingState::Idle
            } else {
                v.state
            },
            ..v
        }
    } else {
        v
    }
}

/// The session and what the caller does after an input event.
pub open spec fn after_input(v: VoiceAppV, event: InputEvent) -> (VoiceAppV, InputAction) {
    match event {
        InputEvent::Toggle => if v.config.push_to_talk {
            (v, InputAction::Nothing)
        } else if toggled(v) == v {
            (v, InputAction::Nothing)
        } else {
            (toggled(v), InputAction::Render)
        },
        InputEvent::KeyDown => if v.config.push_to_talk && may_start_recording(v.state) {
            (v, InputAction::StartRecording)
        } else {
            (v, InputAction::Nothing)
        },
        InputEvent::KeyUp => if v.config.push_to_talk && v.state == RecordingState::Recording {
            (v, InputAction::StopRecording)
        } else {
            (v, InputAction::Nothing)
        },
        InputEvent::Quit => if v.is_shutting_down {
            (v, InputAction::Nothing)
        } else {
            (shut_down(v), InputAction::Shutdown)
        },
    }
}

impl VoiceApp {
    /// A session in the idle state with nothing pending.
    pub fn new(config: AppConfig) -> (app: VoiceApp)
        ensures
            app@ == fresh(config),
    {
        let app = VoiceApp {
            config,
            state: RecordingState::Idle,
            approval_queue: ApprovalQueue::new(),
            active_session: None,
            last_transcript: None,
            current_error: None,
            level_shown: false,
            is_shutting_down: false,
        };
        assert(app@ =~= fresh(config));
        app
    }

    /// Enters the error state with the given message. The caller schedules
    /// the recovery.
    pub fn handle_error(&mut self, err: &str)
        ensures
            final(self)@ == errored(old(self)@, err@),
    {
        self.state = RecordingState::Error;
        self.current_error = Some(err.to_owned());
    }

    /// Leaves the error state for idle and forgets the error; any other state
    /// is left alone. Returns whether the state was the error state (and the
    /// display needs rendering).
    pub fn recover_from_error(&mut self) -> (was_error: bool)
        ensures
            was_error == (old(self)@.state == RecordingState::Error),
            final(self)@ == recovered(old(self)@),
    {
        if self.state == RecordingState::Error {
            self.state = RecordingState::Idle;
            self.current_error = None;
            true
        } else {
            false
        }
    }

    /// Marks the session as shutting down. Returns true the first time only:
    /// the caller then cancels the background tasks and clears the display.
    pub fn shutdown(&mut self) -> (first: bool)
        ensures
            first == !old(self)@.is_shutting_down,
            final(self)@ == shut_down(old(self)@),
    {
        if self.is_shutting_down {
            return false;
        }
        self.is_shutting_down = true;
        true
    }

    /// Notes that the level meter has a reading to show.
    pub fn level_received(&mut self)
        ensures
            final(self)@ == (VoiceAppV { level_shown: true, ..old(self)@ }),
    {
        self.level_shown = true;
    }

    /// Handles a keyboard or hotkey event. In push-to-talk mode the key going
    /// down and up start and stop a recording and a toggle is ignored (the
    /// hotkey sends one after every release); otherwise a toggle starts or
    /// stops a recording. Quit shuts down.
    pub fn handle_input(&mut self, event: InputEvent) -> (action: InputAction)
        ensures
            (final(self)@, action) == after_input(old(self)@, event),
    {
        match event {
            InputEvent::Toggle => {
                if self.config.push_to_talk {
                    InputAction::Nothing
                } else {
                    let before = self.state;
                    recording::handle_toggle(self);
                    if self.state == before {
                        InputAction::Nothing
                    } else {
                        InputAction::Render
                    }
                }
            },
            InputEvent::KeyDown => {
                if self.config.push_to_talk && (self.state == RecordingState::Idle || self.state
                    == RecordingState::ApprovalPending) {
                    InputAction::StartRecording
                } else {
                    InputAction::Nothing
                }
            },
            InputEvent::KeyUp => {
                if self.config.push_to_talk && self.state == RecordingState::Recording {
                    InputAction::StopRecording
                } else {
                    InputAction::Nothing
                }
            },
            InputEvent::Quit => {
                if self.shutdown() {
                    InputAction::Shutdown
                } else {
                    InputAction::Nothing
                }
            },
        }
    }
}

/// The level meter is redrawn at most once in this many milliseconds.
pub const LEVEL_RENDER_INTERVAL_MS: u64 = 100;

/// Whether a new level reading is drawn, given how long ago (in
/// milliseconds) the last reading was drawn, if one was.
pub fn level_render_due(ms_since_last: Option<u64>) -> (due: bool)
    ensures
        due == match ms_since_last {
            Some(ms) => ms >= LEVEL_RENDER_INTERVAL_MS,
            None => true,
        },
{
    match ms_since_last {
        Some(ms) => ms >= LEVEL_RENDER_INTERVAL_MS,
        None => true,
    }
}

/// The text of an optional string slice.
pub open spec fn opt_str(o: Option<&str>) -> Option<Seq<char>> {
    match o {
        Some(s) => Some(s@),
        None => None,
    }
}

fn opt_as_str(o: &Option<String>) -> (r: Option<&str>)
    ensures
        opt_str(r) == opt_view(*o),
{
    match o {
        Some(s) => Some(s.as_str()),
        None => None,
    }
}

impl VoiceApp {
    /// What the display shows for this session: the recording's length and
    /// the level meter's filled cells come from the recorder; the level only
    /// shows while there is a reading; the global hotkey's name shows when it
    /// is in use, else `toggle_key`.
    pub fn display_meta<'a>(
        &'a self,
        toggle_key: &'a str,
        duration: Option<&'a str>,
        level: Option<usize>,
    ) -> (m: DisplayMeta<'a>)
        ensures
            m.duration == duration,
            m.level == if self@.level_shown {
                level
            } else {
                None
            },
            opt_str(m.transcript) == self@.last_transcript,
            opt_str(m.error) == self@.current_error,
            m.toggle_key == Some(toggle_key),
            opt_str(m.global_hotkey_name) == if self.config.use_global_hotkey {
                Some(self.config.global_hotkey@)
            } else {
                None
            },
            match m.approval {
                Some(a) => self@.queue.len() > 0 && a@ == self@.queue[0],
                None => self@.queue.len() == 0,
            },
            m.approval_count == Some(self@.queue.len() as usize),
            m.spinner_frame == 0,
    {
        DisplayMeta {
            duration,
            level: if self.level_shown {
                level
            } else {
                None
            },
            transcript: opt_as_str(&self.last_transcript),
            error: opt_as_str(&self.current_error),
            toggle_key: Some(toggle_key),
            global_hotkey_name: if self.config.use_global_hotkey {
                Some(self.config.global_hotkey.as_str())
            } else {
                None
            },
            approval: self.approval_queue.peek(),
            approval_count: Some(self.approval_queue.len()),
            spinner_frame: 0,
        }
    }
}

// ───────────────────────── laws ─────────────────────────

/// Shutting down twice does no more than shutting down once.
pub proof fn law_shutdown_idempotent(v: VoiceAppV)
    ensures
        shut_down(shut_down(v)) == shut_down(v),
        shut_down(v).is_shutting_down,
{
}

/// An error followed by its recovery leaves the session idle without an
/// error message, with everything else as it was.
pub proof fn law_error_then_recovery(v: VoiceAppV, e: Seq<char>)
    ensures
        recovered(errored(v, e)) == (VoiceAppV {
            state: RecordingState::Idle,
            current_error: None,
            ..v
        }),
{
}

/// A permission or question that is asked and then answered elsewhere leaves
/// a session that was idle with nothing pending, or waiting on other
/// approvals, exactly as it was.
pub proof fn law_asked_then_resolved(v: VoiceAppV, a: PendingApprovalV)
    requires
        v.state == RecordingState::Idle && v.queue.len() == 0 || v.state
            == RecordingState::ApprovalPending && v.queue.len() > 0,
        !has_id(v.queue, approval_id(a)),
    ensures
        resolved(asked(v, a), approval_id(a)) == v,
{
    law_add_then_remove(v.queue, a);
}

/// The approval-pending state is only ever held while something is pending:
/// every transition keeps this.
pub proof fn law_pending_consistent(
    v: VoiceAppV,
    a: PendingApprovalV,
    id: Seq<char>,
    e: Seq<char>,
    event: InputEvent,
)
    requires
        pending_consistent(v),
    ensures
        pending_consistent(errored(v, e)),
        pending_consistent(recovered(v)),
        pending_consistent(shut_down(v)),
        pending_consistent(toggled(v)),
        pending_consistent(at_rest(v)),
        pending_consistent(refreshed(v)),
        pending_consistent(asked(v, a)),
        pending_consistent(resolved(v, id)),
        pending_consistent(status_changed(v)),
        pending_consistent(after_input(v, event).0),
{
}

/// Approvals stay pending until the last is answered: answering one of
/// several keeps the approval-pending state, answering the last returns to
/// idle.
pub proof fn law_pending_until_all_answered(v: VoiceAppV, id: Seq<char>)
    requires
        v.state == RecordingState::ApprovalPending,
        has_id(v.queue, id),
    ensures
        v.queue.len() > 1 ==> resolved(v, id).state == RecordingState::ApprovalPending,
        v.queue.len() == 1 ==> resolved(v, id).state == RecordingState::Idle,
{
    crate::approval::queue::law_remove_keeps_order(v.queue, id);
}

} // verus!
