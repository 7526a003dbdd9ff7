//! Recording: toggles, push-to-talk, what happens to a finished transcript,
//! and answering the front pending approval by voice.
use crate::approval::matcher::match_permission_command;
use crate::approval::matcher::match_question_answer;
use crate::approval::matcher::normalized;
use crate::approval::matcher::permission_match;
use crate::approval::matcher::question_match;
use crate::approval::matcher::MatchResult;
use crate::approval::matcher::MatchV;
use crate::approval::queue::without_first_id;
use crate::approval::types::PendingApproval;
use crate::approval::types::PendingApprovalV;
use crate::approval::types::PermissionReply;
use crate::session::approval::refresh_approval_display;
use crate::session::at_rest;
use crate::session::errored;
use crate::session::moved_to;
use crate::session::refreshed;
use crate::session::toggled;
use crate::session::VoiceApp;
use crate::session::VoiceAppV;
use crate::state::RecordingState;
use crate::text::decimal;
use crate::text::decimal_string;
use crate::text::push_str;
use crate::text::trim;
use crate::text::trim_str;
use vstd::prelude::*;

verus! {

broadcast use vstd::string::group_string_axioms;

/// Recordings shorter than this many milliseconds are discarded (accidental
/// key taps).
pub const MIN_RECORDING_MS: u64 = 500;

/// Recordings with fewer samples than this are discarded: half a second at
/// 16 kHz mono.
pub const MIN_SAMPLES: usize = 8000;

/// A step of the recording pipeline that failed, for the error message.
#[derive(Clone, Copy, Debug, PartialEq, Eq, Structural)]
pub enum Failure {
    OpenDevice,
    StartRecording,
    StopRecording,
    WriteWav,
    ModelNotLoaded,
    Transcription,
    TranscriptionPanicked,
    ReplyPermission,
    ReplyQuestion,
    RejectQuestion,
    CreateSession,
    SendMessage,
}

/// The error message shown when `f` failed with `detail`.
pub open spec fn failure_message(f: Failure, detail: Seq<char>) -> Seq<char> {
    match f {
        Failure::OpenDevice => "Failed to open audio device: "@ + detail,
        Failure::StartRecording => "Failed to start recording: "@ + detail,
        Failure::StopRecording => "Failed to stop recording: "@ + detail,
        Failure::WriteWav => "Failed to write WAV file: "@ + detail,
        Failure::ModelNotLoaded => "Whisper model not loaded. Run 'opencode-voice setup'."@,
        Failure::Transcription => "Transcription failed: "@ + detail,
        Failure::TranscriptionPanicked => "Transcription task panicked: "@ + detail,
        Failure::ReplyPermission => "Failed to reply to permission: "@ + detail,
        Failure::ReplyQuestion => "Failed to reply to question: "@ + detail,
        Failure::RejectQuestion => "Failed to reject question: "@ + detail,
        Failure::CreateSession => "Failed to create session: "@ + detail,
        Failure::SendMessage => "Failed to send message: "@ + detail,
    }
}

/// A reply to a pending approval, decided from what the user said.
#[derive(Debug, PartialEq)]
pub enum ApprovalReply {
    /// Reply to permission `id`.
    Permission { id: String, reply: PermissionReply, message: Option<String> },
    /// Answer question `id`.
    Answer { id: String, answers: Vec<Vec<String>> },
    /// Dismiss question `id`.
    Reject { id: String },
}

pub enum ApprovalReplyV {
    Permission { id: Seq<char>, reply: PermissionReply, message: Option<Seq<char>> },
    Answer { id: Seq<char>, answers: Seq<Seq<Seq<char>>> },
    Reject { id: Seq<char> },
}

impl View for ApprovalReply {
    type V = ApprovalReplyV;

    open spec fn view(&self) -> ApprovalReplyV {
        match self {
            ApprovalReply::Permission { id, reply, message } => ApprovalReplyV::Permission {
                id: id@,
                reply: *reply,
                message: match message {
                    Some(m) => Some(m@),
                    None => None,
                },
            },
            ApprovalReply::Answer { id, answers } => ApprovalReplyV::Answer {
                id: id@,
                answers: answers.deep_view(),
            },
            ApprovalReply::Reject { id } => ApprovalReplyV::Reject { id: id@ },
        }
    }
}

/// The request a reply answers.
pub open spec fn reply_id(r: ApprovalReplyV) -> Seq<char> {
    match r {
        ApprovalReplyV::Permission { id, .. } => id,
        ApprovalReplyV::Answer { id, .. } => id,
        ApprovalReplyV::Reject { id } => id,
    }
}

/// The failure reported when sending reply `r` fails.
pub open spec fn reply_failure(r: ApprovalReplyV) -> Failure {
    match r {
        ApprovalReplyV::Permission { .. } => Failure::ReplyPermission,
        ApprovalReplyV::Answer { .. } => Failure::ReplyQuestion,
        ApprovalReplyV::Reject { .. } => Failure::RejectQuestion,
    }
}

/// The reply that `text` gives to approval `a`: a permission takes the
/// permission commands, a question its options, numbers and rejections.
pub open spec fn reply_for(a: PendingApprovalV, text: Seq<char>) -> Option<ApprovalReplyV> {
    match a {
        PendingApprovalV::Permission(r) => match permission_match(normalized(text)) {
            MatchV::PermissionReply { reply, message } => Some(
                ApprovalReplyV::Permission { id: r.id, reply, message },
            ),
            _ => None,
        },
        PendingApprovalV::Question(q) => match question_match(text, q) {
            MatchV::QuestionAnswer { answers } => Some(
                ApprovalReplyV::Answer { id: q.id, answers },
            ),
            MatchV::QuestionReject => Some(ApprovalReplyV::Reject { id: q.id }),
            _ => None,
        },
    }
}

/// What the caller does with a finished transcript.
#[derive(Debug, PartialEq)]
pub enum TranscriptStep {
    /// Nothing more: the session is back at rest.
    Done,
    /// Send this reply to the front pending approval.
    Reply(ApprovalReply),
    /// Send the text to the OpenCode session (the state is injecting).
    Inject(String),
}

/// The session after the transcript `t` (already trimmed) was stored.
pub open spec fn with_transcript(v: VoiceAppV, t: Seq<char>) -> VoiceAppV {
    VoiceAppV { last_transcript: Some(t), ..v }
}

/// What becomes of raw transcript `raw`: in debug mode it is only shown; an
/// empty one is dropped; one that answers the front pending approval becomes
/// that reply; any other is sent to OpenCode.
pub open spec fn transcript_outcome(v: VoiceAppV, raw: Seq<char>) -> (VoiceAppV, Option<
    ApprovalReplyV,
>, bool) {
    let t = trim(raw);
    if v.config.debug {
        (
            at_rest(
                VoiceAppV {
                    last_transcript: if t.len() == 0 {
                        None
                    } else {
                        Some(t)
                    },
                    ..v
                },
            ),
            None,
            false,
        )
    } else if t.len() == 0 {
        (at_rest(v), None, false)
    } else if v.queue.len() > 0 && reply_for(v.queue[0], t) is Some {
        (with_transcript(v, t), reply_for(v.queue[0], t), false)
    } else {
        (VoiceAppV { state: RecordingState::Injecting, ..with_transcript(v, t) }, None, true)
    }
}

/// The session after reply `r` was sent, with `failure` holding the error if
/// sending failed: the error is shown, the item leaves the queue whatever
/// happened, and the state is refreshed.
pub open spec fn reply_sent(v: VoiceAppV, r: ApprovalReplyV, failure: Option<Seq<char>>) -> VoiceAppV {
    let w = match failure {
        Some(e) => errored(v, failure_message(reply_failure(r), e)),
        None => v,
    };
    refreshed(VoiceAppV { queue: without_first_id(w.queue, reply_id(r)), ..w })
}

/// Handles a toggle in standard (not push-to-talk) mode: starts recording
/// from idle or approval-pending, stops it from recording, and ignores other
/// states.
pub fn handle_toggle(app: &mut VoiceApp)
    ensures
        final(app)@ == toggled(old(app)@),
{
    match app.state {
        RecordingState::Idle | RecordingState::ApprovalPending => {
            app.state = RecordingState::Recording;
            app.level_shown = false;
        },
        RecordingState::Recording => {
            app.state = RecordingState::Transcribing;
            app.level_shown = false;
        },
        _ => {},
    }
}

/// Goes to approval-pending if there are pending approvals, otherwise to
/// idle.
pub fn return_to_idle_or_approval(app: &mut VoiceApp)
    ensures
        final(app)@ == at_rest(old(app)@),
{
    if app.approval_queue.has_pending() {
        app.state = RecordingState::ApprovalPending;
    } else {
        app.state = RecordingState::Idle;
    }
    app.level_shown = false;
}

/// Whether a push-to-talk recording may start now: from idle or
/// approval-pending only.
pub fn may_start_recording_now(app: &VoiceApp) -> (b: bool)
    ensures
        b == crate::session::may_start_recording(app@.state),
{
    app.state == RecordingState::Idle || app.state == RecordingState::ApprovalPending
}

/// The push-to-talk recorder has started: the state is recording.
pub fn recording_started(app: &mut VoiceApp)
    ensures
        final(app)@ == moved_to(old(app)@, RecordingState::Recording),
{
    app.state = RecordingState::Recording;
    app.level_shown = false;
}

/// Reports the failure of a pipeline step: the error state, with the step's
/// message.
pub fn handle_failure(app: &mut VoiceApp, f: Failure, detail: &str)
    ensures
        final(app)@ == errored(old(app)@, failure_message(f, detail@)),
{
    let msg = failure_text(f, detail);
    app.handle_error(msg.as_str());
}

/// The error message for a failed step.
pub fn failure_text(f: Failure, detail: &str) -> (s: String)
    ensures
        s@ == failure_message(f, detail@),
{
    let mut s = match f {
        Failure::OpenDevice => "Failed to open audio device: ".to_owned(),
        Failure::StartRecording => "Failed to start recording: ".to_owned(),
        Failure::StopRecording => "Failed to stop recording: ".to_owned(),
        Failure::WriteWav => "Failed to write WAV file: ".to_owned(),
        Failure::ModelNotLoaded => {
            return "Whisper model not loaded. Run 'opencode-voice setup'.".to_owned();
        },
        Failure::Transcription => "Transcription failed: ".to_owned(),
        Failure::TranscriptionPanicked => "Transcription task panicked: ".to_owned(),
        Failure::ReplyPermission => "Failed to reply to permission: ".to_owned(),
        Failure::ReplyQuestion => "Failed to reply to question: ".to_owned(),
        Failure::RejectQuestion => "Failed to reject question: ".to_owned(),
        Failure::CreateSession => "Failed to create session: ".to_owned(),
        Failure::SendMessage => "Failed to send message: ".to_owned(),
    };
    push_str(&mut s, detail);
    s
}

/// The push-to-talk recording has stopped after `duration_ms` milliseconds
/// with `samples` samples. A recording too short to transcribe is discarded
/// and the session returns to rest; otherwise the state is transcribing.
/// Returns whether to transcribe.
pub fn recording_stopped(app: &mut VoiceApp, duration_ms: u64, samples: usize) -> (transcribe:
    bool)
    ensures
        transcribe == (duration_ms >= MIN_RECORDING_MS && samples >= MIN_SAMPLES),
        transcribe ==> final(app)@ == moved_to(old(app)@, RecordingState::Transcribing),
        !transcribe ==> final(app)@ == at_rest(old(app)@),
{
    if duration_ms < MIN_RECORDING_MS || samples < MIN_SAMPLES {
        return_to_idle_or_approval(app);
        return false;
    }
    app.state = RecordingState::Transcribing;
    app.level_shown = false;
    true
}

/// The log line for a discarded recording, given its length as text.
pub fn too_short_message(duration: &str, samples: usize) -> (s: String)
    ensures
        s@ == "[voice] Recording too short ("@ + duration@ + "s, "@ + decimal(samples as nat)
            + " samples) — discarded."@,
{
    let mut s = "[voice] Recording too short (".to_owned();
    push_str(&mut s, duration);
    push_str(&mut s, "s, ");
    let n = decimal_string(samples as u64);
    push_str(&mut s, n.as_str());
    push_str(&mut s, " samples) — discarded.");
    s
}

/// The reply that `text` gives to the front pending approval, if any: the
/// decision half of answering an approval by voice.
pub fn approval_reply_for(app: &VoiceApp, text: &str) -> (r: Option<ApprovalReply>)
    ensures
        match r {
            Some(x) => app@.queue.len() > 0 && reply_for(app@.queue[0], text@) == Some(x@),
            None => app@.queue.len() == 0 || reply_for(app@.queue[0], text@) is None,
        },
{
    match app.approval_queue.peek() {
        None => None,
        Some(PendingApproval::Permission(req)) => match match_permission_command(text) {
            MatchResult::PermissionReply { reply, message } => Some(
                ApprovalReply::Permission { id: req.id.clone(), reply, message },
            ),
            _ => None,
        },
        Some(PendingApproval::Question(req)) => match match_question_answer(text, req) {
            MatchResult::QuestionAnswer { answers } => Some(
                ApprovalReply::Answer { id: req.id.clone(), answers },
            ),
            MatchResult::QuestionReject => Some(ApprovalReply::Reject { id: req.id.clone() }),
            _ => None,
        },
    }
}

/// Records that reply `reply` was sent to OpenCode, `failure` holding the
/// error if sending failed: the error is shown, the item leaves the queue
/// either way, and the state is refreshed.
pub fn approval_reply_sent(app: &mut VoiceApp, reply: &ApprovalReply, failure: Option<&str>)
    ensures
        final(app)@ == reply_sent(
            old(app)@,
            reply@,
            match failure {
                Some(e) => Some(e@),
                None => None,
            },
        ),
{
    let (id, kind) = match reply {
        ApprovalReply::Permission { id, .. } => (id, Failure::ReplyPermission),
        ApprovalReply::Answer { id, .. } => (id, Failure::ReplyQuestion),
        ApprovalReply::Reject { id } => (id, Failure::RejectQuestion),
    };
    if let Some(e) = failure {
        handle_failure(app, kind, e);
    }
    let _ = app.approval_queue.remove(id.as_str());
    refresh_approval_display(app);
}

/// Decides what becomes of a finished transcript: in debug mode it is only
/// stored for display; an empty one is dropped; one that answers the front
/// pending approval becomes that reply; any other is to be sent to OpenCode,
/// and the state becomes injecting.
pub fn transcription_finished(app: &mut VoiceApp, raw: &str) -> (step: TranscriptStep)
    ensures
        ({
            let (w, reply, inject) = transcript_outcome(old(app)@, raw@);
            &&& final(app)@ == w
            &&& match step {
                TranscriptStep::Done => reply is None && !inject,
                TranscriptStep::Reply(r) => reply == Some(r@) && !inject,
                TranscriptStep::Inject(t) => reply is None && inject && t@ == trim(raw@),
            }
        }),
        !old(app)@.config.debug && trim(raw@).len() > 0 && (old(app)@.queue.len() == 0
            || reply_for(old(app)@.queue[0], trim(raw@)) is None) ==> (step matches TranscriptStep::Inject(t)
            && t@ == trim(raw@) && final(app)@.state == RecordingState::Injecting),
{
    proof {
        if !old(app)@.config.debug && trim(raw@).len() > 0 {
            law_unanswering_transcript_is_injected(old(app)@, raw@);
        }
    }
    let text = trim_str(raw);
    if app.config.debug {
        if text.as_str().is_empty() {
            app.last_transcript = None;
        } else {
            app.last_transcript = Some(text);
        }
        return_to_idle_or_approval(app);
        return TranscriptStep::Done;
    }
    if text.as_str().is_empty() {
        return_to_idle_or_approval(app);
        return TranscriptStep::Done;
    }
    app.last_transcript = Some(text.clone());
    if app.approval_queue.has_pending() {
        if let Some(r) = approval_reply_for(app, text.as_str()) {
            return TranscriptStep::Reply(r);
        }
    }
    app.state = RecordingState::Injecting;
    TranscriptStep::Inject(text)
}

/// Starts sending text to OpenCode: the state is injecting.
pub fn begin_injection(app: &mut VoiceApp)
    ensures
        final(app)@ == (VoiceAppV { state: RecordingState::Injecting, ..old(app)@ }),
{
    app.state = RecordingState::Injecting;
}

/// Outside debug mode a transcript with words in it is never dropped: when
/// nothing is pending, or it does not answer the front pending approval, it
/// is sent to OpenCode (the session injects, keeps the transcript and its
/// queue, and makes no reply); when it does answer the front approval, it
/// becomes that reply and nothing is injected.
pub proof fn law_unanswering_transcript_is_injected(v: VoiceAppV, raw: Seq<char>)
    requires
        !v.config.debug,
        trim(raw).len() > 0,
    ensures
        (v.queue.len() == 0 || reply_for(v.queue[0], trim(raw)) is None) ==> ({
            let (w, reply, inject) = transcript_outcome(v, raw);
            &&& inject
            &&& reply is None
            &&& w.state == RecordingState::Injecting
            &&& w.last_transcript == Some(trim(raw))
            &&& w.queue == v.queue
        }),
        (v.queue.len() > 0 && reply_for(v.queue[0], trim(raw)) is Some) ==> ({
            let (w, reply, inject) = transcript_outcome(v, raw);
            &&& !inject
            &&& reply == reply_for(v.queue[0], trim(raw))
            &&& w.last_transcript == Some(trim(raw))
            &&& w.queue == v.queue
        }),
{
}

} // verus!
