//! Approvals announced and settled by OpenCode's event stream, and the state
//! after a voice reply.
use crate::approval::types::PendingApprovalV;
use crate::bridge::events::SseEvent;
use crate::bridge::events::SseEventV;
use crate::session::VoiceAppV;
use crate::text::push_str;
use crate::approval::types::PermissionRequest;
use crate::approval::types::QuestionRequest;
use crate::session::asked;
use crate::session::refreshed;
use crate::session::resolved;
use crate::session::status_changed;
use crate::session::VoiceApp;
use crate::state::RecordingState;
use vstd::prelude::*;

verus! {

broadcast use vstd::string::group_string_axioms;

/// The log line printed when the session's status clears pending approvals:
/// busy means they were answered elsewhere, idle that they are stale.
pub open spec fn status_log(busy: bool) -> Seq<char> {
    if busy {
        "[voice] Session became busy — clearing pending approvals (answered externally)."@
    } else {
        "[voice] Session idle — clearing stale approvals."@
    }
}

/// A `permission.asked` event: the request joins the queue and the state
/// becomes approval-pending.
pub fn handle_sse_permission_asked(app: &mut VoiceApp, req: PermissionRequest)
    ensures
        final(app)@ == asked(old(app)@, PendingApprovalV::Permission(req@)),
{
    app.approval_queue.add_permission(req);
    if app.state != RecordingState::ApprovalPending {
        app.state = RecordingState::ApprovalPending;
    }
}

/// A `permission.replied` event: the request leaves the queue; with nothing
/// left, approval-pending becomes idle.
pub fn handle_sse_permission_replied(
    app: &mut VoiceApp,
    session_id: &str,
    request_id: &str,
    reply: &str,
)
    ensures
        final(app)@ == resolved(old(app)@, request_id@),
{
    settle(app, request_id);
}

/// A `question.asked` event: the request joins the queue and the state
/// becomes approval-pending.
pub fn handle_sse_question_asked(app: &mut VoiceApp, req: QuestionRequest)
    ensures
        final(app)@ == asked(old(app)@, PendingApprovalV::Question(req@)),
{
    app.approval_queue.add_question(req);
    if app.state != RecordingState::ApprovalPending {
        app.state = RecordingState::ApprovalPending;
    }
}

/// A `question.replied` event: the request leaves the queue; with nothing
/// left, approval-pending becomes idle.
pub fn handle_sse_question_replied(
    app: &mut VoiceApp,
    session_id: &str,
    request_id: &str,
    answers: Vec<Vec<String>>,
)
    ensures
        final(app)@ == resolved(old(app)@, request_id@),
{
    settle(app, request_id);
}

/// A `question.rejected` event: the request leaves the queue; with nothing
/// left, approval-pending becomes idle.
pub fn handle_sse_question_rejected(app: &mut VoiceApp, session_id: &str, request_id: &str)
    ensures
        final(app)@ == resolved(old(app)@, request_id@),
{
    settle(app, request_id);
}

fn settle(app: &mut VoiceApp, request_id: &str)
    ensures
        final(app)@ == resolved(old(app)@, request_id@),
{
    let _ = app.approval_queue.remove(request_id);
    if !app.approval_queue.has_pending() && app.state == RecordingState::ApprovalPending {
        app.state = RecordingState::Idle;
    }
}

/// A `session.status` event. When the session turns busy the AI has resumed,
/// so whatever was pending was answered elsewhere; when it turns idle with
/// approvals still queued, they are stale. Either way the queue is emptied
/// and approval-pending becomes idle; other states stay. Returns the line to
/// log, if anything was cleared.
pub fn handle_sse_session_status(app: &mut VoiceApp, session_id: &str, busy: bool) -> (log: Option<
    &'static str,
>)
    ensures
        final(app)@ == status_changed(old(app)@),
        match log {
            Some(l) => old(app)@.queue.len() > 0 && l@ == status_log(busy),
            None => old(app)@.queue.len() == 0,
        },
{
    if !app.approval_queue.has_pending() {
        return None;
    }
    let line = if busy {
        "[voice] Session became busy — clearing pending approvals (answered externally)."
    } else {
        "[voice] Session idle — clearing stale approvals."
    };
    app.approval_queue.clear();
    if app.state == RecordingState::ApprovalPending {
        app.state = RecordingState::Idle;
    }
    Some(line)
}

/// The state after a voice reply was dispatched: with something still
/// pending, idle or approval-pending becomes approval-pending; with nothing
/// pending, approval-pending becomes idle; recording, transcribing and the
/// like stay.
pub fn refresh_approval_display(app: &mut VoiceApp)
    ensures
        final(app)@ == refreshed(old(app)@),
{
    if app.approval_queue.has_pending() {
        if app.state == RecordingState::Idle || app.state == RecordingState::ApprovalPending {
            app.state = RecordingState::ApprovalPending;
        }
    } else if app.state == RecordingState::ApprovalPending {
        app.state = RecordingState::Idle;
    }
}

/// What the caller does after an event of the stream was handled: print a
/// line above the display, and render the display again.
pub struct SseOutcome {
    pub log: Option<String>,
    pub render: bool,
}

/// The session after event `e` of the stream.
pub open spec fn after_sse_event(v: VoiceAppV, e: SseEventV) -> VoiceAppV {
    match e {
        SseEventV::PermissionAsked(r) => asked(v, PendingApprovalV::Permission(r)),
        SseEventV::QuestionAsked(q) => asked(v, PendingApprovalV::Question(q)),
        SseEventV::PermissionReplied { request_id, .. } => resolved(v, request_id),
        SseEventV::QuestionReplied { request_id, .. } => resolved(v, request_id),
        SseEventV::QuestionRejected { request_id, .. } => resolved(v, request_id),
        SseEventV::SessionStatus { .. } => status_changed(v),
        _ => v,
    }
}

/// The line logged for event `e` in session `v`, if any.
pub open spec fn sse_log(v: VoiceAppV, e: SseEventV) -> Option<Seq<char>> {
    match e {
        SseEventV::Disconnected(Some(m)) => Some("[voice] SSE disconnected: "@ + m),
        SseEventV::SessionStatus { busy, .. } => if v.queue.len() > 0 {
            Some(status_log(busy))
        } else {
            None
        },
        _ => None,
    }
}

/// Whether event `e` in session `v` changes what the display shows.
pub open spec fn sse_renders(v: VoiceAppV, e: SseEventV) -> bool {
    match e {
        SseEventV::SessionUpdated { .. } | SseEventV::SessionCreated { .. }
        | SseEventV::SessionDeleted { .. } => false,
        SseEventV::SessionStatus { .. } => v.queue.len() > 0,
        _ => true,
    }
}

/// Handles an event of OpenCode's stream: approvals asked join the queue,
/// approvals settled leave it, a change of the session's status clears it,
/// and a lost connection is logged.
pub fn handle_sse_event(app: &mut VoiceApp, event: SseEvent) -> (out: SseOutcome)
    ensures
        final(app)@ == after_sse_event(old(app)@, event@),
        match out.log {
            Some(l) => sse_log(old(app)@, event@) == Some(l@),
            None => sse_log(old(app)@, event@) is None,
        },
        out.render == sse_renders(old(app)@, event@),
{
    match event {
        SseEvent::Connected => SseOutcome { log: None, render: true },
        SseEvent::Disconnected(reason) => {
            let log = match reason {
                Some(m) => {
                    let mut l = "[voice] SSE disconnected: ".to_owned();
                    push_str(&mut l, m.as_str());
                    Some(l)
                },
                None => None,
            };
            SseOutcome { log, render: true }
        },
        SseEvent::PermissionAsked(req) => {
            handle_sse_permission_asked(app, req);
            SseOutcome { log: None, render: true }
        },
        SseEvent::PermissionReplied { session_id, request_id, reply } => {
            handle_sse_permission_replied(app, session_id.as_str(), request_id.as_str(), reply.as_str());
            SseOutcome { log: None, render: true }
        },
        SseEvent::QuestionAsked(req) => {
            handle_sse_question_asked(app, req);
            SseOutcome { log: None, render: true }
        },
        SseEvent::QuestionReplied { session_id, request_id, answers } => {
            handle_sse_question_replied(app, session_id.as_str(), request_id.as_str(), answers);
            SseOutcome { log: None, render: true }
        },
        SseEvent::QuestionRejected { session_id, request_id } => {
            handle_sse_question_rejected(app, session_id.as_str(), request_id.as_str());
            SseOutcome { log: None, render: true }
        },
        SseEvent::SessionStatus { session_id, busy } => {
            let cleared = app.approval_queue.has_pending();
            let line = handle_sse_session_status(app, session_id.as_str(), busy);
            let log = match line {
                Some(l) => Some(l.to_owned()),
                None => None,
            };
            SseOutcome { log, render: cleared }
        },
        SseEvent::SessionUpdated { .. } | SseEvent::SessionCreated { .. }
        | SseEvent::SessionDeleted { .. } => SseOutcome { log: None, render: false },
    }
}

} // verus!
