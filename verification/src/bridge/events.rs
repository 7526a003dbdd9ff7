//! The events of OpenCode's `/event` stream: framing of a server-sent-event
//! block and the meaning of the JSON it carries.
use crate::approval::types::PermissionRequest;
use crate::approval::types::PermissionRequestV;
use crate::approval::types::QuestionRequest;
use crate::approval::types::QuestionRequestV;
use crate::bridge::decode::answers_from_json;
use crate::bridge::decode::de_answers;
use crate::bridge::decode::de_permission_request;
use crate::bridge::decode::de_question_request;
use crate::bridge::decode::permission_request_from_json;
use crate::bridge::decode::question_request_from_json;
use crate::json::as_str;
use crate::json::get;
use crate::json::json_of_text;
use crate::json::parse_json;
use crate::json::opt_as_str;
use crate::json::str_field_or_empty;
use crate::json::str_field_or_empty_exec;
use crate::json::Json;
use crate::json::JsonV;
use crate::text::chars_eq;
use crate::text::chars_of;
use crate::text::is_prefix;
use crate::text::slice_chars;
use crate::text::starts_with;
use crate::text::string_of;
use crate::text::trim;
use crate::text::trim_chars;
use vstd::prelude::*;

verus! {

broadcast use vstd::string::group_string_axioms;

/// Events received from the OpenCode SSE stream.
#[derive(Debug, PartialEq)]
pub enum SseEvent {
    PermissionAsked(PermissionRequest),
    PermissionReplied { session_id: String, request_id: String, reply: String },
    QuestionAsked(QuestionRequest),
    QuestionReplied { session_id: String, request_id: String, answers: Vec<Vec<String>> },
    QuestionRejected { session_id: String, request_id: String },
    /// Session status changed (busy/idle/retry).
    ///
    /// When the session becomes busy it means the AI has resumed work — any
    /// pending permissions or questions must have been answered (possibly by
    /// the user interacting directly with the OpenCode TUI).
    SessionStatus {
        session_id: String,
        /// `true` when the session is actively processing ("busy"),
        /// `false` otherwise.
        busy: bool,
    },
    /// Session was updated (renamed, etc.).
    SessionUpdated { session_id: String },
    /// A new session was created.
    SessionCreated { session_id: String },
    /// A session was deleted.
    SessionDeleted { session_id: String },
    Connected,
    Disconnected(Option<String>),
}

/// The model of an event.
pub enum SseEventV {
    PermissionAsked(PermissionRequestV),
    PermissionReplied { session_id: Seq<char>, request_id: Seq<char>, reply: Seq<char> },
    QuestionAsked(QuestionRequestV),
    QuestionReplied {
        session_id: Seq<char>,
        request_id: Seq<char>,
        answers: Seq<Seq<Seq<char>>>,
    },
    QuestionRejected { session_id: Seq<char>, request_id: Seq<char> },
    SessionStatus { session_id: Seq<char>, busy: bool },
    SessionUpdated { session_id: Seq<char> },
    SessionCreated { session_id: Seq<char> },
    SessionDeleted { session_id: Seq<char> },
    Connected,
    Disconnected(Option<Seq<char>>),
}

impl View for SseEvent {
    type V = SseEventV;

    open spec fn view(&self) -> SseEventV {
        match self {
            SseEvent::PermissionAsked(r) => SseEventV::PermissionAsked(r@),
            SseEvent::PermissionReplied { session_id, request_id, reply } =>
                SseEventV::PermissionReplied {
                session_id: session_id@,
                request_id: request_id@,
                reply: reply@,
            },
            SseEvent::QuestionAsked(r) => SseEventV::QuestionAsked(r@),
            SseEvent::QuestionReplied { session_id, request_id, answers } =>
                SseEventV::QuestionReplied {
                session_id: session_id@,
                request_id: request_id@,
                answers: answers.deep_view(),
            },
            SseEvent::QuestionRejected { session_id, request_id } =>
                SseEventV::QuestionRejected { session_id: session_id@, request_id: request_id@ },
            SseEvent::SessionStatus { session_id, busy } => SseEventV::SessionStatus {
                session_id: session_id@,
                busy: *busy,
            },
            SseEvent::SessionUpdated { session_id } => SseEventV::SessionUpdated {
                session_id: session_id@,
            },
            SseEvent::SessionCreated { session_id } => SseEventV::SessionCreated {
                session_id: session_id@,
            },
            SseEvent::SessionDeleted { session_id } => SseEventV::SessionDeleted {
                session_id: session_id@,
            },
            SseEvent::Connected => SseEventV::Connected,
            SseEvent::Disconnected(m) => SseEventV::Disconnected(
                match m {
                    Some(s) => Some(s@),
                    None => None,
                },
            ),
        }
    }
}

// ───────────────────────── specifications ─────────────────────────

/// The lines of `s` (`str::lines`): the pieces between `'\n'` characters,
/// each without one trailing `'\r'`; a final empty piece is kept, which no
/// caller here can tell apart from its absence.
pub open spec fn split_lines(s: Seq<char>) -> Seq<Seq<char>>
    decreases s.len(),
{
    if s.len() == 0 {
        seq![seq![]]
    } else if s.last() == '\n' {
        split_lines(s.drop_last()).push(seq![])
    } else {
        let ls = split_lines(s.drop_last());
        ls.update(ls.len() - 1, ls.last().push(s.last()))
    }
}

pub open spec fn without_cr(line: Seq<char>) -> Seq<char> {
    if line.len() > 0 && line.last() == '\r' {
        line.drop_last()
    } else {
        line
    }
}

/// The first line of `ls` that starts with `"data:"`.
pub open spec fn first_data_line(ls: Seq<Seq<char>>) -> Option<Seq<char>>
    decreases ls.len(),
{
    if ls.len() == 0 {
        None
    } else if is_prefix("data:"@, without_cr(ls[0])) {
        Some(without_cr(ls[0]))
    } else {
        first_data_line(ls.drop_first())
    }
}

/// `s` with every leading repetition of `p` stripped
/// (`str::trim_start_matches`).
pub open spec fn strip_repeated_prefix(s: Seq<char>, p: Seq<char>) -> Seq<char>
    decreases s.len(),
{
    if p.len() > 0 && is_prefix(p, s) {
        strip_repeated_prefix(s.skip(p.len() as int), p)
    } else {
        s
    }
}

/// The data carried by an SSE block: the first `data:` line without its
/// `data:` prefixes, trimmed; none if there is no such line or it is blank.
pub open spec fn sse_data(block: Seq<char>) -> Option<Seq<char>> {
    match first_data_line(split_lines(block)) {
        None => None,
        Some(line) => {
            let d = trim(strip_repeated_prefix(line, "data:"@));
            if d.len() > 0 {
                Some(d)
            } else {
                None
            }
        },
    }
}

/// The properties of an event: its `properties` value, or `null`.
pub open spec fn properties_of(j: JsonV) -> JsonV {
    match get(j, "properties"@) {
        Some(p) => p,
        None => JsonV::Null,
    }
}

/// The session ID of a session lifecycle event: `info.id`, else `id`, if a
/// string; else empty.
pub open spec fn session_info_id(props: JsonV) -> Seq<char> {
    let found = match get(props, "info"@) {
        Some(info) => match get(info, "id"@) {
            Some(x) => Some(x),
            None => get(props, "id"@),
        },
        None => get(props, "id"@),
    };
    match as_str(found) {
        Some(s) => s,
        None => seq![],
    }
}

/// The session ID of a status event: `sessionID`, else `session_id`, if a
/// string; else empty.
pub open spec fn status_session_id(props: JsonV) -> Seq<char> {
    let found = match get(props, "sessionID"@) {
        Some(x) => Some(x),
        None => get(props, "session_id"@),
    };
    match as_str(found) {
        Some(s) => s,
        None => seq![],
    }
}

/// Whether a status event says the session is busy (`status.type` is
/// `"busy"`).
pub open spec fn status_busy(props: JsonV) -> bool {
    match get(props, "status"@) {
        Some(st) => as_str(get(st, "type"@)) == Some("busy"@),
        None => false,
    }
}

/// The event a JSON message stands for; none for heartbeats, informational
/// and unknown event types, messages without a string `type`, and requests
/// that do not decode.
pub open spec fn event_of(j: JsonV) -> Option<SseEventV> {
    match as_str(get(j, "type"@)) {
        None => None,
        Some(t) => {
            let props = properties_of(j);
            if t == "server.connected"@ {
                Some(SseEventV::Connected)
            } else if t == "permission.asked"@ {
                match de_permission_request(props) {
                    Some(r) => Some(SseEventV::PermissionAsked(r)),
                    None => None,
                }
            } else if t == "permission.replied"@ {
                Some(
                    SseEventV::PermissionReplied {
                        session_id: str_field_or_empty(props, "session_id"@),
                        request_id: str_field_or_empty(props, "request_id"@),
                        reply: str_field_or_empty(props, "reply"@),
                    },
                )
            } else if t == "question.asked"@ {
                match de_question_request(props) {
                    Some(r) => Some(SseEventV::QuestionAsked(r)),
                    None => None,
                }
            } else if t == "question.replied"@ {
                Some(
                    SseEventV::QuestionReplied {
                        session_id: str_field_or_empty(props, "session_id"@),
                        request_id: str_field_or_empty(props, "request_id"@),
                        answers: match get(props, "answers"@) {
                            Some(a) => match de_answers(a) {
                                Some(x) => x,
                                None => seq![],
                            },
                            None => seq![],
                        },
                    },
                )
            } else if t == "question.rejected"@ {
                Some(
                    SseEventV::QuestionRejected {
                        session_id: str_field_or_empty(props, "session_id"@),
                        request_id: str_field_or_empty(props, "request_id"@),
                    },
                )
            } else if t == "session.updated"@ {
                Some(SseEventV::SessionUpdated { session_id: session_info_id(props) })
            } else if t == "session.created"@ {
                Some(SseEventV::SessionCreated { session_id: session_info_id(props) })
            } else if t == "session.deleted"@ {
                Some(SseEventV::SessionDeleted { session_id: session_info_id(props) })
            } else if t == "session.status"@ {
                Some(
                    SseEventV::SessionStatus {
                        session_id: status_session_id(props),
                        busy: status_busy(props),
                    },
                )
            } else {
                None
            }
        },
    }
}

/// The reconnect delay after `current` seconds: doubled, at most 30.
pub open spec fn next_delay(current: nat) -> nat {
    if current * 2 < 30 {
        current * 2
    } else {
        30
    }
}

// ───────────────────────── executable functions ─────────────────────────

/// Extracts the data field of an SSE block: the first line starting with
/// `data:`, without that prefix, trimmed. Returns `None` when there is no
/// data line or its data is blank.
pub fn parse_sse_data(block: &str) -> (r: Option<String>)
    ensures
        match r {
            Some(d) => sse_data(block@) == Some(d@),
            None => sse_data(block@) is None,
        },
{
    let chars = chars_of(block);
    match first_data_line_of(&chars) {
        None => None,
        Some(line) => {
            let stripped = strip_data_prefixes(&line);
            let d = trim_chars(&stripped);
            if d.len() > 0 {
                Some(string_of(&d))
            } else {
                None
            }
        },
    }
}

/// Strips every leading `data:` from a line.
fn strip_data_prefixes(line: &Vec<char>) -> (r: Vec<char>)
    ensures
        r@ == strip_repeated_prefix(line@, "data:"@),
{
    let p = chars_of("data:");
    let mut cur = slice_chars(line, 0, line.len());
    assert(cur@ =~= line@);
    while p.len() > 0 && starts_with(&cur, &p)
        invariant
            p@ == "data:"@,
            strip_repeated_prefix(line@, "data:"@) == strip_repeated_prefix(cur@, "data:"@),
        decreases cur@.len(),
    {
        let next = slice_chars(&cur, p.len(), cur.len());
        assert(next@ =~= cur@.skip(p@.len() as int));
        cur = next;
    }
    cur
}

proof fn lemma_split_lines_nonempty(s: Seq<char>)
    ensures
        split_lines(s).len() >= 1,
    decreases s.len(),
{
    if s.len() > 0 {
        lemma_split_lines_nonempty(s.drop_last());
    }
}

/// The first line (without a trailing carriage return) that starts with
/// `data:`.
fn first_data_line_of(s: &Vec<char>) -> (r: Option<Vec<char>>)
    ensures
        match r {
            Some(l) => first_data_line(split_lines(s@)) == Some(l@),
            None => first_data_line(split_lines(s@)) is None,
        },
{
    let prefix = chars_of("data:");
    // lines are scanned from the front; `start` is where the current line begins
    let mut start: usize = 0;
    let mut i: usize = 0;
    assert(s@.skip(0) =~= s@);
    loop
        invariant
            prefix@ == "data:"@,
            start <= i <= s.len(),
            forall|k: int| start <= k < i ==> s@[k] != '\n',
            first_data_line(split_lines(s@)) == first_data_line(split_lines(s@.skip(start as int))),
        decreases s.len() - i,
    {
        if i == s.len() || s[i] == '\n' {
            let raw = slice_chars(s, start, i);
            let line = if raw.len() > 0 && raw[raw.len() - 1] == '\r' {
                slice_chars(&raw, 0, raw.len() - 1)
            } else {
                raw
            };
            let ghost rest = s@.skip(start as int);
            let ghost k = (i - start) as int;
            proof {
                assert forall|m: int| 0 <= m < k implies rest[m] != '\n' by {
                    assert(rest[m] == s@[start + m]);
                }
                lemma_split_lines_front(rest, k);
                lemma_split_lines_nonempty(rest);
                assert(rest.take(k) =~= raw@);
                assert(line@ == without_cr(raw@)) by {
                    if raw@.len() > 0 && raw@.last() == '\r' {
                        assert(line@ =~= raw@.drop_last());
                    }
                }
            }
            if starts_with(&line, &prefix) {
                return Some(line);
            }
            if i == s.len() {
                return None;
            }
            proof {
                assert(rest.skip(k + 1) =~= s@.skip(i + 1));
                assert(first_data_line(split_lines(rest)) == first_data_line(
                    split_lines(rest).drop_first(),
                ));
            }
            start = i + 1;
        }
        i = i + 1;
    }
}

/// The lines of `s` are its first line, up to position `k`, followed by the
/// lines after it.
proof fn lemma_split_lines_front(s: Seq<char>, k: int)
    requires
        0 <= k <= s.len(),
        forall|m: int| 0 <= m < k ==> s[m] != '\n',
        k < s.len() ==> s[k] == '\n',
    ensures
        split_lines(s)[0] == s.take(k),
        k < s.len() ==> split_lines(s).drop_first() == split_lines(s.skip(k + 1)),
        k == s.len() ==> split_lines(s).len() == 1,
    decreases s.len(),
{
    lemma_split_lines_nonempty(s);
    if s.len() == 0 {
        assert(s.take(0) =~= seq![]);
    } else if k == s.len() {
        lemma_split_lines_front(s.drop_last(), k - 1);
        lemma_split_lines_nonempty(s.drop_last());
        assert(s.drop_last().take(k - 1).push(s.last()) =~= s.take(k));
    } else if s.last() == '\n' && k == s.len() - 1 {
        lemma_split_lines_front(s.drop_last(), k);
        assert(s.drop_last().take(k) =~= s.take(k));
        assert(s.skip(k + 1) =~= seq![]);
        lemma_split_lines_nonempty(s.drop_last());
        assert(split_lines(s.drop_last()).push(seq![]).drop_first() =~= seq![seq![]]);
    } else {
        lemma_split_lines_front(s.drop_last(), k);
        lemma_split_lines_nonempty(s.drop_last());
        assert(s.drop_last().take(k) =~= s.take(k));
        let rest = s.skip(k + 1);
        assert(rest.len() > 0);
        assert(rest.drop_last() =~= s.drop_last().skip(k + 1));
        assert(rest.last() == s.last());
        lemma_split_lines_nonempty(rest.drop_last());
        if s.last() == '\n' {
            assert(split_lines(s).drop_first() =~= split_lines(s.drop_last()).drop_first().push(
                seq![],
            ));
        } else {
            let ls = split_lines(s.drop_last());
            assert(split_lines(s).drop_first() =~= ls.drop_first().update(
                ls.len() - 2,
                ls.last().push(s.last()),
            ));
        }
    }
}

/// Whether `t` is the text `lit`.
fn is_text(t: &Vec<char>, lit: &str) -> (r: bool)
    ensures
        r == (t@ == lit@),
{
    let l = chars_of(lit);
    chars_eq(t, &l)
}

fn session_info_id_of(props: &Json) -> (r: String)
    ensures
        r@ == session_info_id(props@),
{
    let found = match props.get("info") {
        Some(info) => match info.get("id") {
            Some(x) => Some(x),
            None => props.get("id"),
        },
        None => props.get("id"),
    };
    match opt_as_str(found) {
        Some(s) => s.to_owned(),
        None => String::new(),
    }
}

fn status_session_id_of(props: &Json) -> (r: String)
    ensures
        r@ == status_session_id(props@),
{
    let found = match props.get("sessionID") {
        Some(x) => Some(x),
        None => props.get("session_id"),
    };
    match opt_as_str(found) {
        Some(s) => s.to_owned(),
        None => String::new(),
    }
}

fn status_busy_of(props: &Json) -> (r: bool)
    ensures
        r == status_busy(props@),
{
    match props.get("status") {
        Some(st) => match opt_as_str(st.get("type")) {
            Some(s) => {
                let c = chars_of(s);
                is_text(&c, "busy")
            },
            None => false,
        },
        None => false,
    }
}

/// Interprets the JSON message of an SSE block as an event.
///
/// Returns `None` for heartbeats, informational and unknown event types,
/// messages without a `type`, and requests that do not decode.
pub fn parse_sse_event(json: &Json) -> (r: Option<SseEvent>)
    ensures
        match r {
            Some(e) => event_of(json@) == Some(e@),
            None => event_of(json@) is None,
        },
{
    let t = match opt_as_str(json.get("type")) {
        Some(s) => chars_of(s),
        None => {
            return None;
        },
    };
    let null = Json::Null;
    let props: &Json = match json.get("properties") {
        Some(p) => p,
        None => &null,
    };
    assert(props@ == properties_of(json@));
    if is_text(&t, "server.connected") {
        Some(SseEvent::Connected)
    } else if is_text(&t, "permission.asked") {
        match permission_request_from_json(props) {
            Some(r) => Some(SseEvent::PermissionAsked(r)),
            None => None,
        }
    } else if is_text(&t, "permission.replied") {
        Some(
            SseEvent::PermissionReplied {
                session_id: str_field_or_empty_exec(props, "session_id"),
                request_id: str_field_or_empty_exec(props, "request_id"),
                reply: str_field_or_empty_exec(props, "reply"),
            },
        )
    } else if is_text(&t, "question.asked") {
        match question_request_from_json(props) {
            Some(r) => Some(SseEvent::QuestionAsked(r)),
            None => None,
        }
    } else if is_text(&t, "question.replied") {
        let answers = match props.get("answers") {
            Some(a) => match answers_from_json(a) {
                Some(x) => x,
                None => {
                    let v: Vec<Vec<String>> = Vec::new();
                    assert(v.deep_view() =~= Seq::<Seq<Seq<char>>>::empty());
                    v
                },
            },
            None => {
                let v: Vec<Vec<String>> = Vec::new();
                assert(v.deep_view() =~= Seq::<Seq<Seq<char>>>::empty());
                v
            },
        };
        Some(
            SseEvent::QuestionReplied {
                session_id: str_field_or_empty_exec(props, "session_id"),
                request_id: str_field_or_empty_exec(props, "request_id"),
                answers,
            },
        )
    } else if is_text(&t, "question.rejected") {
        Some(
            SseEvent::QuestionRejected {
                session_id: str_field_or_empty_exec(props, "session_id"),
                request_id: str_field_or_empty_exec(props, "request_id"),
            },
        )
    } else if is_text(&t, "session.updated") {
        Some(SseEvent::SessionUpdated { session_id: session_info_id_of(props) })
    } else if is_text(&t, "session.created") {
        Some(SseEvent::SessionCreated { session_id: session_info_id_of(props) })
    } else if is_text(&t, "session.deleted") {
        Some(SseEvent::SessionDeleted { session_id: session_info_id_of(props) })
    } else if is_text(&t, "session.status") {
        Some(
            SseEvent::SessionStatus {
                session_id: status_session_id_of(props),
                busy: status_busy_of(props),
            },
        )
    } else {
        None
    }
}

/// Computes the next reconnect delay using exponential backoff, capped at
/// 30 seconds.
pub fn next_reconnect_delay(current: u64) -> (d: u64)
    ensures
        d == next_delay(current as nat),
{
    if current >= 15 {
        30
    } else {
        current * 2
    }
}

/// The backoff delays never exceed 30 seconds, and from any delay of at
/// least one second they reach 30 and stay there.
pub proof fn law_backoff_capped(current: nat)
    ensures
        next_delay(current) <= 30,
        current >= 15 ==> next_delay(current) == 30,
        next_delay(30) == 30,
        current < 15 ==> next_delay(current) == 2 * current,
{
}

/// The event an SSE block carries: its data line, read as JSON text, read as
/// an event.
pub open spec fn sse_block_event(b: Seq<char>) -> Option<SseEventV> {
    match sse_data(b) {
        Some(d) => match json_of_text(d) {
            Some(j) => event_of(j),
            None => None,
        },
        None => None,
    }
}

/// Extracts the data field from an SSE block and returns the parsed event.
///
/// Returns `None` for heartbeats, malformed JSON, missing data lines,
/// unknown event types, and other non-actionable blocks.
pub fn parse_sse_block(block: &str) -> (r: Option<SseEvent>)
    ensures
        match r {
            Some(e) => sse_block_event(block@) == Some(e@),
            None => sse_block_event(block@) is None,
        },
{
    let data = match parse_sse_data(block) {
        Some(d) => d,
        None => {
            return None;
        },
    };
    match parse_json(data.as_str()) {
        Some(j) => parse_sse_event(&j),
        None => None,
    }
}

} // verus!
