//! The OpenCode HTTP API as this library speaks it: where the server is, how
//! a request is authorised, which path and JSON body each call sends, and how
//! the replies are read. The caller sends the requests.
use crate::approval::types::PermissionReply;
use crate::approval::types::reply_wire_name;
use crate::bridge::decode::required_string;
use crate::bridge::decode::required_string_of;
use crate::bridge::decode::record_fits;
use crate::bridge::decode::record_fits_exec;
use crate::config::opt_view;
use crate::json::get;
use crate::json::json_seq_view;
use crate::json::lemma_json_seq_view;
use crate::json::entries_view;
use crate::json::Json;
use crate::json::JsonV;
use crate::text::chars_of;
use crate::text::decimal;
use crate::text::decimal_string;
use crate::text::push_str;
use crate::text::slice_chars;
use crate::text::string_of;
use base64::Engine;
use vstd::prelude::*;
use vstd::utf8::encode_utf8;

verus! {

broadcast use vstd::string::group_string_axioms;

/// The standard base64 encoding (RFC 4648 alphabet, with `=` padding) of a
/// byte sequence, as the `base64` crate's `STANDARD` engine computes it.
pub uninterp spec fn base64_standard(data: Seq<u8>) -> Seq<char>;

/// Calls `base64::engine::general_purpose::STANDARD.encode`. Claimed: the
/// result is the standard padded base64 encoding of the bytes, a function of
/// the bytes alone, four characters for every three bytes or part of three.
/// The crate panics when that length does not fit in a `usize`, which the
/// `requires` rules out.
#[verifier::external_body]
fn encode_base64(data: &[u8]) -> (r: String)
    requires
        4 * ((data@.len() + 2) / 3) <= usize::MAX,
    ensures
        r@ == base64_standard(data@),
        r@.len() == 4 * ((data@.len() + 2) / 3),
{
    base64::engine::general_purpose::STANDARD.encode(data)
}

/// Information about an OpenCode session.
#[derive(Debug, Clone)]
pub struct SessionInfo {
    pub id: String,
    pub title: String,
}

pub struct SessionInfoV {
    pub id: Seq<char>,
    pub title: Seq<char>,
}

impl View for SessionInfo {
    type V = SessionInfoV;

    open spec fn view(&self) -> SessionInfoV {
        SessionInfoV { id: self.id@, title: self.title@ }
    }
}

/// A POST request to the OpenCode API: its path and JSON body.
#[derive(Debug)]
pub struct ApiRequest {
    pub path: String,
    pub body: Json,
}

/// The server's address and credentials.
pub struct OpenCodeBridge {
    base_url: String,
    password: Option<String>,
}

pub struct OpenCodeBridgeV {
    pub base_url: Seq<char>,
    pub password: Option<Seq<char>>,
}

impl View for OpenCodeBridge {
    type V = OpenCodeBridgeV;

    closed spec fn view(&self) -> OpenCodeBridgeV {
        OpenCodeBridgeV { base_url: self.base_url@, password: opt_view(self.password) }
    }
}

// ───────────────────────── specifications ─────────────────────────

/// `s` without its trailing slashes (`trim_end_matches('/')`).
pub open spec fn without_trailing_slashes(s: Seq<char>) -> Seq<char>
    decreases s.len(),
{
    if s.len() > 0 && s.last() == '/' {
        without_trailing_slashes(s.drop_last())
    } else {
        s
    }
}

/// The base URL of the server at `url` on `port`: `http://localhost:4096`.
pub open spec fn base_url_of(url: Seq<char>, port: u16) -> Seq<char> {
    without_trailing_slashes(url) + ":"@ + decimal(port as nat)
}

/// The `Authorization` header for basic authentication as user `opencode`.
pub open spec fn basic_auth(password: Seq<char>) -> Seq<char> {
    "Basic "@ + base64_standard(encode_utf8("opencode:"@ + password))
}

/// Whether the credentials for `password` can be encoded at all.
pub open spec fn credentials_fit(password: Seq<char>) -> bool {
    4 * ((encode_utf8("opencode:"@ + password).len() + 2) / 3) <= usize::MAX
}

/// A JSON object of the given entries.
pub open spec fn object(es: Seq<(Seq<char>, JsonV)>) -> JsonV {
    JsonV::Object(es)
}

/// The body of a permission reply: the reply, and the message if any.
pub open spec fn permission_reply_body(reply: PermissionReply, message: Option<Seq<char>>) -> JsonV {
    match message {
        Some(m) => object(
            seq![("reply"@, JsonV::Str(reply_wire_name(reply))), ("message"@, JsonV::Str(m))],
        ),
        None => object(seq![("reply"@, JsonV::Str(reply_wire_name(reply)))]),
    }
}

/// A list of strings as JSON.
pub open spec fn strings_json(s: Seq<Seq<char>>) -> JsonV {
    JsonV::Array(s.map_values(|x: Seq<char>| JsonV::Str(x)))
}

/// The answers to a question as JSON: one list of labels per question.
pub open spec fn answers_json(a: Seq<Seq<Seq<char>>>) -> JsonV {
    JsonV::Array(a.map_values(|l: Seq<Seq<char>>| strings_json(l)))
}

/// The body that sends `text` to a session as a prompt.
pub open spec fn message_body(text: Seq<char>) -> JsonV {
    object(
        seq![
            ("parts"@, JsonV::Array(
                seq![object(seq![("type"@, JsonV::Str("text"@)), ("text"@, JsonV::Str(text))])],
            )),
        ],
    )
}

/// A session read from JSON: required `id` and `title` strings.
pub open spec fn de_session_info(j: JsonV) -> Option<SessionInfoV> {
    match (required_string(j, "id"@, 0), required_string(j, "title"@, 1)) {
        (Some(id), Some(title)) => if record_fits(j, 2) {
            Some(SessionInfoV { id, title })
        } else {
            None
        },
        _ => None,
    }
}

/// A list of sessions read from JSON.
pub open spec fn de_session_infos(s: Seq<JsonV>) -> Option<Seq<SessionInfoV>>
    decreases s.len(),
{
    if s.len() == 0 {
        Some(seq![])
    } else {
        match (de_session_infos(s.drop_last()), de_session_info(s.last())) {
            (Some(a), Some(b)) => Some(a.push(b)),
            _ => None,
        }
    }
}

/// Whether a health reply says the server is healthy: its `healthy` field is
/// `true`.
pub open spec fn healthy(j: JsonV) -> bool {
    get(j, "healthy"@) == Some(JsonV::Bool(true))
}

// ───────────────────────── executable functions ─────────────────────────

fn concat3(a: &str, b: &str, c: &str) -> (s: String)
    ensures
        s@ == a@ + b@ + c@,
{
    let mut s = a.to_owned();
    push_str(&mut s, b);
    push_str(&mut s, c);
    s
}

/// `s` without its trailing slashes.
pub fn trim_trailing_slashes(s: &str) -> (r: String)
    ensures
        r@ == without_trailing_slashes(s@),
{
    let v = chars_of(s);
    let mut n: usize = v.len();
    assert(v@.take(v.len() as int) =~= v@);
    while n > 0 && v[n - 1] == '/'
        invariant
            n <= v.len(),
            without_trailing_slashes(v@.take(n as int)) == without_trailing_slashes(s@),
            v@ == s@,
        decreases n,
    {
        assert(v@.take(n as int).drop_last() =~= v@.take(n - 1));
        n = n - 1;
    }
    assert(v@.take(v.len() as int) =~= v@);
    let w = slice_chars(&v, 0, n);
    assert(w@ =~= v@.take(n as int));
    string_of(&w)
}

impl OpenCodeBridge {
    /// The bridge to the server at `url` (typically `http://localhost`) on
    /// `port`.
    pub fn new(url: &str, port: u16, password: Option<String>) -> (b: Self)
        ensures
            b@.base_url == base_url_of(url@, port),
            b@.password == opt_view(password),
    {
        let trimmed = trim_trailing_slashes(url);
        let p = decimal_string(port as u64);
        let base_url = concat3(trimmed.as_str(), ":", p.as_str());
        OpenCodeBridge { base_url, password }
    }

    /// The base URL, e.g. `http://localhost:4096`.
    pub fn get_base_url(&self) -> (s: &str)
        ensures
            s@ == self@.base_url,
    {
        self.base_url.as_str()
    }

    /// The full URL of `path` on the server.
    pub fn url(&self, path: &str) -> (s: String)
        ensures
            s@ == self@.base_url + path@,
    {
        let mut s = self.base_url.clone();
        push_str(&mut s, path);
        s
    }

    /// The `Authorization` header for basic authentication, when a password
    /// is set.
    pub fn auth_header(&self) -> (h: Option<String>)
        requires
            self@.password matches Some(pw) ==> credentials_fit(pw),
        ensures
            match self@.password {
                Some(pw) => h is Some && h->0@ == basic_auth(pw),
                None => h is None,
            },
    {
        match &self.password {
            Some(pw) => {
                let credentials = concat3("opencode:", pw.as_str(), "");
                proof {
                    reveal_strlit("");
                    assert(credentials@ =~= "opencode:"@ + pw@);
                }
                let encoded = encode_base64(credentials.as_str().as_bytes());
                Some(concat3("Basic ", encoded.as_str(), ""))
            },
            None => None,
        }
    }
}

/// The `Authorization` header of the event stream: the same credentials as
/// the other requests to the server, user `opencode` and the password.
pub fn event_stream_auth_header(password: &str) -> (h: String)
    requires
        credentials_fit(password@),
    ensures
        h@ == basic_auth(password@),
{
    let credentials = concat3("opencode:", password, "");
    proof {
        reveal_strlit("");
        assert(credentials@ =~= "opencode:"@ + password@);
    }
    let encoded = encode_base64(credentials.as_str().as_bytes());
    concat3("Basic ", encoded.as_str(), "")
}

/// The path of the event stream.
pub fn event_stream_path() -> (s: &'static str)
    ensures
        s@ == "/event"@,
{
    "/event"
}

/// The path of the health check.
pub fn health_path() -> (s: &'static str)
    ensures
        s@ == "/global/health"@,
{
    "/global/health"
}

/// The path that lists the ten most recent root sessions.
pub fn list_sessions_path() -> (s: &'static str)
    ensures
        s@ == "/session?limit=10&roots=true"@,
{
    "/session?limit=10&roots=true"
}

/// Whether a health reply says the server is healthy (anything else, or a
/// missing field, means not).
pub fn health_from_json(j: &Json) -> (b: bool)
    ensures
        b == healthy(j@),
{
    match j.get("healthy") {
        Some(Json::Bool(b)) => *b,
        _ => false,
    }
}

/// The request that creates a session: an empty object to `/session`.
pub fn create_session_request() -> (r: ApiRequest)
    ensures
        r.path@ == "/session"@,
        r.body@ == object(seq![]),
{
    let body = Json::Object(Vec::new());
    assert(body@ =~= object(seq![]));
    ApiRequest { path: "/session".to_owned(), body }
}

/// The request that sends `text` to session `session_id` as a prompt.
pub fn send_message_request(session_id: &str, text: &str) -> (r: ApiRequest)
    ensures
        r.path@ == "/session/"@ + session_id@ + "/prompt_async"@,
        r.body@ == message_body(text@),
{
    let mut part: Vec<(String, Json)> = Vec::new();
    part.push(("type".to_owned(), Json::Str("text".to_owned())));
    part.push(("text".to_owned(), Json::Str(text.to_owned())));
    let mut parts: Vec<Json> = Vec::new();
    parts.push(Json::Object(part));
    let mut es: Vec<(String, Json)> = Vec::new();
    es.push(("parts".to_owned(), Json::Array(parts)));
    let body = Json::Object(es);
    proof {
        lemma_json_seq_view(parts@);
        crate::json::lemma_entries_view(part@);
        crate::json::lemma_entries_view(es@);
        assert(entries_view(part@) =~= seq![("type"@, JsonV::Str("text"@)), ("text"@, JsonV::Str(text@))]);
        assert(json_seq_view(parts@) =~= seq![object(seq![("type"@, JsonV::Str("text"@)), ("text"@, JsonV::Str(text@))])]);
        assert(entries_view(es@) =~= seq![("parts"@, JsonV::Array(json_seq_view(parts@)))]);
    }
    ApiRequest { path: concat3("/session/", session_id, "/prompt_async"), body }
}

/// The request that replies to permission `id`.
pub fn reply_permission_request(id: &str, reply: PermissionReply, message: Option<&str>) -> (r:
    ApiRequest)
    ensures
        r.path@ == "/permission/"@ + id@ + "/reply"@,
        r.body@ == permission_reply_body(
            reply,
            match message {
                Some(m) => Some(m@),
                None => None,
            },
        ),
{
    let mut es: Vec<(String, Json)> = Vec::new();
    es.push(("reply".to_owned(), Json::Str(reply.wire_name().to_owned())));
    if let Some(m) = message {
        es.push(("message".to_owned(), Json::Str(m.to_owned())));
    }
    let body = Json::Object(es);
    proof {
        crate::json::lemma_entries_view(es@);
        assert(body@ == JsonV::Object(entries_view(es@)));
        match message {
            Some(m) => {
                assert(entries_view(es@) =~= seq![
                    ("reply"@, JsonV::Str(reply_wire_name(reply))),
                    ("message"@, JsonV::Str(m@)),
                ]);
            },
            None => {
                assert(entries_view(es@) =~= seq![("reply"@, JsonV::Str(reply_wire_name(reply)))]);
            },
        }
    }
    ApiRequest { path: concat3("/permission/", id, "/reply"), body }
}

fn strings_to_json(v: &Vec<String>) -> (j: Json)
    ensures
        j@ == strings_json(v.deep_view()),
{
    let mut out: Vec<Json> = Vec::new();
    let mut i: usize = 0;
    while i < v.len()
        invariant
            i <= v.len(),
            json_seq_view(out@) == v.deep_view().take(i as int).map_values(
                |x: Seq<char>| JsonV::Str(x),
            ),
        decreases v.len() - i,
    {
        let ghost before = out@;
        let x = Json::Str(v[i].clone());
        assert(x@ == JsonV::Str(v.deep_view()[i as int]));
        out.push(x);
        assert(out@.drop_last() == before);
        assert(json_seq_view(out@) == json_seq_view(before).push(x@));
        assert(v.deep_view().take(i + 1) =~= v.deep_view().take(i as int).push(v[i as int]@));
        assert(json_seq_view(out@) =~= v.deep_view().take(i + 1).map_values(
            |x: Seq<char>| JsonV::Str(x),
        ));
        i = i + 1;
    }
    assert(v.deep_view().take(v.len() as int) =~= v.deep_view());
    Json::Array(out)
}

fn answers_to_json(a: &Vec<Vec<String>>) -> (j: Json)
    ensures
        j@ == answers_json(a.deep_view()),
{
    let mut out: Vec<Json> = Vec::new();
    let mut i: usize = 0;
    while i < a.len()
        invariant
            i <= a.len(),
            json_seq_view(out@) == a.deep_view().take(i as int).map_values(
                |l: Seq<Seq<char>>| strings_json(l),
            ),
        decreases a.len() - i,
    {
        let ghost before = out@;
        let x = strings_to_json(&a[i]);
        assert(a.deep_view()[i as int] == a[i as int].deep_view());
        out.push(x);
        assert(out@.drop_last() == before);
        assert(json_seq_view(out@) == json_seq_view(before).push(x@));
        assert(a.deep_view().take(i + 1) =~= a.deep_view().take(i as int).push(
            a[i as int].deep_view(),
        ));
        assert(json_seq_view(out@) =~= a.deep_view().take(i + 1).map_values(
            |l: Seq<Seq<char>>| strings_json(l),
        ));
        i = i + 1;
    }
    assert(a.deep_view().take(a.len() as int) =~= a.deep_view());
    Json::Array(out)
}

/// The request that answers question `id`.
pub fn reply_question_request(id: &str, answers: &Vec<Vec<String>>) -> (r: ApiRequest)
    ensures
        r.path@ == "/question/"@ + id@ + "/reply"@,
        r.body@ == object(seq![("answers"@, answers_json(answers.deep_view()))]),
{
    let mut es: Vec<(String, Json)> = Vec::new();
    es.push(("answers".to_owned(), answers_to_json(answers)));
    let body = Json::Object(es);
    proof {
        crate::json::lemma_entries_view(es@);
        assert(body@ == JsonV::Object(entries_view(es@)));
        assert(entries_view(es@) =~= seq![("answers"@, answers_json(answers.deep_view()))]);
    }
    ApiRequest { path: concat3("/question/", id, "/reply"), body }
}

/// The request that dismisses question `id`.
pub fn reject_question_request(id: &str) -> (r: ApiRequest)
    ensures
        r.path@ == "/question/"@ + id@ + "/reject"@,
        r.body@ == object(seq![]),
{
    let body = Json::Object(Vec::new());
    assert(body@ =~= object(seq![]));
    ApiRequest { path: concat3("/question/", id, "/reject"), body }
}

/// Reads a session.
pub fn session_info_from_json(j: &Json) -> (r: Option<SessionInfo>)
    ensures
        match r {
            Some(s) => de_session_info(j@) == Some(s@),
            None => de_session_info(j@) is None,
        },
{
    let id = match required_string_of(j, "id", 0) {
        Some(s) => s,
        None => {
            return None;
        },
    };
    let title = match required_string_of(j, "title", 1) {
        Some(s) => s,
        None => {
            return None;
        },
    };
    if !record_fits_exec(j, 2) {
        return None;
    }
    Some(SessionInfo { id, title })
}

proof fn lemma_de_session_infos_prefix_none(s: Seq<JsonV>, n: int)
    requires
        0 <= n <= s.len(),
        de_session_infos(s.take(n)) is None,
    ensures
        de_session_infos(s) is None,
    decreases s.len() - n,
{
    if n < s.len() {
        assert(s.take(n + 1).drop_last() =~= s.take(n));
        lemma_de_session_infos_prefix_none(s, n + 1);
    } else {
        assert(s.take(n) =~= s);
    }
}

/// Reads a list of sessions.
pub fn session_list_from_json(j: &Json) -> (r: Option<Vec<SessionInfo>>)
    ensures
        match r {
            Some(v) => j@ matches JsonV::Array(items) && de_session_infos(items) == Some(
                v@.map_values(|s: SessionInfo| s@),
            ),
            None => !(j@ matches JsonV::Array(items) && de_session_infos(items) is Some),
        },
{
    let v = match j {
        Json::Array(v) => v,
        _ => {
            return None;
        },
    };
    proof {
        lemma_json_seq_view(v@);
    }
    assert(j@ == JsonV::Array(json_seq_view(v@)));
    let ghost sv = json_seq_view(v@);
    let mut out: Vec<SessionInfo> = Vec::new();
    let mut i: usize = 0;
    while i < v.len()
        invariant
            i <= v.len(),
            sv == json_seq_view(v@),
            j@ == JsonV::Array(sv),
            sv.len() == v@.len(),
            forall|k: int| 0 <= k < v@.len() ==> #[trigger] sv[k] == v@[k]@,
            de_session_infos(sv.take(i as int)) == Some(out@.map_values(|s: SessionInfo| s@)),
        decreases v.len() - i,
    {
        assert(sv.take(i + 1).drop_last() =~= sv.take(i as int));
        assert(sv.take(i + 1).last() == v@[i as int]@);
        match session_info_from_json(&v[i]) {
            Some(s) => {
                let ghost before = out@;
                out.push(s);
                assert(out@.map_values(|s: SessionInfo| s@) =~= before.map_values(
                    |s: SessionInfo| s@,
                ).push(s@));
            },
            None => {
                proof {
                    lemma_de_session_infos_prefix_none(sv, (i + 1) as int);
                }
                return None;
            },
        }
        i = i + 1;
    }
    assert(sv.take(v.len() as int) =~= sv);
    Some(out)
}

/// The error shown when the server cannot be reached.
pub fn friendly_connection_error(base_url: &str) -> (s: String)
    ensures
        s@ == "Cannot connect to OpenCode at "@ + base_url@
            + ". Make sure OpenCode is running with 'opencode web' or 'opencode --port <port>'"@,
{
    concat3(
        "Cannot connect to OpenCode at ",
        base_url,
        ". Make sure OpenCode is running with 'opencode web' or 'opencode --port <port>'",
    )
}

/// The error for a reply with an unsuccessful status: `status` as the
/// server's status line gives it, and the reply's body.
pub fn api_error_message(status: &str, body: &str) -> (s: String)
    ensures
        s@ == "OpenCode API error "@ + status@ + ": "@ + body@,
{
    let mut s = concat3("OpenCode API error ", status, ": ");
    push_str(&mut s, body);
    s
}

/// The error for a prompt the server did not accept.
pub fn send_message_error(status: &str) -> (s: String)
    ensures
        s@ == "send_message failed: "@ + status@,
{
    let mut s = "send_message failed: ".to_owned();
    push_str(&mut s, status);
    s
}

} // verus!
