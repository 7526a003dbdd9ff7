//! What the terminal display shows in each state, and how many lines it has
//! drawn.
use crate::approval::types::PendingApproval;
use crate::approval::types::PendingApprovalV;
use crate::json::as_str;
use crate::json::get;
use crate::json::Json;
use crate::json::JsonV;
use crate::state::RecordingState;
use crate::text::chars_eq;
use crate::text::chars_of;
use crate::text::decimal;
use crate::text::decimal_string;
use crate::text::push_char;
use crate::text::push_str;
use crate::text::slice_chars;
use crate::text::string_of;
use vstd::prelude::*;

verus! {

broadcast use vstd::string::group_string_axioms;

/// Width of the level meter, in cells.
pub const LEVEL_WIDTH: usize = 8;

/// What the display shows besides the state.
pub struct DisplayMeta<'a> {
    /// The recording's length, formatted with one decimal (seconds).
    pub duration: Option<&'a str>,
    /// Filled cells of the level meter.
    pub level: Option<usize>,
    pub transcript: Option<&'a str>,
    pub error: Option<&'a str>,
    pub toggle_key: Option<&'a str>,
    /// When a global hotkey is active, its name, so the status line shows
    /// the actual key.
    pub global_hotkey_name: Option<&'a str>,
    pub approval: Option<&'a PendingApproval>,
    pub approval_count: Option<usize>,
    /// Monotonically increasing frame counter for the spinner.
    pub spinner_frame: usize,
}

impl<'a> Default for DisplayMeta<'a> {
    fn default() -> (m: Self)
        ensures
            m.duration is None,
            m.level is None,
            m.transcript is None,
            m.error is None,
            m.toggle_key is None,
            m.global_hotkey_name is None,
            m.approval is None,
            m.approval_count is None,
            m.spinner_frame == 0,
    {
        DisplayMeta {
            duration: None,
            level: None,
            transcript: None,
            error: None,
            toggle_key: None,
            global_hotkey_name: None,
            approval: None,
            approval_count: None,
            spinner_frame: 0,
        }
    }
}

/// The in-place terminal renderer's memory: how many lines it drew last.
pub struct Display {
    pub line_count: u16,
}

// ───────────────────────── specifications ─────────────────────────

/// At most the first `n` characters of `t`.
pub open spec fn first_chars(t: Seq<char>, n: nat) -> Seq<char> {
    if t.len() <= n {
        t
    } else {
        t.take(n as int)
    }
}

/// `n` copies of `c`.
pub open spec fn repeated(c: char, n: nat) -> Seq<char> {
    Seq::new(n, |i: int| c)
}

/// A level meter of `width` cells with `filled` of them filled:
/// `[||||    ]`.
pub open spec fn level_meter(filled: nat, width: nat) -> Seq<char> {
    "["@ + repeated('|', filled) + repeated(' ', (width - filled) as nat) + "]"@
}

/// The spinner's frames.
pub open spec fn spinner_frames() -> Seq<Seq<char>> {
    seq!["⠋"@, "⠙"@, "⠹"@, "⠸"@, "⠼"@, "⠴"@, "⠦"@, "⠧"@, "⠇"@, "⠏"@]
}

/// The first string value among the entries, in order.
pub open spec fn first_string_value(es: Seq<(Seq<char>, JsonV)>) -> Option<Seq<char>>
    decreases es.len(),
{
    if es.len() == 0 {
        None
    } else {
        match es[0].1 {
            JsonV::Str(s) => Some(s),
            _ => first_string_value(es.drop_first()),
        }
    }
}

/// A short description of what a permission is for: the command of `bash`
/// (60 characters at most, in backticks), the path of `edit`, `write` and
/// `read`; otherwise the first string value of the metadata (60 characters
/// at most), or nothing.
pub open spec fn permission_detail(permission: Seq<char>, metadata: JsonV) -> Seq<char> {
    if permission == "bash"@ && as_str(get(metadata, "command"@)) is Some {
        "`"@ + first_chars(as_str(get(metadata, "command"@))->0, 60) + "`"@
    } else if (permission == "edit"@ || permission == "write"@ || permission == "read"@) && as_str(
        get(metadata, "path"@),
    ) is Some {
        as_str(get(metadata, "path"@))->0
    } else {
        match metadata {
            JsonV::Object(es) => match first_string_value(es) {
                Some(s) => first_chars(s, 60),
                None => Seq::empty(),
            },
            _ => Seq::empty(),
        }
    }
}

/// `" (+n more)"` when more than one approval is pending, else nothing.
pub open spec fn more_note(count: Option<usize>) -> Seq<char> {
    let c = match count {
        Some(c) => c as nat,
        None => 0,
    };
    if c > 1 {
        " (+"@ + decimal((c - 1) as nat) + " more)"@
    } else {
        Seq::empty()
    }
}

/// The numbered lines of the first five options.
pub open spec fn option_lines(labels: Seq<Seq<char>>) -> Seq<Seq<char>> {
    Seq::new(
        if labels.len() < 5 {
            labels.len()
        } else {
            5
        },
        |i: int| "  "@ + decimal((i + 1) as nat) + ". "@ + labels[i],
    )
}

/// The lines shown in the idle state.
pub open spec fn idle_lines(m: DisplayMeta) -> Seq<Seq<char>> {
    let key = match m.global_hotkey_name {
        Some(k) => Some(k),
        None => m.toggle_key,
    };
    let hint = match key {
        Some(k) => " ["@ + k@ + "]"@,
        None => Seq::empty(),
    };
    match m.transcript {
        Some(t) => seq![
            "\x1b[32m● Ready"@ + hint + "\x1b[0m"@,
            "  Sent: "@ + first_chars(t@, 60) + if t.len() > 60 {
                "..."@
            } else {
                Seq::empty()
            },
        ],
        None => seq!["\x1b[32m● Ready"@ + hint + " — Press to speak\x1b[0m"@],
    }
}

/// The line shown while recording.
pub open spec fn recording_line(m: DisplayMeta) -> Seq<char> {
    let bar = match m.level {
        Some(l) => " "@ + level_meter(
            if l < LEVEL_WIDTH {
                l as nat
            } else {
                LEVEL_WIDTH as nat
            },
            LEVEL_WIDTH as nat,
        ),
        None => Seq::empty(),
    };
    let secs = match m.duration {
        Some(d) => d@,
        None => "0.0"@,
    };
    "\x1b[31m● REC"@ + bar + " "@ + secs + "s\x1b[0m"@
}

/// The lines shown while approvals are pending.
pub open spec fn approval_lines(m: DisplayMeta) -> Seq<Seq<char>> {
    let more = more_note(m.approval_count);
    match m.approval {
        Some(a) => match a@ {
            PendingApprovalV::Permission(r) => seq![
                "\x1b[35m⚠ Approval needed"@ + more + ": "@ + r.permission + " — "@
                    + permission_detail(r.permission, r.metadata) + "\x1b[0m"@,
                "  Say: allow/always/reject"@,
            ],
            PendingApprovalV::Question(q) => if q.questions.len() > 0 {
                seq!["\x1b[35m? "@ + q.questions[0].question + more + "\x1b[0m"@] + option_lines(
                    q.questions[0].options,
                ) + seq!["  Say the option name or number"@]
            } else {
                seq!["\x1b[35m? Question pending"@ + more + "\x1b[0m"@]
            },
        },
        None => seq!["\x1b[35m⚠ Approval needed"@ + more + "\x1b[0m"@],
    }
}

/// The lines shown in each state.
pub open spec fn state_lines(state: RecordingState, m: DisplayMeta) -> Seq<Seq<char>> {
    match state {
        RecordingState::Idle => idle_lines(m),
        RecordingState::Recording => seq![recording_line(m)],
        RecordingState::Transcribing => seq![
            "\x1b[33m"@ + spinner_frames()[(m.spinner_frame % 10) as int] + " Transcribing...\x1b[0m"@,
        ],
        RecordingState::Injecting => seq!["\x1b[36m→ Sending to OpenCode...\x1b[0m"@],
        RecordingState::ApprovalPending => approval_lines(m),
        RecordingState::Error => seq![
            "\x1b[31m✗ Error: "@ + match m.error {
                Some(e) => e@,
                None => "An error occurred"@,
            } + "\x1b[0m"@,
            "  Recovering..."@,
        ],
    }
}

// ───────────────────────── executable functions ─────────────────────────

/// At most the first `n` characters of `t`.
pub fn take_chars(t: &str, n: usize) -> (r: String)
    ensures
        r@ == first_chars(t@, n as nat),
{
    let v = chars_of(t);
    if v.len() <= n {
        return t.to_owned();
    }
    let w = slice_chars(&v, 0, n);
    assert(w@ =~= t@.take(n as int));
    string_of(&w)
}

/// Renders a level meter like `[||||    ]` with `filled` of `width` cells
/// filled.
pub fn level_bar(filled: usize, width: usize) -> (s: String)
    requires
        filled <= width,
    ensures
        s@ == level_meter(filled as nat, width as nat),
{
    let mut s = "[".to_owned();
    let mut i: usize = 0;
    while i < filled
        invariant
            i <= filled,
            s@ == "["@ + repeated('|', i as nat),
        decreases filled - i,
    {
        push_char(&mut s, '|');
        assert(repeated('|', i as nat).push('|') =~= repeated('|', (i + 1) as nat));
        i = i + 1;
    }
    let mut j: usize = 0;
    while j < width - filled
        invariant
            j <= width - filled,
            filled <= width,
            s@ == "["@ + repeated('|', filled as nat) + repeated(' ', j as nat),
        decreases width - filled - j,
    {
        push_char(&mut s, ' ');
        assert(repeated(' ', j as nat).push(' ') =~= repeated(' ', (j + 1) as nat));
        j = j + 1;
    }
    push_str(&mut s, "]");
    s
}

/// The spinner frame shown at frame counter `i`.
pub fn spinner_frame(i: usize) -> (s: &'static str)
    ensures
        s@ == spinner_frames()[(i % 10) as int],
{
    match i % 10 {
        0 => "⠋",
        1 => "⠙",
        2 => "⠹",
        3 => "⠸",
        4 => "⠼",
        5 => "⠴",
        6 => "⠦",
        7 => "⠧",
        8 => "⠇",
        _ => "⠏",
    }
}

fn str_eq(a: &str, b: &str) -> (r: bool)
    ensures
        r == (a@ == b@),
{
    chars_eq(&chars_of(a), &chars_of(b))
}

/// The first string value among the entries of an object.
fn first_string_of(es: &Vec<(String, Json)>) -> (r: Option<&str>)
    ensures
        match r {
            Some(s) => first_string_value(crate::json::entries_view(es@)) == Some(s@),
            None => first_string_value(crate::json::entries_view(es@)) is None,
        },
{
    let ghost ev = crate::json::entries_view(es@);
    proof {
        crate::json::lemma_entries_view(es@);
        assert(ev.skip(0) =~= ev);
    }
    let mut i: usize = 0;
    while i < es.len()
        invariant
            i <= es.len(),
            ev == crate::json::entries_view(es@),
            ev.len() == es@.len(),
            forall|m: int|
                0 <= m < es@.len() ==> #[trigger] ev[m] == (
                    es@[m].0@,
                    crate::json::json_view(es@[m].1),
                ),
            first_string_value(ev) == first_string_value(ev.skip(i as int)),
        decreases es.len() - i,
    {
        let ghost rest = ev.skip(i as int);
        assert(rest[0] == ev[i as int]);
        assert(rest.drop_first() =~= ev.skip(i + 1));
        if let Json::Str(s) = &es[i].1 {
            return Some(s.as_str());
        }
        i = i + 1;
    }
    None
}

/// Formats a human-readable detail for a permission type and metadata.
pub fn format_permission_detail(permission: &str, metadata: &Json) -> (s: String)
    ensures
        s@ == permission_detail(permission@, metadata@),
{
    proof {
        reveal_strlit("bash");
        reveal_strlit("edit");
        reveal_strlit("write");
        reveal_strlit("read");
    }
    let is_bash = str_eq(permission, "bash");
    let command = crate::json::opt_as_str(metadata.get("command"));
    if is_bash {
        if let Some(cmd) = command {
            let mut s = "`".to_owned();
            let c = take_chars(cmd, 60);
            push_str(&mut s, c.as_str());
            push_str(&mut s, "`");
            return s;
        }
    }
    let names_path = str_eq(permission, "edit") || str_eq(permission, "write") || str_eq(
        permission,
        "read",
    );
    let path = crate::json::opt_as_str(metadata.get("path"));
    if names_path {
        if let Some(p) = path {
            return p.to_owned();
        }
    }
    assert(!(permission@ == "bash"@ && as_str(get(metadata@, "command"@)) is Some));
    assert(!((permission@ == "edit"@ || permission@ == "write"@ || permission@ == "read"@)
        && as_str(get(metadata@, "path"@)) is Some));
    // fall back to the first string value in the metadata
    if let Json::Object(es) = metadata {
        assert(metadata@ == JsonV::Object(crate::json::entries_view(es@)));
        if let Some(v) = first_string_of(es) {
            return take_chars(v, 60);
        }
    }
    String::new()
}

/// `" (+n more)"` when more than one approval is pending, else nothing.
fn more_text(count: Option<usize>) -> (s: String)
    ensures
        s@ == more_note(count),
{
    let c = match count {
        Some(c) => c,
        None => 0,
    };
    if c > 1 {
        let mut s = " (+".to_owned();
        let n = decimal_string((c - 1) as u64);
        push_str(&mut s, n.as_str());
        push_str(&mut s, " more)");
        s
    } else {
        String::new()
    }
}

/// `a + b + c` as a new string.
fn concat3(a: &str, b: &str, c: &str) -> (s: String)
    ensures
        s@ == a@ + b@ + c@,
{
    let mut s = a.to_owned();
    push_str(&mut s, b);
    push_str(&mut s, c);
    s
}

fn idle_render(meta: &DisplayMeta) -> (lines: Vec<String>)
    ensures
        lines.deep_view() == idle_lines(*meta),
{
    let key = match meta.global_hotkey_name {
        Some(k) => Some(k),
        None => meta.toggle_key,
    };
    let hint = match key {
        Some(k) => concat3(" [", k, "]"),
        None => String::new(),
    };
    let mut lines: Vec<String> = Vec::new();
    match meta.transcript {
        Some(t) => {
            lines.push(concat3("\x1b[32m● Ready", hint.as_str(), "\x1b[0m"));
            let preview = take_chars(t, 60);
            let ellipsis = if t.len() > 60 {
                "...".to_owned()
            } else {
                String::new()
            };
            lines.push(concat3("  Sent: ", preview.as_str(), ellipsis.as_str()));
        },
        None => {
            lines.push(concat3("\x1b[32m● Ready", hint.as_str(), " — Press to speak\x1b[0m"));
        },
    }
    assert(lines.deep_view() =~= idle_lines(*meta));
    lines
}

fn recording_render(meta: &DisplayMeta) -> (line: String)
    ensures
        line@ == recording_line(*meta),
{
    let mut s = "\x1b[31m● REC".to_owned();
    if let Some(l) = meta.level {
        let filled = if l < LEVEL_WIDTH {
            l
        } else {
            LEVEL_WIDTH
        };
        push_str(&mut s, " ");
        let bar = level_bar(filled, LEVEL_WIDTH);
        push_str(&mut s, bar.as_str());
    }
    push_str(&mut s, " ");
    match meta.duration {
        Some(d) => push_str(&mut s, d),
        None => push_str(&mut s, "0.0"),
    }
    push_str(&mut s, "s\x1b[0m");
    s
}

fn approval_render(meta: &DisplayMeta) -> (lines: Vec<String>)
    ensures
        lines.deep_view() == approval_lines(*meta),
{
    let more = more_text(meta.approval_count);
    let mut lines: Vec<String> = Vec::new();
    match meta.approval {
        Some(PendingApproval::Permission(req)) => {
            let detail = format_permission_detail(req.permission.as_str(), &req.metadata);
            let mut first = concat3("\x1b[35m⚠ Approval needed", more.as_str(), ": ");
            push_str(&mut first, req.permission.as_str());
            push_str(&mut first, " — ");
            push_str(&mut first, detail.as_str());
            push_str(&mut first, "\x1b[0m");
            lines.push(first);
            lines.push("  Say: allow/always/reject".to_owned());
            assert(lines.deep_view() =~= approval_lines(*meta));
        },
        Some(PendingApproval::Question(req)) => {
            if req.questions.len() > 0 {
                let q = &req.questions[0];
                let mut first = concat3("\x1b[35m? ", q.question.as_str(), more.as_str());
                push_str(&mut first, "\x1b[0m");
                lines.push(first);
                let ghost labels = q@.options;
                let n: usize = if q.options.len() < 5 {
                    q.options.len()
                } else {
                    5
                };
                let mut i: usize = 0;
                while i < n
                    invariant
                        i <= n <= q.options.len(),
                        n == if labels.len() < 5 {
                            labels.len()
                        } else {
                            5
                        },
                        labels == q.options@.map_values(|o: crate::approval::types::QuestionOption| o@),
                        lines.deep_view() == seq![first@] + option_lines(labels).take(i as int),
                    decreases n - i,
                {
                    let num = decimal_string((i + 1) as u64);
                    let mut line = concat3("  ", num.as_str(), ". ");
                    push_str(&mut line, q.options[i].label.as_str());
                    let ghost before = lines.deep_view();
                    lines.push(line);
                    assert(lines.deep_view() =~= before.push(line@));
                    assert(option_lines(labels).take(i as int).push(option_lines(labels)[i as int])
                        =~= option_lines(labels).take(i + 1));
                    i = i + 1;
                }
                let ghost before = lines.deep_view();
                lines.push("  Say the option name or number".to_owned());
                assert(lines.deep_view() =~= before.push("  Say the option name or number"@));
                assert(option_lines(labels).take(n as int) =~= option_lines(labels));
                assert(lines.deep_view() =~= approval_lines(*meta));
            } else {
                let mut first = concat3("\x1b[35m? Question pending", more.as_str(), "\x1b[0m");
                lines.push(first);
                assert(lines.deep_view() =~= approval_lines(*meta));
            }
        },
        None => {
            lines.push(concat3("\x1b[35m⚠ Approval needed", more.as_str(), "\x1b[0m"));
            assert(lines.deep_view() =~= approval_lines(*meta));
        },
    }
    lines
}

impl Display {
    pub fn new() -> (d: Self)
        ensures
            d.line_count == 0,
    {
        Display { line_count: 0 }
    }

    /// The lines to render for `state`.
    pub fn render_state(&self, state: RecordingState, meta: &DisplayMeta) -> (lines: Vec<String>)
        ensures
            lines.deep_view() == state_lines(state, *meta),
    {
        match state {
            RecordingState::Idle => idle_render(meta),
            RecordingState::Recording => {
                let mut v: Vec<String> = Vec::new();
                v.push(recording_render(meta));
                assert(v.deep_view() =~= state_lines(state, *meta));
                v
            },
            RecordingState::Transcribing => {
                let mut v: Vec<String> = Vec::new();
                v.push(concat3("\x1b[33m", spinner_frame(meta.spinner_frame), " Transcribing...\x1b[0m"));
                assert(v.deep_view() =~= state_lines(state, *meta));
                v
            },
            RecordingState::Injecting => {
                let mut v: Vec<String> = Vec::new();
                v.push("\x1b[36m→ Sending to OpenCode...\x1b[0m".to_owned());
                assert(v.deep_view() =~= state_lines(state, *meta));
                v
            },
            RecordingState::ApprovalPending => approval_render(meta),
            RecordingState::Error => {
                let msg = match meta.error {
                    Some(e) => e,
                    None => "An error occurred",
                };
                let mut v: Vec<String> = Vec::new();
                v.push(concat3("\x1b[31m✗ Error: ", msg, "\x1b[0m"));
                v.push("  Recovering...".to_owned());
                assert(v.deep_view() =~= state_lines(state, *meta));
                v
            },
        }
    }

    /// How many lines to move the cursor up to reach the first line drawn
    /// last time (the cursor rests at the end of the last line).
    pub fn lines_above(&self) -> (n: u16)
        ensures
            n == if self.line_count > 1 {
                self.line_count - 1
            } else {
                0
            },
    {
        if self.line_count > 1 {
            self.line_count - 1
        } else {
            0
        }
    }

    /// Whether anything drawn last time must be erased.
    pub fn has_drawn(&self) -> (b: bool)
        ensures
            b == (self.line_count > 0),
    {
        self.line_count > 0
    }

    /// Remembers that `lines` lines were drawn.
    pub fn drew(&mut self, lines: usize)
        ensures
            final(self).line_count == lines as u16,
    {
        self.line_count = lines as u16;
    }

    /// Forgets what was drawn (after erasing it).
    pub fn cleared(&mut self)
        ensures
            final(self).line_count == 0,
    {
        self.line_count = 0;
    }
}

impl Default for Display {
    fn default() -> (d: Self)
        ensures
            d.line_count == 0,
    {
        Self::new()
    }
}

/// The welcome banner: how to record and how to quit.
pub open spec fn welcome_text(
    toggle_key: Seq<char>,
    global_hotkey: bool,
    hotkey_name: Seq<char>,
    push_to_talk: bool,
) -> Seq<Seq<char>> {
    let title = "\x1b[1;36m━━━ OpenCode Voice Mode ━━━\x1b[0m"@;
    let quit = "  Press [q] or Ctrl+C to quit"@;
    if push_to_talk && global_hotkey {
        seq![
            title,
            "  Hold ["@ + hotkey_name + "] to record (global hotkey)"@,
            "  Press ["@ + toggle_key + "] to toggle recording (terminal)"@,
            quit,
            seq![],
        ]
    } else {
        seq![title, "  Press ["@ + toggle_key + "] to toggle recording"@, quit, seq![]]
    }
}

/// The lines of the welcome banner, ending with an empty line.
pub fn welcome_lines(
    toggle_key: &str,
    global_hotkey: bool,
    hotkey_name: &str,
    push_to_talk: bool,
) -> (lines: Vec<String>)
    ensures
        lines.deep_view() == welcome_text(toggle_key@, global_hotkey, hotkey_name@, push_to_talk),
{
    let mut lines: Vec<String> = Vec::new();
    lines.push("\x1b[1;36m━━━ OpenCode Voice Mode ━━━\x1b[0m".to_owned());
    if push_to_talk && global_hotkey {
        lines.push(concat3("  Hold [", hotkey_name, "] to record (global hotkey)"));
        lines.push(concat3("  Press [", toggle_key, "] to toggle recording (terminal)"));
    } else {
        lines.push(concat3("  Press [", toggle_key, "] to toggle recording"));
    }
    lines.push("  Press [q] or Ctrl+C to quit".to_owned());
    lines.push(String::new());
    assert(lines.deep_view() =~= welcome_text(toggle_key@, global_hotkey, hotkey_name@, push_to_talk));
    lines
}

/// The colour digit (fourth character) of a state's first line, and its
/// sixth character.
pub open spec fn first_line_marks(s: RecordingState) -> (char, char) {
    match s {
        RecordingState::Idle => ('2', '●'),
        RecordingState::Recording => ('1', '●'),
        RecordingState::Transcribing => ('3', ' '),
        RecordingState::Injecting => ('6', '→'),
        RecordingState::ApprovalPending => ('5', ' '),
        RecordingState::Error => ('1', '✗'),
    }
}

proof fn lemma_first_line_marks(s: RecordingState, m: DisplayMeta)
    ensures
        state_lines(s, m).len() > 0,
        state_lines(s, m)[0].len() > 5,
        state_lines(s, m)[0][3] == first_line_marks(s).0,
        s == RecordingState::Idle || s == RecordingState::Recording || s
            == RecordingState::Injecting || s == RecordingState::Error ==> state_lines(s, m)[0][5]
            == first_line_marks(s).1,
{
    reveal_strlit("\x1b[32m● Ready");
    reveal_strlit("\x1b[31m● REC");
    reveal_strlit("\x1b[33m");
    reveal_strlit(" Transcribing...\x1b[0m");
    reveal_strlit("\x1b[36m→ Sending to OpenCode...\x1b[0m");
    reveal_strlit("\x1b[35m⚠ Approval needed");
    reveal_strlit("\x1b[35m? ");
    reveal_strlit("\x1b[35m? Question pending");
    reveal_strlit("\x1b[31m✗ Error: ");
    let l = state_lines(s, m)[0];
    match s {
        RecordingState::ApprovalPending => {
            let more = more_note(m.approval_count);
            match m.approval {
                Some(a) => match a@ {
                    PendingApprovalV::Permission(r) => {
                        let lit = "\x1b[35m⚠ Approval needed"@;
                        assert(l == lit + (more + ": "@ + r.permission + " — "@ + permission_detail(
                            r.permission,
                            r.metadata,
                        ) + "\x1b[0m"@));
                        assert(l.len() >= lit.len());
                    },
                    PendingApprovalV::Question(q) => {
                        if q.questions.len() > 0 {
                            let lit = "\x1b[35m? "@;
                            assert(l == lit + (q.questions[0].question + more + "\x1b[0m"@));
                            assert(l.len() >= lit.len());
                        } else {
                            let lit = "\x1b[35m? Question pending"@;
                            assert(l == lit + (more + "\x1b[0m"@));
                            assert(l.len() >= lit.len());
                        }
                    },
                },
                None => {
                    let lit = "\x1b[35m⚠ Approval needed"@;
                    assert(l == lit + (more + "\x1b[0m"@));
                    assert(l.len() >= lit.len());
                },
            }
        },
        _ => {},
    }
}

/// The first piece of a non-empty joined sequence starts the joined text.
proof fn lemma_join_starts_with_first(ws: Seq<Seq<char>>, sep: Seq<char>)
    requires
        ws.len() > 0,
    ensures
        crate::text::join(ws, sep).len() >= ws[0].len(),
        forall|k: int| 0 <= k < ws[0].len() ==> #[trigger] crate::text::join(ws, sep)[k] == ws[0][k],
    decreases ws.len(),
{
    if ws.len() > 1 {
        lemma_join_starts_with_first(ws.drop_last(), sep);
        assert(ws.drop_last()[0] == ws[0]);
    }
}

/// Every state renders at least one line, and two different states never
/// render the same output, whatever else is shown: their first lines differ,
/// and so do their lines joined with `|`.
pub proof fn law_states_render_distinctly(s1: RecordingState, s2: RecordingState, m: DisplayMeta)
    ensures
        state_lines(s1, m).len() > 0,
        s1 != s2 ==> state_lines(s1, m)[0] != state_lines(s2, m)[0],
        s1 != s2 ==> crate::text::join(state_lines(s1, m), "|"@) != crate::text::join(
            state_lines(s2, m),
            "|"@,
        ),
{
    lemma_first_line_marks(s1, m);
    lemma_first_line_marks(s2, m);
    lemma_join_starts_with_first(state_lines(s1, m), "|"@);
    lemma_join_starts_with_first(state_lines(s2, m), "|"@);
    let j1 = crate::text::join(state_lines(s1, m), "|"@);
    let j2 = crate::text::join(state_lines(s2, m), "|"@);
    if s1 != s2 {
        assert(j1[3] == state_lines(s1, m)[0][3]);
        assert(j2[3] == state_lines(s2, m)[0][3]);
        assert(j1[5] == state_lines(s1, m)[0][5]);
        assert(j2[5] == state_lines(s2, m)[0][5]);
        if state_lines(s1, m)[0] == state_lines(s2, m)[0] {
            assert(state_lines(s1, m)[0][3] == state_lines(s2, m)[0][3]);
            assert(state_lines(s1, m)[0][5] == state_lines(s2, m)[0][5]);
        }
    }
}

} // verus!
