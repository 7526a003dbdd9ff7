//! Cleaning up what speech recognition returns: timestamp annotations,
//! hallucinated silence markers, and the assembly of the final transcript.
use crate::text::chars_of;
use crate::text::contains;
use crate::text::contains_chars;
use crate::text::all_ascii;
use crate::text::ascii_lower_char;
use crate::text::join;
use crate::text::trim_end_class;
use crate::text::trim_start_class;
use crate::text::CharClass;
use crate::text::occurs_at;
use crate::text::lowercase;
use crate::text::push_str;
use crate::text::slice_chars;
use crate::text::string_of;
use crate::text::to_lowercase;
use crate::text::trim;
use crate::text::trim_chars;
use vstd::prelude::*;

verus! {

broadcast use vstd::string::group_string_axioms;

/// Result of a transcription operation.
#[derive(Debug, Clone)]
pub struct TranscriptionResult {
    pub text: String,
}

/// A model file is valid when it exists and is larger than 1 MB; `file_len`
/// is its length, `None` when there is no such file.
pub fn is_model_valid(file_len: Option<u64>) -> (b: bool)
    ensures
        b == (file_len is Some && file_len.unwrap() > 1_000_000),
{
    match file_len {
        Some(n) => n > 1_000_000,
        None => false,
    }
}

// ───────────────────────── specifications ─────────────────────────

/// The first position of `c` in `s`.
pub open spec fn index_of(s: Seq<char>, c: char) -> Option<int>
    decreases s.len(),
{
    if s.len() == 0 {
        None
    } else if s[0] == c {
        Some(0)
    } else {
        match index_of(s.drop_first(), c) {
            Some(i) => Some(i + 1),
            None => None,
        }
    }
}

pub proof fn lemma_index_of(s: Seq<char>, c: char)
    ensures
        match index_of(s, c) {
            Some(i) => 0 <= i < s.len() && s[i] == c && forall|j: int| 0 <= j < i ==> s[j] != c,
            None => forall|j: int| 0 <= j < s.len() ==> s[j] != c,
        },
    decreases s.len(),
{
    if s.len() > 0 {
        lemma_index_of(s.drop_first(), c);
        if s[0] != c {
            match index_of(s.drop_first(), c) {
                Some(i) => {
                    assert forall|j: int| 0 <= j < i + 1 implies s[j] != c by {
                        if j > 0 {
                            assert(s[j] == s.drop_first()[j - 1]);
                        }
                    }
                },
                None => {
                    assert forall|j: int| 0 <= j < s.len() implies s[j] != c by {
                        if j > 0 {
                            assert(s[j] == s.drop_first()[j - 1]);
                        }
                    }
                },
            }
        }
    }
}

/// Whisper's timestamp annotations removed: scanning from the left, each `[`
/// up to the first `]` after it is a bracketed span; a span whose inside
/// contains `-->` is cut out, any other span is kept, and the scan goes on
/// after the span.
pub open spec fn strip_timestamps_spec(s: Seq<char>) -> Seq<char>
    decreases s.len(),
{
    match index_of(s, '[') {
        None => s,
        Some(a) => match index_of(s.skip(a), ']') {
            None => s,
            Some(e) => {
                proof {
                    lemma_index_of(s, '[');
                    lemma_index_of(s.skip(a), ']');
                }
                if 0 <= a && 0 <= e && a + e < s.len() {
                    if contains(s.subrange(a + 1, a + e), "-->"@) {
                        s.take(a) + strip_timestamps_spec(s.skip(a + e + 1))
                    } else {
                        s.take(a + e + 1) + strip_timestamps_spec(s.skip(a + e + 1))
                    }
                } else {
                    s
                }
            },
        },
    }
}

/// The phrases whisper emits for silence or noise.
pub open spec fn hallucinations() -> Seq<Seq<char>> {
    seq![
        "[BLANK_AUDIO]"@,
        "[NO_SPEECH]"@,
        "(blank audio)"@,
        "(no speech)"@,
        "[silence]"@,
        "(silence)"@,
    ]
}

/// The lower-case form of a string: `A`..`Z` mapped to `a`..`z` when the
/// string is ASCII, its Unicode lower-case mapping otherwise.
pub open spec fn lowered(s: Seq<char>) -> Seq<char> {
    if all_ascii(s) {
        s.map_values(|c: char| ascii_lower_char(c))
    } else {
        lowercase(s)
    }
}

/// A character matches a pattern character when its lower-case form is that
/// character.
pub open spec fn char_matches(c: char, p: char) -> bool {
    lowered(seq![c]) == seq![p]
}

/// `p` (in lower case) occurs in `s` at position `i`, ignoring case.
pub open spec fn occurs_at_ignoring_case(s: Seq<char>, p: Seq<char>, i: int) -> bool {
    0 <= i && i + p.len() <= s.len() && forall|k: int|
        0 <= k < p.len() ==> char_matches(#[trigger] s[i + k], p[k])
}

/// The first position at which `p` occurs in `s` ignoring case.
pub open spec fn first_occurrence_ignoring_case(s: Seq<char>, p: Seq<char>, i: int) -> bool {
    occurs_at_ignoring_case(s, p, i) && forall|j: int|
        0 <= j < i ==> !occurs_at_ignoring_case(s, p, j)
}

/// Every occurrence of `p` (in lower case) removed from `s` ignoring case,
/// first occurrence first, until none is left.
pub open spec fn remove_all_ignoring_case(s: Seq<char>, p: Seq<char>) -> Seq<char>
    decreases s.len(),
{
    if p.len() > 0 && exists|i: int| occurs_at_ignoring_case(s, p, i) {
        let i = choose|i: int| first_occurrence_ignoring_case(s, p, i);
        if 0 <= i && i + p.len() <= s.len() {
            remove_all_ignoring_case(s.take(i) + s.skip(i + p.len()), p)
        } else {
            s
        }
    } else {
        s
    }
}

/// `s` with every phrase of `ps` removed ignoring case, phrase by phrase.
pub open spec fn remove_phrases(s: Seq<char>, ps: Seq<Seq<char>>) -> Seq<char>
    decreases ps.len(),
{
    if ps.len() == 0 {
        s
    } else {
        remove_phrases(remove_all_ignoring_case(s, lowered(ps[0])), ps.drop_first())
    }
}

/// The transcript that whisper's segments make: joined by spaces, timestamp
/// annotations and silence markers removed, trimmed.
pub open spec fn transcript_of(segments: Seq<Seq<char>>) -> Seq<char> {
    trim(remove_phrases(strip_timestamps_spec(join(segments, seq![' '])), hallucinations()))
}

// ───────────────────────── executable functions ─────────────────────────

fn index_of_exec(s: &Vec<char>, c: char, from: usize) -> (r: Option<usize>)
    requires
        from <= s.len(),
    ensures
        match r {
            Some(i) => from <= i < s.len() && s@[i as int] == c && index_of(
                s@.skip(from as int),
                c,
            ) == Some(i - from),
            None => index_of(s@.skip(from as int), c) is None,
        },
{
    proof {
        let t = s@.skip(from as int);
        lemma_index_of(t, c);
        match index_of(t, c) {
            Some(k) => {
                assert forall|j: int| from <= j < from + k implies s@[j] != c by {
                    assert(s@[j] == t[j - from]);
                }
                assert(s@[from + k] == t[k]);
            },
            None => {
                assert forall|j: int| from <= j < s.len() implies s@[j] != c by {
                    assert(s@[j] == t[j - from]);
                }
            },
        }
    }
    let mut i = from;
    while i < s.len()
        invariant
            from <= i <= s.len(),
            forall|j: int| from <= j < i ==> s@[j] != c,
            match index_of(s@.skip(from as int), c) {
                Some(k) => 0 <= k < s.len() - from && s@[from + k] == c && forall|j: int|
                    from <= j < from + k ==> s@[j] != c,
                None => forall|j: int| from <= j < s.len() ==> s@[j] != c,
            },
        decreases s.len() - i,
    {
        if s[i] == c {
            proof {
                match index_of(s@.skip(from as int), c) {
                    Some(k) => {
                        if k < i - from {
                            assert(s@[from + k] != c);
                        } else if k > i - from {
                            assert(s@[i as int] != c);
                        }
                    },
                    None => {
                        assert(s@[i as int] != c);
                    },
                }
            }
            return Some(i);
        }
        i = i + 1;
    }
    proof {
        match index_of(s@.skip(from as int), c) {
            Some(k) => {
                assert(s@[from + k] != c);
            },
            None => {},
        }
    }
    None
}

/// Strips whisper timestamp annotations from transcribed text: every
/// bracketed span holding `-->` is removed, other brackets are kept.
///
/// Example: "[00:00:00.000 --> 00:00:05.000] Hello world" → " Hello world"
pub fn strip_timestamps(text: &str) -> (r: String)
    ensures
        r@ == strip_timestamps_spec(text@),
{
    let arrow = chars_of("-->");
    let s = chars_of(text);
    let mut out: Vec<char> = Vec::new();
    let mut i: usize = 0;
    assert(s@.skip(0) =~= s@);
    loop
        invariant_except_break
            strip_timestamps_spec(text@) == out@ + strip_timestamps_spec(s@.skip(i as int)),
        invariant
            arrow@ == "-->"@,
            s@ == text@,
            i <= s.len(),
        ensures
            strip_timestamps_spec(text@) == out@,
        decreases s.len() - i,
    {
        let ghost t = s@.skip(i as int);
        let a = match index_of_exec(&s, '[', i) {
            Some(a) => a,
            None => {
                assert(strip_timestamps_spec(t) == t);
                let ghost before = out@;
                let mut k = i;
                while k < s.len()
                    invariant
                        i <= k <= s.len(),
                        out@ == before + s@.subrange(i as int, k as int),
                    decreases s.len() - k,
                {
                    out.push(s[k]);
                    assert(s@.subrange(i as int, k + 1) =~= s@.subrange(i as int, k as int).push(
                        s@[k as int],
                    ));
                    k = k + 1;
                }
                assert(s@.subrange(i as int, s.len() as int) =~= t);
                assert(out@ =~= before + t);
                break;
            },
        };
        let b = match index_of_exec(&s, ']', a) {
            Some(b) => b,
            None => {
                assert(t.skip(a - i) =~= s@.skip(a as int));
                assert(strip_timestamps_spec(t) == t);
                let ghost before = out@;
                let mut k = i;
                while k < s.len()
                    invariant
                        i <= k <= s.len(),
                        out@ == before + s@.subrange(i as int, k as int),
                    decreases s.len() - k,
                {
                    out.push(s[k]);
                    assert(s@.subrange(i as int, k + 1) =~= s@.subrange(i as int, k as int).push(
                        s@[k as int],
                    ));
                    k = k + 1;
                }
                assert(s@.subrange(i as int, s.len() as int) =~= t);
                assert(out@ =~= before + t);
                break;
            },
        };
        let ghost a2 = (a - i) as int;
        let ghost e = (b - a) as int;
        assert(t.skip(a2) =~= s@.skip(a as int));
        assert(t.subrange(a2 + 1, a2 + e) =~= s@.subrange(a + 1, b as int));
        assert(t.skip(a2 + e + 1) =~= s@.skip(b + 1));
        let inner = slice_chars(&s, a + 1, b);
        let keep_end = if contains_chars(&inner, &arrow) {
            a
        } else {
            b + 1
        };
        assert(t.take(keep_end - i) =~= s@.subrange(i as int, keep_end as int));
        assert(strip_timestamps_spec(t) == s@.subrange(i as int, keep_end as int)
            + strip_timestamps_spec(s@.skip(b + 1)));
        let ghost before = out@;
        let mut k = i;
        while k < keep_end
            invariant
                i <= k <= keep_end <= s.len(),
                out@ == before + s@.subrange(i as int, k as int),
            decreases keep_end - k,
        {
            out.push(s[k]);
            assert(s@.subrange(i as int, k + 1) =~= s@.subrange(i as int, k as int).push(
                s@[k as int],
            ));
            k = k + 1;
        }
        assert(out@ + strip_timestamps_spec(s@.skip(b + 1)) =~= before + strip_timestamps_spec(t));
        i = b + 1;
    }
    string_of(&out)
}

/// Whether `c` lower-cases to exactly `p`.
fn char_matches_exec(c: char, p: char) -> (r: bool)
    ensures
        r == char_matches(c, p),
{
    let mut one = String::new();
    crate::text::push_char(&mut one, c);
    assert(one@ =~= seq![c]);
    let lower = chars_of(to_lowercase(one.as_str()).as_str());
    lower.len() == 1 && lower[0] == p && {
        assert(lower@ =~= seq![p]);
        true
    }
}

fn occurs_at_ignoring_case_exec(s: &Vec<char>, p: &Vec<char>, i: usize) -> (r: bool)
    ensures
        r == occurs_at_ignoring_case(s@, p@, i as int),
{
    if i > s.len() || p.len() > s.len() - i {
        return false;
    }
    let mut k: usize = 0;
    while k < p.len()
        invariant
            i + p.len() <= s.len(),
            k <= p.len(),
            forall|m: int| 0 <= m < k ==> char_matches(#[trigger] s@[i + m], p@[m]),
        decreases p.len() - k,
    {
        if !char_matches_exec(s[i + k], p[k]) {
            return false;
        }
        k = k + 1;
    }
    true
}

/// The first position at which `p` occurs in `s` ignoring case.
fn find_ignoring_case(s: &Vec<char>, p: &Vec<char>) -> (r: Option<usize>)
    ensures
        match r {
            Some(i) => first_occurrence_ignoring_case(s@, p@, i as int),
            None => forall|i: int| !occurs_at_ignoring_case(s@, p@, i),
        },
{
    if p.len() > s.len() {
        return None;
    }
    let last = s.len() - p.len();
    let mut i: usize = 0;
    loop
        invariant
            last == s.len() - p.len(),
            i <= last,
            forall|j: int| 0 <= j < i ==> !occurs_at_ignoring_case(s@, p@, j),
        ensures
            forall|j: int| 0 <= j <= last ==> !occurs_at_ignoring_case(s@, p@, j),
        decreases last - i,
    {
        if occurs_at_ignoring_case_exec(s, p, i) {
            return Some(i);
        }
        if i == last {
            break;
        }
        i = i + 1;
    }
    None
}

proof fn lemma_first_occurrence_unique(s: Seq<char>, p: Seq<char>, i: int, j: int)
    requires
        first_occurrence_ignoring_case(s, p, i),
        first_occurrence_ignoring_case(s, p, j),
    ensures
        i == j,
{
    if i < j {
        assert(!occurs_at_ignoring_case(s, p, i));
    } else if j < i {
        assert(!occurs_at_ignoring_case(s, p, j));
    }
}

/// Removes every occurrence of `p` (given in lower case) from `s` ignoring
/// case, first occurrence first, until none is left.
fn remove_all_ignoring_case_exec(s: &Vec<char>, p: &Vec<char>) -> (r: Vec<char>)
    ensures
        r@ == remove_all_ignoring_case(s@, p@),
{
    let mut cur = slice_chars(s, 0, s.len());
    assert(cur@ =~= s@);
    if p.len() == 0 {
        return cur;
    }
    loop
        invariant
            p@.len() > 0,
            remove_all_ignoring_case(s@, p@) == remove_all_ignoring_case(cur@, p@),
        ensures
            remove_all_ignoring_case(s@, p@) == cur@,
        decreases cur@.len(),
    {
        let ghost c = cur@;
        match find_ignoring_case(&cur, p) {
            None => {
                assert(!exists|i: int| occurs_at_ignoring_case(c, p@, i));
                break;
            },
            Some(i) => {
                proof {
                    let k = choose|k: int| first_occurrence_ignoring_case(c, p@, k);
                    assert(first_occurrence_ignoring_case(c, p@, i as int));
                    lemma_first_occurrence_unique(c, p@, k, i as int);
                }
                assert(occurs_at_ignoring_case(c, p@, i as int));
                assert(i + p@.len() <= c.len());
                assert(c == cur@);
                assert(i + p.len() <= cur.len());
                let mut next = slice_chars(&cur, 0, i);
                let tail = slice_chars(&cur, i + p.len(), cur.len());
                let ghost head = next@;
                let mut k: usize = 0;
                while k < tail.len()
                    invariant
                        k <= tail.len(),
                        next@ == head + tail@.take(k as int),
                    decreases tail.len() - k,
                {
                    next.push(tail[k]);
                    assert(head + tail@.take(k + 1) =~= (head + tail@.take(k as int)).push(
                        tail@[k as int],
                    ));
                    k = k + 1;
                }
                assert(tail@.take(tail.len() as int) =~= tail@);
                assert(next@ =~= c.take(i as int) + c.skip(i + p@.len()));
                cur = next;
            },
        }
    }
    cur
}

fn hallucination_table() -> (v: Vec<&'static str>)
    ensures
        v@.map_values(|s: &str| s@) == hallucinations(),
{
    let v = vec![
        "[BLANK_AUDIO]",
        "[NO_SPEECH]",
        "(blank audio)",
        "(no speech)",
        "[silence]",
        "(silence)",
    ];
    assert(v@.map_values(|s: &str| s@) =~= hallucinations());
    v
}

/// Removes known Whisper hallucination artifacts from transcribed text,
/// ignoring case.
///
/// If the entire text (after removal) is empty, returns an empty string
/// so the caller treats it the same as silence.
pub fn strip_hallucinations(text: &str) -> (r: String)
    ensures
        r@ == remove_phrases(text@, hallucinations()),
{
    let table = hallucination_table();
    let ghost ps = hallucinations();
    let mut cur = chars_of(text);
    let mut i: usize = 0;
    assert(ps.skip(0) =~= ps);
    while i < table.len()
        invariant
            i <= table.len(),
            table@.map_values(|s: &str| s@) == ps,
            remove_phrases(text@, ps) == remove_phrases(cur@, ps.skip(i as int)),
        decreases table.len() - i,
    {
        let pat = chars_of(to_lowercase(table[i]).as_str());
        assert(ps.skip(i as int)[0] == table@[i as int]@);
        assert(ps.skip(i as int).drop_first() =~= ps.skip(i + 1));
        cur = remove_all_ignoring_case_exec(&cur, &pat);
        i = i + 1;
    }
    string_of(&cur)
}

/// The transcript that whisper's text segments make: joined by spaces,
/// timestamp annotations and silence markers removed, trimmed.
pub fn transcript_from_segments(segments: &Vec<String>) -> (r: TranscriptionResult)
    ensures
        r.text@ == transcript_of(segments.deep_view()),
{
    let mut raw = String::new();
    let mut i: usize = 0;
    while i < segments.len()
        invariant
            i <= segments.len(),
            raw@ == join(segments.deep_view().take(i as int), seq![' ']),
        decreases segments.len() - i,
    {
        let ghost before = segments.deep_view().take(i as int);
        let ghost after = segments.deep_view().take(i + 1);
        assert(after.drop_last() =~= before);
        assert(after.last() == segments@[i as int]@);
        if i > 0 {
            push_str(&mut raw, " ");
            assert(" "@ =~= seq![' ']) by {
                reveal_strlit(" ");
            }
        } else {
            assert(before =~= seq![]);
        }
        push_str(&mut raw, segments[i].as_str());
        i = i + 1;
    }
    assert(segments.deep_view().take(segments.len() as int) =~= segments.deep_view());
    let no_ts = strip_timestamps(raw.as_str());
    let clean = strip_hallucinations(no_ts.as_str());
    let v = chars_of(clean.as_str());
    let t = trim_chars(&v);
    TranscriptionResult { text: string_of(&t) }
}

/// The error for a model file that does not exist.
pub fn model_not_found_message(path: &str) -> (s: String)
    ensures
        s@ == "Whisper model not found at "@ + path@
            + ". Run 'opencode-voice setup' to download it."@,
{
    let mut s = "Whisper model not found at ".to_owned();
    push_str(&mut s, path);
    push_str(&mut s, ". Run 'opencode-voice setup' to download it.");
    s
}


// ───────────────────────── laws of the silence markers ─────────────────────────

/// Whisper's silence markers, in lower case.
pub open spec fn silence_markers() -> Seq<Seq<char>> {
    seq!["[blank_audio]"@, "[no_speech]"@, "(blank audio)"@, "(no speech)"@, "[silence]"@, "(silence)"@]
}

/// `s` is the ASCII text `m` in some mix of upper and lower case.
pub open spec fn same_ignoring_ascii_case(s: Seq<char>, m: Seq<char>) -> bool {
    all_ascii(s) && s.map_values(|c: char| ascii_lower_char(c)) == m
}

proof fn lemma_same_chars(s: Seq<char>, m: Seq<char>)
    requires
        same_ignoring_ascii_case(s, m),
    ensures
        s.len() == m.len(),
        forall|x: int| 0 <= x < s.len() ==> (s[x] as u32) < 128 && ascii_lower_char(#[trigger] s[x]) == m[x],
{
    assert forall|x: int| 0 <= x < s.len() implies (s[x] as u32) < 128 && ascii_lower_char(#[trigger] s[x]) == m[x] by {
        assert(s.map_values(|c: char| ascii_lower_char(c))[x] == ascii_lower_char(s[x]));
    }
}

proof fn lemma_lower_keeps_non_letters(c: char)
    requires
        !('a' <= ascii_lower_char(c) <= 'z'),
    ensures
        ascii_lower_char(c) == c,
{
    if 'A' <= c <= 'Z' {
        assert(((c as u32) + 32) as char as u32 == (c as u32) + 32);
    }
}

proof fn lemma_char_matches_ascii(c: char, p: char)
    requires
        (c as u32) < 128,
    ensures
        char_matches(c, p) <==> ascii_lower_char(c) == p,
{
    assert(all_ascii(seq![c]));
    assert(seq![c].map_values(|x: char| ascii_lower_char(x)) =~= seq![ascii_lower_char(c)]);
    if char_matches(c, p) {
        assert(seq![ascii_lower_char(c)][0] == seq![p][0]);
    }
    if ascii_lower_char(c) == p {
        assert(seq![ascii_lower_char(c)] =~= seq![p]);
    }
}

/// A pattern whose first character is nowhere in `m` where the pattern would
/// fit does not occur, ignoring case, in any casing of `m`.
proof fn lemma_absent(s: Seq<char>, m: Seq<char>, p: Seq<char>)
    requires
        same_ignoring_ascii_case(s, m),
        p.len() > 0,
        forall|pos: int| 0 <= pos && pos + p.len() <= m.len() ==> m[pos] != p[0],
    ensures
        remove_all_ignoring_case(s, p) == s,
{
    lemma_same_chars(s, m);
    assert forall|i: int| !occurs_at_ignoring_case(s, p, i) by {
        if occurs_at_ignoring_case(s, p, i) {
            assert(char_matches(s[i + 0], p[0]));
            lemma_char_matches_ascii(s[i], p[0]);
        }
    }
}

/// Every casing of a non-empty `m` is removed whole when `m` is removed.
proof fn lemma_removed_whole(s: Seq<char>, m: Seq<char>)
    requires
        same_ignoring_ascii_case(s, m),
        m.len() > 0,
    ensures
        remove_all_ignoring_case(s, m) == Seq::<char>::empty(),
{
    lemma_same_chars(s, m);
    assert forall|k: int| 0 <= k < m.len() implies char_matches(#[trigger] s[0 + k], m[k]) by {
        lemma_char_matches_ascii(s[k], m[k]);
    }
    assert(occurs_at_ignoring_case(s, m, 0));
    assert(first_occurrence_ignoring_case(s, m, 0));
    let i = choose|i: int| first_occurrence_ignoring_case(s, m, i);
    lemma_first_occurrence_unique(s, m, i, 0);
    let rest = s.take(0) + s.skip(m.len() as int);
    assert(rest =~= Seq::<char>::empty());
    assert forall|j: int| !occurs_at_ignoring_case(rest, m, j) by {}
    assert(remove_all_ignoring_case(rest, m) == rest);
    assert(i == 0);
}

proof fn lemma_remove_phrases_from_empty(ps: Seq<Seq<char>>)
    ensures
        remove_phrases(Seq::<char>::empty(), ps) == Seq::<char>::empty(),
    decreases ps.len(),
{
    if ps.len() > 0 {
        let e = Seq::<char>::empty();
        let p = lowered(ps[0]);
        if p.len() > 0 {
            assert forall|j: int| !occurs_at_ignoring_case(e, p, j) by {}
        }
        assert(remove_all_ignoring_case(e, p) == e);
        lemma_remove_phrases_from_empty(ps.drop_first());
    }
}

/// Removing phrases one after another leaves nothing when the phrases
/// before the `j`-th leave `s` alone and the `j`-th removes all of it.
proof fn lemma_remove_phrases_to_empty(s: Seq<char>, ps: Seq<Seq<char>>, j: int)
    requires
        0 <= j < ps.len(),
        forall|i: int| 0 <= i < j ==> remove_all_ignoring_case(s, lowered(#[trigger] ps[i])) == s,
        remove_all_ignoring_case(s, lowered(ps[j])) == Seq::<char>::empty(),
    ensures
        remove_phrases(s, ps) == Seq::<char>::empty(),
    decreases j,
{
    if j == 0 {
        lemma_remove_phrases_from_empty(ps.drop_first());
    } else {
        assert(remove_all_ignoring_case(s, lowered(ps[0])) == s);
        let rest = ps.drop_first();
        assert forall|i: int| 0 <= i < j - 1 implies remove_all_ignoring_case(s, lowered(#[trigger] rest[i])) == s by {
            assert(rest[i] == ps[i + 1]);
        }
        assert(rest[j - 1] == ps[j]);
        lemma_remove_phrases_to_empty(s, rest, j - 1);
    }
}

proof fn lemma_lowered_markers(i: int)
    requires
        0 <= i < 6,
    ensures
        hallucinations().len() == 6,
        lowered(hallucinations()[i]) == silence_markers()[i],
        silence_markers()[i].len() > 0,
{
    reveal_strlit("[BLANK_AUDIO]");
    reveal_strlit("[NO_SPEECH]");
    reveal_strlit("(blank audio)");
    reveal_strlit("(no speech)");
    reveal_strlit("[silence]");
    reveal_strlit("(silence)");
    reveal_strlit("[blank_audio]");
    reveal_strlit("[no_speech]");
    reveal_strlit("(blank audio)");
    reveal_strlit("(no speech)");
    reveal_strlit("[silence]");
    reveal_strlit("(silence)");
    if i == 0 {
        let h = "[BLANK_AUDIO]"@;
        assert(hallucinations()[0] == h);
        assert(silence_markers()[0] == "[blank_audio]"@);
        assert forall|x: int| 0 <= x < h.len() implies (h[x] as u32) < 128 by {
            if x == 0 {} else if x == 1 {} else if x == 2 {} else if x == 3 {} else if x == 4 {} else if x == 5 {} else if x == 6 {} else if x == 7 {} else if x == 8 {} else if x == 9 {} else if x == 10 {} else if x == 11 {} else if x == 12 {}
        }
        let hm = h.map_values(|c: char| ascii_lower_char(c));
        assert(hm =~= "[blank_audio]"@) by {
            assert forall|x: int| 0 <= x < h.len() implies #[trigger] hm[x] == "[blank_audio]"@[x] by {
                if x == 0 {} else if x == 1 {} else if x == 2 {} else if x == 3 {} else if x == 4 {} else if x == 5 {} else if x == 6 {} else if x == 7 {} else if x == 8 {} else if x == 9 {} else if x == 10 {} else if x == 11 {} else if x == 12 {}
            }
        }
    } else if i == 1 {
        let h = "[NO_SPEECH]"@;
        assert(hallucinations()[1] == h);
        assert(silence_markers()[1] == "[no_speech]"@);
        assert forall|x: int| 0 <= x < h.len() implies (h[x] as u32) < 128 by {
            if x == 0 {} else if x == 1 {} else if x == 2 {} else if x == 3 {} else if x == 4 {} else if x == 5 {} else if x == 6 {} else if x == 7 {} else if x == 8 {} else if x == 9 {} else if x == 10 {}
        }
        let hm = h.map_values(|c: char| ascii_lower_char(c));
        assert(hm =~= "[no_speech]"@) by {
            assert forall|x: int| 0 <= x < h.len() implies #[trigger] hm[x] == "[no_speech]"@[x] by {
                if x == 0 {} else if x == 1 {} else if x == 2 {} else if x == 3 {} else if x == 4 {} else if x == 5 {} else if x == 6 {} else if x == 7 {} else if x == 8 {} else if x == 9 {} else if x == 10 {}
            }
        }
    } else if i == 2 {
        let h = "(blank audio)"@;
        assert(hallucinations()[2] == h);
        assert(silence_markers()[2] == "(blank audio)"@);
        assert forall|x: int| 0 <= x < h.len() implies (h[x] as u32) < 128 by {
            if x == 0 {} else if x == 1 {} else if x == 2 {} else if x == 3 {} else if x == 4 {} else if x == 5 {} else if x == 6 {} else if x == 7 {} else if x == 8 {} else if x == 9 {} else if x == 10 {} else if x == 11 {} else if x == 12 {}
        }
        let hm = h.map_values(|c: char| ascii_lower_char(c));
        assert(hm =~= "(blank audio)"@) by {
            assert forall|x: int| 0 <= x < h.len() implies #[trigger] hm[x] == "(blank audio)"@[x] by {
                if x == 0 {} else if x == 1 {} else if x == 2 {} else if x == 3 {} else if x == 4 {} else if x == 5 {} else if x == 6 {} else if x == 7 {} else if x == 8 {} else if x == 9 {} else if x == 10 {} else if x == 11 {} else if x == 12 {}
            }
        }
    } else if i == 3 {
        let h = "(no speech)"@;
        assert(hallucinations()[3] == h);
        assert(silence_markers()[3] == "(no speech)"@);
        assert forall|x: int| 0 <= x < h.len() implies (h[x] as u32) < 128 by {
            if x == 0 {} else if x == 1 {} else if x == 2 {} else if x == 3 {} else if x == 4 {} else if x == 5 {} else if x == 6 {} else if x == 7 {} else if x == 8 {} else if x == 9 {} else if x == 10 {}
        }
        let hm = h.map_values(|c: char| ascii_lower_char(c));
        assert(hm =~= "(no speech)"@) by {
            assert forall|x: int| 0 <= x < h.len() implies #[trigger] hm[x] == "(no speech)"@[x] by {
                if x == 0 {} else if x == 1 {} else if x == 2 {} else if x == 3 {} else if x == 4 {} else if x == 5 {} else if x == 6 {} else if x == 7 {} else if x == 8 {} else if x == 9 {} else if x == 10 {}
            }
        }
    } else if i == 4 {
        let h = "[silence]"@;
        assert(hallucinations()[4] == h);
        assert(silence_markers()[4] == "[silence]"@);
        assert forall|x: int| 0 <= x < h.len() implies (h[x] as u32) < 128 by {
            if x == 0 {} else if x == 1 {} else if x == 2 {} else if x == 3 {} else if x == 4 {} else if x == 5 {} else if x == 6 {} else if x == 7 {} else if x == 8 {}
        }
        let hm = h.map_values(|c: char| ascii_lower_char(c));
        assert(hm =~= "[silence]"@) by {
            assert forall|x: int| 0 <= x < h.len() implies #[trigger] hm[x] == "[silence]"@[x] by {
                if x == 0 {} else if x == 1 {} else if x == 2 {} else if x == 3 {} else if x == 4 {} else if x == 5 {} else if x == 6 {} else if x == 7 {} else if x == 8 {}
            }
        }
    } else if i == 5 {
        let h = "(silence)"@;
        assert(hallucinations()[5] == h);
        assert(silence_markers()[5] == "(silence)"@);
        assert forall|x: int| 0 <= x < h.len() implies (h[x] as u32) < 128 by {
            if x == 0 {} else if x == 1 {} else if x == 2 {} else if x == 3 {} else if x == 4 {} else if x == 5 {} else if x == 6 {} else if x == 7 {} else if x == 8 {}
        }
        let hm = h.map_values(|c: char| ascii_lower_char(c));
        assert(hm =~= "(silence)"@) by {
            assert forall|x: int| 0 <= x < h.len() implies #[trigger] hm[x] == "(silence)"@[x] by {
                if x == 0 {} else if x == 1 {} else if x == 2 {} else if x == 3 {} else if x == 4 {} else if x == 5 {} else if x == 6 {} else if x == 7 {} else if x == 8 {}
            }
        }
    }
}

proof fn lemma_strip_keeps_unbracketed(s: Seq<char>, m: Seq<char>)
    requires
        same_ignoring_ascii_case(s, m),
        forall|x: int| 0 <= x < m.len() ==> m[x] != '[',
    ensures
        strip_timestamps_spec(s) == s,
{
    lemma_same_chars(s, m);
    lemma_index_of(s, '[');
    if index_of(s, '[') is Some {
        let a = index_of(s, '[').unwrap();
        lemma_lower_keeps_non_letters(s[a]);
    }
}

proof fn lemma_strip_keeps_bracketed(s: Seq<char>, m: Seq<char>)
    requires
        same_ignoring_ascii_case(s, m),
        m.len() >= 2,
        m[0] == '[',
        m[m.len() - 1] == ']',
        forall|x: int| 0 <= x < m.len() - 1 ==> m[x] != ']',
        forall|x: int| 0 <= x < m.len() ==> m[x] != '-',
    ensures
        strip_timestamps_spec(s) == s,
{
    reveal_strlit("-->");
    lemma_same_chars(s, m);
    let l = s.len() as int;
    lemma_lower_keeps_non_letters(s[0]);
    lemma_lower_keeps_non_letters(s[l - 1]);
    lemma_index_of(s, '[');
    assert(index_of(s, '[') == Some(0int));
    assert(s.skip(0) =~= s);
    lemma_index_of(s, ']');
    assert forall|x: int| 0 <= x < l - 1 implies s[x] != ']' by {
        if s[x] == ']' {
            lemma_lower_keeps_non_letters(s[x]);
        }
    }
    assert(index_of(s, ']') == Some(l - 1));
    let inner = s.subrange(1, l - 1);
    assert(!contains(inner, "-->"@)) by {
        reveal(occurs_at);
        if contains(inner, "-->"@) {
            let i = choose|i: int| occurs_at(inner, "-->"@, i);
            assert(inner.subrange(i, i + 3)[0] == '-');
            assert(inner[i] == s[i + 1]);
            lemma_lower_keeps_non_letters(s[i + 1]);
        }
    }
    assert(s.take(l) =~= s);
    assert(s.skip(l) =~= Seq::<char>::empty());
    let e = Seq::<char>::empty();
    assert(index_of(e, '[') is None);
    assert(strip_timestamps_spec(e) == e);
    assert(s + e =~= s);
}

proof fn lemma_strip_keeps_marker(j: int, s: Seq<char>)
    requires
        0 <= j < 6,
        same_ignoring_ascii_case(s, silence_markers()[j]),
    ensures
        strip_timestamps_spec(s) == s,
{
    reveal_strlit("[BLANK_AUDIO]");
    reveal_strlit("[NO_SPEECH]");
    reveal_strlit("(blank audio)");
    reveal_strlit("(no speech)");
    reveal_strlit("[silence]");
    reveal_strlit("(silence)");
    reveal_strlit("[blank_audio]");
    reveal_strlit("[no_speech]");
    reveal_strlit("(blank audio)");
    reveal_strlit("(no speech)");
    reveal_strlit("[silence]");
    reveal_strlit("(silence)");
    let m = silence_markers()[j];
    if j == 0 {
        assert(m == "[blank_audio]"@);
        assert(m[0] == '[' && m[12] == ']');
        assert forall|x: int| 0 <= x < 12 implies m[x] != ']' by { if x == 0 {} else if x == 1 {} else if x == 2 {} else if x == 3 {} else if x == 4 {} else if x == 5 {} else if x == 6 {} else if x == 7 {} else if x == 8 {} else if x == 9 {} else if x == 10 {} else if x == 11 {} }
        assert forall|x: int| 0 <= x < 13 implies m[x] != '-' by { if x == 0 {} else if x == 1 {} else if x == 2 {} else if x == 3 {} else if x == 4 {} else if x == 5 {} else if x == 6 {} else if x == 7 {} else if x == 8 {} else if x == 9 {} else if x == 10 {} else if x == 11 {} else if x == 12 {} }
        lemma_strip_keeps_bracketed(s, m);
    } else if j == 1 {
        assert(m == "[no_speech]"@);
        assert(m[0] == '[' && m[10] == ']');
        assert forall|x: int| 0 <= x < 10 implies m[x] != ']' by { if x == 0 {} else if x == 1 {} else if x == 2 {} else if x == 3 {} else if x == 4 {} else if x == 5 {} else if x == 6 {} else if x == 7 {} else if x == 8 {} else if x == 9 {} }
        assert forall|x: int| 0 <= x < 11 implies m[x] != '-' by { if x == 0 {} else if x == 1 {} else if x == 2 {} else if x == 3 {} else if x == 4 {} else if x == 5 {} else if x == 6 {} else if x == 7 {} else if x == 8 {} else if x == 9 {} else if x == 10 {} }
        lemma_strip_keeps_bracketed(s, m);
    } else if j == 2 {
        assert(m == "(blank audio)"@);
        assert forall|x: int| 0 <= x < 13 implies m[x] != '[' by { if x == 0 {} else if x == 1 {} else if x == 2 {} else if x == 3 {} else if x == 4 {} else if x == 5 {} else if x == 6 {} else if x == 7 {} else if x == 8 {} else if x == 9 {} else if x == 10 {} else if x == 11 {} else if x == 12 {} }
        lemma_strip_keeps_unbracketed(s, m);
    } else if j == 3 {
        assert(m == "(no speech)"@);
        assert forall|x: int| 0 <= x < 11 implies m[x] != '[' by { if x == 0 {} else if x == 1 {} else if x == 2 {} else if x == 3 {} else if x == 4 {} else if x == 5 {} else if x == 6 {} else if x == 7 {} else if x == 8 {} else if x == 9 {} else if x == 10 {} }
        lemma_strip_keeps_unbracketed(s, m);
    } else if j == 4 {
        assert(m == "[silence]"@);
        assert(m[0] == '[' && m[8] == ']');
        assert forall|x: int| 0 <= x < 8 implies m[x] != ']' by { if x == 0 {} else if x == 1 {} else if x == 2 {} else if x == 3 {} else if x == 4 {} else if x == 5 {} else if x == 6 {} else if x == 7 {} }
        assert forall|x: int| 0 <= x < 9 implies m[x] != '-' by { if x == 0 {} else if x == 1 {} else if x == 2 {} else if x == 3 {} else if x == 4 {} else if x == 5 {} else if x == 6 {} else if x == 7 {} else if x == 8 {} }
        lemma_strip_keeps_bracketed(s, m);
    } else if j == 5 {
        assert(m == "(silence)"@);
        assert forall|x: int| 0 <= x < 9 implies m[x] != '[' by { if x == 0 {} else if x == 1 {} else if x == 2 {} else if x == 3 {} else if x == 4 {} else if x == 5 {} else if x == 6 {} else if x == 7 {} else if x == 8 {} }
        lemma_strip_keeps_unbracketed(s, m);
    }
}

proof fn lemma_earlier_markers_absent(j: int, s: Seq<char>)
    requires
        0 <= j < 6,
        same_ignoring_ascii_case(s, silence_markers()[j]),
    ensures
        forall|i: int| 0 <= i < j ==> remove_all_ignoring_case(s, #[trigger] silence_markers()[i]) == s,
{
    reveal_strlit("[BLANK_AUDIO]");
    reveal_strlit("[NO_SPEECH]");
    reveal_strlit("(blank audio)");
    reveal_strlit("(no speech)");
    reveal_strlit("[silence]");
    reveal_strlit("(silence)");
    reveal_strlit("[blank_audio]");
    reveal_strlit("[no_speech]");
    reveal_strlit("(blank audio)");
    reveal_strlit("(no speech)");
    reveal_strlit("[silence]");
    reveal_strlit("(silence)");
    let m = silence_markers()[j];
    if j == 0 {
        assert(m == "[blank_audio]"@);

    } else if j == 1 {
        assert(m == "[no_speech]"@);
        lemma_absent(s, m, silence_markers()[0]);
    } else if j == 2 {
        assert(m == "(blank audio)"@);
        assert forall|pos: int| 0 <= pos && pos + silence_markers()[0].len() <= m.len() implies m[pos] != silence_markers()[0][0] by { if pos == 0 {} }
        lemma_absent(s, m, silence_markers()[0]);
        assert forall|pos: int| 0 <= pos && pos + silence_markers()[1].len() <= m.len() implies m[pos] != silence_markers()[1][0] by { if pos == 0 {} else if pos == 1 {} else if pos == 2 {} }
        lemma_absent(s, m, silence_markers()[1]);
    } else if j == 3 {
        assert(m == "(no speech)"@);
        lemma_absent(s, m, silence_markers()[0]);
        assert forall|pos: int| 0 <= pos && pos + silence_markers()[1].len() <= m.len() implies m[pos] != silence_markers()[1][0] by { if pos == 0 {} }
        lemma_absent(s, m, silence_markers()[1]);
        lemma_absent(s, m, silence_markers()[2]);
    } else if j == 4 {
        assert(m == "[silence]"@);
        lemma_absent(s, m, silence_markers()[0]);
        lemma_absent(s, m, silence_markers()[1]);
        lemma_absent(s, m, silence_markers()[2]);
        lemma_absent(s, m, silence_markers()[3]);
    } else if j == 5 {
        assert(m == "(silence)"@);
        lemma_absent(s, m, silence_markers()[0]);
        lemma_absent(s, m, silence_markers()[1]);
        lemma_absent(s, m, silence_markers()[2]);
        lemma_absent(s, m, silence_markers()[3]);
        assert forall|pos: int| 0 <= pos && pos + silence_markers()[4].len() <= m.len() implies m[pos] != silence_markers()[4][0] by { if pos == 0 {} }
        lemma_absent(s, m, silence_markers()[4]);
    }
}

/// A transcript that is nothing but one of whisper's silence markers
/// (`[BLANK_AUDIO]`, `[NO_SPEECH]`, `(blank audio)`, `(no speech)`,
/// `[silence]`, `(silence)`), written in any mix of upper and lower case,
/// comes out empty.
pub proof fn law_silence_marker_leaves_nothing(j: int, s: Seq<char>)
    requires
        0 <= j < silence_markers().len(),
        same_ignoring_ascii_case(s, silence_markers()[j]),
    ensures
        transcript_of(seq![s]) == Seq::<char>::empty(),
{
    assert(silence_markers().len() == 6);
    assert(join(seq![s], seq![' ']) == s);
    lemma_strip_keeps_marker(j, s);
    lemma_earlier_markers_absent(j, s);
    lemma_lowered_markers(j);
    assert forall|i: int| 0 <= i < j implies remove_all_ignoring_case(s, lowered(#[trigger] hallucinations()[i])) == s by {
        lemma_lowered_markers(i);
        assert(remove_all_ignoring_case(s, silence_markers()[i]) == s);
    }
    lemma_removed_whole(s, silence_markers()[j]);
    lemma_remove_phrases_to_empty(s, hallucinations(), j);
    let e = Seq::<char>::empty();
    assert(trim_start_class(e, CharClass::WhiteSpace) == e);
    assert(trim_end_class(e, CharClass::WhiteSpace) == e);
}

} // verus!
