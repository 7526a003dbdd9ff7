//! Voice command matching for approval handling.
//!
//! Matches transcribed text against permission approval patterns and question
//! answers.
use crate::approval::types::PermissionReply;
use crate::approval::types::QuestionInfo;
use crate::approval::types::QuestionInfoV;
use crate::approval::types::QuestionOption;
use crate::approval::types::QuestionRequest;
use crate::approval::types::QuestionRequestV;
use crate::text::CharClass;
use crate::text::all_ascii;
use crate::text::ascii_lower_char;
use crate::text::ascii_upper_char;
use crate::text::decimal;
use crate::text::is_white_space;
use crate::text::in_class;
use crate::text::is_in_class;
use crate::text::trim;
use crate::text::trim_start_class;
use crate::text::trim_end_class;
use crate::text::collapse_white_space;
use crate::text::is_prefix;
use crate::text::contains;
use crate::text::lowercase;
use crate::text::chars_of;
use crate::text::chars_eq;
use crate::text::to_lowercase;
use crate::text::trim_chars;
use crate::text::trim_end_of;
use crate::text::trim_start_of;
use crate::text::collapse_chars;
use crate::text::string_of;
use crate::text::starts_with;
use crate::text::slice_chars;
use crate::text::contains_chars;
use crate::text::trim_str;
use vstd::prelude::*;

verus! {

broadcast use vstd::string::group_string_axioms;

/// Result of matching a voice command against an approval context.
#[derive(Clone, Debug, PartialEq)]
pub enum MatchResult {
    /// Matched a permission reply command.
    PermissionReply { reply: PermissionReply, message: Option<String> },
    /// Matched a question answer.
    QuestionAnswer { answers: Vec<Vec<String>> },
    /// Matched a question rejection.
    QuestionReject,
    /// No match found.
    NoMatch,
}

/// The model of a match result.
pub enum MatchV {
    PermissionReply { reply: PermissionReply, message: Option<Seq<char>> },
    QuestionAnswer { answers: Seq<Seq<Seq<char>>> },
    QuestionReject,
    NoMatch,
}

impl View for MatchResult {
    type V = MatchV;

    open spec fn view(&self) -> MatchV {
        match self {
            MatchResult::PermissionReply { reply, message } => MatchV::PermissionReply {
                reply: *reply,
                message: match message {
                    Some(m) => Some(m@),
                    None => None,
                },
            },
            MatchResult::QuestionAnswer { answers } => MatchV::QuestionAnswer {
                answers: answers.deep_view(),
            },
            MatchResult::QuestionReject => MatchV::QuestionReject,
            MatchResult::NoMatch => MatchV::NoMatch,
        }
    }
}

// ───────────────────────── specifications ─────────────────────────

/// Normal form of spoken text: lower case, trimmed, trailing punctuation
/// stripped, inner white space collapsed to single spaces.
pub open spec fn normalized(t: Seq<char>) -> Seq<char> {
    collapse_white_space(
        trim_end_class(trim(lowercase(t)), CharClass::Punctuation),
    )
}

/// The normal form of ASCII text, where lower-casing maps `A`..`Z` to
/// `a`..`z` and keeps every other character.
pub open spec fn normalized_ascii(t: Seq<char>) -> Seq<char> {
    collapse_white_space(
        trim_end_class(trim(t.map_values(|c: char| ascii_lower_char(c))), CharClass::Punctuation),
    )
}

/// Phrases that grant a permission once.
pub open spec fn once_patterns() -> Seq<Seq<char>> {
    seq![
        "allow"@,
        "allow once"@,
        "allow it"@,
        "allow this"@,
        "yes"@,
        "yeah"@,
        "yep"@,
        "ok"@,
        "okay"@,
        "sure"@,
        "proceed"@,
        "go ahead"@,
        "do it"@,
        "approve"@,
        "approve once"@,
        "approve it"@,
        "approve this"@,
        "accept"@,
        "run it"@,
        "go for it"@,
        "permit"@,
        "execute"@,
    ]
}

/// Phrases that grant a permission always.
pub open spec fn always_patterns() -> Seq<Seq<char>> {
    seq!["always"@, "always allow"@, "trust"@, "trust it"@, "allow all"@]
}

/// Phrases that reject a permission.
pub open spec fn reject_patterns() -> Seq<Seq<char>> {
    seq![
        "reject"@,
        "deny"@,
        "no"@,
        "nope"@,
        "cancel"@,
        "stop"@,
        "don't"@,
        "do not"@,
        "refuse"@,
        "block"@,
        "skip"@,
        "decline"@,
        "dismiss"@,
        "not allowed"@,
        "nah"@,
        "don't do it"@,
    ]
}

/// Rejection prefixes that can be followed by a message, in the order in
/// which they are tried: a prefix comes before any shorter one that it
/// extends, so that "nope" is tried before "no".
pub open spec fn reject_prefixes() -> Seq<Seq<char>> {
    seq!["nope"@, "no"@, "reject"@, "deny"@, "cancel"@, "don't"@, "refuse"@]
}

/// Phrases that dismiss a question.
pub open spec fn question_reject_patterns() -> Seq<Seq<char>> {
    seq!["skip"@, "dismiss"@, "cancel"@, "reject"@, "none"@, "never mind"@, "nevermind"@]
}

/// The rejection message carried by `n`: for the first prefix in `ps` that
/// starts `n` and is followed by more than commas and white space, what
/// follows it once those are stripped.
pub open spec fn reject_message(n: Seq<char>, ps: Seq<Seq<char>>) -> Option<Seq<char>>
    decreases ps.len(),
{
    if ps.len() == 0 {
        None
    } else {
        let rest = n.skip(ps[0].len() as int);
        let after = trim_start_class(rest, CharClass::CommaOrSpace);
        if is_prefix(ps[0], n) && after.len() > 0 {
            Some(after)
        } else {
            reject_message(n, ps.drop_first())
        }
    }
}

/// What a normalized permission command means.
pub open spec fn permission_match(n: Seq<char>) -> MatchV {
    if always_patterns().contains(n) {
        MatchV::PermissionReply { reply: PermissionReply::Always, message: None }
    } else if once_patterns().contains(n) {
        MatchV::PermissionReply { reply: PermissionReply::Once, message: None }
    } else if reject_patterns().contains(n) {
        MatchV::PermissionReply { reply: PermissionReply::Reject, message: None }
    } else {
        match reject_message(n, reject_prefixes()) {
            Some(m) => MatchV::PermissionReply { reply: PermissionReply::Reject, message: Some(m) },
            None => MatchV::NoMatch,
        }
    }
}

/// The 1-based option number that a word names.
pub open spec fn number_word(w: Seq<char>) -> Option<nat> {
    if w == "one"@ || w == "first"@ || w == "1"@ {
        Some(1)
    } else if w == "two"@ || w == "second"@ || w == "2"@ {
        Some(2)
    } else if w == "three"@ || w == "third"@ || w == "3"@ {
        Some(3)
    } else if w == "four"@ || w == "fourth"@ || w == "4"@ {
        Some(4)
    } else if w == "five"@ || w == "fifth"@ || w == "5"@ {
        Some(5)
    } else if w == "six"@ || w == "sixth"@ || w == "6"@ {
        Some(6)
    } else if w == "seven"@ || w == "seventh"@ || w == "7"@ {
        Some(7)
    } else if w == "eight"@ || w == "eighth"@ || w == "8"@ {
        Some(8)
    } else if w == "nine"@ || w == "ninth"@ || w == "9"@ {
        Some(9)
    } else if w == "ten"@ || w == "tenth"@ || w == "10"@ {
        Some(10)
    } else {
        None
    }
}

/// The option number that normalized text names: "option N" or a bare
/// number word.
pub open spec fn numeric_choice(n: Seq<char>) -> Option<nat> {
    if is_prefix("option "@, n) {
        number_word(trim(n.skip("option "@.len() as int)))
    } else {
        number_word(n)
    }
}

/// The first label whose normal form is `n`.
pub open spec fn first_exact_label(labels: Seq<Seq<char>>, n: Seq<char>) -> Option<Seq<char>>
    decreases labels.len(),
{
    if labels.len() == 0 {
        None
    } else if normalized(labels[0]) == n {
        Some(labels[0])
    } else {
        first_exact_label(labels.drop_first(), n)
    }
}

/// The first label whose normal form occurs in `n`.
pub open spec fn first_contained_label(labels: Seq<Seq<char>>, n: Seq<char>) -> Option<
    Seq<char>,
>
    decreases labels.len(),
{
    if labels.len() == 0 {
        None
    } else if contains(n, normalized(labels[0])) {
        Some(labels[0])
    } else {
        first_contained_label(labels.drop_first(), n)
    }
}

/// The answer that text `t` (normal form `n`) gives to question `q`: an
/// exact label, else a label the text contains, else the numbered option,
/// else the trimmed text itself when custom answers are allowed.
pub open spec fn answer_for(q: QuestionInfoV, n: Seq<char>, t: Seq<char>) -> Option<Seq<char>> {
    if first_exact_label(q.options, n) is Some {
        first_exact_label(q.options, n)
    } else if first_contained_label(q.options, n) is Some {
        first_contained_label(q.options, n)
    } else if numeric_choice(n) is Some && 1 <= numeric_choice(n).unwrap()
        <= q.options.len() {
        Some(q.options[numeric_choice(n).unwrap() - 1])
    } else if q.custom {
        Some(trim(t))
    } else {
        None
    }
}

/// The answers that `t` gives to every question in order, one single-element
/// list per question; `None` if some question gets no answer.
pub open spec fn answers_for(qs: Seq<QuestionInfoV>, n: Seq<char>, t: Seq<char>) -> Option<
    Seq<Seq<Seq<char>>>,
>
    decreases qs.len(),
{
    if qs.len() == 0 {
        Some(seq![])
    } else {
        match answer_for(qs[0], n, t) {
            None => None,
            Some(a) => match answers_for(qs.drop_first(), n, t) {
                None => None,
                Some(rest) => Some(seq![seq![a]] + rest),
            },
        }
    }
}

/// What text `t` means as a reply to question request `q`.
pub open spec fn question_match(t: Seq<char>, q: QuestionRequestV) -> MatchV {
    let n = normalized(t);
    if question_reject_patterns().contains(n) {
        MatchV::QuestionReject
    } else if q.questions.len() == 0 {
        MatchV::NoMatch
    } else {
        match answers_for(q.questions, n, t) {
            None => MatchV::NoMatch,
            Some(a) => MatchV::QuestionAnswer { answers: a },
        }
    }
}

// ───────────────────────── pattern tables ─────────────────────────

pub open spec fn views_of(v: Seq<&str>) -> Seq<Seq<char>> {
    v.map_values(|s: &str| s@)
}

fn once_table() -> (v: Vec<&'static str>)
    ensures
        views_of(v@) == once_patterns(),
{
    let v = vec![
        "allow",
        "allow once",
        "allow it",
        "allow this",
        "yes",
        "yeah",
        "yep",
        "ok",
        "okay",
        "sure",
        "proceed",
        "go ahead",
        "do it",
        "approve",
        "approve once",
        "approve it",
        "approve this",
        "accept",
        "run it",
        "go for it",
        "permit",
        "execute",
    ];
    assert(views_of(v@) =~= once_patterns());
    v
}

fn always_table() -> (v: Vec<&'static str>)
    ensures
        views_of(v@) == always_patterns(),
{
    let v = vec!["always", "always allow", "trust", "trust it", "allow all"];
    assert(views_of(v@) =~= always_patterns());
    v
}

fn reject_table() -> (v: Vec<&'static str>)
    ensures
        views_of(v@) == reject_patterns(),
{
    let v = vec![
        "reject",
        "deny",
        "no",
        "nope",
        "cancel",
        "stop",
        "don't",
        "do not",
        "refuse",
        "block",
        "skip",
        "decline",
        "dismiss",
        "not allowed",
        "nah",
        "don't do it",
    ];
    assert(views_of(v@) =~= reject_patterns());
    v
}

fn reject_prefix_table() -> (v: Vec<&'static str>)
    ensures
        views_of(v@) == reject_prefixes(),
{
    let v = vec!["nope", "no", "reject", "deny", "cancel", "don't", "refuse"];
    assert(views_of(v@) =~= reject_prefixes());
    v
}

fn question_reject_table() -> (v: Vec<&'static str>)
    ensures
        views_of(v@) == question_reject_patterns(),
{
    let v = vec!["skip", "dismiss", "cancel", "reject", "none", "never mind", "nevermind"];
    assert(views_of(v@) =~= question_reject_patterns());
    v
}

/// Whether `n` is one of the phrases of `table`.
fn in_table(n: &Vec<char>, table: &Vec<&'static str>) -> (r: bool)
    ensures
        r == views_of(table@).contains(n@),
{
    let mut i: usize = 0;
    while i < table.len()
        invariant
            i <= table.len(),
            forall|j: int| 0 <= j < i ==> views_of(table@)[j] != n@,
        decreases table.len() - i,
    {
        let p = chars_of(table[i]);
        if chars_eq(&p, n) {
            assert(views_of(table@)[i as int] == n@);
            return true;
        }
        i = i + 1;
    }
    false
}

/// Whether `w` is the text `lit`.
fn is_word(w: &Vec<char>, lit: &str) -> (r: bool)
    ensures
        r == (w@ == lit@),
{
    let l = chars_of(lit);
    chars_eq(w, &l)
}

// ───────────────────────── executable functions ─────────────────────────

/// The normal form of `text`, as characters.
pub fn normalize_chars(text: &str) -> (r: Vec<char>)
    ensures
        r@ == normalized(text@),
        all_ascii(text@) ==> r@ == normalized_ascii(text@),
{
    let lower = to_lowercase(text);
    let v = chars_of(lower.as_str());
    let t = trim_chars(&v);
    let s = trim_end_of(&t, CharClass::Punctuation);
    collapse_chars(&s)
}

/// Normalizes text: lowercase, trim, strip trailing punctuation, collapse
/// whitespace.
pub fn normalize(text: &str) -> (r: String)
    ensures
        r@ == normalized(text@),
        all_ascii(text@) ==> r@ == normalized_ascii(text@),
{
    let v = normalize_chars(text);
    string_of(&v)
}

/// Number word to 1-based index mapping.
pub fn parse_number_word(word: &str) -> (r: Option<usize>)
    ensures
        match r {
            Some(k) => number_word(word@) == Some(k as nat),
            None => number_word(word@) is None,
        },
{
    let w = chars_of(word);
    number_word_of(&w)
}

fn number_word_of(w: &Vec<char>) -> (r: Option<usize>)
    ensures
        match r {
            Some(k) => number_word(w@) == Some(k as nat),
            None => number_word(w@) is None,
        },
{
    if is_word(w, "one") || is_word(w, "first") || is_word(w, "1") {
        Some(1)
    } else if is_word(w, "two") || is_word(w, "second") || is_word(w, "2") {
        Some(2)
    } else if is_word(w, "three") || is_word(w, "third") || is_word(w, "3") {
        Some(3)
    } else if is_word(w, "four") || is_word(w, "fourth") || is_word(w, "4") {
        Some(4)
    } else if is_word(w, "five") || is_word(w, "fifth") || is_word(w, "5") {
        Some(5)
    } else if is_word(w, "six") || is_word(w, "sixth") || is_word(w, "6") {
        Some(6)
    } else if is_word(w, "seven") || is_word(w, "seventh") || is_word(w, "7") {
        Some(7)
    } else if is_word(w, "eight") || is_word(w, "eighth") || is_word(w, "8") {
        Some(8)
    } else if is_word(w, "nine") || is_word(w, "ninth") || is_word(w, "9") {
        Some(9)
    } else if is_word(w, "ten") || is_word(w, "tenth") || is_word(w, "10") {
        Some(10)
    } else {
        None
    }
}

fn reject_message_of(n: &Vec<char>) -> (r: Option<Vec<char>>)
    ensures
        match r {
            Some(m) => reject_message(n@, reject_prefixes()) == Some(m@),
            None => reject_message(n@, reject_prefixes()) is None,
        },
{
    let table = reject_prefix_table();
    let mut i: usize = 0;
    assert(views_of(table@).skip(0) =~= views_of(table@));
    while i < table.len()
        invariant
            i <= table.len(),
            views_of(table@) == reject_prefixes(),
            reject_message(n@, reject_prefixes()) == reject_message(
                n@,
                reject_prefixes().skip(i as int),
            ),
        decreases table.len() - i,
    {
        let p = chars_of(table[i]);
        let ghost ps = reject_prefixes().skip(i as int);
        assert(ps[0] == p@);
        if starts_with(n, &p) {
            let after_all = slice_chars(n, p.len(), n.len());
            assert(after_all@ =~= n@.skip(p@.len() as int));
            let after = trim_start_of(&after_all, CharClass::CommaOrSpace);
            if after.len() > 0 {
                return Some(after);
            }
        }
        assert(ps.drop_first() =~= reject_prefixes().skip(i + 1));
        i = i + 1;
    }
    None
}

/// Matches a voice command against permission approval patterns.
///
/// Returns the appropriate MatchResult based on which pattern matches.
pub fn match_permission_command(text: &str) -> (r: MatchResult)
    ensures
        r@ == permission_match(normalized(text@)),
        all_ascii(text@) ==> r@ == permission_match(normalized_ascii(text@)),
{
    let n = normalize_chars(text);
    if in_table(&n, &always_table()) {
        return MatchResult::PermissionReply { reply: PermissionReply::Always, message: None };
    }
    if in_table(&n, &once_table()) {
        return MatchResult::PermissionReply { reply: PermissionReply::Once, message: None };
    }
    if in_table(&n, &reject_table()) {
        return MatchResult::PermissionReply { reply: PermissionReply::Reject, message: None };
    }
    match reject_message_of(&n) {
        Some(m) => MatchResult::PermissionReply {
            reply: PermissionReply::Reject,
            message: Some(string_of(&m)),
        },
        None => MatchResult::NoMatch,
    }
}

pub open spec fn labels_of(opts: Seq<QuestionOption>) -> Seq<Seq<char>> {
    opts.map_values(|o: QuestionOption| o@)
}

/// The index of the first option whose normal form equals `n` (when
/// `by_containment` is false) or occurs in `n` (when it is true).
fn pick_option(opts: &Vec<QuestionOption>, n: &Vec<char>, by_containment: bool) -> (r: Option<
    usize,
>)
    ensures
        match r {
            Some(i) => i < opts.len() && (if by_containment {
                first_contained_label(labels_of(opts@), n@)
            } else {
                first_exact_label(labels_of(opts@), n@)
            }) == Some(opts@[i as int].label@),
            None => (if by_containment {
                first_contained_label(labels_of(opts@), n@)
            } else {
                first_exact_label(labels_of(opts@), n@)
            }) is None,
        },
{
    let ghost labels = labels_of(opts@);
    let mut i: usize = 0;
    assert(labels.skip(0) =~= labels);
    while i < opts.len()
        invariant
            i <= opts.len(),
            labels == labels_of(opts@),
            by_containment ==> first_contained_label(labels, n@) == first_contained_label(
                labels.skip(i as int),
                n@,
            ),
            !by_containment ==> first_exact_label(labels, n@) == first_exact_label(
                labels.skip(i as int),
                n@,
            ),
        decreases opts.len() - i,
    {
        let ghost rest = labels.skip(i as int);
        assert(rest[0] == opts@[i as int].label@);
        let norm = normalize_chars(opts[i].label.as_str());
        let hit = if by_containment {
            contains_chars(n, &norm)
        } else {
            chars_eq(&norm, n)
        };
        if hit {
            return Some(i);
        }
        assert(rest.drop_first() =~= labels.skip(i + 1));
        i = i + 1;
    }
    None
}

fn numeric_choice_of(n: &Vec<char>) -> (r: Option<usize>)
    ensures
        match r {
            Some(k) => numeric_choice(n@) == Some(k as nat),
            None => numeric_choice(n@) is None,
        },
{
    let prefix = chars_of("option ");
    if starts_with(n, &prefix) {
        let after = slice_chars(n, prefix.len(), n.len());
        assert(after@ =~= n@.skip("option "@.len() as int));
        let t = trim_chars(&after);
        number_word_of(&t)
    } else {
        number_word_of(n)
    }
}

/// The answer `text` (normal form `n`) gives to question `q`.
fn answer_of(q: &QuestionInfo, n: &Vec<char>, text: &str) -> (r: Option<String>)
    ensures
        match r {
            Some(a) => answer_for(q@, n@, text@) == Some(a@),
            None => answer_for(q@, n@, text@) is None,
        },
{
    let opts = &q.options;
    assert(q@.options == labels_of(opts@));
    match pick_option(opts, n, false) {
        Some(i) => {
            return Some(opts[i].label.clone());
        },
        None => {},
    }
    match pick_option(opts, n, true) {
        Some(i) => {
            return Some(opts[i].label.clone());
        },
        None => {},
    }
    match numeric_choice_of(n) {
        Some(k) => {
            if k >= 1 && k <= opts.len() {
                assert(labels_of(opts@)[k - 1] == opts@[k - 1].label@);
                return Some(opts[k - 1].label.clone());
            }
        },
        None => {},
    }
    if q.custom {
        return Some(trim_str(text));
    }
    None
}

/// Matches a voice command against question options.
///
/// Returns QuestionReject, QuestionAnswer, or NoMatch.
pub fn match_question_answer(text: &str, question: &QuestionRequest) -> (r: MatchResult)
    ensures
        r@ == question_match(text@, question@),
{
    let n = normalize_chars(text);
    if in_table(&n, &question_reject_table()) {
        return MatchResult::QuestionReject;
    }
    let qs = &question.questions;
    let ghost qv = question@.questions;
    let mut all: Vec<Vec<String>> = Vec::new();
    let mut i: usize = 0;
    assert(qv.skip(0) =~= qv);
    while i < qs.len()
        invariant
            i <= qs.len(),
            qv == qs@.map_values(|q: QuestionInfo| q@),
            qv == question@.questions,
            n@ == normalized(text@),
            !question_reject_patterns().contains(n@),
            all.deep_view().len() == i,
            answers_for(qv, n@, text@) == match answers_for(qv.skip(i as int), n@, text@) {
                None => None,
                Some(rest) => Some(all.deep_view() + rest),
            },
        decreases qs.len() - i,
    {
        let ghost rest = qv.skip(i as int);
        assert(rest[0] == qs@[i as int]@);
        assert(rest.drop_first() =~= qv.skip(i + 1));
        match answer_of(&qs[i], &n, text) {
            Some(a) => {
                let ghost before = all.deep_view();
                let mut one: Vec<String> = Vec::new();
                one.push(a);
                assert(one.deep_view() =~= seq![a@]);
                all.push(one);
                assert(all.deep_view() =~= before.push(seq![a@]));
                proof {
                    match answers_for(qv.skip(i + 1), n@, text@) {
                        None => {},
                        Some(r2) => {
                            assert(before + (seq![seq![a@]] + r2) =~= before.push(seq![a@]) + r2);
                        },
                    }
                }
            },
            None => {
                assert(answers_for(rest, n@, text@) is None);
                return MatchResult::NoMatch;
            },
        }
        i = i + 1;
    }
    assert(qv.skip(qs.len() as int) =~= seq![]);
    assert(all.deep_view() + seq![] =~= all.deep_view());
    if all.len() == 0 {
        MatchResult::NoMatch
    } else {
        MatchResult::QuestionAnswer { answers: all }
    }
}

// ───────────────────────── laws ─────────────────────────

proof fn lemma_answers_shape(qs: Seq<QuestionInfoV>, n: Seq<char>, t: Seq<char>)
    ensures
        answers_for(qs, n, t) matches Some(a) ==> a.len() == qs.len() && forall|i: int|
            0 <= i < a.len() ==> #[trigger] a[i].len() == 1,
    decreases qs.len(),
{
    if qs.len() > 0 {
        lemma_answers_shape(qs.drop_first(), n, t);
        if let Some(a) = answers_for(qs, n, t) {
            let first = answer_for(qs[0], n, t)->0;
            let rest = answers_for(qs.drop_first(), n, t)->0;
            assert(a == seq![seq![first]] + rest);
            assert forall|i: int| 0 <= i < a.len() implies #[trigger] a[i].len() == 1 by {
                if i > 0 {
                    assert(a[i] == rest[i - 1]);
                }
            }
        }
    }
}

/// A permission command is only ever answered with a permission reply or no
/// match; a question only with an answer, a rejection or no match. An answer
/// holds exactly one label per question, and a rejection phrase rejects any
/// question.
pub proof fn law_match_shapes(t: Seq<char>, q: QuestionRequestV)
    ensures
        permission_match(normalized(t)) is PermissionReply || permission_match(normalized(t)) is NoMatch,
        !(question_match(t, q) is PermissionReply),
        question_match(t, q) matches MatchV::QuestionAnswer { answers } ==> answers.len()
            == q.questions.len() && forall|i: int|
            0 <= i < answers.len() ==> #[trigger] answers[i].len() == 1,
        question_reject_patterns().contains(normalized(t)) ==> question_match(t, q)
            is QuestionReject,
{
    lemma_answers_shape(q.questions, normalized(t), t);
}

/// Permission commands in ASCII do not depend on letter case: the text, the
/// text in upper case and the text in lower case all mean the same.
pub proof fn law_permission_ascii_case_insensitive(t: Seq<char>)
    requires
        all_ascii(t),
    ensures
        all_ascii(t.map_values(|c: char| ascii_upper_char(c))),
        all_ascii(t.map_values(|c: char| ascii_lower_char(c))),
        permission_match(normalized_ascii(t.map_values(|c: char| ascii_upper_char(c))))
            == permission_match(normalized_ascii(t)),
        permission_match(normalized_ascii(t.map_values(|c: char| ascii_lower_char(c))))
            == permission_match(normalized_ascii(t)),
{
    let up = t.map_values(|c: char| ascii_upper_char(c));
    let low = t.map_values(|c: char| ascii_lower_char(c));
    assert forall|i: int| 0 <= i < t.len() implies (#[trigger] up[i] as u32) < 128 && (low[i] as u32) < 128 && ascii_lower_char(up[i]) == ascii_lower_char(t[i]) && ascii_lower_char(low[i]) == ascii_lower_char(t[i]) by {
        let c = t[i];
        if 'a' <= c <= 'z' {
            assert(((c as u32) - 32) as char as u32 == (c as u32) - 32);
        } else if 'A' <= c <= 'Z' {
            assert(((c as u32) + 32) as char as u32 == (c as u32) + 32);
        }
    }
    assert(up.map_values(|c: char| ascii_lower_char(c)) =~= low);
    assert(low.map_values(|c: char| ascii_lower_char(c)) =~= low);
}


// ───────────────────────── laws of the number words ─────────────────────────

/// The spoken cardinal numbers, one to ten.
pub open spec fn cardinal_numbers() -> Seq<Seq<char>> {
    seq!["one"@, "two"@, "three"@, "four"@, "five"@, "six"@, "seven"@, "eight"@, "nine"@, "ten"@]
}

/// The spoken ordinal numbers, first to tenth.
pub open spec fn ordinal_numbers() -> Seq<Seq<char>> {
    seq!["first"@, "second"@, "third"@, "fourth"@, "fifth"@, "sixth"@, "seventh"@, "eighth"@, "ninth"@, "tenth"@]
}

proof fn lemma_trim_word(w: Seq<char>)
    requires
        w.len() > 0,
        !is_white_space(w[0]),
        !is_white_space(w.last()),
    ensures
        trim(w) == w,
{
    assert(trim_start_class(w, CharClass::WhiteSpace) == w);
}

/// Each number from one to ten is named by its cardinal ("four"), its
/// ordinal ("fourth") and its decimal digits ("4"): each of them, alone or
/// after "option ", chooses option number k.
pub proof fn law_number_words_name_their_number(k: nat)
    requires
        1 <= k <= 10,
    ensures
        number_word(cardinal_numbers()[k - 1]) == Some(k),
        number_word(ordinal_numbers()[k - 1]) == Some(k),
        number_word(decimal(k)) == Some(k),
        numeric_choice(cardinal_numbers()[k - 1]) == Some(k),
        numeric_choice(ordinal_numbers()[k - 1]) == Some(k),
        numeric_choice(decimal(k)) == Some(k),
        numeric_choice("option "@ + cardinal_numbers()[k - 1]) == Some(k),
        numeric_choice("option "@ + ordinal_numbers()[k - 1]) == Some(k),
        numeric_choice("option "@ + decimal(k)) == Some(k),
{
    reveal_strlit("one");
    reveal_strlit("two");
    reveal_strlit("three");
    reveal_strlit("four");
    reveal_strlit("five");
    reveal_strlit("six");
    reveal_strlit("seven");
    reveal_strlit("eight");
    reveal_strlit("nine");
    reveal_strlit("ten");
    reveal_strlit("first");
    reveal_strlit("second");
    reveal_strlit("third");
    reveal_strlit("fourth");
    reveal_strlit("fifth");
    reveal_strlit("sixth");
    reveal_strlit("seventh");
    reveal_strlit("eighth");
    reveal_strlit("ninth");
    reveal_strlit("tenth");
    reveal_strlit("1");
    reveal_strlit("2");
    reveal_strlit("3");
    reveal_strlit("4");
    reveal_strlit("5");
    reveal_strlit("6");
    reveal_strlit("7");
    reveal_strlit("8");
    reveal_strlit("9");
    reveal_strlit("10");
    reveal_strlit("option ");
    reveal_with_fuel(decimal, 3);
    if k == 1 {
        assert(cardinal_numbers()[0] == "one"@);
        assert(ordinal_numbers()[0] == "first"@);
        assert(decimal(1) =~= "1"@);
    }
    if k == 2 {
        assert(cardinal_numbers()[1] == "two"@);
        assert(ordinal_numbers()[1] == "second"@);
        assert(decimal(2) =~= "2"@);
    }
    if k == 3 {
        assert(cardinal_numbers()[2] == "three"@);
        assert(ordinal_numbers()[2] == "third"@);
        assert(decimal(3) =~= "3"@);
    }
    if k == 4 {
        assert(cardinal_numbers()[3] == "four"@);
        assert(ordinal_numbers()[3] == "fourth"@);
        assert(decimal(4) =~= "4"@);
    }
    if k == 5 {
        assert(cardinal_numbers()[4] == "five"@);
        assert(ordinal_numbers()[4] == "fifth"@);
        assert(decimal(5) =~= "5"@);
    }
    if k == 6 {
        assert(cardinal_numbers()[5] == "six"@);
        assert(ordinal_numbers()[5] == "sixth"@);
        assert(decimal(6) =~= "6"@);
    }
    if k == 7 {
        assert(cardinal_numbers()[6] == "seven"@);
        assert(ordinal_numbers()[6] == "seventh"@);
        assert(decimal(7) =~= "7"@);
    }
    if k == 8 {
        assert(cardinal_numbers()[7] == "eight"@);
        assert(ordinal_numbers()[7] == "eighth"@);
        assert(decimal(8) =~= "8"@);
    }
    if k == 9 {
        assert(cardinal_numbers()[8] == "nine"@);
        assert(ordinal_numbers()[8] == "ninth"@);
        assert(decimal(9) =~= "9"@);
    }
    if k == 10 {
        assert(cardinal_numbers()[9] == "ten"@);
        assert(ordinal_numbers()[9] == "tenth"@);
        assert(decimal(10) =~= "10"@);
    }
    let ws = seq![cardinal_numbers()[k - 1], ordinal_numbers()[k - 1], decimal(k)];
    assert forall|j: int| 0 <= j < 3 implies numeric_choice(#[trigger] ws[j]) == number_word(ws[j])
        && numeric_choice("option "@ + ws[j]) == number_word(ws[j]) by {
        let w = ws[j];
        assert(!is_prefix("option "@, w)) by {
            if w.len() >= 7 {
                assert(w.take(7)[0] != "option "@[0]);
            }
        }
        let o = "option "@ + w;
        assert(is_prefix("option "@, o)) by {
            assert(o.take(7) =~= "option "@);
        }
        assert(o.skip(7) =~= w);
        lemma_trim_word(w);
    }
    assert(ws[0] == cardinal_numbers()[k - 1]);
    assert(ws[1] == ordinal_numbers()[k - 1]);
    assert(ws[2] == decimal(k));
}



proof fn lemma_no_exact_label(labels: Seq<Seq<char>>, n: Seq<char>)
    requires
        forall|i: int| 0 <= i < labels.len() ==> normalized(#[trigger] labels[i]) != n,
    ensures
        first_exact_label(labels, n) is None,
    decreases labels.len(),
{
    if labels.len() > 0 {
        assert(normalized(labels[0]) != n);
        let rest = labels.drop_first();
        assert forall|i: int| 0 <= i < rest.len() implies normalized(#[trigger] rest[i]) != n by {
            assert(rest[i] == labels[i + 1]);
        }
        lemma_no_exact_label(rest, n);
    }
}

proof fn lemma_no_contained_label(labels: Seq<Seq<char>>, n: Seq<char>)
    requires
        forall|i: int| 0 <= i < labels.len() ==> !contains(n, normalized(#[trigger] labels[i])),
    ensures
        first_contained_label(labels, n) is None,
    decreases labels.len(),
{
    if labels.len() > 0 {
        assert(!contains(n, normalized(labels[0])));
        let rest = labels.drop_first();
        assert forall|i: int| 0 <= i < rest.len() implies !contains(n, normalized(#[trigger] rest[i])) by {
            assert(rest[i] == labels[i + 1]);
        }
        lemma_no_contained_label(rest, n);
    }
}

/// A reply that names option k ("option four", "option fourth",
/// "option 4"), to a question none of whose labels it names or contains,
/// answers with the k-th option, counting from one.
pub proof fn law_spoken_number_picks_that_option(t: Seq<char>, q: QuestionRequestV, k: nat, form: int)
    requires
        1 <= k <= 10,
        0 <= form < 3,
        normalized(t) == "option "@ + seq![
            cardinal_numbers()[k - 1],
            ordinal_numbers()[k - 1],
            decimal(k),
        ][form],
        q.questions.len() == 1,
        k <= q.questions[0].options.len(),
        forall|i: int|
            0 <= i < q.questions[0].options.len() ==> normalized(#[trigger] q.questions[0].options[i])
                != normalized(t) && !contains(normalized(t), normalized(q.questions[0].options[i])),
    ensures
        question_match(t, q) == (MatchV::QuestionAnswer {
            answers: seq![seq![q.questions[0].options[k - 1]]],
        }),
{
    reveal_strlit("skip");
    reveal_strlit("dismiss");
    reveal_strlit("cancel");
    reveal_strlit("reject");
    reveal_strlit("none");
    reveal_strlit("never mind");
    reveal_strlit("nevermind");
    reveal_strlit("option ");
    let n = normalized(t);
    law_number_words_name_their_number(k);
    assert(numeric_choice(n) == Some(k));
    assert(n[0] == 'o');
    assert(!question_reject_patterns().contains(n)) by {
        assert forall|j: int| 0 <= j < question_reject_patterns().len() implies question_reject_patterns()[j] != n by {
            if j == 0 {
                assert(question_reject_patterns()[0] == "skip"@);
                lemma_not_equal_at(question_reject_patterns()[0], n, 0);
            } else if j == 1 {
                assert(question_reject_patterns()[1] == "dismiss"@);
                lemma_not_equal_at(question_reject_patterns()[1], n, 0);
            } else if j == 2 {
                assert(question_reject_patterns()[2] == "cancel"@);
                lemma_not_equal_at(question_reject_patterns()[2], n, 0);
            } else if j == 3 {
                assert(question_reject_patterns()[3] == "reject"@);
                lemma_not_equal_at(question_reject_patterns()[3], n, 0);
            } else if j == 4 {
                assert(question_reject_patterns()[4] == "none"@);
                lemma_not_equal_at(question_reject_patterns()[4], n, 0);
            } else if j == 5 {
                assert(question_reject_patterns()[5] == "never mind"@);
                lemma_not_equal_at(question_reject_patterns()[5], n, 0);
            } else if j == 6 {
                assert(question_reject_patterns()[6] == "nevermind"@);
                lemma_not_equal_at(question_reject_patterns()[6], n, 0);
            }
        }
    }
    let qi = q.questions[0];
    lemma_no_exact_label(qi.options, n);
    lemma_no_contained_label(qi.options, n);
    assert(answer_for(qi, n, t) == Some(qi.options[k - 1]));
    assert(answers_for(q.questions.drop_first(), n, t) == Some(Seq::<Seq<Seq<char>>>::empty()));
    assert(seq![seq![qi.options[k - 1]]] + Seq::<Seq<Seq<char>>>::empty() =~= seq![seq![qi.options[k - 1]]]);
}

// ───────────────────────── laws of the rejection words ─────────────────────────

/// The words that reject a permission and may carry a message after them.
pub open spec fn rejection_words() -> Seq<Seq<char>> {
    seq!["no"@, "nope"@, "reject"@, "deny"@, "cancel"@, "don't"@, "refuse"@]
}

proof fn lemma_not_equal_at(p: Seq<char>, n: Seq<char>, k: int)
    requires
        p.len() != n.len() || (0 <= k < p.len() && k < n.len() && p[k] != n[k]),
    ensures
        p != n,
{
}

proof fn lemma_reject_message_skip(n: Seq<char>, ps: Seq<Seq<char>>, k: int)
    requires
        ps.len() > 0,
        0 <= k < ps[0].len(),
        k < n.len(),
        ps[0][k] != n[k],
    ensures
        reject_message(n, ps) == reject_message(n, ps.drop_first()),
{
    if is_prefix(ps[0], n) {
        assert(n.take(ps[0].len() as int)[k] == n[k]);
    }
}

proof fn lemma_reject_message_here(n: Seq<char>, ps: Seq<Seq<char>>, m: Seq<char>)
    requires
        ps.len() > 0,
        is_prefix(ps[0], n),
        n.skip(ps[0].len() as int) == seq![' '] + m,
        m.len() > 0,
        !in_class(m[0], CharClass::CommaOrSpace),
    ensures
        reject_message(n, ps) == Some(m),
{
    let r = seq![' '] + m;
    assert(in_class(r[0], CharClass::CommaOrSpace));
    assert(r.drop_first() =~= m);
    assert(trim_start_class(r, CharClass::CommaOrSpace) == trim_start_class(m, CharClass::CommaOrSpace));
    assert(trim_start_class(m, CharClass::CommaOrSpace) == m);
}

proof fn lemma_rejection_word_0(m: Seq<char>)
    requires
        m.len() > 0,
        !in_class(m[0], CharClass::CommaOrSpace),
        "no"@ + " "@ + m != "don't do it"@,
    ensures
        permission_match("no"@ + " "@ + m) == (MatchV::PermissionReply {
            reply: PermissionReply::Reject,
            message: Some(m),
        }),
{
    reveal_strlit(" ");
    reveal_strlit("accept");
    reveal_strlit("allow");
    reveal_strlit("allow all");
    reveal_strlit("allow it");
    reveal_strlit("allow once");
    reveal_strlit("allow this");
    reveal_strlit("always");
    reveal_strlit("always allow");
    reveal_strlit("approve");
    reveal_strlit("approve it");
    reveal_strlit("approve once");
    reveal_strlit("approve this");
    reveal_strlit("block");
    reveal_strlit("cancel");
    reveal_strlit("decline");
    reveal_strlit("deny");
    reveal_strlit("dismiss");
    reveal_strlit("do it");
    reveal_strlit("do not");
    reveal_strlit("don't");
    reveal_strlit("don't do it");
    reveal_strlit("execute");
    reveal_strlit("go ahead");
    reveal_strlit("go for it");
    reveal_strlit("nah");
    reveal_strlit("no");
    reveal_strlit("nope");
    reveal_strlit("not allowed");
    reveal_strlit("ok");
    reveal_strlit("okay");
    reveal_strlit("permit");
    reveal_strlit("proceed");
    reveal_strlit("refuse");
    reveal_strlit("reject");
    reveal_strlit("run it");
    reveal_strlit("skip");
    reveal_strlit("stop");
    reveal_strlit("sure");
    reveal_strlit("trust");
    reveal_strlit("trust it");
    reveal_strlit("yeah");
    reveal_strlit("yep");
    reveal_strlit("yes");
    let w = "no"@;
    let n = w + " "@ + m;
    assert(n.len() >= 4);
    assert(n[0] == 'n');
    assert(n[1] == 'o');
    assert(n[2] == ' ');
    assert(!always_patterns().contains(n)) by {
        assert forall|j: int| 0 <= j < always_patterns().len() implies always_patterns()[j] != n by {
            if j == 0 {
                assert(always_patterns()[0] == "always"@);
                lemma_not_equal_at(always_patterns()[0], n, 0);
            } else if j == 1 {
                assert(always_patterns()[1] == "always allow"@);
                lemma_not_equal_at(always_patterns()[1], n, 0);
            } else if j == 2 {
                assert(always_patterns()[2] == "trust"@);
                lemma_not_equal_at(always_patterns()[2], n, 0);
            } else if j == 3 {
                assert(always_patterns()[3] == "trust it"@);
                lemma_not_equal_at(always_patterns()[3], n, 0);
            } else if j == 4 {
                assert(always_patterns()[4] == "allow all"@);
                lemma_not_equal_at(always_patterns()[4], n, 0);
            }
        }
    }
    assert(!once_patterns().contains(n)) by {
        assert forall|j: int| 0 <= j < once_patterns().len() implies once_patterns()[j] != n by {
            if j == 0 {
                assert(once_patterns()[0] == "allow"@);
                lemma_not_equal_at(once_patterns()[0], n, 0);
            } else if j == 1 {
                assert(once_patterns()[1] == "allow once"@);
                lemma_not_equal_at(once_patterns()[1], n, 0);
            } else if j == 2 {
                assert(once_patterns()[2] == "allow it"@);
                lemma_not_equal_at(once_patterns()[2], n, 0);
            } else if j == 3 {
                assert(once_patterns()[3] == "allow this"@);
                lemma_not_equal_at(once_patterns()[3], n, 0);
            } else if j == 4 {
                assert(once_patterns()[4] == "yes"@);
                lemma_not_equal_at(once_patterns()[4], n, 0);
            } else if j == 5 {
                assert(once_patterns()[5] == "yeah"@);
                lemma_not_equal_at(once_patterns()[5], n, 0);
            } else if j == 6 {
                assert(once_patterns()[6] == "yep"@);
                lemma_not_equal_at(once_patterns()[6], n, 0);
            } else if j == 7 {
                assert(once_patterns()[7] == "ok"@);
                lemma_not_equal_at(once_patterns()[7], n, 0);
            } else if j == 8 {
                assert(once_patterns()[8] == "okay"@);
                lemma_not_equal_at(once_patterns()[8], n, 0);
            } else if j == 9 {
                assert(once_patterns()[9] == "sure"@);
                lemma_not_equal_at(once_patterns()[9], n, 0);
            } else if j == 10 {
                assert(once_patterns()[10] == "proceed"@);
                lemma_not_equal_at(once_patterns()[10], n, 0);
            } else if j == 11 {
                assert(once_patterns()[11] == "go ahead"@);
                lemma_not_equal_at(once_patterns()[11], n, 0);
            } else if j == 12 {
                assert(once_patterns()[12] == "do it"@);
                lemma_not_equal_at(once_patterns()[12], n, 0);
            } else if j == 13 {
                assert(once_patterns()[13] == "approve"@);
                lemma_not_equal_at(once_patterns()[13], n, 0);
            } else if j == 14 {
                assert(once_patterns()[14] == "approve once"@);
                lemma_not_equal_at(once_patterns()[14], n, 0);
            } else if j == 15 {
                assert(once_patterns()[15] == "approve it"@);
                lemma_not_equal_at(once_patterns()[15], n, 0);
            } else if j == 16 {
                assert(once_patterns()[16] == "approve this"@);
                lemma_not_equal_at(once_patterns()[16], n, 0);
            } else if j == 17 {
                assert(once_patterns()[17] == "accept"@);
                lemma_not_equal_at(once_patterns()[17], n, 0);
            } else if j == 18 {
                assert(once_patterns()[18] == "run it"@);
                lemma_not_equal_at(once_patterns()[18], n, 0);
            } else if j == 19 {
                assert(once_patterns()[19] == "go for it"@);
                lemma_not_equal_at(once_patterns()[19], n, 0);
            } else if j == 20 {
                assert(once_patterns()[20] == "permit"@);
                lemma_not_equal_at(once_patterns()[20], n, 0);
            } else if j == 21 {
                assert(once_patterns()[21] == "execute"@);
                lemma_not_equal_at(once_patterns()[21], n, 0);
            }
        }
    }
    assert(!reject_patterns().contains(n)) by {
        assert forall|j: int| 0 <= j < reject_patterns().len() implies reject_patterns()[j] != n by {
            if j == 0 {
                assert(reject_patterns()[0] == "reject"@);
                lemma_not_equal_at(reject_patterns()[0], n, 0);
            } else if j == 1 {
                assert(reject_patterns()[1] == "deny"@);
                lemma_not_equal_at(reject_patterns()[1], n, 0);
            } else if j == 2 {
                assert(reject_patterns()[2] == "no"@);
                lemma_not_equal_at(reject_patterns()[2], n, 0);
            } else if j == 3 {
                assert(reject_patterns()[3] == "nope"@);
                lemma_not_equal_at(reject_patterns()[3], n, 2);
            } else if j == 4 {
                assert(reject_patterns()[4] == "cancel"@);
                lemma_not_equal_at(reject_patterns()[4], n, 0);
            } else if j == 5 {
                assert(reject_patterns()[5] == "stop"@);
                lemma_not_equal_at(reject_patterns()[5], n, 0);
            } else if j == 6 {
                assert(reject_patterns()[6] == "don't"@);
                lemma_not_equal_at(reject_patterns()[6], n, 0);
            } else if j == 7 {
                assert(reject_patterns()[7] == "do not"@);
                lemma_not_equal_at(reject_patterns()[7], n, 0);
            } else if j == 8 {
                assert(reject_patterns()[8] == "refuse"@);
                lemma_not_equal_at(reject_patterns()[8], n, 0);
            } else if j == 9 {
                assert(reject_patterns()[9] == "block"@);
                lemma_not_equal_at(reject_patterns()[9], n, 0);
            } else if j == 10 {
                assert(reject_patterns()[10] == "skip"@);
                lemma_not_equal_at(reject_patterns()[10], n, 0);
            } else if j == 11 {
                assert(reject_patterns()[11] == "decline"@);
                lemma_not_equal_at(reject_patterns()[11], n, 0);
            } else if j == 12 {
                assert(reject_patterns()[12] == "dismiss"@);
                lemma_not_equal_at(reject_patterns()[12], n, 0);
            } else if j == 13 {
                assert(reject_patterns()[13] == "not allowed"@);
                lemma_not_equal_at(reject_patterns()[13], n, 2);
            } else if j == 14 {
                assert(reject_patterns()[14] == "nah"@);
                lemma_not_equal_at(reject_patterns()[14], n, 1);
            } else if j == 15 {
                assert(reject_patterns()[15] == "don't do it"@);
                lemma_not_equal_at(reject_patterns()[15], n, 0);
            }
        }
    }
    assert(reject_prefixes().skip(0) =~= reject_prefixes());
    assert(reject_prefixes().skip(0)[0] == "nope"@);
    assert(reject_prefixes().skip(0).drop_first() =~= reject_prefixes().skip(1));
    lemma_reject_message_skip(n, reject_prefixes().skip(0), 2);
    assert(reject_prefixes().skip(1)[0] == "no"@);
    assert(reject_prefixes().skip(1).drop_first() =~= reject_prefixes().skip(2));
    assert(n.take(2) =~= w);
    assert(n.skip(2) =~= seq![' '] + m);
    assert((seq![' '] + m).drop_first() =~= m);
    lemma_reject_message_here(n, reject_prefixes().skip(1), m);
}

proof fn lemma_rejection_word_1(m: Seq<char>)
    requires
        m.len() > 0,
        !in_class(m[0], CharClass::CommaOrSpace),
        "nope"@ + " "@ + m != "don't do it"@,
    ensures
        permission_match("nope"@ + " "@ + m) == (MatchV::PermissionReply {
            reply: PermissionReply::Reject,
            message: Some(m),
        }),
{
    reveal_strlit(" ");
    reveal_strlit("accept");
    reveal_strlit("allow");
    reveal_strlit("allow all");
    reveal_strlit("allow it");
    reveal_strlit("allow once");
    reveal_strlit("allow this");
    reveal_strlit("always");
    reveal_strlit("always allow");
    reveal_strlit("approve");
    reveal_strlit("approve it");
    reveal_strlit("approve once");
    reveal_strlit("approve this");
    reveal_strlit("block");
    reveal_strlit("cancel");
    reveal_strlit("decline");
    reveal_strlit("deny");
    reveal_strlit("dismiss");
    reveal_strlit("do it");
    reveal_strlit("do not");
    reveal_strlit("don't");
    reveal_strlit("don't do it");
    reveal_strlit("execute");
    reveal_strlit("go ahead");
    reveal_strlit("go for it");
    reveal_strlit("nah");
    reveal_strlit("no");
    reveal_strlit("nope");
    reveal_strlit("not allowed");
    reveal_strlit("ok");
    reveal_strlit("okay");
    reveal_strlit("permit");
    reveal_strlit("proceed");
    reveal_strlit("refuse");
    reveal_strlit("reject");
    reveal_strlit("run it");
    reveal_strlit("skip");
    reveal_strlit("stop");
    reveal_strlit("sure");
    reveal_strlit("trust");
    reveal_strlit("trust it");
    reveal_strlit("yeah");
    reveal_strlit("yep");
    reveal_strlit("yes");
    let w = "nope"@;
    let n = w + " "@ + m;
    assert(n.len() >= 6);
    assert(n[0] == 'n');
    assert(n[1] == 'o');
    assert(n[2] == 'p');
    assert(n[3] == 'e');
    assert(n[4] == ' ');
    assert(!always_patterns().contains(n)) by {
        assert forall|j: int| 0 <= j < always_patterns().len() implies always_patterns()[j] != n by {
            if j == 0 {
                assert(always_patterns()[0] == "always"@);
                lemma_not_equal_at(always_patterns()[0], n, 0);
            } else if j == 1 {
                assert(always_patterns()[1] == "always allow"@);
                lemma_not_equal_at(always_patterns()[1], n, 0);
            } else if j == 2 {
                assert(always_patterns()[2] == "trust"@);
                lemma_not_equal_at(always_patterns()[2], n, 0);
            } else if j == 3 {
                assert(always_patterns()[3] == "trust it"@);
                lemma_not_equal_at(always_patterns()[3], n, 0);
            } else if j == 4 {
                assert(always_patterns()[4] == "allow all"@);
                lemma_not_equal_at(always_patterns()[4], n, 0);
            }
        }
    }
    assert(!once_patterns().contains(n)) by {
        assert forall|j: int| 0 <= j < once_patterns().len() implies once_patterns()[j] != n by {
            if j == 0 {
                assert(once_patterns()[0] == "allow"@);
                lemma_not_equal_at(once_patterns()[0], n, 0);
            } else if j == 1 {
                assert(once_patterns()[1] == "allow once"@);
                lemma_not_equal_at(once_patterns()[1], n, 0);
            } else if j == 2 {
                assert(once_patterns()[2] == "allow it"@);
                lemma_not_equal_at(once_patterns()[2], n, 0);
            } else if j == 3 {
                assert(once_patterns()[3] == "allow this"@);
                lemma_not_equal_at(once_patterns()[3], n, 0);
            } else if j == 4 {
                assert(once_patterns()[4] == "yes"@);
                lemma_not_equal_at(once_patterns()[4], n, 0);
            } else if j == 5 {
                assert(once_patterns()[5] == "yeah"@);
                lemma_not_equal_at(once_patterns()[5], n, 0);
            } else if j == 6 {
                assert(once_patterns()[6] == "yep"@);
                lemma_not_equal_at(once_patterns()[6], n, 0);
            } else if j == 7 {
                assert(once_patterns()[7] == "ok"@);
                lemma_not_equal_at(once_patterns()[7], n, 0);
            } else if j == 8 {
                assert(once_patterns()[8] == "okay"@);
                lemma_not_equal_at(once_patterns()[8], n, 0);
            } else if j == 9 {
                assert(once_patterns()[9] == "sure"@);
                lemma_not_equal_at(once_patterns()[9], n, 0);
            } else if j == 10 {
                assert(once_patterns()[10] == "proceed"@);
                lemma_not_equal_at(once_patterns()[10], n, 0);
            } else if j == 11 {
                assert(once_patterns()[11] == "go ahead"@);
                lemma_not_equal_at(once_patterns()[11], n, 0);
            } else if j == 12 {
                assert(once_patterns()[12] == "do it"@);
                lemma_not_equal_at(once_patterns()[12], n, 0);
            } else if j == 13 {
                assert(once_patterns()[13] == "approve"@);
                lemma_not_equal_at(once_patterns()[13], n, 0);
            } else if j == 14 {
                assert(once_patterns()[14] == "approve once"@);
                lemma_not_equal_at(once_patterns()[14], n, 0);
            } else if j == 15 {
                assert(once_patterns()[15] == "approve it"@);
                lemma_not_equal_at(once_patterns()[15], n, 0);
            } else if j == 16 {
                assert(once_patterns()[16] == "approve this"@);
                lemma_not_equal_at(once_patterns()[16], n, 0);
            } else if j == 17 {
                assert(once_patterns()[17] == "accept"@);
                lemma_not_equal_at(once_patterns()[17], n, 0);
            } else if j == 18 {
                assert(once_patterns()[18] == "run it"@);
                lemma_not_equal_at(once_patterns()[18], n, 0);
            } else if j == 19 {
                assert(once_patterns()[19] == "go for it"@);
                lemma_not_equal_at(once_patterns()[19], n, 0);
            } else if j == 20 {
                assert(once_patterns()[20] == "permit"@);
                lemma_not_equal_at(once_patterns()[20], n, 0);
            } else if j == 21 {
                assert(once_patterns()[21] == "execute"@);
                lemma_not_equal_at(once_patterns()[21], n, 0);
            }
        }
    }
    assert(!reject_patterns().contains(n)) by {
        assert forall|j: int| 0 <= j < reject_patterns().len() implies reject_patterns()[j] != n by {
            if j == 0 {
                assert(reject_patterns()[0] == "reject"@);
                lemma_not_equal_at(reject_patterns()[0], n, 0);
            } else if j == 1 {
                assert(reject_patterns()[1] == "deny"@);
                lemma_not_equal_at(reject_patterns()[1], n, 0);
            } else if j == 2 {
                assert(reject_patterns()[2] == "no"@);
                lemma_not_equal_at(reject_patterns()[2], n, 0);
            } else if j == 3 {
                assert(reject_patterns()[3] == "nope"@);
                lemma_not_equal_at(reject_patterns()[3], n, 0);
            } else if j == 4 {
                assert(reject_patterns()[4] == "cancel"@);
                lemma_not_equal_at(reject_patterns()[4], n, 0);
            } else if j == 5 {
                assert(reject_patterns()[5] == "stop"@);
                lemma_not_equal_at(reject_patterns()[5], n, 0);
            } else if j == 6 {
                assert(reject_patterns()[6] == "don't"@);
                lemma_not_equal_at(reject_patterns()[6], n, 0);
            } else if j == 7 {
                assert(reject_patterns()[7] == "do not"@);
                lemma_not_equal_at(reject_patterns()[7], n, 0);
            } else if j == 8 {
                assert(reject_patterns()[8] == "refuse"@);
                lemma_not_equal_at(reject_patterns()[8], n, 0);
            } else if j == 9 {
                assert(reject_patterns()[9] == "block"@);
                lemma_not_equal_at(reject_patterns()[9], n, 0);
            } else if j == 10 {
                assert(reject_patterns()[10] == "skip"@);
                lemma_not_equal_at(reject_patterns()[10], n, 0);
            } else if j == 11 {
                assert(reject_patterns()[11] == "decline"@);
                lemma_not_equal_at(reject_patterns()[11], n, 0);
            } else if j == 12 {
                assert(reject_patterns()[12] == "dismiss"@);
                lemma_not_equal_at(reject_patterns()[12], n, 0);
            } else if j == 13 {
                assert(reject_patterns()[13] == "not allowed"@);
                lemma_not_equal_at(reject_patterns()[13], n, 2);
            } else if j == 14 {
                assert(reject_patterns()[14] == "nah"@);
                lemma_not_equal_at(reject_patterns()[14], n, 0);
            } else if j == 15 {
                assert(reject_patterns()[15] == "don't do it"@);
                lemma_not_equal_at(reject_patterns()[15], n, 0);
            }
        }
    }
    assert(reject_prefixes().skip(0) =~= reject_prefixes());
    assert(reject_prefixes().skip(0)[0] == "nope"@);
    assert(reject_prefixes().skip(0).drop_first() =~= reject_prefixes().skip(1));
    assert(n.take(4) =~= w);
    assert(n.skip(4) =~= seq![' '] + m);
    assert((seq![' '] + m).drop_first() =~= m);
    lemma_reject_message_here(n, reject_prefixes().skip(0), m);
}

proof fn lemma_rejection_word_2(m: Seq<char>)
    requires
        m.len() > 0,
        !in_class(m[0], CharClass::CommaOrSpace),
        "reject"@ + " "@ + m != "don't do it"@,
    ensures
        permission_match("reject"@ + " "@ + m) == (MatchV::PermissionReply {
            reply: PermissionReply::Reject,
            message: Some(m),
        }),
{
    reveal_strlit(" ");
    reveal_strlit("accept");
    reveal_strlit("allow");
    reveal_strlit("allow all");
    reveal_strlit("allow it");
    reveal_strlit("allow once");
    reveal_strlit("allow this");
    reveal_strlit("always");
    reveal_strlit("always allow");
    reveal_strlit("approve");
    reveal_strlit("approve it");
    reveal_strlit("approve once");
    reveal_strlit("approve this");
    reveal_strlit("block");
    reveal_strlit("cancel");
    reveal_strlit("decline");
    reveal_strlit("deny");
    reveal_strlit("dismiss");
    reveal_strlit("do it");
    reveal_strlit("do not");
    reveal_strlit("don't");
    reveal_strlit("don't do it");
    reveal_strlit("execute");
    reveal_strlit("go ahead");
    reveal_strlit("go for it");
    reveal_strlit("nah");
    reveal_strlit("no");
    reveal_strlit("nope");
    reveal_strlit("not allowed");
    reveal_strlit("ok");
    reveal_strlit("okay");
    reveal_strlit("permit");
    reveal_strlit("proceed");
    reveal_strlit("refuse");
    reveal_strlit("reject");
    reveal_strlit("run it");
    reveal_strlit("skip");
    reveal_strlit("stop");
    reveal_strlit("sure");
    reveal_strlit("trust");
    reveal_strlit("trust it");
    reveal_strlit("yeah");
    reveal_strlit("yep");
    reveal_strlit("yes");
    let w = "reject"@;
    let n = w + " "@ + m;
    assert(n.len() >= 8);
    assert(n[0] == 'r');
    assert(n[1] == 'e');
    assert(n[2] == 'j');
    assert(n[3] == 'e');
    assert(n[4] == 'c');
    assert(n[5] == 't');
    assert(n[6] == ' ');
    assert(!always_patterns().contains(n)) by {
        assert forall|j: int| 0 <= j < always_patterns().len() implies always_patterns()[j] != n by {
            if j == 0 {
                assert(always_patterns()[0] == "always"@);
                lemma_not_equal_at(always_patterns()[0], n, 0);
            } else if j == 1 {
                assert(always_patterns()[1] == "always allow"@);
                lemma_not_equal_at(always_patterns()[1], n, 0);
            } else if j == 2 {
                assert(always_patterns()[2] == "trust"@);
                lemma_not_equal_at(always_patterns()[2], n, 0);
            } else if j == 3 {
                assert(always_patterns()[3] == "trust it"@);
                lemma_not_equal_at(always_patterns()[3], n, 0);
            } else if j == 4 {
                assert(always_patterns()[4] == "allow all"@);
                lemma_not_equal_at(always_patterns()[4], n, 0);
            }
        }
    }
    assert(!once_patterns().contains(n)) by {
        assert forall|j: int| 0 <= j < once_patterns().len() implies once_patterns()[j] != n by {
            if j == 0 {
                assert(once_patterns()[0] == "allow"@);
                lemma_not_equal_at(once_patterns()[0], n, 0);
            } else if j == 1 {
                assert(once_patterns()[1] == "allow once"@);
                lemma_not_equal_at(once_patterns()[1], n, 0);
            } else if j == 2 {
                assert(once_patterns()[2] == "allow it"@);
                lemma_not_equal_at(once_patterns()[2], n, 0);
            } else if j == 3 {
                assert(once_patterns()[3] == "allow this"@);
                lemma_not_equal_at(once_patterns()[3], n, 0);
            } else if j == 4 {
                assert(once_patterns()[4] == "yes"@);
                lemma_not_equal_at(once_patterns()[4], n, 0);
            } else if j == 5 {
                assert(once_patterns()[5] == "yeah"@);
                lemma_not_equal_at(once_patterns()[5], n, 0);
            } else if j == 6 {
                assert(once_patterns()[6] == "yep"@);
                lemma_not_equal_at(once_patterns()[6], n, 0);
            } else if j == 7 {
                assert(once_patterns()[7] == "ok"@);
                lemma_not_equal_at(once_patterns()[7], n, 0);
            } else if j == 8 {
                assert(once_patterns()[8] == "okay"@);
                lemma_not_equal_at(once_patterns()[8], n, 0);
            } else if j == 9 {
                assert(once_patterns()[9] == "sure"@);
                lemma_not_equal_at(once_patterns()[9], n, 0);
            } else if j == 10 {
                assert(once_patterns()[10] == "proceed"@);
                lemma_not_equal_at(once_patterns()[10], n, 0);
            } else if j == 11 {
                assert(once_patterns()[11] == "go ahead"@);
                lemma_not_equal_at(once_patterns()[11], n, 0);
            } else if j == 12 {
                assert(once_patterns()[12] == "do it"@);
                lemma_not_equal_at(once_patterns()[12], n, 0);
            } else if j == 13 {
                assert(once_patterns()[13] == "approve"@);
                lemma_not_equal_at(once_patterns()[13], n, 0);
            } else if j == 14 {
                assert(once_patterns()[14] == "approve once"@);
                lemma_not_equal_at(once_patterns()[14], n, 0);
            } else if j == 15 {
                assert(once_patterns()[15] == "approve it"@);
                lemma_not_equal_at(once_patterns()[15], n, 0);
            } else if j == 16 {
                assert(once_patterns()[16] == "approve this"@);
                lemma_not_equal_at(once_patterns()[16], n, 0);
            } else if j == 17 {
                assert(once_patterns()[17] == "accept"@);
                lemma_not_equal_at(once_patterns()[17], n, 0);
            } else if j == 18 {
                assert(once_patterns()[18] == "run it"@);
                lemma_not_equal_at(once_patterns()[18], n, 0);
            } else if j == 19 {
                assert(once_patterns()[19] == "go for it"@);
                lemma_not_equal_at(once_patterns()[19], n, 0);
            } else if j == 20 {
                assert(once_patterns()[20] == "permit"@);
                lemma_not_equal_at(once_patterns()[20], n, 0);
            } else if j == 21 {
                assert(once_patterns()[21] == "execute"@);
                lemma_not_equal_at(once_patterns()[21], n, 0);
            }
        }
    }
    assert(!reject_patterns().contains(n)) by {
        assert forall|j: int| 0 <= j < reject_patterns().len() implies reject_patterns()[j] != n by {
            if j == 0 {
                assert(reject_patterns()[0] == "reject"@);
                lemma_not_equal_at(reject_patterns()[0], n, 0);
            } else if j == 1 {
                assert(reject_patterns()[1] == "deny"@);
                lemma_not_equal_at(reject_patterns()[1], n, 0);
            } else if j == 2 {
                assert(reject_patterns()[2] == "no"@);
                lemma_not_equal_at(reject_patterns()[2], n, 0);
            } else if j == 3 {
                assert(reject_patterns()[3] == "nope"@);
                lemma_not_equal_at(reject_patterns()[3], n, 0);
            } else if j == 4 {
                assert(reject_patterns()[4] == "cancel"@);
                lemma_not_equal_at(reject_patterns()[4], n, 0);
            } else if j == 5 {
                assert(reject_patterns()[5] == "stop"@);
                lemma_not_equal_at(reject_patterns()[5], n, 0);
            } else if j == 6 {
                assert(reject_patterns()[6] == "don't"@);
                lemma_not_equal_at(reject_patterns()[6], n, 0);
            } else if j == 7 {
                assert(reject_patterns()[7] == "do not"@);
                lemma_not_equal_at(reject_patterns()[7], n, 0);
            } else if j == 8 {
                assert(reject_patterns()[8] == "refuse"@);
                lemma_not_equal_at(reject_patterns()[8], n, 0);
            } else if j == 9 {
                assert(reject_patterns()[9] == "block"@);
                lemma_not_equal_at(reject_patterns()[9], n, 0);
            } else if j == 10 {
                assert(reject_patterns()[10] == "skip"@);
                lemma_not_equal_at(reject_patterns()[10], n, 0);
            } else if j == 11 {
                assert(reject_patterns()[11] == "decline"@);
                lemma_not_equal_at(reject_patterns()[11], n, 0);
            } else if j == 12 {
                assert(reject_patterns()[12] == "dismiss"@);
                lemma_not_equal_at(reject_patterns()[12], n, 0);
            } else if j == 13 {
                assert(reject_patterns()[13] == "not allowed"@);
                lemma_not_equal_at(reject_patterns()[13], n, 0);
            } else if j == 14 {
                assert(reject_patterns()[14] == "nah"@);
                lemma_not_equal_at(reject_patterns()[14], n, 0);
            } else if j == 15 {
                assert(reject_patterns()[15] == "don't do it"@);
                lemma_not_equal_at(reject_patterns()[15], n, 0);
            }
        }
    }
    assert(reject_prefixes().skip(0) =~= reject_prefixes());
    assert(reject_prefixes().skip(0)[0] == "nope"@);
    assert(reject_prefixes().skip(0).drop_first() =~= reject_prefixes().skip(1));
    lemma_reject_message_skip(n, reject_prefixes().skip(0), 0);
    assert(reject_prefixes().skip(1)[0] == "no"@);
    assert(reject_prefixes().skip(1).drop_first() =~= reject_prefixes().skip(2));
    lemma_reject_message_skip(n, reject_prefixes().skip(1), 0);
    assert(reject_prefixes().skip(2)[0] == "reject"@);
    assert(reject_prefixes().skip(2).drop_first() =~= reject_prefixes().skip(3));
    assert(n.take(6) =~= w);
    assert(n.skip(6) =~= seq![' '] + m);
    assert((seq![' '] + m).drop_first() =~= m);
    lemma_reject_message_here(n, reject_prefixes().skip(2), m);
}

proof fn lemma_rejection_word_3(m: Seq<char>)
    requires
        m.len() > 0,
        !in_class(m[0], CharClass::CommaOrSpace),
        "deny"@ + " "@ + m != "don't do it"@,
    ensures
        permission_match("deny"@ + " "@ + m) == (MatchV::PermissionReply {
            reply: PermissionReply::Reject,
            message: Some(m),
        }),
{
    reveal_strlit(" ");
    reveal_strlit("accept");
    reveal_strlit("allow");
    reveal_strlit("allow all");
    reveal_strlit("allow it");
    reveal_strlit("allow once");
    reveal_strlit("allow this");
    reveal_strlit("always");
    reveal_strlit("always allow");
    reveal_strlit("approve");
    reveal_strlit("approve it");
    reveal_strlit("approve once");
    reveal_strlit("approve this");
    reveal_strlit("block");
    reveal_strlit("cancel");
    reveal_strlit("decline");
    reveal_strlit("deny");
    reveal_strlit("dismiss");
    reveal_strlit("do it");
    reveal_strlit("do not");
    reveal_strlit("don't");
    reveal_strlit("don't do it");
    reveal_strlit("execute");
    reveal_strlit("go ahead");
    reveal_strlit("go for it");
    reveal_strlit("nah");
    reveal_strlit("no");
    reveal_strlit("nope");
    reveal_strlit("not allowed");
    reveal_strlit("ok");
    reveal_strlit("okay");
    reveal_strlit("permit");
    reveal_strlit("proceed");
    reveal_strlit("refuse");
    reveal_strlit("reject");
    reveal_strlit("run it");
    reveal_strlit("skip");
    reveal_strlit("stop");
    reveal_strlit("sure");
    reveal_strlit("trust");
    reveal_strlit("trust it");
    reveal_strlit("yeah");
    reveal_strlit("yep");
    reveal_strlit("yes");
    let w = "deny"@;
    let n = w + " "@ + m;
    assert(n.len() >= 6);
    assert(n[0] == 'd');
    assert(n[1] == 'e');
    assert(n[2] == 'n');
    assert(n[3] == 'y');
    assert(n[4] == ' ');
    assert(!always_patterns().contains(n)) by {
        assert forall|j: int| 0 <= j < always_patterns().len() implies always_patterns()[j] != n by {
            if j == 0 {
                assert(always_patterns()[0] == "always"@);
                lemma_not_equal_at(always_patterns()[0], n, 0);
            } else if j == 1 {
                assert(always_patterns()[1] == "always allow"@);
                lemma_not_equal_at(always_patterns()[1], n, 0);
            } else if j == 2 {
                assert(always_patterns()[2] == "trust"@);
                lemma_not_equal_at(always_patterns()[2], n, 0);
            } else if j == 3 {
                assert(always_patterns()[3] == "trust it"@);
                lemma_not_equal_at(always_patterns()[3], n, 0);
            } else if j == 4 {
                assert(always_patterns()[4] == "allow all"@);
                lemma_not_equal_at(always_patterns()[4], n, 0);
            }
        }
    }
    assert(!once_patterns().contains(n)) by {
        assert forall|j: int| 0 <= j < once_patterns().len() implies once_patterns()[j] != n by {
            if j == 0 {
                assert(once_patterns()[0] == "allow"@);
                lemma_not_equal_at(once_patterns()[0], n, 0);
            } else if j == 1 {
                assert(once_patterns()[1] == "allow once"@);
                lemma_not_equal_at(once_patterns()[1], n, 0);
            } else if j == 2 {
                assert(once_patterns()[2] == "allow it"@);
                lemma_not_equal_at(once_patterns()[2], n, 0);
            } else if j == 3 {
                assert(once_patterns()[3] == "allow this"@);
                lemma_not_equal_at(once_patterns()[3], n, 0);
            } else if j == 4 {
                assert(once_patterns()[4] == "yes"@);
                lemma_not_equal_at(once_patterns()[4], n, 0);
            } else if j == 5 {
                assert(once_patterns()[5] == "yeah"@);
                lemma_not_equal_at(once_patterns()[5], n, 0);
            } else if j == 6 {
                assert(once_patterns()[6] == "yep"@);
                lemma_not_equal_at(once_patterns()[6], n, 0);
            } else if j == 7 {
                assert(once_patterns()[7] == "ok"@);
                lemma_not_equal_at(once_patterns()[7], n, 0);
            } else if j == 8 {
                assert(once_patterns()[8] == "okay"@);
                lemma_not_equal_at(once_patterns()[8], n, 0);
            } else if j == 9 {
                assert(once_patterns()[9] == "sure"@);
                lemma_not_equal_at(once_patterns()[9], n, 0);
            } else if j == 10 {
                assert(once_patterns()[10] == "proceed"@);
                lemma_not_equal_at(once_patterns()[10], n, 0);
            } else if j == 11 {
                assert(once_patterns()[11] == "go ahead"@);
                lemma_not_equal_at(once_patterns()[11], n, 0);
            } else if j == 12 {
                assert(once_patterns()[12] == "do it"@);
                lemma_not_equal_at(once_patterns()[12], n, 1);
            } else if j == 13 {
                assert(once_patterns()[13] == "approve"@);
                lemma_not_equal_at(once_patterns()[13], n, 0);
            } else if j == 14 {
                assert(once_patterns()[14] == "approve once"@);
                lemma_not_equal_at(once_patterns()[14], n, 0);
            } else if j == 15 {
                assert(once_patterns()[15] == "approve it"@);
                lemma_not_equal_at(once_patterns()[15], n, 0);
            } else if j == 16 {
                assert(once_patterns()[16] == "approve this"@);
                lemma_not_equal_at(once_patterns()[16], n, 0);
            } else if j == 17 {
                assert(once_patterns()[17] == "accept"@);
                lemma_not_equal_at(once_patterns()[17], n, 0);
            } else if j == 18 {
                assert(once_patterns()[18] == "run it"@);
                lemma_not_equal_at(once_patterns()[18], n, 0);
            } else if j == 19 {
                assert(once_patterns()[19] == "go for it"@);
                lemma_not_equal_at(once_patterns()[19], n, 0);
            } else if j == 20 {
                assert(once_patterns()[20] == "permit"@);
                lemma_not_equal_at(once_patterns()[20], n, 0);
            } else if j == 21 {
                assert(once_patterns()[21] == "execute"@);
                lemma_not_equal_at(once_patterns()[21], n, 0);
            }
        }
    }
    assert(!reject_patterns().contains(n)) by {
        assert forall|j: int| 0 <= j < reject_patterns().len() implies reject_patterns()[j] != n by {
            if j == 0 {
                assert(reject_patterns()[0] == "reject"@);
                lemma_not_equal_at(reject_patterns()[0], n, 0);
            } else if j == 1 {
                assert(reject_patterns()[1] == "deny"@);
                lemma_not_equal_at(reject_patterns()[1], n, 0);
            } else if j == 2 {
                assert(reject_patterns()[2] == "no"@);
                lemma_not_equal_at(reject_patterns()[2], n, 0);
            } else if j == 3 {
                assert(reject_patterns()[3] == "nope"@);
                lemma_not_equal_at(reject_patterns()[3], n, 0);
            } else if j == 4 {
                assert(reject_patterns()[4] == "cancel"@);
                lemma_not_equal_at(reject_patterns()[4], n, 0);
            } else if j == 5 {
                assert(reject_patterns()[5] == "stop"@);
                lemma_not_equal_at(reject_patterns()[5], n, 0);
            } else if j == 6 {
                assert(reject_patterns()[6] == "don't"@);
                lemma_not_equal_at(reject_patterns()[6], n, 1);
            } else if j == 7 {
                assert(reject_patterns()[7] == "do not"@);
                lemma_not_equal_at(reject_patterns()[7], n, 1);
            } else if j == 8 {
                assert(reject_patterns()[8] == "refuse"@);
                lemma_not_equal_at(reject_patterns()[8], n, 0);
            } else if j == 9 {
                assert(reject_patterns()[9] == "block"@);
                lemma_not_equal_at(reject_patterns()[9], n, 0);
            } else if j == 10 {
                assert(reject_patterns()[10] == "skip"@);
                lemma_not_equal_at(reject_patterns()[10], n, 0);
            } else if j == 11 {
                assert(reject_patterns()[11] == "decline"@);
                lemma_not_equal_at(reject_patterns()[11], n, 2);
            } else if j == 12 {
                assert(reject_patterns()[12] == "dismiss"@);
                lemma_not_equal_at(reject_patterns()[12], n, 1);
            } else if j == 13 {
                assert(reject_patterns()[13] == "not allowed"@);
                lemma_not_equal_at(reject_patterns()[13], n, 0);
            } else if j == 14 {
                assert(reject_patterns()[14] == "nah"@);
                lemma_not_equal_at(reject_patterns()[14], n, 0);
            } else if j == 15 {
                assert(reject_patterns()[15] == "don't do it"@);
                lemma_not_equal_at(reject_patterns()[15], n, 1);
            }
        }
    }
    assert(reject_prefixes().skip(0) =~= reject_prefixes());
    assert(reject_prefixes().skip(0)[0] == "nope"@);
    assert(reject_prefixes().skip(0).drop_first() =~= reject_prefixes().skip(1));
    lemma_reject_message_skip(n, reject_prefixes().skip(0), 0);
    assert(reject_prefixes().skip(1)[0] == "no"@);
    assert(reject_prefixes().skip(1).drop_first() =~= reject_prefixes().skip(2));
    lemma_reject_message_skip(n, reject_prefixes().skip(1), 0);
    assert(reject_prefixes().skip(2)[0] == "reject"@);
    assert(reject_prefixes().skip(2).drop_first() =~= reject_prefixes().skip(3));
    lemma_reject_message_skip(n, reject_prefixes().skip(2), 0);
    assert(reject_prefixes().skip(3)[0] == "deny"@);
    assert(reject_prefixes().skip(3).drop_first() =~= reject_prefixes().skip(4));
    assert(n.take(4) =~= w);
    assert(n.skip(4) =~= seq![' '] + m);
    assert((seq![' '] + m).drop_first() =~= m);
    lemma_reject_message_here(n, reject_prefixes().skip(3), m);
}

proof fn lemma_rejection_word_4(m: Seq<char>)
    requires
        m.len() > 0,
        !in_class(m[0], CharClass::CommaOrSpace),
        "cancel"@ + " "@ + m != "don't do it"@,
    ensures
        permission_match("cancel"@ + " "@ + m) == (MatchV::PermissionReply {
            reply: PermissionReply::Reject,
            message: Some(m),
        }),
{
    reveal_strlit(" ");
    reveal_strlit("accept");
    reveal_strlit("allow");
    reveal_strlit("allow all");
    reveal_strlit("allow it");
    reveal_strlit("allow once");
    reveal_strlit("allow this");
    reveal_strlit("always");
    reveal_strlit("always allow");
    reveal_strlit("approve");
    reveal_strlit("approve it");
    reveal_strlit("approve once");
    reveal_strlit("approve this");
    reveal_strlit("block");
    reveal_strlit("cancel");
    reveal_strlit("decline");
    reveal_strlit("deny");
    reveal_strlit("dismiss");
    reveal_strlit("do it");
    reveal_strlit("do not");
    reveal_strlit("don't");
    reveal_strlit("don't do it");
    reveal_strlit("execute");
    reveal_strlit("go ahead");
    reveal_strlit("go for it");
    reveal_strlit("nah");
    reveal_strlit("no");
    reveal_strlit("nope");
    reveal_strlit("not allowed");
    reveal_strlit("ok");
    reveal_strlit("okay");
    reveal_strlit("permit");
    reveal_strlit("proceed");
    reveal_strlit("refuse");
    reveal_strlit("reject");
    reveal_strlit("run it");
    reveal_strlit("skip");
    reveal_strlit("stop");
    reveal_strlit("sure");
    reveal_strlit("trust");
    reveal_strlit("trust it");
    reveal_strlit("yeah");
    reveal_strlit("yep");
    reveal_strlit("yes");
    let w = "cancel"@;
    let n = w + " "@ + m;
    assert(n.len() >= 8);
    assert(n[0] == 'c');
    assert(n[1] == 'a');
    assert(n[2] == 'n');
    assert(n[3] == 'c');
    assert(n[4] == 'e');
    assert(n[5] == 'l');
    assert(n[6] == ' ');
    assert(!always_patterns().contains(n)) by {
        assert forall|j: int| 0 <= j < always_patterns().len() implies always_patterns()[j] != n by {
            if j == 0 {
                assert(always_patterns()[0] == "always"@);
                lemma_not_equal_at(always_patterns()[0], n, 0);
            } else if j == 1 {
                assert(always_patterns()[1] == "always allow"@);
                lemma_not_equal_at(always_patterns()[1], n, 0);
            } else if j == 2 {
                assert(always_patterns()[2] == "trust"@);
                lemma_not_equal_at(always_patterns()[2], n, 0);
            } else if j == 3 {
                assert(always_patterns()[3] == "trust it"@);
                lemma_not_equal_at(always_patterns()[3], n, 0);
            } else if j == 4 {
                assert(always_patterns()[4] == "allow all"@);
                lemma_not_equal_at(always_patterns()[4], n, 0);
            }
        }
    }
    assert(!once_patterns().contains(n)) by {
        assert forall|j: int| 0 <= j < once_patterns().len() implies once_patterns()[j] != n by {
            if j == 0 {
                assert(once_patterns()[0] == "allow"@);
                lemma_not_equal_at(once_patterns()[0], n, 0);
            } else if j == 1 {
                assert(once_patterns()[1] == "allow once"@);
                lemma_not_equal_at(once_patterns()[1], n, 0);
            } else if j == 2 {
                assert(once_patterns()[2] == "allow it"@);
                lemma_not_equal_at(once_patterns()[2], n, 0);
            } else if j == 3 {
                assert(once_patterns()[3] == "allow this"@);
                lemma_not_equal_at(once_patterns()[3], n, 0);
            } else if j == 4 {
                assert(once_patterns()[4] == "yes"@);
                lemma_not_equal_at(once_patterns()[4], n, 0);
            } else if j == 5 {
                assert(once_patterns()[5] == "yeah"@);
                lemma_not_equal_at(once_patterns()[5], n, 0);
            } else if j == 6 {
                assert(once_patterns()[6] == "yep"@);
                lemma_not_equal_at(once_patterns()[6], n, 0);
            } else if j == 7 {
                assert(once_patterns()[7] == "ok"@);
                lemma_not_equal_at(once_patterns()[7], n, 0);
            } else if j == 8 {
                assert(once_patterns()[8] == "okay"@);
                lemma_not_equal_at(once_patterns()[8], n, 0);
            } else if j == 9 {
                assert(once_patterns()[9] == "sure"@);
                lemma_not_equal_at(once_patterns()[9], n, 0);
            } else if j == 10 {
                assert(once_patterns()[10] == "proceed"@);
                lemma_not_equal_at(once_patterns()[10], n, 0);
            } else if j == 11 {
                assert(once_patterns()[11] == "go ahead"@);
                lemma_not_equal_at(once_patterns()[11], n, 0);
            } else if j == 12 {
                assert(once_patterns()[12] == "do it"@);
                lemma_not_equal_at(once_patterns()[12], n, 0);
            } else if j == 13 {
                assert(once_patterns()[13] == "approve"@);
                lemma_not_equal_at(once_patterns()[13], n, 0);
            } else if j == 14 {
                assert(once_patterns()[14] == "approve once"@);
                lemma_not_equal_at(once_patterns()[14], n, 0);
            } else if j == 15 {
                assert(once_patterns()[15] == "approve it"@);
                lemma_not_equal_at(once_patterns()[15], n, 0);
            } else if j == 16 {
                assert(once_patterns()[16] == "approve this"@);
                lemma_not_equal_at(once_patterns()[16], n, 0);
            } else if j == 17 {
                assert(once_patterns()[17] == "accept"@);
                lemma_not_equal_at(once_patterns()[17], n, 0);
            } else if j == 18 {
                assert(once_patterns()[18] == "run it"@);
                lemma_not_equal_at(once_patterns()[18], n, 0);
            } else if j == 19 {
                assert(once_patterns()[19] == "go for it"@);
                lemma_not_equal_at(once_patterns()[19], n, 0);
            } else if j == 20 {
                assert(once_patterns()[20] == "permit"@);
                lemma_not_equal_at(once_patterns()[20], n, 0);
            } else if j == 21 {
                assert(once_patterns()[21] == "execute"@);
                lemma_not_equal_at(once_patterns()[21], n, 0);
            }
        }
    }
    assert(!reject_patterns().contains(n)) by {
        assert forall|j: int| 0 <= j < reject_patterns().len() implies reject_patterns()[j] != n by {
            if j == 0 {
                assert(reject_patterns()[0] == "reject"@);
                lemma_not_equal_at(reject_patterns()[0], n, 0);
            } else if j == 1 {
                assert(reject_patterns()[1] == "deny"@);
                lemma_not_equal_at(reject_patterns()[1], n, 0);
            } else if j == 2 {
                assert(reject_patterns()[2] == "no"@);
                lemma_not_equal_at(reject_patterns()[2], n, 0);
            } else if j == 3 {
                assert(reject_patterns()[3] == "nope"@);
                lemma_not_equal_at(reject_patterns()[3], n, 0);
            } else if j == 4 {
                assert(reject_patterns()[4] == "cancel"@);
                lemma_not_equal_at(reject_patterns()[4], n, 0);
            } else if j == 5 {
                assert(reject_patterns()[5] == "stop"@);
                lemma_not_equal_at(reject_patterns()[5], n, 0);
            } else if j == 6 {
                assert(reject_patterns()[6] == "don't"@);
                lemma_not_equal_at(reject_patterns()[6], n, 0);
            } else if j == 7 {
                assert(reject_patterns()[7] == "do not"@);
                lemma_not_equal_at(reject_patterns()[7], n, 0);
            } else if j == 8 {
                assert(reject_patterns()[8] == "refuse"@);
                lemma_not_equal_at(reject_patterns()[8], n, 0);
            } else if j == 9 {
                assert(reject_patterns()[9] == "block"@);
                lemma_not_equal_at(reject_patterns()[9], n, 0);
            } else if j == 10 {
                assert(reject_patterns()[10] == "skip"@);
                lemma_not_equal_at(reject_patterns()[10], n, 0);
            } else if j == 11 {
                assert(reject_patterns()[11] == "decline"@);
                lemma_not_equal_at(reject_patterns()[11], n, 0);
            } else if j == 12 {
                assert(reject_patterns()[12] == "dismiss"@);
                lemma_not_equal_at(reject_patterns()[12], n, 0);
            } else if j == 13 {
                assert(reject_patterns()[13] == "not allowed"@);
                lemma_not_equal_at(reject_patterns()[13], n, 0);
            } else if j == 14 {
                assert(reject_patterns()[14] == "nah"@);
                lemma_not_equal_at(reject_patterns()[14], n, 0);
            } else if j == 15 {
                assert(reject_patterns()[15] == "don't do it"@);
                lemma_not_equal_at(reject_patterns()[15], n, 0);
            }
        }
    }
    assert(reject_prefixes().skip(0) =~= reject_prefixes());
    assert(reject_prefixes().skip(0)[0] == "nope"@);
    assert(reject_prefixes().skip(0).drop_first() =~= reject_prefixes().skip(1));
    lemma_reject_message_skip(n, reject_prefixes().skip(0), 0);
    assert(reject_prefixes().skip(1)[0] == "no"@);
    assert(reject_prefixes().skip(1).drop_first() =~= reject_prefixes().skip(2));
    lemma_reject_message_skip(n, reject_prefixes().skip(1), 0);
    assert(reject_prefixes().skip(2)[0] == "reject"@);
    assert(reject_prefixes().skip(2).drop_first() =~= reject_prefixes().skip(3));
    lemma_reject_message_skip(n, reject_prefixes().skip(2), 0);
    assert(reject_prefixes().skip(3)[0] == "deny"@);
    assert(reject_prefixes().skip(3).drop_first() =~= reject_prefixes().skip(4));
    lemma_reject_message_skip(n, reject_prefixes().skip(3), 0);
    assert(reject_prefixes().skip(4)[0] == "cancel"@);
    assert(reject_prefixes().skip(4).drop_first() =~= reject_prefixes().skip(5));
    assert(n.take(6) =~= w);
    assert(n.skip(6) =~= seq![' '] + m);
    assert((seq![' '] + m).drop_first() =~= m);
    lemma_reject_message_here(n, reject_prefixes().skip(4), m);
}

proof fn lemma_rejection_word_5(m: Seq<char>)
    requires
        m.len() > 0,
        !in_class(m[0], CharClass::CommaOrSpace),
        "don't"@ + " "@ + m != "don't do it"@,
    ensures
        permission_match("don't"@ + " "@ + m) == (MatchV::PermissionReply {
            reply: PermissionReply::Reject,
            message: Some(m),
        }),
{
    reveal_strlit(" ");
    reveal_strlit("accept");
    reveal_strlit("allow");
    reveal_strlit("allow all");
    reveal_strlit("allow it");
    reveal_strlit("allow once");
    reveal_strlit("allow this");
    reveal_strlit("always");
    reveal_strlit("always allow");
    reveal_strlit("approve");
    reveal_strlit("approve it");
    reveal_strlit("approve once");
    reveal_strlit("approve this");
    reveal_strlit("block");
    reveal_strlit("cancel");
    reveal_strlit("decline");
    reveal_strlit("deny");
    reveal_strlit("dismiss");
    reveal_strlit("do it");
    reveal_strlit("do not");
    reveal_strlit("don't");
    reveal_strlit("don't do it");
    reveal_strlit("execute");
    reveal_strlit("go ahead");
    reveal_strlit("go for it");
    reveal_strlit("nah");
    reveal_strlit("no");
    reveal_strlit("nope");
    reveal_strlit("not allowed");
    reveal_strlit("ok");
    reveal_strlit("okay");
    reveal_strlit("permit");
    reveal_strlit("proceed");
    reveal_strlit("refuse");
    reveal_strlit("reject");
    reveal_strlit("run it");
    reveal_strlit("skip");
    reveal_strlit("stop");
    reveal_strlit("sure");
    reveal_strlit("trust");
    reveal_strlit("trust it");
    reveal_strlit("yeah");
    reveal_strlit("yep");
    reveal_strlit("yes");
    let w = "don't"@;
    let n = w + " "@ + m;
    assert(n.len() >= 7);
    assert(n[0] == 'd');
    assert(n[1] == 'o');
    assert(n[2] == 'n');
    assert(n[3] == '\'');
    assert(n[4] == 't');
    assert(n[5] == ' ');
    assert(!always_patterns().contains(n)) by {
        assert forall|j: int| 0 <= j < always_patterns().len() implies always_patterns()[j] != n by {
            if j == 0 {
                assert(always_patterns()[0] == "always"@);
                lemma_not_equal_at(always_patterns()[0], n, 0);
            } else if j == 1 {
                assert(always_patterns()[1] == "always allow"@);
                lemma_not_equal_at(always_patterns()[1], n, 0);
            } else if j == 2 {
                assert(always_patterns()[2] == "trust"@);
                lemma_not_equal_at(always_patterns()[2], n, 0);
            } else if j == 3 {
                assert(always_patterns()[3] == "trust it"@);
                lemma_not_equal_at(always_patterns()[3], n, 0);
            } else if j == 4 {
                assert(always_patterns()[4] == "allow all"@);
                lemma_not_equal_at(always_patterns()[4], n, 0);
            }
        }
    }
    assert(!once_patterns().contains(n)) by {
        assert forall|j: int| 0 <= j < once_patterns().len() implies once_patterns()[j] != n by {
            if j == 0 {
                assert(once_patterns()[0] == "allow"@);
                lemma_not_equal_at(once_patterns()[0], n, 0);
            } else if j == 1 {
                assert(once_patterns()[1] == "allow once"@);
                lemma_not_equal_at(once_patterns()[1], n, 0);
            } else if j == 2 {
                assert(once_patterns()[2] == "allow it"@);
                lemma_not_equal_at(once_patterns()[2], n, 0);
            } else if j == 3 {
                assert(once_patterns()[3] == "allow this"@);
                lemma_not_equal_at(once_patterns()[3], n, 0);
            } else if j == 4 {
                assert(once_patterns()[4] == "yes"@);
                lemma_not_equal_at(once_patterns()[4], n, 0);
            } else if j == 5 {
                assert(once_patterns()[5] == "yeah"@);
                lemma_not_equal_at(once_patterns()[5], n, 0);
            } else if j == 6 {
                assert(once_patterns()[6] == "yep"@);
                lemma_not_equal_at(once_patterns()[6], n, 0);
            } else if j == 7 {
                assert(once_patterns()[7] == "ok"@);
                lemma_not_equal_at(once_patterns()[7], n, 0);
            } else if j == 8 {
                assert(once_patterns()[8] == "okay"@);
                lemma_not_equal_at(once_patterns()[8], n, 0);
            } else if j == 9 {
                assert(once_patterns()[9] == "sure"@);
                lemma_not_equal_at(once_patterns()[9], n, 0);
            } else if j == 10 {
                assert(once_patterns()[10] == "proceed"@);
                lemma_not_equal_at(once_patterns()[10], n, 0);
            } else if j == 11 {
                assert(once_patterns()[11] == "go ahead"@);
                lemma_not_equal_at(once_patterns()[11], n, 0);
            } else if j == 12 {
                assert(once_patterns()[12] == "do it"@);
                lemma_not_equal_at(once_patterns()[12], n, 0);
            } else if j == 13 {
                assert(once_patterns()[13] == "approve"@);
                lemma_not_equal_at(once_patterns()[13], n, 0);
            } else if j == 14 {
                assert(once_patterns()[14] == "approve once"@);
                lemma_not_equal_at(once_patterns()[14], n, 0);
            } else if j == 15 {
                assert(once_patterns()[15] == "approve it"@);
                lemma_not_equal_at(once_patterns()[15], n, 0);
            } else if j == 16 {
                assert(once_patterns()[16] == "approve this"@);
                lemma_not_equal_at(once_patterns()[16], n, 0);
            } else if j == 17 {
                assert(once_patterns()[17] == "accept"@);
                lemma_not_equal_at(once_patterns()[17], n, 0);
            } else if j == 18 {
                assert(once_patterns()[18] == "run it"@);
                lemma_not_equal_at(once_patterns()[18], n, 0);
            } else if j == 19 {
                assert(once_patterns()[19] == "go for it"@);
                lemma_not_equal_at(once_patterns()[19], n, 0);
            } else if j == 20 {
                assert(once_patterns()[20] == "permit"@);
                lemma_not_equal_at(once_patterns()[20], n, 0);
            } else if j == 21 {
                assert(once_patterns()[21] == "execute"@);
                lemma_not_equal_at(once_patterns()[21], n, 0);
            }
        }
    }
    assert(!reject_patterns().contains(n)) by {
        assert forall|j: int| 0 <= j < reject_patterns().len() implies reject_patterns()[j] != n by {
            if j == 0 {
                assert(reject_patterns()[0] == "reject"@);
                lemma_not_equal_at(reject_patterns()[0], n, 0);
            } else if j == 1 {
                assert(reject_patterns()[1] == "deny"@);
                lemma_not_equal_at(reject_patterns()[1], n, 0);
            } else if j == 2 {
                assert(reject_patterns()[2] == "no"@);
                lemma_not_equal_at(reject_patterns()[2], n, 0);
            } else if j == 3 {
                assert(reject_patterns()[3] == "nope"@);
                lemma_not_equal_at(reject_patterns()[3], n, 0);
            } else if j == 4 {
                assert(reject_patterns()[4] == "cancel"@);
                lemma_not_equal_at(reject_patterns()[4], n, 0);
            } else if j == 5 {
                assert(reject_patterns()[5] == "stop"@);
                lemma_not_equal_at(reject_patterns()[5], n, 0);
            } else if j == 6 {
                assert(reject_patterns()[6] == "don't"@);
                lemma_not_equal_at(reject_patterns()[6], n, 0);
            } else if j == 7 {
                assert(reject_patterns()[7] == "do not"@);
                lemma_not_equal_at(reject_patterns()[7], n, 2);
            } else if j == 8 {
                assert(reject_patterns()[8] == "refuse"@);
                lemma_not_equal_at(reject_patterns()[8], n, 0);
            } else if j == 9 {
                assert(reject_patterns()[9] == "block"@);
                lemma_not_equal_at(reject_patterns()[9], n, 0);
            } else if j == 10 {
                assert(reject_patterns()[10] == "skip"@);
                lemma_not_equal_at(reject_patterns()[10], n, 0);
            } else if j == 11 {
                assert(reject_patterns()[11] == "decline"@);
                lemma_not_equal_at(reject_patterns()[11], n, 1);
            } else if j == 12 {
                assert(reject_patterns()[12] == "dismiss"@);
                lemma_not_equal_at(reject_patterns()[12], n, 1);
            } else if j == 13 {
                assert(reject_patterns()[13] == "not allowed"@);
                lemma_not_equal_at(reject_patterns()[13], n, 0);
            } else if j == 14 {
                assert(reject_patterns()[14] == "nah"@);
                lemma_not_equal_at(reject_patterns()[14], n, 0);
            } else if j == 15 {
                assert(reject_patterns()[15] == "don't do it"@);
                // excluded by the requirement
            }
        }
    }
    assert(reject_prefixes().skip(0) =~= reject_prefixes());
    assert(reject_prefixes().skip(0)[0] == "nope"@);
    assert(reject_prefixes().skip(0).drop_first() =~= reject_prefixes().skip(1));
    lemma_reject_message_skip(n, reject_prefixes().skip(0), 0);
    assert(reject_prefixes().skip(1)[0] == "no"@);
    assert(reject_prefixes().skip(1).drop_first() =~= reject_prefixes().skip(2));
    lemma_reject_message_skip(n, reject_prefixes().skip(1), 0);
    assert(reject_prefixes().skip(2)[0] == "reject"@);
    assert(reject_prefixes().skip(2).drop_first() =~= reject_prefixes().skip(3));
    lemma_reject_message_skip(n, reject_prefixes().skip(2), 0);
    assert(reject_prefixes().skip(3)[0] == "deny"@);
    assert(reject_prefixes().skip(3).drop_first() =~= reject_prefixes().skip(4));
    lemma_reject_message_skip(n, reject_prefixes().skip(3), 1);
    assert(reject_prefixes().skip(4)[0] == "cancel"@);
    assert(reject_prefixes().skip(4).drop_first() =~= reject_prefixes().skip(5));
    lemma_reject_message_skip(n, reject_prefixes().skip(4), 0);
    assert(reject_prefixes().skip(5)[0] == "don't"@);
    assert(reject_prefixes().skip(5).drop_first() =~= reject_prefixes().skip(6));
    assert(n.take(5) =~= w);
    assert(n.skip(5) =~= seq![' '] + m);
    assert((seq![' '] + m).drop_first() =~= m);
    lemma_reject_message_here(n, reject_prefixes().skip(5), m);
}

proof fn lemma_rejection_word_6(m: Seq<char>)
    requires
        m.len() > 0,
        !in_class(m[0], CharClass::CommaOrSpace),
        "refuse"@ + " "@ + m != "don't do it"@,
    ensures
        permission_match("refuse"@ + " "@ + m) == (MatchV::PermissionReply {
            reply: PermissionReply::Reject,
            message: Some(m),
        }),
{
    reveal_strlit(" ");
    reveal_strlit("accept");
    reveal_strlit("allow");
    reveal_strlit("allow all");
    reveal_strlit("allow it");
    reveal_strlit("allow once");
    reveal_strlit("allow this");
    reveal_strlit("always");
    reveal_strlit("always allow");
    reveal_strlit("approve");
    reveal_strlit("approve it");
    reveal_strlit("approve once");
    reveal_strlit("approve this");
    reveal_strlit("block");
    reveal_strlit("cancel");
    reveal_strlit("decline");
    reveal_strlit("deny");
    reveal_strlit("dismiss");
    reveal_strlit("do it");
    reveal_strlit("do not");
    reveal_strlit("don't");
    reveal_strlit("don't do it");
    reveal_strlit("execute");
    reveal_strlit("go ahead");
    reveal_strlit("go for it");
    reveal_strlit("nah");
    reveal_strlit("no");
    reveal_strlit("nope");
    reveal_strlit("not allowed");
    reveal_strlit("ok");
    reveal_strlit("okay");
    reveal_strlit("permit");
    reveal_strlit("proceed");
    reveal_strlit("refuse");
    reveal_strlit("reject");
    reveal_strlit("run it");
    reveal_strlit("skip");
    reveal_strlit("stop");
    reveal_strlit("sure");
    reveal_strlit("trust");
    reveal_strlit("trust it");
    reveal_strlit("yeah");
    reveal_strlit("yep");
    reveal_strlit("yes");
    let w = "refuse"@;
    let n = w + " "@ + m;
    assert(n.len() >= 8);
    assert(n[0] == 'r');
    assert(n[1] == 'e');
    assert(n[2] == 'f');
    assert(n[3] == 'u');
    assert(n[4] == 's');
    assert(n[5] == 'e');
    assert(n[6] == ' ');
    assert(!always_patterns().contains(n)) by {
        assert forall|j: int| 0 <= j < always_patterns().len() implies always_patterns()[j] != n by {
            if j == 0 {
                assert(always_patterns()[0] == "always"@);
                lemma_not_equal_at(always_patterns()[0], n, 0);
            } else if j == 1 {
                assert(always_patterns()[1] == "always allow"@);
                lemma_not_equal_at(always_patterns()[1], n, 0);
            } else if j == 2 {
                assert(always_patterns()[2] == "trust"@);
                lemma_not_equal_at(always_patterns()[2], n, 0);
            } else if j == 3 {
                assert(always_patterns()[3] == "trust it"@);
                lemma_not_equal_at(always_patterns()[3], n, 0);
            } else if j == 4 {
                assert(always_patterns()[4] == "allow all"@);
                lemma_not_equal_at(always_patterns()[4], n, 0);
            }
        }
    }
    assert(!once_patterns().contains(n)) by {
        assert forall|j: int| 0 <= j < once_patterns().len() implies once_patterns()[j] != n by {
            if j == 0 {
                assert(once_patterns()[0] == "allow"@);
                lemma_not_equal_at(once_patterns()[0], n, 0);
            } else if j == 1 {
                assert(once_patterns()[1] == "allow once"@);
                lemma_not_equal_at(once_patterns()[1], n, 0);
            } else if j == 2 {
                assert(once_patterns()[2] == "allow it"@);
                lemma_not_equal_at(once_patterns()[2], n, 0);
            } else if j == 3 {
                assert(once_patterns()[3] == "allow this"@);
                lemma_not_equal_at(once_patterns()[3], n, 0);
            } else if j == 4 {
                assert(once_patterns()[4] == "yes"@);
                lemma_not_equal_at(once_patterns()[4], n, 0);
            } else if j == 5 {
                assert(once_patterns()[5] == "yeah"@);
                lemma_not_equal_at(once_patterns()[5], n, 0);
            } else if j == 6 {
                assert(once_patterns()[6] == "yep"@);
                lemma_not_equal_at(once_patterns()[6], n, 0);
            } else if j == 7 {
                assert(once_patterns()[7] == "ok"@);
                lemma_not_equal_at(once_patterns()[7], n, 0);
            } else if j == 8 {
                assert(once_patterns()[8] == "okay"@);
                lemma_not_equal_at(once_patterns()[8], n, 0);
            } else if j == 9 {
                assert(once_patterns()[9] == "sure"@);
                lemma_not_equal_at(once_patterns()[9], n, 0);
            } else if j == 10 {
                assert(once_patterns()[10] == "proceed"@);
                lemma_not_equal_at(once_patterns()[10], n, 0);
            } else if j == 11 {
                assert(once_patterns()[11] == "go ahead"@);
                lemma_not_equal_at(once_patterns()[11], n, 0);
            } else if j == 12 {
                assert(once_patterns()[12] == "do it"@);
                lemma_not_equal_at(once_patterns()[12], n, 0);
            } else if j == 13 {
                assert(once_patterns()[13] == "approve"@);
                lemma_not_equal_at(once_patterns()[13], n, 0);
            } else if j == 14 {
                assert(once_patterns()[14] == "approve once"@);
                lemma_not_equal_at(once_patterns()[14], n, 0);
            } else if j == 15 {
                assert(once_patterns()[15] == "approve it"@);
                lemma_not_equal_at(once_patterns()[15], n, 0);
            } else if j == 16 {
                assert(once_patterns()[16] == "approve this"@);
                lemma_not_equal_at(once_patterns()[16], n, 0);
            } else if j == 17 {
                assert(once_patterns()[17] == "accept"@);
                lemma_not_equal_at(once_patterns()[17], n, 0);
            } else if j == 18 {
                assert(once_patterns()[18] == "run it"@);
                lemma_not_equal_at(once_patterns()[18], n, 0);
            } else if j == 19 {
                assert(once_patterns()[19] == "go for it"@);
                lemma_not_equal_at(once_patterns()[19], n, 0);
            } else if j == 20 {
                assert(once_patterns()[20] == "permit"@);
                lemma_not_equal_at(once_patterns()[20], n, 0);
            } else if j == 21 {
                assert(once_patterns()[21] == "execute"@);
                lemma_not_equal_at(once_patterns()[21], n, 0);
            }
        }
    }
    assert(!reject_patterns().contains(n)) by {
        assert forall|j: int| 0 <= j < reject_patterns().len() implies reject_patterns()[j] != n by {
            if j == 0 {
                assert(reject_patterns()[0] == "reject"@);
                lemma_not_equal_at(reject_patterns()[0], n, 0);
            } else if j == 1 {
                assert(reject_patterns()[1] == "deny"@);
                lemma_not_equal_at(reject_patterns()[1], n, 0);
            } else if j == 2 {
                assert(reject_patterns()[2] == "no"@);
                lemma_not_equal_at(reject_patterns()[2], n, 0);
            } else if j == 3 {
                assert(reject_patterns()[3] == "nope"@);
                lemma_not_equal_at(reject_patterns()[3], n, 0);
            } else if j == 4 {
                assert(reject_patterns()[4] == "cancel"@);
                lemma_not_equal_at(reject_patterns()[4], n, 0);
            } else if j == 5 {
                assert(reject_patterns()[5] == "stop"@);
                lemma_not_equal_at(reject_patterns()[5], n, 0);
            } else if j == 6 {
                assert(reject_patterns()[6] == "don't"@);
                lemma_not_equal_at(reject_patterns()[6], n, 0);
            } else if j == 7 {
                assert(reject_patterns()[7] == "do not"@);
                lemma_not_equal_at(reject_patterns()[7], n, 0);
            } else if j == 8 {
                assert(reject_patterns()[8] == "refuse"@);
                lemma_not_equal_at(reject_patterns()[8], n, 0);
            } else if j == 9 {
                assert(reject_patterns()[9] == "block"@);
                lemma_not_equal_at(reject_patterns()[9], n, 0);
            } else if j == 10 {
                assert(reject_patterns()[10] == "skip"@);
                lemma_not_equal_at(reject_patterns()[10], n, 0);
            } else if j == 11 {
                assert(reject_patterns()[11] == "decline"@);
                lemma_not_equal_at(reject_patterns()[11], n, 0);
            } else if j == 12 {
                assert(reject_patterns()[12] == "dismiss"@);
                lemma_not_equal_at(reject_patterns()[12], n, 0);
            } else if j == 13 {
                assert(reject_patterns()[13] == "not allowed"@);
                lemma_not_equal_at(reject_patterns()[13], n, 0);
            } else if j == 14 {
                assert(reject_patterns()[14] == "nah"@);
                lemma_not_equal_at(reject_patterns()[14], n, 0);
            } else if j == 15 {
                assert(reject_patterns()[15] == "don't do it"@);
                lemma_not_equal_at(reject_patterns()[15], n, 0);
            }
        }
    }
    assert(reject_prefixes().skip(0) =~= reject_prefixes());
    assert(reject_prefixes().skip(0)[0] == "nope"@);
    assert(reject_prefixes().skip(0).drop_first() =~= reject_prefixes().skip(1));
    lemma_reject_message_skip(n, reject_prefixes().skip(0), 0);
    assert(reject_prefixes().skip(1)[0] == "no"@);
    assert(reject_prefixes().skip(1).drop_first() =~= reject_prefixes().skip(2));
    lemma_reject_message_skip(n, reject_prefixes().skip(1), 0);
    assert(reject_prefixes().skip(2)[0] == "reject"@);
    assert(reject_prefixes().skip(2).drop_first() =~= reject_prefixes().skip(3));
    lemma_reject_message_skip(n, reject_prefixes().skip(2), 2);
    assert(reject_prefixes().skip(3)[0] == "deny"@);
    assert(reject_prefixes().skip(3).drop_first() =~= reject_prefixes().skip(4));
    lemma_reject_message_skip(n, reject_prefixes().skip(3), 0);
    assert(reject_prefixes().skip(4)[0] == "cancel"@);
    assert(reject_prefixes().skip(4).drop_first() =~= reject_prefixes().skip(5));
    lemma_reject_message_skip(n, reject_prefixes().skip(4), 0);
    assert(reject_prefixes().skip(5)[0] == "don't"@);
    assert(reject_prefixes().skip(5).drop_first() =~= reject_prefixes().skip(6));
    lemma_reject_message_skip(n, reject_prefixes().skip(5), 0);
    assert(reject_prefixes().skip(6)[0] == "refuse"@);
    assert(reject_prefixes().skip(6).drop_first() =~= reject_prefixes().skip(7));
    assert(n.take(6) =~= w);
    assert(n.skip(6) =~= seq![' '] + m);
    assert((seq![' '] + m).drop_first() =~= m);
    lemma_reject_message_here(n, reject_prefixes().skip(6), m);
}

/// Each rejection word ("no", "nope", "reject", "deny", "cancel", "don't",
/// "refuse") followed by a space and a message rejects the permission and
/// carries that message, whatever the message is, so long as it does not
/// itself begin with a comma or white space. The one phrase of that shape
/// that is a plain rejection without a message is "don't do it".
pub proof fn law_rejection_word_carries_message(i: int, m: Seq<char>)
    requires
        0 <= i < rejection_words().len(),
        m.len() > 0,
        m[0] != ',',
        !is_white_space(m[0]),
        rejection_words()[i] + " "@ + m != "don't do it"@,
    ensures
        permission_match(rejection_words()[i] + " "@ + m) == (MatchV::PermissionReply {
            reply: PermissionReply::Reject,
            message: Some(m),
        }),
{
    if i == 0 {
        assert(rejection_words()[0] == "no"@);
        lemma_rejection_word_0(m);
    } else if i == 1 {
        assert(rejection_words()[1] == "nope"@);
        lemma_rejection_word_1(m);
    } else if i == 2 {
        assert(rejection_words()[2] == "reject"@);
        lemma_rejection_word_2(m);
    } else if i == 3 {
        assert(rejection_words()[3] == "deny"@);
        lemma_rejection_word_3(m);
    } else if i == 4 {
        assert(rejection_words()[4] == "cancel"@);
        lemma_rejection_word_4(m);
    } else if i == 5 {
        assert(rejection_words()[5] == "don't"@);
        lemma_rejection_word_5(m);
    } else if i == 6 {
        assert(rejection_words()[6] == "refuse"@);
        lemma_rejection_word_6(m);
    }
}

} // verus!
