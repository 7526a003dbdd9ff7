//! Reading the approval request types out of JSON values, field by field,
//! as their JSON encoding defines them: a request is an object whose fields
//! are read by name (unknown fields are ignored), or an array whose elements
//! are the fields in declaration order; fields with a default may be missing.
use crate::approval::types::PermissionRequest;
use crate::approval::types::PermissionRequestV;
use crate::approval::types::QuestionInfo;
use crate::approval::types::QuestionInfoV;
use crate::approval::types::QuestionOption;
use crate::approval::types::QuestionRequest;
use crate::approval::types::QuestionRequestV;
use crate::json::clone_json;
use crate::json::entry_value;
use crate::json::json_seq_view;
use crate::json::lemma_json_seq_view;
use crate::json::Json;
use crate::json::JsonV;
use vstd::prelude::*;

verus! {

broadcast use vstd::string::group_string_axioms;

// ───────────────────────── specifications ─────────────────────────

/// Field `name` (position `idx`) of a value read as a record: `None` if the
/// value is neither an object nor an array, `Some(None)` if the field is
/// missing.
pub open spec fn record_field(j: JsonV, name: Seq<char>, idx: nat) -> Option<Option<JsonV>> {
    match j {
        JsonV::Object(es) => Some(entry_value(es, name)),
        JsonV::Array(v) => Some(
            if idx < v.len() {
                Some(v[idx as int])
            } else {
                None
            },
        ),
        _ => None,
    }
}

/// A value read as a record of `n` fields has no elements beyond them.
pub open spec fn record_fits(j: JsonV, n: nat) -> bool {
    match j {
        JsonV::Array(v) => v.len() <= n,
        _ => true,
    }
}

/// A string value's text.
pub open spec fn de_string(j: JsonV) -> Option<Seq<char>> {
    match j {
        JsonV::Str(s) => Some(s),
        _ => None,
    }
}

/// A required string field.
pub open spec fn required_string(j: JsonV, name: Seq<char>, idx: nat) -> Option<Seq<char>> {
    match record_field(j, name, idx) {
        Some(Some(v)) => de_string(v),
        _ => None,
    }
}

/// A question option.
pub open spec fn de_option(j: JsonV) -> Option<Seq<char>> {
    if record_fits(j, 1) {
        required_string(j, "label"@, 0)
    } else {
        None
    }
}

/// A list of question options.
pub open spec fn de_options(s: Seq<JsonV>) -> Option<Seq<Seq<char>>>
    decreases s.len(),
{
    if s.len() == 0 {
        Some(seq![])
    } else {
        match (de_options(s.drop_last()), de_option(s.last())) {
            (Some(a), Some(b)) => Some(a.push(b)),
            _ => None,
        }
    }
}

/// An optional list field defaulting to empty.
pub open spec fn options_field(j: JsonV) -> Option<Seq<Seq<char>>> {
    match record_field(j, "options"@, 1) {
        Some(None) => Some(seq![]),
        Some(Some(JsonV::Array(v))) => de_options(v),
        _ => None,
    }
}

/// An optional flag defaulting to `true`.
pub open spec fn custom_field(j: JsonV) -> Option<bool> {
    match record_field(j, "custom"@, 2) {
        Some(None) => Some(true),
        Some(Some(JsonV::Bool(b))) => Some(b),
        _ => None,
    }
}

/// A question.
pub open spec fn de_question(j: JsonV) -> Option<QuestionInfoV> {
    match (required_string(j, "question"@, 0), options_field(j), custom_field(j)) {
        (Some(q), Some(o), Some(c)) => if record_fits(j, 3) {
            Some(QuestionInfoV { question: q, options: o, custom: c })
        } else {
            None
        },
        _ => None,
    }
}

/// A list of questions.
pub open spec fn de_questions(s: Seq<JsonV>) -> Option<Seq<QuestionInfoV>>
    decreases s.len(),
{
    if s.len() == 0 {
        Some(seq![])
    } else {
        match (de_questions(s.drop_last()), de_question(s.last())) {
            (Some(a), Some(b)) => Some(a.push(b)),
            _ => None,
        }
    }
}

/// A question request.
pub open spec fn de_question_request(j: JsonV) -> Option<QuestionRequestV> {
    let qs = match record_field(j, "questions"@, 1) {
        Some(None) => Some(seq![]),
        Some(Some(JsonV::Array(v))) => de_questions(v),
        _ => None,
    };
    match (required_string(j, "id"@, 0), qs) {
        (Some(id), Some(q)) => if record_fits(j, 2) {
            Some(QuestionRequestV { id, questions: q })
        } else {
            None
        },
        _ => None,
    }
}

/// A permission request; missing metadata is `null`.
pub open spec fn de_permission_request(j: JsonV) -> Option<PermissionRequestV> {
    match (
        required_string(j, "id"@, 0),
        required_string(j, "permission"@, 1),
        record_field(j, "metadata"@, 2),
    ) {
        (Some(id), Some(p), Some(m)) => if record_fits(j, 3) {
            Some(
                PermissionRequestV {
                    id,
                    permission: p,
                    metadata: match m {
                        Some(v) => v,
                        None => JsonV::Null,
                    },
                },
            )
        } else {
            None
        },
        _ => None,
    }
}

/// A list of strings.
pub open spec fn de_strings(s: Seq<JsonV>) -> Option<Seq<Seq<char>>>
    decreases s.len(),
{
    if s.len() == 0 {
        Some(seq![])
    } else {
        match (de_strings(s.drop_last()), de_string(s.last())) {
            (Some(a), Some(b)) => Some(a.push(b)),
            _ => None,
        }
    }
}

/// A list of lists of strings.
pub open spec fn de_string_lists(s: Seq<JsonV>) -> Option<Seq<Seq<Seq<char>>>>
    decreases s.len(),
{
    if s.len() == 0 {
        Some(seq![])
    } else {
        match (de_string_lists(s.drop_last()), s.last()) {
            (Some(a), JsonV::Array(v)) => match de_strings(v) {
                Some(b) => Some(a.push(b)),
                None => None,
            },
            _ => None,
        }
    }
}

/// An answers value: a list of lists of strings.
pub open spec fn de_answers(j: JsonV) -> Option<Seq<Seq<Seq<char>>>> {
    match j {
        JsonV::Array(v) => de_string_lists(v),
        _ => None,
    }
}

// ───────────────────────── executable functions ─────────────────────────

/// Field `name` (position `idx`) of a value read as a record.
pub fn record_field_of<'a>(j: &'a Json, name: &str, idx: usize) -> (r: Option<Option<&'a Json>>)
    ensures
        match r {
            None => record_field(j@, name@, idx as nat) is None,
            Some(None) => record_field(j@, name@, idx as nat) == Some(None::<JsonV>),
            Some(Some(x)) => record_field(j@, name@, idx as nat) == Some(Some(x@)),
        },
{
    match j {
        Json::Object(_) => Some(j.get(name)),
        Json::Array(v) => {
            proof {
                lemma_json_seq_view(v@);
            }
            if idx < v.len() {
                Some(Some(&v[idx]))
            } else {
                Some(None)
            }
        },
        _ => None,
    }
}

/// Whether a value read as a record of `n` fields has no elements beyond them.
pub fn record_fits_exec(j: &Json, n: usize) -> (b: bool)
    ensures
        b == record_fits(j@, n as nat),
{
    match j {
        Json::Array(v) => {
            proof {
                lemma_json_seq_view(v@);
            }
            v.len() <= n
        },
        _ => true,
    }
}

/// A string value's text.
pub fn de_string_of(j: &Json) -> (r: Option<String>)
    ensures
        match r {
            Some(s) => de_string(j@) == Some(s@),
            None => de_string(j@) is None,
        },
{
    match j {
        Json::Str(s) => Some(s.clone()),
        _ => None,
    }
}

pub fn required_string_of(j: &Json, name: &str, idx: usize) -> (r: Option<String>)
    ensures
        match r {
            Some(s) => required_string(j@, name@, idx as nat) == Some(s@),
            None => required_string(j@, name@, idx as nat) is None,
        },
{
    match record_field_of(j, name, idx) {
        Some(Some(v)) => de_string_of(v),
        _ => None,
    }
}

/// Reads a question option.
pub fn question_option_from_json(j: &Json) -> (r: Option<QuestionOption>)
    ensures
        match r {
            Some(o) => de_option(j@) == Some(o@),
            None => de_option(j@) is None,
        },
{
    if !record_fits_exec(j, 1) {
        return None;
    }
    match required_string_of(j, "label", 0) {
        Some(label) => Some(QuestionOption { label }),
        None => None,
    }
}

fn options_from(v: &Vec<Json>) -> (r: Option<Vec<QuestionOption>>)
    ensures
        match r {
            Some(o) => de_options(json_seq_view(v@)) == Some(o@.map_values(|x: QuestionOption| x@)),
            None => de_options(json_seq_view(v@)) is None,
        },
{
    proof {
        lemma_json_seq_view(v@);
    }
    let ghost sv = json_seq_view(v@);
    let mut out: Vec<QuestionOption> = Vec::new();
    let mut i: usize = 0;
    while i < v.len()
        invariant
            i <= v.len(),
            sv == json_seq_view(v@),
            sv.len() == v@.len(),
            forall|k: int| 0 <= k < v@.len() ==> #[trigger] sv[k] == v@[k]@,
            de_options(sv.take(i as int)) == Some(out@.map_values(|x: QuestionOption| x@)),
        decreases v.len() - i,
    {
        assert(sv.take(i + 1).drop_last() =~= sv.take(i as int));
        assert(sv.take(i + 1).last() == v@[i as int]@);
        match question_option_from_json(&v[i]) {
            Some(o) => {
                let ghost before = out@;
                out.push(o);
                assert(out@.map_values(|x: QuestionOption| x@) =~= before.map_values(
                    |x: QuestionOption| x@,
                ).push(o@));
            },
            None => {
                proof {
                    lemma_de_options_prefix_none(sv, (i + 1) as int);
                }
                return None;
            },
        }
        i = i + 1;
    }
    assert(sv.take(v.len() as int) =~= sv);
    Some(out)
}

proof fn lemma_de_options_prefix_none(s: Seq<JsonV>, k: int)
    requires
        0 <= k <= s.len(),
        de_options(s.take(k)) is None,
    ensures
        de_options(s) is None,
    decreases s.len() - k,
{
    if k < s.len() {
        assert(s.take(k + 1).drop_last() =~= s.take(k));
        lemma_de_options_prefix_none(s, k + 1);
    } else {
        assert(s.take(k) =~= s);
    }
}

proof fn lemma_de_questions_prefix_none(s: Seq<JsonV>, k: int)
    requires
        0 <= k <= s.len(),
        de_questions(s.take(k)) is None,
    ensures
        de_questions(s) is None,
    decreases s.len() - k,
{
    if k < s.len() {
        assert(s.take(k + 1).drop_last() =~= s.take(k));
        lemma_de_questions_prefix_none(s, k + 1);
    } else {
        assert(s.take(k) =~= s);
    }
}

proof fn lemma_de_strings_prefix_none(s: Seq<JsonV>, k: int)
    requires
        0 <= k <= s.len(),
        de_strings(s.take(k)) is None,
    ensures
        de_strings(s) is None,
    decreases s.len() - k,
{
    if k < s.len() {
        assert(s.take(k + 1).drop_last() =~= s.take(k));
        lemma_de_strings_prefix_none(s, k + 1);
    } else {
        assert(s.take(k) =~= s);
    }
}

proof fn lemma_de_string_lists_prefix_none(s: Seq<JsonV>, k: int)
    requires
        0 <= k <= s.len(),
        de_string_lists(s.take(k)) is None,
    ensures
        de_string_lists(s) is None,
    decreases s.len() - k,
{
    if k < s.len() {
        assert(s.take(k + 1).drop_last() =~= s.take(k));
        lemma_de_string_lists_prefix_none(s, k + 1);
    } else {
        assert(s.take(k) =~= s);
    }
}

/// Reads a question.
pub fn question_info_from_json(j: &Json) -> (r: Option<QuestionInfo>)
    ensures
        match r {
            Some(q) => de_question(j@) == Some(q@),
            None => de_question(j@) is None,
        },
{
    let question = match required_string_of(j, "question", 0) {
        Some(q) => q,
        None => {
            return None;
        },
    };
    let options = match record_field_of(j, "options", 1) {
        Some(None) => {
            let v: Vec<QuestionOption> = Vec::new();
            assert(v@.map_values(|x: QuestionOption| x@) =~= Seq::<Seq<char>>::empty());
            v
        },
        Some(Some(Json::Array(v))) => match options_from(v) {
            Some(o) => o,
            None => {
                return None;
            },
        },
        _ => {
            return None;
        },
    };
    let custom = match record_field_of(j, "custom", 2) {
        Some(None) => true,
        Some(Some(Json::Bool(b))) => *b,
        _ => {
            return None;
        },
    };
    if !record_fits_exec(j, 3) {
        return None;
    }
    Some(QuestionInfo { question, options, custom })
}

fn questions_from(v: &Vec<Json>) -> (r: Option<Vec<QuestionInfo>>)
    ensures
        match r {
            Some(o) => de_questions(json_seq_view(v@)) == Some(o@.map_values(|x: QuestionInfo| x@)),
            None => de_questions(json_seq_view(v@)) is None,
        },
{
    proof {
        lemma_json_seq_view(v@);
    }
    let ghost sv = json_seq_view(v@);
    let mut out: Vec<QuestionInfo> = Vec::new();
    let mut i: usize = 0;
    while i < v.len()
        invariant
            i <= v.len(),
            sv == json_seq_view(v@),
            sv.len() == v@.len(),
            forall|k: int| 0 <= k < v@.len() ==> #[trigger] sv[k] == v@[k]@,
            de_questions(sv.take(i as int)) == Some(out@.map_values(|x: QuestionInfo| x@)),
        decreases v.len() - i,
    {
        assert(sv.take(i + 1).drop_last() =~= sv.take(i as int));
        assert(sv.take(i + 1).last() == v@[i as int]@);
        match question_info_from_json(&v[i]) {
            Some(o) => {
                let ghost before = out@;
                out.push(o);
                assert(out@.map_values(|x: QuestionInfo| x@) =~= before.map_values(
                    |x: QuestionInfo| x@,
                ).push(o@));
            },
            None => {
                proof {
                    lemma_de_questions_prefix_none(sv, (i + 1) as int);
                }
                return None;
            },
        }
        i = i + 1;
    }
    assert(sv.take(v.len() as int) =~= sv);
    Some(out)
}

/// Reads a question request.
pub fn question_request_from_json(j: &Json) -> (r: Option<QuestionRequest>)
    ensures
        match r {
            Some(q) => de_question_request(j@) == Some(q@),
            None => de_question_request(j@) is None,
        },
{
    let id = match required_string_of(j, "id", 0) {
        Some(s) => s,
        None => {
            return None;
        },
    };
    let questions = match record_field_of(j, "questions", 1) {
        Some(None) => {
            let v: Vec<QuestionInfo> = Vec::new();
            assert(v@.map_values(|x: QuestionInfo| x@) =~= Seq::<QuestionInfoV>::empty());
            v
        },
        Some(Some(Json::Array(v))) => match questions_from(v) {
            Some(o) => o,
            None => {
                return None;
            },
        },
        _ => {
            return None;
        },
    };
    if !record_fits_exec(j, 2) {
        return None;
    }
    Some(QuestionRequest { id, questions })
}

/// Reads a permission request.
pub fn permission_request_from_json(j: &Json) -> (r: Option<PermissionRequest>)
    ensures
        match r {
            Some(p) => de_permission_request(j@) == Some(p@),
            None => de_permission_request(j@) is None,
        },
{
    let id = match required_string_of(j, "id", 0) {
        Some(s) => s,
        None => {
            return None;
        },
    };
    let permission = match required_string_of(j, "permission", 1) {
        Some(s) => s,
        None => {
            return None;
        },
    };
    let metadata = match record_field_of(j, "metadata", 2) {
        Some(None) => Json::Null,
        Some(Some(m)) => clone_json(m),
        None => {
            return None;
        },
    };
    if !record_fits_exec(j, 3) {
        return None;
    }
    Some(PermissionRequest { id, permission, metadata })
}

fn strings_from(v: &Vec<Json>) -> (r: Option<Vec<String>>)
    ensures
        match r {
            Some(o) => de_strings(json_seq_view(v@)) == Some(o.deep_view()),
            None => de_strings(json_seq_view(v@)) is None,
        },
{
    proof {
        lemma_json_seq_view(v@);
    }
    let ghost sv = json_seq_view(v@);
    let mut out: Vec<String> = Vec::new();
    let mut i: usize = 0;
    while i < v.len()
        invariant
            i <= v.len(),
            sv == json_seq_view(v@),
            sv.len() == v@.len(),
            forall|k: int| 0 <= k < v@.len() ==> #[trigger] sv[k] == v@[k]@,
            de_strings(sv.take(i as int)) == Some(out.deep_view()),
        decreases v.len() - i,
    {
        assert(sv.take(i + 1).drop_last() =~= sv.take(i as int));
        assert(sv.take(i + 1).last() == v@[i as int]@);
        match de_string_of(&v[i]) {
            Some(o) => {
                let ghost before = out.deep_view();
                out.push(o);
                assert(out.deep_view() =~= before.push(o@));
            },
            None => {
                proof {
                    lemma_de_strings_prefix_none(sv, (i + 1) as int);
                }
                return None;
            },
        }
        i = i + 1;
    }
    assert(sv.take(v.len() as int) =~= sv);
    Some(out)
}

/// Reads an answers value: a list of lists of strings.
pub fn answers_from_json(j: &Json) -> (r: Option<Vec<Vec<String>>>)
    ensures
        match r {
            Some(o) => de_answers(j@) == Some(o.deep_view()),
            None => de_answers(j@) is None,
        },
{
    let v = match j {
        Json::Array(v) => v,
        _ => {
            return None;
        },
    };
    proof {
        lemma_json_seq_view(v@);
    }
    let ghost sv = json_seq_view(v@);
    let mut out: Vec<Vec<String>> = Vec::new();
    let mut i: usize = 0;
    while i < v.len()
        invariant
            i <= v.len(),
            sv == json_seq_view(v@),
            j@ == JsonV::Array(sv),
            sv.len() == v@.len(),
            forall|k: int| 0 <= k < v@.len() ==> #[trigger] sv[k] == v@[k]@,
            de_string_lists(sv.take(i as int)) == Some(out.deep_view()),
        decreases v.len() - i,
    {
        assert(sv.take(i + 1).drop_last() =~= sv.take(i as int));
        assert(sv.take(i + 1).last() == v@[i as int]@);
        let item = match &v[i] {
            Json::Array(w) => strings_from(w),
            _ => None,
        };
        match item {
            Some(o) => {
                let ghost before = out.deep_view();
                out.push(o);
                assert(out.deep_view() =~= before.push(o.deep_view()));
            },
            None => {
                proof {
                    lemma_de_string_lists_prefix_none(sv, (i + 1) as int);
                }
                return None;
            },
        }
        i = i + 1;
    }
    assert(sv.take(v.len() as int) =~= sv);
    Some(out)
}

} // verus!
