//! JSON values as the library reads them, with their mathematical model.
//!
//! A `Json` holds a JSON document as plain values: numbers are kept as their
//! decimal text, objects as their entries in order.
use crate::text::chars_eq;
use crate::text::chars_of;
use vstd::prelude::*;

verus! {

broadcast use vstd::string::group_string_axioms;

/// A JSON value.
#[derive(Debug, PartialEq)]
pub enum Json {
    Null,
    Bool(bool),
    /// A number, by its text.
    Number(String),
    Str(String),
    Array(Vec<Json>),
    /// An object, by its entries in order.
    Object(Vec<(String, Json)>),
}

/// The mathematical model of a JSON value.
pub enum JsonV {
    Null,
    Bool(bool),
    Number(Seq<char>),
    Str(Seq<char>),
    Array(Seq<JsonV>),
    Object(Seq<(Seq<char>, JsonV)>),
}

/// The model of a JSON value.
pub open spec fn json_view(j: Json) -> JsonV
    decreases j,
{
    match j {
        Json::Null => JsonV::Null,
        Json::Bool(b) => JsonV::Bool(b),
        Json::Number(n) => JsonV::Number(n@),
        Json::Str(s) => JsonV::Str(s@),
        Json::Array(v) => JsonV::Array(json_seq_view(v@)),
        Json::Object(es) => JsonV::Object(entries_view(es@)),
    }
}

/// The models of a sequence of JSON values.
pub open spec fn json_seq_view(s: Seq<Json>) -> Seq<JsonV>
    decreases s,
{
    if s.len() == 0 {
        seq![]
    } else {
        json_seq_view(s.drop_last()).push(json_view(s.last()))
    }
}

/// The models of a sequence of object entries.
pub open spec fn entries_view(s: Seq<(String, Json)>) -> Seq<(Seq<char>, JsonV)>
    decreases s,
{
    if s.len() == 0 {
        seq![]
    } else {
        entries_view(s.drop_last()).push((s.last().0@, json_view(s.last().1)))
    }
}

impl View for Json {
    type V = JsonV;

    open spec fn view(&self) -> JsonV {
        json_view(*self)
    }
}

pub proof fn lemma_json_seq_view(s: Seq<Json>)
    ensures
        json_seq_view(s).len() == s.len(),
        forall|i: int| 0 <= i < s.len() ==> #[trigger] json_seq_view(s)[i] == json_view(s[i]),
    decreases s.len(),
{
    if s.len() > 0 {
        lemma_json_seq_view(s.drop_last());
    }
}

pub proof fn lemma_entries_view(s: Seq<(String, Json)>)
    ensures
        entries_view(s).len() == s.len(),
        forall|i: int|
            0 <= i < s.len() ==> #[trigger] entries_view(s)[i] == (s[i].0@, json_view(s[i].1)),
    decreases s.len(),
{
    if s.len() > 0 {
        lemma_entries_view(s.drop_last());
    }
}

/// The value of the first entry named `key`, if `j` is an object that has
/// one (`serde_json::Value::get` with a string key).
pub open spec fn get(j: JsonV, key: Seq<char>) -> Option<JsonV> {
    match j {
        JsonV::Object(es) => entry_value(es, key),
        _ => None,
    }
}

/// The value of the first entry named `key`.
pub open spec fn entry_value(es: Seq<(Seq<char>, JsonV)>, key: Seq<char>) -> Option<JsonV>
    decreases es.len(),
{
    if es.len() == 0 {
        None
    } else if es[0].0 == key {
        Some(es[0].1)
    } else {
        entry_value(es.drop_first(), key)
    }
}

/// The text of a string value (`serde_json::Value::as_str`).
pub open spec fn as_str(j: Option<JsonV>) -> Option<Seq<char>> {
    match j {
        Some(JsonV::Str(s)) => Some(s),
        _ => None,
    }
}

/// The text of `key` in `j` if it is a string, else empty.
pub open spec fn str_field_or_empty(j: JsonV, key: Seq<char>) -> Seq<char> {
    match as_str(get(j, key)) {
        Some(s) => s,
        None => seq![],
    }
}

impl Json {
    /// The value of the first entry named `key`, if this is an object that has
    /// one.
    pub fn get(&self, key: &str) -> (r: Option<&Json>)
        ensures
            match r {
                Some(x) => get(self@, key@) == Some(x@),
                None => get(self@, key@) is None,
            },
    {
        match self {
            Json::Object(es) => {
                let k = chars_of(key);
                let mut i: usize = 0;
                proof {
                    assert(self@ == JsonV::Object(entries_view(es@)));
                    lemma_entries_view(es@);
                    assert(entries_view(es@).skip(0) =~= entries_view(es@));
                }
                while i < es.len()
                    invariant
                        i <= es.len(),
                        k@ == key@,
                        self@ == JsonV::Object(entries_view(es@)),
                        entries_view(es@).len() == es@.len(),
                        forall|m: int|
                            0 <= m < es@.len() ==> #[trigger] entries_view(es@)[m] == (
                            es@[m].0@,
                            json_view(es@[m].1),
                        ),
                        entry_value(entries_view(es@), key@) == entry_value(
                            entries_view(es@).skip(i as int),
                            key@,
                        ),
                    decreases es.len() - i,
                {
                    let name = chars_of(es[i].0.as_str());
                    let ghost rest = entries_view(es@).skip(i as int);
                    assert(rest[0] == entries_view(es@)[i as int]);
                    if chars_eq(&name, &k) {
                        assert(rest.len() > 0);
                        assert(entry_value(rest, key@) == Some(rest[0].1));
                        return Some(&es[i].1);
                    }
                    assert(rest.drop_first() =~= entries_view(es@).skip(i + 1));
                    i = i + 1;
                }
                None
            },
            _ => None,
        }
    }

    /// The text of this value if it is a string.
    pub fn as_str(&self) -> (r: Option<&str>)
        ensures
            match r {
                Some(s) => as_str(Some(self@)) == Some(s@),
                None => as_str(Some(self@)) is None,
            },
    {
        match self {
            Json::Str(s) => Some(s.as_str()),
            _ => None,
        }
    }
}

/// A copy of a JSON value.
pub fn clone_json(j: &Json) -> (r: Json)
    ensures
        r@ == j@,
    decreases j,
{
    match j {
        Json::Null => Json::Null,
        Json::Bool(b) => Json::Bool(*b),
        Json::Number(n) => Json::Number(n.clone()),
        Json::Str(s) => Json::Str(s.clone()),
        Json::Array(v) => {
            let mut out: Vec<Json> = Vec::new();
            let mut i: usize = 0;
            assert forall|k: int| 0 <= k < v.len() implies decreases_to!(j => v@[k]) by {
                assert(decreases_to!(j => *v));
                assert(decreases_to!(*v => v@));
                assert(decreases_to!(v@ => v@[k]));
            }
            while i < v.len()
                invariant
                    i <= v.len(),
                    forall|k: int| 0 <= k < v.len() ==> decreases_to!(j => v@[k]),
                    json_seq_view(out@) == json_seq_view(v@.take(i as int)),
                decreases v.len() - i,
            {
                let x = clone_json(&v[i]);
                let ghost before = out@;
                out.push(x);
                assert(out@.drop_last() =~= before);
                assert(v@.take(i + 1).drop_last() =~= v@.take(i as int));
                i = i + 1;
            }
            assert(v@.take(v.len() as int) =~= v@);
            Json::Array(out)
        },
        Json::Object(es) => {
            let mut out: Vec<(String, Json)> = Vec::new();
            let mut i: usize = 0;
            assert forall|k: int| 0 <= k < es.len() implies decreases_to!(j => es@[k].1) by {
                assert(decreases_to!(j => *es));
                assert(decreases_to!(*es => es@));
                assert(decreases_to!(es@ => es@[k]));
                assert(decreases_to!(es@[k] => es@[k].1));
            }
            while i < es.len()
                invariant
                    i <= es.len(),
                    forall|k: int| 0 <= k < es.len() ==> decreases_to!(j => es@[k].1),
                    entries_view(out@) == entries_view(es@.take(i as int)),
                decreases es.len() - i,
            {
                let x = clone_json(&es[i].1);
                let k = es[i].0.clone();
                let ghost before = out@;
                out.push((k, x));
                assert(out@.drop_last() =~= before);
                assert(es@.take(i + 1).drop_last() =~= es@.take(i as int));
                i = i + 1;
            }
            assert(es@.take(es.len() as int) =~= es@);
            Json::Object(out)
        },
    }
}

/// The text of an optional value if it is a string.
pub fn opt_as_str<'a>(j: Option<&'a Json>) -> (r: Option<&'a str>)
    ensures
        match r {
            Some(s) => j is Some && as_str(Some(j.unwrap()@)) == Some(s@),
            None => j is None || as_str(Some(j.unwrap()@)) is None,
        },
{
    match j {
        Some(x) => x.as_str(),
        None => None,
    }
}

/// The text of `key` in `j` if it is a string, else an empty string.
pub fn str_field_or_empty_exec(j: &Json, key: &str) -> (r: String)
    ensures
        r@ == str_field_or_empty(j@, key@),
{
    match opt_as_str(j.get(key)) {
        Some(s) => s.to_owned(),
        None => String::new(),
    }
}

// ───────────────────────── JSON text ─────────────────────────

#[verifier::external_type_specification]
#[verifier::external_body]
pub struct ExSerdeValue(serde_json::Value);

/// The JSON value that a text denotes, as `serde_json::from_str` reads it,
/// or `None` when the text is not JSON.
pub uninterp spec fn json_of_text(text: Seq<char>) -> Option<JsonV>;

/// Calls `serde_json::from_str::<serde_json::Value>` and converts the value
/// variant for variant. Claimed: the result is the value that the text
/// denotes, a function of the text alone, and `None` exactly when serde_json
/// refuses the text.
#[verifier::external_body]
pub(crate) fn parse_json(text: &str) -> (r: Option<Json>)
    ensures
        match r {
            Some(j) => json_of_text(text@) == Some(j@),
            None => json_of_text(text@) is None,
        },
{
    match serde_json::from_str::<serde_json::Value>(text) {
        Ok(v) => Some(json_from_value(&v)),
        Err(_) => None,
    }
}

/// Converts a `serde_json::Value` into the library's value, variant for
/// variant: numbers keep their text, objects their entries in the order the
/// value holds them. Nothing is claimed of it on its own; `parse_json`'s
/// claim covers it.
#[verifier::external_body]
fn json_from_value(v: &serde_json::Value) -> Json {
    match v {
        serde_json::Value::Null => Json::Null,
        serde_json::Value::Bool(b) => Json::Bool(*b),
        serde_json::Value::Number(n) => Json::Number(n.to_string()),
        serde_json::Value::String(s) => Json::Str(s.clone()),
        serde_json::Value::Array(a) => Json::Array(a.iter().map(json_from_value).collect()),
        serde_json::Value::Object(m) => Json::Object(
            m.iter().map(|(k, x)| (k.clone(), json_from_value(x))).collect(),
        ),
    }
}

} // verus!
