//! Key names for the hotkey options: display formatting, the table of
//! names and their Linux input key codes, and resolution of a name.
use crate::text::all_ascii;
use crate::text::ascii_upper_char;
use crate::text::chars_eq;
use crate::text::chars_of;
use crate::text::is_prefix;
use crate::text::join;
use crate::text::parse_unsigned;
use crate::text::parse_unsigned_exec;
use crate::text::push_str;
use crate::text::slice_chars;
use crate::text::starts_with;
use crate::text::string_of;
use crate::text::to_uppercase_char;
use crate::text::uppercase_char;
use vstd::prelude::*;

verus! {

broadcast use vstd::string::group_string_axioms;

// ───────────────────────── key name formatting ─────────────────────────

/// The pieces of `s` between occurrences of `sep` (`str::split`), empty
/// pieces included.
pub open spec fn split_on(s: Seq<char>, sep: char) -> Seq<Seq<char>>
    decreases s.len(),
{
    if s.len() == 0 {
        seq![seq![]]
    } else if s.last() == sep {
        split_on(s.drop_last(), sep).push(seq![])
    } else {
        let ps = split_on(s.drop_last(), sep);
        ps.update(ps.len() - 1, ps.last().push(s.last()))
    }
}

proof fn lemma_split_on_nonempty(s: Seq<char>, sep: char)
    ensures
        split_on(s, sep).len() >= 1,
    decreases s.len(),
{
    if s.len() > 0 {
        lemma_split_on_nonempty(s.drop_last(), sep);
    }
}

/// A word with its first character in upper case.
pub open spec fn capitalized(w: Seq<char>) -> Seq<char> {
    if w.len() == 0 {
        w
    } else {
        uppercase_char(w[0]) + w.drop_first()
    }
}

/// The display form of a key name: its `_`-separated words capitalized and
/// joined by spaces.
pub open spec fn key_display_name(s: Seq<char>) -> Seq<char> {
    join(split_on(s, '_').map_values(|w: Seq<char>| capitalized(w)), seq![' '])
}

/// A word of ASCII text with its first letter in upper case.
pub open spec fn capitalized_ascii(w: Seq<char>) -> Seq<char> {
    if w.len() == 0 {
        w
    } else {
        seq![ascii_upper_char(w[0])] + w.drop_first()
    }
}

/// The display form of an ASCII key name: as `key_display_name`, with the
/// first letter of each word mapped from `a`..`z` to `A`..`Z`.
pub open spec fn key_display_name_ascii(s: Seq<char>) -> Seq<char> {
    join(split_on(s, '_').map_values(|w: Seq<char>| capitalized_ascii(w)), seq![' '])
}

proof fn lemma_split_on_ascii(s: Seq<char>, sep: char)
    requires
        all_ascii(s),
    ensures
        forall|k: int| 0 <= k < split_on(s, sep).len() ==> all_ascii(#[trigger] split_on(s, sep)[k]),
    decreases s.len(),
{
    if s.len() > 0 {
        lemma_split_on_ascii(s.drop_last(), sep);
        lemma_split_on_nonempty(s.drop_last(), sep);
        let ps = split_on(s.drop_last(), sep);
        if s.last() != sep {
            assert(all_ascii(ps.last().push(s.last()))) by {
                assert(all_ascii(ps[ps.len() - 1]));
                assert((s[s.len() - 1] as u32) < 128);
            }
        }
    }
}

pub open spec fn pieces_view(p: Seq<Vec<char>>) -> Seq<Seq<char>> {
    p.map_values(|v: Vec<char>| v@)
}

fn capitalize(w: &Vec<char>) -> (r: String)
    ensures
        r@ == capitalized(w@),
        all_ascii(w@) ==> r@ == capitalized_ascii(w@),
{
    if w.len() == 0 {
        return String::new();
    }
    let mut r = to_uppercase_char(w[0]);
    let rest = slice_chars(w, 1, w.len());
    assert(rest@ =~= w@.drop_first());
    let rs = string_of(&rest);
    push_str(&mut r, rs.as_str());
    r
}

/// Formats a key name for display (e.g., "right_option" → "Right Option").
pub fn format_key_name(input: &str) -> (r: String)
    ensures
        r@ == key_display_name(input@),
        all_ascii(input@) ==> r@ == key_display_name_ascii(input@),
{
    let s = chars_of(input);
    // pieces holds the pieces of the input read so far; the last one grows
    let mut pieces: Vec<Vec<char>> = Vec::new();
    pieces.push(Vec::new());
    assert(pieces_view(pieces@) =~= split_on(s@.take(0), '_'));
    let mut i: usize = 0;
    while i < s.len()
        invariant
            i <= s.len(),
            pieces_view(pieces@) == split_on(s@.take(i as int), '_'),
            pieces.len() >= 1,
        decreases s.len() - i,
    {
        let c = s[i];
        let ghost t = s@.take(i as int);
        assert(s@.take(i + 1).drop_last() =~= t);
        assert(s@.take(i + 1).last() == c);
        if c == '_' {
            let ghost before = pieces_view(pieces@);
            pieces.push(Vec::new());
            assert(pieces_view(pieces@) =~= before.push(seq![]));
        } else {
            let ghost before = pieces_view(pieces@);
            let last = pieces.len() - 1;
            let mut w = pieces.pop().unwrap();
            w.push(c);
            pieces.push(w);
            assert(pieces_view(pieces@) =~= before.update(last as int, before.last().push(c)));
        }
        i = i + 1;
    }
    assert(s@.take(s.len() as int) =~= s@);
    let ghost caps = split_on(s@, '_').map_values(|w: Seq<char>| capitalized(w));
    let ghost caps_a = split_on(s@, '_').map_values(|w: Seq<char>| capitalized_ascii(w));
    proof {
        if all_ascii(s@) {
            lemma_split_on_ascii(s@, '_');
        }
    }
    let mut out = String::new();
    let mut k: usize = 0;
    while k < pieces.len()
        invariant
            k <= pieces.len(),
            pieces.len() >= 1,
            pieces_view(pieces@) == split_on(s@, '_'),
            caps == split_on(s@, '_').map_values(|w: Seq<char>| capitalized(w)),
            out@ == join(caps.take(k as int), seq![' ']),
            caps_a == split_on(s@, '_').map_values(|w: Seq<char>| capitalized_ascii(w)),
            all_ascii(s@) ==> out@ == join(caps_a.take(k as int), seq![' ']),
            all_ascii(s@) ==> forall|j: int|
                0 <= j < split_on(s@, '_').len() ==> all_ascii(#[trigger] split_on(s@, '_')[j]),
        decreases pieces.len() - k,
    {
        let word = capitalize(&pieces[k]);
        assert(pieces_view(pieces@)[k as int] == pieces@[k as int]@);
        assert(caps.take(k + 1).drop_last() =~= caps.take(k as int));
        assert(caps_a.take(k + 1).drop_last() =~= caps_a.take(k as int));
        if k > 0 {
            push_str(&mut out, " ");
            assert(" "@ =~= seq![' ']) by {
                reveal_strlit(" ");
            }
        } else {
            assert(caps.take(0) =~= seq![]);
            assert(caps_a.take(0) =~= seq![]);
        }
        push_str(&mut out, word.as_str());
        k = k + 1;
    }
    assert(caps.take(pieces.len() as int) =~= caps);
    assert(caps_a.take(pieces.len() as int) =~= caps_a);
    out
}

// ───────────────────────── key table ─────────────────────────

/// The key names and the Linux input key codes they stand for.
pub open spec fn key_table() -> Seq<(Seq<char>, u16)> {
    seq![
        ("numpad_0"@, 82),
        ("numpad_1"@, 79),
        ("numpad_2"@, 80),
        ("numpad_3"@, 81),
        ("numpad_4"@, 75),
        ("numpad_5"@, 76),
        ("numpad_6"@, 77),
        ("numpad_7"@, 71),
        ("numpad_8"@, 72),
        ("numpad_9"@, 73),
        ("numpad_enter"@, 96),
        ("numpad_decimal"@, 83),
        ("numpad_dot"@, 83),
        ("numpad_plus"@, 78),
        ("numpad_add"@, 78),
        ("numpad_minus"@, 74),
        ("numpad_subtract"@, 74),
        ("numpad_multiply"@, 55),
        ("numpad_divide"@, 98),
        ("numpad_clear"@, 69),
        ("numpad_equals"@, 117),
        ("right_option"@, 100),
        ("right_alt"@, 100),
        ("left_option"@, 56),
        ("left_alt"@, 56),
        ("right_command"@, 126),
        ("right_cmd"@, 126),
        ("left_command"@, 125),
        ("left_cmd"@, 125),
        ("right_shift"@, 54),
        ("left_shift"@, 42),
        ("right_control"@, 97),
        ("right_ctrl"@, 97),
        ("left_control"@, 29),
        ("left_ctrl"@, 29),
        ("fn_key"@, 464),
        ("fn"@, 464),
        ("caps_lock"@, 58),
        ("f1"@, 59),
        ("f2"@, 60),
        ("f3"@, 61),
        ("f4"@, 62),
        ("f5"@, 63),
        ("f6"@, 64),
        ("f7"@, 65),
        ("f8"@, 66),
        ("f9"@, 67),
        ("f10"@, 68),
        ("f11"@, 87),
        ("f12"@, 88),
        ("f13"@, 183),
        ("f14"@, 184),
        ("f15"@, 185),
        ("f16"@, 186),
        ("f17"@, 187),
        ("f18"@, 188),
        ("f19"@, 189),
        ("f20"@, 190),
        ("space"@, 57),
        ("tab"@, 15),
        ("escape"@, 1),
        ("delete"@, 14),
        ("forward_delete"@, 111),
        ("return_key"@, 28),
        ("return"@, 28),
        ("enter"@, 28),
        ("home"@, 102),
        ("end"@, 107),
        ("page_up"@, 104),
        ("page_down"@, 109),
        ("up_arrow"@, 103),
        ("down_arrow"@, 108),
        ("left_arrow"@, 105),
        ("right_arrow"@, 106),
        ("insert"@, 110),
        ("print_screen"@, 99),
        ("scroll_lock"@, 70),
        ("pause"@, 119),
        ("num_lock"@, 69),
        ("section"@, 86),
        ("grave"@, 41),
        ("minus"@, 12),
        ("equal"@, 13),
        ("left_bracket"@, 26),
        ("right_bracket"@, 27),
        ("backslash"@, 43),
        ("semicolon"@, 39),
        ("quote"@, 40),
        ("comma"@, 51),
        ("period"@, 52),
        ("slash"@, 53)
    ]
}

fn key_table_exec() -> (v: Vec<(&'static str, u16)>)
    ensures
        v@.map_values(|e: (&str, u16)| (e.0@, e.1)) == key_table(),
{
    let v = vec![
        ("numpad_0", 82),
        ("numpad_1", 79),
        ("numpad_2", 80),
        ("numpad_3", 81),
        ("numpad_4", 75),
        ("numpad_5", 76),
        ("numpad_6", 77),
        ("numpad_7", 71),
        ("numpad_8", 72),
        ("numpad_9", 73),
        ("numpad_enter", 96),
        ("numpad_decimal", 83),
        ("numpad_dot", 83),
        ("numpad_plus", 78),
        ("numpad_add", 78),
        ("numpad_minus", 74),
        ("numpad_subtract", 74),
        ("numpad_multiply", 55),
        ("numpad_divide", 98),
        ("numpad_clear", 69),
        ("numpad_equals", 117),
        ("right_option", 100),
        ("right_alt", 100),
        ("left_option", 56),
        ("left_alt", 56),
        ("right_command", 126),
        ("right_cmd", 126),
        ("left_command", 125),
        ("left_cmd", 125),
        ("right_shift", 54),
        ("left_shift", 42),
        ("right_control", 97),
        ("right_ctrl", 97),
        ("left_control", 29),
        ("left_ctrl", 29),
        ("fn_key", 464),
        ("fn", 464),
        ("caps_lock", 58),
        ("f1", 59),
        ("f2", 60),
        ("f3", 61),
        ("f4", 62),
        ("f5", 63),
        ("f6", 64),
        ("f7", 65),
        ("f8", 66),
        ("f9", 67),
        ("f10", 68),
        ("f11", 87),
        ("f12", 88),
        ("f13", 183),
        ("f14", 184),
        ("f15", 185),
        ("f16", 186),
        ("f17", 187),
        ("f18", 188),
        ("f19", 189),
        ("f20", 190),
        ("space", 57),
        ("tab", 15),
        ("escape", 1),
        ("delete", 14),
        ("forward_delete", 111),
        ("return_key", 28),
        ("return", 28),
        ("enter", 28),
        ("home", 102),
        ("end", 107),
        ("page_up", 104),
        ("page_down", 109),
        ("up_arrow", 103),
        ("down_arrow", 108),
        ("left_arrow", 105),
        ("right_arrow", 106),
        ("insert", 110),
        ("print_screen", 99),
        ("scroll_lock", 70),
        ("pause", 119),
        ("num_lock", 69),
        ("section", 86),
        ("grave", 41),
        ("minus", 12),
        ("equal", 13),
        ("left_bracket", 26),
        ("right_bracket", 27),
        ("backslash", 43),
        ("semicolon", 39),
        ("quote", 40),
        ("comma", 51),
        ("period", 52),
        ("slash", 53)
    ];
    assert(v@.map_values(|e: (&str, u16)| (e.0@, e.1)) =~= key_table());
    v
}

/// The code of the first entry named `name`.
pub open spec fn lookup_key(t: Seq<(Seq<char>, u16)>, name: Seq<char>) -> Option<u16>
    decreases t.len(),
{
    if t.len() == 0 {
        None
    } else if t[0].0 == name {
        Some(t[0].1)
    } else {
        lookup_key(t.drop_first(), name)
    }
}

/// The key code a name resolves to: a named key, else a hexadecimal code
/// after `0x` or `0X`, else a decimal code.
pub open spec fn resolve_key_spec(name: Seq<char>) -> Option<u16> {
    match lookup_key(key_table(), name) {
        Some(k) => Some(k),
        None => {
            let hex = if is_prefix("0x"@, name) || is_prefix("0X"@, name) {
                parse_unsigned(name.skip(2), 16, 65535)
            } else {
                None
            };
            match hex {
                Some(v) => Some(v as u16),
                None => match parse_unsigned(name, 10, 65535) {
                    Some(v) => Some(v as u16),
                    None => None,
                },
            }
        },
    }
}

/// The message for a key name that resolves to nothing.
pub open spec fn unknown_key_message(name: Seq<char>) -> Seq<char> {
    "Unknown key name: '"@ + name + "'. Use 'opencode-voice keys' to list valid names."@
}

fn lookup_key_exec(name: &Vec<char>) -> (r: Option<u16>)
    ensures
        r == lookup_key(key_table(), name@),
{
    let t = key_table_exec();
    let ghost tv = key_table();
    let mut i: usize = 0;
    assert(tv.skip(0) =~= tv);
    while i < t.len()
        invariant
            i <= t.len(),
            t@.map_values(|e: (&str, u16)| (e.0@, e.1)) == tv,
            tv == key_table(),
            lookup_key(tv, name@) == lookup_key(tv.skip(i as int), name@),
        decreases t.len() - i,
    {
        let ghost rest = tv.skip(i as int);
        assert(rest[0] == (t@[i as int].0@, t@[i as int].1));
        let k = chars_of(t[i].0);
        if chars_eq(&k, name) {
            assert(rest.len() > 0);
            assert(lookup_key(rest, name@) == Some(rest[0].1));
            let code = t[i].1;
            assert(code == rest[0].1);
            assert(lookup_key(tv, name@) == Some(code));
            return Some(code);
        }
        assert(rest.drop_first() =~= tv.skip(i + 1));
        i = i + 1;
    }
    None
}

/// Resolves a key name to a Linux input key code: a named key, else a
/// hexadecimal code after `0x` or `0X`, else a decimal code.
pub fn resolve_key_code(input: &str) -> (r: Result<u16, String>)
    ensures
        match r {
            Ok(k) => resolve_key_spec(input@) == Some(k),
            Err(m) => resolve_key_spec(input@) is None && m@ == unknown_key_message(input@),
        },
{
    let name = chars_of(input);
    match lookup_key_exec(&name) {
        Some(k) => {
            return Ok(k);
        },
        None => {},
    }
    let lower_prefix = chars_of("0x");
    let upper_prefix = chars_of("0X");
    if starts_with(&name, &lower_prefix) || starts_with(&name, &upper_prefix) {
        proof {
            reveal_strlit("0x");
            reveal_strlit("0X");
        }
        let hex = slice_chars(&name, 2, name.len());
        assert(hex@ =~= name@.skip(2));
        match parse_unsigned_exec(&hex, 16, 65535) {
            Some(v) => {
                return Ok(v as u16);
            },
            None => {},
        }
    }
    match parse_unsigned_exec(&name, 10, 65535) {
        Some(v) => Ok(v as u16),
        None => {
            let mut m = String::new();
            push_str(&mut m, "Unknown key name: '");
            push_str(&mut m, input);
            push_str(&mut m, "'. Use 'opencode-voice keys' to list valid names.");
            Err(m)
        },
    }
}

// ───────────────────────── sorted key names ─────────────────────────

/// Lexicographic order of strings by character (which is the order of
/// their UTF-8 bytes, the order of `str`).
pub open spec fn lex_lt(a: Seq<char>, b: Seq<char>) -> bool
    decreases a.len(),
{
    if a.len() == 0 {
        b.len() > 0
    } else if b.len() == 0 {
        false
    } else if a[0] < b[0] {
        true
    } else if a[0] > b[0] {
        false
    } else {
        lex_lt(a.drop_first(), b.drop_first())
    }
}

proof fn lemma_lex_irreflexive(a: Seq<char>)
    ensures
        !lex_lt(a, a),
    decreases a.len(),
{
    if a.len() > 0 {
        lemma_lex_irreflexive(a.drop_first());
    }
}

proof fn lemma_lex_transitive(a: Seq<char>, b: Seq<char>, c: Seq<char>)
    requires
        lex_lt(a, b),
        lex_lt(b, c),
    ensures
        lex_lt(a, c),
    decreases a.len(),
{
    if a.len() > 0 && b.len() > 0 && c.len() > 0 && a[0] == b[0] && b[0] == c[0] {
        lemma_lex_transitive(a.drop_first(), b.drop_first(), c.drop_first());
    }
}

proof fn lemma_lex_total(a: Seq<char>, b: Seq<char>)
    requires
        a != b,
        !lex_lt(a, b),
    ensures
        lex_lt(b, a),
    decreases a.len(),
{
    if a.len() > 0 && b.len() > 0 && a[0] == b[0] {
        if a.drop_first() == b.drop_first() {
            assert(a =~= seq![a[0]] + a.drop_first());
            assert(b =~= seq![b[0]] + b.drop_first());
        }
        lemma_lex_total(a.drop_first(), b.drop_first());
    } else if a.len() > 0 && b.len() > 0 {
        assert(a[0] != b[0]);
    } else if a.len() == 0 {
        assert(b.len() == 0);
        assert(a =~= b);
    }
}

/// Whether `a` comes before `b` in lexicographic order.
fn lex_less(a: &Vec<char>, b: &Vec<char>) -> (r: bool)
    ensures
        r == lex_lt(a@, b@),
{
    let mut i: usize = 0;
    assert(a@.skip(0) =~= a@);
    assert(b@.skip(0) =~= b@);
    while i < a.len() && i < b.len() && a[i] == b[i]
        invariant
            i <= a.len(),
            i <= b.len(),
            lex_lt(a@, b@) == lex_lt(a@.skip(i as int), b@.skip(i as int)),
        decreases a.len() - i,
    {
        assert(a@.skip(i as int).drop_first() =~= a@.skip(i + 1));
        assert(b@.skip(i as int).drop_first() =~= b@.skip(i + 1));
        i = i + 1;
    }
    if i == a.len() {
        i < b.len()
    } else if i == b.len() {
        false
    } else {
        assert(a@.skip(i as int)[0] == a@[i as int]);
        assert(b@.skip(i as int)[0] == b@[i as int]);
        a[i] < b[i]
    }
}

/// The names of a sequence of key table entries.
pub open spec fn names_of(t: Seq<(Seq<char>, u16)>) -> Seq<Seq<char>> {
    t.map_values(|e: (Seq<char>, u16)| e.0)
}

/// `s` is in strictly increasing lexicographic order.
pub open spec fn strictly_sorted(s: Seq<Seq<char>>) -> bool {
    forall|i: int, j: int| 0 <= i < j < s.len() ==> lex_lt(s[i], s[j])
}

pub open spec fn str_views(v: Seq<&str>) -> Seq<Seq<char>> {
    v.map_values(|s: &str| s@)
}

/// Returns a sorted list of all supported key names.
pub fn list_key_names() -> (names: Vec<&'static str>)
    ensures
        strictly_sorted(str_views(names@)),
        forall|n: Seq<char>| str_views(names@).contains(n) <==> names_of(key_table()).contains(n),
{
    let t = key_table_exec();
    let ghost tv = key_table();
    let mut out: Vec<&'static str> = Vec::new();
    let mut i: usize = 0;
    while i < t.len()
        invariant
            i <= t.len(),
            t@.map_values(|e: (&str, u16)| (e.0@, e.1)) == tv,
            tv == key_table(),
            strictly_sorted(str_views(out@)),
            forall|n: Seq<char>|
                str_views(out@).contains(n) <==> names_of(tv.take(i as int)).contains(n),
        decreases t.len() - i,
    {
        let name = t[i].0;
        let x = chars_of(name);
        let ghost xs = str_views(out@);
        // find the first entry not before x
        let mut j: usize = 0;
        while j < out.len() && lex_less(&chars_of(out[j]), &x)
            invariant
                j <= out.len(),
                xs == str_views(out@),
                forall|k: int| 0 <= k < j ==> lex_lt(xs[k], x@),
            decreases out.len() - j,
        {
            j = j + 1;
        }
        let ghost bn = names_of(tv.take(i as int));
        let ghost an = names_of(tv.take(i + 1));
        assert(an =~= bn.push(x@));
        if j < out.len() && chars_eq(&chars_of(out[j]), &x) {
            // already listed
            assert(xs[j as int] == x@);
            assert forall|n: Seq<char>|
                str_views(out@).contains(n) <==> an.contains(n) by {
                if n == x@ {
                    assert(str_views(out@)[j as int] == n);
                }
                if an.contains(n) && n != x@ {
                    let k = choose|k: int| 0 <= k < an.len() && an[k] == n;
                    assert(bn[k] == n);
                    assert(bn.contains(n));
                }
                if str_views(out@).contains(n) {
                    assert(xs.contains(n));
                    assert(bn.contains(n));
                    let k = choose|k: int| 0 <= k < bn.len() && bn[k] == n;
                    assert(an[k] == n);
                }
            }
        } else {
            proof {
                if j < out.len() {
                    lemma_lex_total(xs[j as int], x@);
                }
            }
            out.insert(j, name);
            let ghost ys = str_views(out@);
            assert(ys =~= xs.insert(j as int, x@));
            assert forall|a: int, b: int| 0 <= a < b < ys.len() implies lex_lt(ys[a], ys[b]) by {
                if b < j {
                } else if a < j && b == j {
                } else if a < j && b > j {
                    assert(lex_lt(xs[a], x@));
                    if b - 1 > j {
                        lemma_lex_transitive(x@, xs[j as int], xs[b - 1]);
                    }
                    lemma_lex_transitive(xs[a], x@, xs[b - 1]);
                } else if a == j {
                    if b - 1 > j {
                        lemma_lex_transitive(x@, xs[j as int], xs[b - 1]);
                    }
                } else {
                }
            }
            assert forall|n: Seq<char>|
                str_views(out@).contains(n) <==> an.contains(n) by {
                if ys.contains(n) {
                    let k = choose|k: int| 0 <= k < ys.len() && ys[k] == n;
                    if k < j {
                        assert(xs.contains(n)) by {
                            assert(xs[k] == n);
                        }
                    } else if k > j {
                        assert(xs.contains(n)) by {
                            assert(xs[k - 1] == n);
                        }
                    }
                    if n != x@ {
                        let m = choose|m: int|
                            0 <= m < bn.len() && bn[m] == n;
                        assert(an[m] == n);
                    } else {
                        assert(an[i as int] == n);
                    }
                }
                if an.contains(n) {
                    let m = choose|m: int|
                        0 <= m < an.len() && an[m]
                            == n;
                    if m < i {
                        assert(bn[m] == n);
                        assert(xs.contains(n));
                        let k = choose|k: int| 0 <= k < xs.len() && xs[k] == n;
                        if k < j {
                            assert(ys[k] == n);
                        } else {
                            assert(ys[k + 1] == n);
                        }
                    } else {
                        assert(ys[j as int] == n);
                    }
                }
            }
        }
        i = i + 1;
    }
    assert(tv.take(t.len() as int) =~= tv);
    out
}

} // verus!
