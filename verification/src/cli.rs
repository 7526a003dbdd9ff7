//! The interactive questions of the command line: which model to set up,
//! whether to download it now, and the listing of key names.
use crate::config::ModelSize;
use crate::text::ascii_lower_char;
use crate::text::chars_of;
use crate::text::push_char;
use crate::text::push_str;
use vstd::prelude::*;

verus! {

broadcast use vstd::string::group_string_axioms;

/// The model picked by an answer to the setup menu: `1` tiny.en, `2` or
/// nothing base.en, `3` small.en.
pub open spec fn chosen_model(answer: Seq<char>) -> Option<ModelSize> {
    if answer == seq!['1'] {
        Some(ModelSize::TinyEn)
    } else if answer.len() == 0 || answer == seq!['2'] {
        Some(ModelSize::BaseEn)
    } else if answer == seq!['3'] {
        Some(ModelSize::SmallEn)
    } else {
        None
    }
}

/// `a` equals `b` when ASCII letters are compared without case.
pub open spec fn eq_ignore_ascii_case(a: Seq<char>, b: Seq<char>) -> bool {
    a.len() == b.len() && forall|i: int|
        0 <= i < a.len() ==> ascii_lower_char(#[trigger] a[i]) == ascii_lower_char(b[i])
}

/// Whether an answer to a yes/no question is yes: `y` or `yes`, in any case.
pub open spec fn is_yes(answer: Seq<char>) -> bool {
    eq_ignore_ascii_case(answer, seq!['y']) || eq_ignore_ascii_case(answer, seq!['y', 'e', 's'])
}

/// The model picked by an answer to the setup menu, or `None` when the
/// answer is not one of the choices.
pub fn model_choice(answer: &str) -> (m: Option<ModelSize>)
    ensures
        m == chosen_model(answer@),
{
    let v = chars_of(answer);
    if v.len() == 0 {
        Some(ModelSize::BaseEn)
    } else if v.len() == 1 && v[0] == '1' {
        assert(v@ =~= seq!['1']);
        Some(ModelSize::TinyEn)
    } else if v.len() == 1 && v[0] == '2' {
        assert(v@ =~= seq!['2']);
        Some(ModelSize::BaseEn)
    } else if v.len() == 1 && v[0] == '3' {
        assert(v@ =~= seq!['3']);
        Some(ModelSize::SmallEn)
    } else {
        None
    }
}

fn lower(c: char) -> (r: char)
    ensures
        r == ascii_lower_char(c),
{
    if 'A' <= c && c <= 'Z' {
        ((c as u8) + 32) as char
    } else {
        c
    }
}

fn eq_ascii_case(a: &Vec<char>, b: &Vec<char>) -> (r: bool)
    ensures
        r == eq_ignore_ascii_case(a@, b@),
{
    if a.len() != b.len() {
        return false;
    }
    let mut i: usize = 0;
    while i < a.len()
        invariant
            i <= a.len() == b.len(),
            forall|k: int| 0 <= k < i ==> ascii_lower_char(#[trigger] a@[k]) == ascii_lower_char(
                b@[k],
            ),
        decreases a.len() - i,
    {
        if lower(a[i]) != lower(b[i]) {
            return false;
        }
        i = i + 1;
    }
    true
}

/// Whether an answer to a yes/no question is yes: `y` or `yes`, in any case.
pub fn answer_is_yes(answer: &str) -> (b: bool)
    ensures
        b == is_yes(answer@),
{
    let v = chars_of(answer);
    let y: Vec<char> = vec!['y'];
    let yes: Vec<char> = vec!['y', 'e', 's'];
    assert(y@ =~= seq!['y']);
    assert(yes@ =~= seq!['y', 'e', 's']);
    eq_ascii_case(&v, &y) || eq_ascii_case(&v, &yes)
}

/// `s` padded with spaces to at least `width` characters (`{:<width}`).
pub open spec fn padded(s: Seq<char>, width: nat) -> Seq<char> {
    if s.len() >= width {
        s
    } else {
        s + Seq::new((width - s.len()) as nat, |i: int| ' ')
    }
}

/// A line of the key listing: the key's name in a column of twenty
/// characters, then how it is displayed.
pub fn key_listing_line(name: &str, display: &str) -> (s: String)
    ensures
        s@ == padded(name@, 20) + seq![' '] + display@,
{
    let mut s = name.to_owned();
    let n = chars_of(name).len();
    let mut k: usize = n;
    while k < 20
        invariant
            n == name@.len(),
            n <= k <= 20 || (k == n && n > 20),
            s@ == name@ + Seq::new((k - n) as nat, |i: int| ' '),
        decreases 20 - k,
    {
        push_char(&mut s, ' ');
        assert(name@ + Seq::new((k + 1 - n) as nat, |i: int| ' ') =~= (name@ + Seq::new(
            (k - n) as nat,
            |i: int| ' ',
        )).push(' '));
        k = k + 1;
    }
    assert(s@ =~= padded(name@, 20));
    push_char(&mut s, ' ');
    push_str(&mut s, display);
    s
}

} // verus!
