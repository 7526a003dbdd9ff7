//! Character-level text utilities: Unicode white space, trimming, word
//! splitting and joining, case mapping, substring search and decimal
//! formatting, each with a specification over `Seq<char>`.
use vstd::prelude::*;

verus! {

broadcast use vstd::string::group_string_axioms;

// ───────────────────────── specifications ─────────────────────────

/// The Unicode `White_Space` property, which is what `char::is_whitespace`
/// tests.
pub open spec fn is_white_space(c: char) -> bool {
    let n = c as u32;
    ||| 0x09 <= n <= 0x0D
    ||| n == 0x20
    ||| n == 0x85
    ||| n == 0xA0
    ||| n == 0x1680
    ||| 0x2000 <= n <= 0x200A
    ||| n == 0x2028
    ||| n == 0x2029
    ||| n == 0x202F
    ||| n == 0x205F
    ||| n == 0x3000
}

/// The character classes by which text is trimmed.
#[derive(Clone, Copy, Debug)]
pub enum CharClass {
    /// Unicode white space.
    WhiteSpace,
    /// Sentence punctuation: `. ! ? , ; :`.
    Punctuation,
    /// A comma or Unicode white space.
    CommaOrSpace,
}

pub open spec fn in_class(c: char, k: CharClass) -> bool {
    match k {
        CharClass::WhiteSpace => is_white_space(c),
        CharClass::Punctuation => c == '.' || c == '!' || c == '?' || c == ',' || c == ';' || c
            == ':',
        CharClass::CommaOrSpace => c == ',' || is_white_space(c),
    }
}

/// `s` without its leading characters of class `k`.
pub open spec fn trim_start_class(s: Seq<char>, k: CharClass) -> Seq<char>
    decreases s.len(),
{
    if s.len() > 0 && in_class(s[0], k) {
        trim_start_class(s.drop_first(), k)
    } else {
        s
    }
}

/// `s` without its trailing characters of class `k`.
pub open spec fn trim_end_class(s: Seq<char>, k: CharClass) -> Seq<char>
    decreases s.len(),
{
    if s.len() > 0 && in_class(s.last(), k) {
        trim_end_class(s.drop_last(), k)
    } else {
        s
    }
}

/// `s` without leading and trailing white space (`str::trim`).
pub open spec fn trim(s: Seq<char>) -> Seq<char> {
    trim_end_class(trim_start_class(s, CharClass::WhiteSpace), CharClass::WhiteSpace)
}

/// The maximal runs of non-white-space characters of `s`, in order
/// (`str::split_whitespace`).
pub open spec fn words(s: Seq<char>) -> Seq<Seq<char>>
    decreases s.len(),
{
    if s.len() == 0 {
        seq![]
    } else if is_white_space(s.last()) {
        words(s.drop_last())
    } else if s.len() > 1 && !is_white_space(s[s.len() - 2]) {
        let w = words(s.drop_last());
        w.update(w.len() - 1, w.last().push(s.last()))
    } else {
        words(s.drop_last()).push(seq![s.last()])
    }
}

/// The pieces of `ws` joined by `sep`.
pub open spec fn join(ws: Seq<Seq<char>>, sep: Seq<char>) -> Seq<char>
    decreases ws.len(),
{
    if ws.len() == 0 {
        seq![]
    } else if ws.len() == 1 {
        ws[0]
    } else {
        join(ws.drop_last(), sep) + sep + ws.last()
    }
}

/// The words of `s` separated by single spaces.
pub open spec fn collapse_white_space(s: Seq<char>) -> Seq<char> {
    join(words(s), seq![' '])
}

/// `p` is a prefix of `s`.
pub open spec fn is_prefix(p: Seq<char>, s: Seq<char>) -> bool {
    p.len() <= s.len() && s.take(p.len() as int) == p
}

/// `p` occurs in `s` starting at position `i`.
#[verifier::opaque]
pub open spec fn occurs_at(s: Seq<char>, p: Seq<char>, i: int) -> bool {
    0 <= i && i + p.len() <= s.len() && s.subrange(i, i + p.len()) == p
}

/// `p` occurs somewhere in `s`.
pub open spec fn contains(s: Seq<char>, p: Seq<char>) -> bool {
    exists|i: int| occurs_at(s, p, i)
}

/// `i` is the first position at which `p` occurs in `s` (what `str::find`
/// returns, counted in characters).
pub open spec fn is_first_occurrence(s: Seq<char>, p: Seq<char>, i: int) -> bool {
    occurs_at(s, p, i) && forall|j: int| 0 <= j < i ==> !occurs_at(s, p, j)
}

/// The Unicode lower-case mapping of a string, as `str::to_lowercase`
/// computes it.
pub uninterp spec fn lowercase(s: Seq<char>) -> Seq<char>;

/// The Unicode upper-case mapping of one character, as
/// `char::to_uppercase` yields it.
pub uninterp spec fn uppercase_char(c: char) -> Seq<char>;

/// An ASCII upper-case letter mapped to lower case; any other character
/// unchanged.
pub open spec fn ascii_lower_char(c: char) -> char {
    if 'A' <= c <= 'Z' {
        ((c as u32) + 32) as char
    } else {
        c
    }
}

/// An ASCII lower-case letter mapped to upper case; any other character
/// unchanged.
pub open spec fn ascii_upper_char(c: char) -> char {
    if 'a' <= c <= 'z' {
        ((c as u32) - 32) as char
    } else {
        c
    }
}

/// Every character of `s` is ASCII.
pub open spec fn all_ascii(s: Seq<char>) -> bool {
    forall|i: int| 0 <= i < s.len() ==> (s[i] as u32) < 128
}

/// The decimal digits of `n`, most significant first, without leading zeros
/// (`"0"` for zero).
pub open spec fn decimal(n: nat) -> Seq<char>
    decreases n,
{
    if n < 10 {
        seq![digit_char(n)]
    } else {
        decimal(n / 10).push(digit_char(n % 10))
    }
}

pub open spec fn digit_char(d: nat) -> char {
    if d == 0 { '0' }
    else if d == 1 { '1' }
    else if d == 2 { '2' }
    else if d == 3 { '3' }
    else if d == 4 { '4' }
    else if d == 5 { '5' }
    else if d == 6 { '6' }
    else if d == 7 { '7' }
    else if d == 8 { '8' }
    else { '9' }
}

/// The value of a digit character in base `radix` (ASCII digits, then
/// letters of either case from ten on).
pub open spec fn digit_value(c: char, radix: nat) -> Option<nat> {
    let n = c as u32;
    let v: int = if 0x30 <= n <= 0x39 {
        n - 0x30
    } else if 0x61 <= n <= 0x7A {
        n - 0x61 + 10
    } else if 0x41 <= n <= 0x5A {
        n - 0x41 + 10
    } else {
        -1
    };
    if 0 <= v < radix {
        Some(v as nat)
    } else {
        None
    }
}

/// The value of a string of digits in base `radix` (zero for no digits).
pub open spec fn digits_value(s: Seq<char>, radix: nat) -> Option<nat>
    decreases s.len(),
{
    if s.len() == 0 {
        Some(0)
    } else {
        match (digits_value(s.drop_last(), radix), digit_value(s.last(), radix)) {
            (Some(a), Some(d)) => Some(a * radix + d),
            _ => None,
        }
    }
}

/// Unsigned integer parsing as `u16::from_str_radix` and its kin do it: an
/// optional `+`, then at least one digit, the value at most `max`.
pub open spec fn parse_unsigned(s: Seq<char>, radix: nat, max: nat) -> Option<nat> {
    let body = if s.len() > 0 && s[0] == '+' {
        s.drop_first()
    } else {
        s
    };
    if body.len() == 0 {
        None
    } else {
        match digits_value(body, radix) {
            Some(v) => if v <= max {
                Some(v)
            } else {
                None
            },
            None => None,
        }
    }
}

// ───────────────────────── trusted std calls ─────────────────────────

/// Calls `str::to_lowercase`. Claimed: the result is the string's Unicode
/// lower-case mapping, a function of the string alone, and on ASCII text it
/// maps `A`..`Z` to `a`..`z` one for one and keeps every other character.
#[verifier::external_body]
pub(crate) fn to_lowercase(s: &str) -> (r: String)
    ensures
        r@ == lowercase(s@),
        all_ascii(s@) ==> r@ == s@.map_values(|c: char| ascii_lower_char(c)),
{
    s.to_lowercase()
}

/// Calls `char::to_uppercase` and collects what it yields. Claimed: the
/// result is the character's Unicode upper-case mapping, a function of the
/// character alone, and on an ASCII character it is that character with
/// `a`..`z` mapped to `A`..`Z`.
#[verifier::external_body]
pub(crate) fn to_uppercase_char(c: char) -> (r: String)
    ensures
        r@ == uppercase_char(c),
        (c as u32) < 128 ==> r@ == seq![ascii_upper_char(c)],
{
    c.to_uppercase().collect()
}

/// Calls `String::push`. Claimed: the character is appended.
#[verifier::external_body]
pub(crate) fn push_char(s: &mut String, c: char)
    ensures
        final(s)@ == old(s)@.push(c),
{
    s.push(c)
}

/// Calls `String::push_str`. Claimed: the slice is appended.
#[verifier::external_body]
pub(crate) fn push_str(s: &mut String, t: &str)
    ensures
        final(s)@ == old(s)@ + t@,
{
    s.push_str(t)
}

// ───────────────────────── executable functions ─────────────────────────

/// Collects the characters of a string slice into a vector.
pub fn chars_of(s: &str) -> (v: Vec<char>)
    ensures
        v@ == s@,
{
    let mut v: Vec<char> = Vec::new();
    for c in it: s.chars()
        invariant
            v@ == it.seq().take(it.index() as int),
            it.seq() == s@,
    {
        v.push(c);
    }
    v
}

/// Builds a string from a sequence of characters.
pub fn string_of(v: &Vec<char>) -> (s: String)
    ensures
        s@ == v@,
{
    let mut s = String::new();
    let mut i: usize = 0;
    while i < v.len()
        invariant
            i <= v.len(),
            s@ == v@.take(i as int),
        decreases v.len() - i,
    {
        push_char(&mut s, v[i]);
        assert(v@.take(i as int).push(v@[i as int]) =~= v@.take(i + 1));
        i = i + 1;
    }
    assert(v@.take(v.len() as int) =~= v@);
    s
}

/// `char::is_whitespace`: whether `c` has the Unicode `White_Space` property.
pub fn is_whitespace(c: char) -> (b: bool)
    ensures
        b == is_white_space(c),
{
    let n = c as u32;
    (0x09 <= n && n <= 0x0D) || n == 0x20 || n == 0x85 || n == 0xA0 || n == 0x1680 || (0x2000
        <= n && n <= 0x200A) || n == 0x2028 || n == 0x2029 || n == 0x202F || n == 0x205F || n
        == 0x3000
}

/// Whether `c` belongs to class `k`.
pub fn is_in_class(c: char, k: CharClass) -> (b: bool)
    ensures
        b == in_class(c, k),
{
    match k {
        CharClass::WhiteSpace => is_whitespace(c),
        CharClass::Punctuation => c == '.' || c == '!' || c == '?' || c == ',' || c == ';' || c
            == ':',
        CharClass::CommaOrSpace => c == ',' || is_whitespace(c),
    }
}

/// The characters of `v` from `lo` up to `hi`.
pub fn slice_chars(v: &Vec<char>, lo: usize, hi: usize) -> (r: Vec<char>)
    requires
        lo <= hi <= v.len(),
    ensures
        r@ == v@.subrange(lo as int, hi as int),
{
    let mut r: Vec<char> = Vec::new();
    let mut i = lo;
    while i < hi
        invariant
            lo <= i <= hi <= v.len(),
            r@ == v@.subrange(lo as int, i as int),
        decreases hi - i,
    {
        r.push(v[i]);
        assert(v@.subrange(lo as int, i as int).push(v@[i as int]) =~= v@.subrange(
            lo as int,
            i + 1,
        ));
        i = i + 1;
    }
    r
}

/// `v` without its leading characters of class `k`.
pub fn trim_start_of(v: &Vec<char>, k: CharClass) -> (r: Vec<char>)
    ensures
        r@ == trim_start_class(v@, k),
{
    let mut i: usize = 0;
    assert(v@.skip(0) =~= v@);
    while i < v.len() && is_in_class(v[i], k)
        invariant
            i <= v.len(),
            trim_start_class(v@, k) == trim_start_class(v@.skip(i as int), k),
        decreases v.len() - i,
    {
        assert(v@.skip(i as int).drop_first() =~= v@.skip(i + 1));
        i = i + 1;
    }
    assert(v@.skip(i as int) =~= v@.subrange(i as int, v.len() as int));
    slice_chars(v, i, v.len())
}

/// `v` without its trailing characters of class `k`.
pub fn trim_end_of(v: &Vec<char>, k: CharClass) -> (r: Vec<char>)
    ensures
        r@ == trim_end_class(v@, k),
{
    let mut j: usize = v.len();
    assert(v@.take(v.len() as int) =~= v@);
    while j > 0 && is_in_class(v[j - 1], k)
        invariant
            j <= v.len(),
            trim_end_class(v@, k) == trim_end_class(v@.take(j as int), k),
        decreases j,
    {
        assert(v@.take(j as int).drop_last() =~= v@.take(j - 1));
        j = j - 1;
    }
    assert(v@.take(j as int) =~= v@.subrange(0, j as int));
    slice_chars(v, 0, j)
}

/// `v` without leading and trailing white space.
pub fn trim_chars(v: &Vec<char>) -> (r: Vec<char>)
    ensures
        r@ == trim(v@),
{
    let a = trim_start_of(v, CharClass::WhiteSpace);
    trim_end_of(&a, CharClass::WhiteSpace)
}

/// `str::trim`, on a string slice.
pub fn trim_str(s: &str) -> (r: String)
    ensures
        r@ == trim(s@),
{
    let v = chars_of(s);
    let t = trim_chars(&v);
    string_of(&t)
}

proof fn lemma_words_nonempty(s: Seq<char>)
    requires
        s.len() > 0,
        !is_white_space(s.last()),
    ensures
        words(s).len() > 0,
    decreases s.len(),
{
    if s.len() > 1 && !is_white_space(s[s.len() - 2]) {
        assert(s.drop_last().last() == s[s.len() - 2]);
        lemma_words_nonempty(s.drop_last());
    }
}

proof fn lemma_join_push(ws: Seq<Seq<char>>, w: Seq<char>, sep: Seq<char>)
    requires
        ws.len() > 0,
    ensures
        join(ws.push(w), sep) == join(ws, sep) + sep + w,
{
    assert(ws.push(w).drop_last() =~= ws);
}

proof fn lemma_join_extend_last(ws: Seq<Seq<char>>, c: char, sep: Seq<char>)
    requires
        ws.len() > 0,
    ensures
        join(ws.update(ws.len() - 1, ws.last().push(c)), sep) == join(ws, sep).push(c),
{
    let u = ws.update(ws.len() - 1, ws.last().push(c));
    if ws.len() == 1 {
    } else {
        assert(u.drop_last() =~= ws.drop_last());
        assert(join(u, sep) == join(ws.drop_last(), sep) + sep + ws.last().push(c));
        assert(join(ws.drop_last(), sep) + sep + ws.last().push(c) =~= (join(ws.drop_last(), sep)
            + sep + ws.last()).push(c));
    }
}

/// The words of `v` separated by single spaces (`split_whitespace` then
/// `join(" ")`).
pub fn collapse_chars(v: &Vec<char>) -> (r: Vec<char>)
    ensures
        r@ == collapse_white_space(v@),
{
    let mut out: Vec<char> = Vec::new();
    let mut in_word = false;
    let mut i: usize = 0;
    while i < v.len()
        invariant
            i <= v.len(),
            out@ == join(words(v@.take(i as int)), seq![' ']),
            out@.len() == 0 <==> words(v@.take(i as int)).len() == 0,
            in_word == (i > 0 && !is_white_space(v@[i - 1])),
        decreases v.len() - i,
    {
        let c = v[i];
        let ghost t = v@.take(i as int);
        let ghost t1 = v@.take(i + 1);
        assert(t1.drop_last() =~= t);
        assert(t1.last() == c);
        if is_whitespace(c) {
            in_word = false;
        } else {
            if in_word {
                assert(t1[t1.len() - 2] == v@[i - 1]);
                proof {
                    assert(t.last() == v@[i - 1]);
                    lemma_words_nonempty(t);
                    lemma_join_extend_last(words(t), c, seq![' ']);
                }
                out.push(c);
            } else {
                if out.len() > 0 {
                    proof {
                        lemma_join_push(words(t), seq![c], seq![' ']);
                    }
                    out.push(' ');
                    out.push(c);
                    assert(out@ =~= join(words(t), seq![' ']) + seq![' '] + seq![c]);
                } else {
                    assert(words(t).push(seq![c]) =~= seq![seq![c]]);
                    out.push(c);
                    assert(out@ =~= seq![c]);
                }
            }
            in_word = true;
        }
        i = i + 1;
    }
    assert(v@.take(v.len() as int) =~= v@);
    out
}

/// Whether two character sequences are equal.
pub fn chars_eq(a: &Vec<char>, b: &Vec<char>) -> (r: bool)
    ensures
        r == (a@ == b@),
{
    if a.len() != b.len() {
        return false;
    }
    let mut i: usize = 0;
    while i < a.len()
        invariant
            i <= a.len() == b.len(),
            forall|j: int| 0 <= j < i ==> a@[j] == b@[j],
        decreases a.len() - i,
    {
        if a[i] != b[i] {
            return false;
        }
        i = i + 1;
    }
    assert(a@ =~= b@);
    true
}

/// Whether `p` occurs in `s` at position `i`.
pub fn occurs_at_exec(s: &Vec<char>, p: &Vec<char>, i: usize) -> (r: bool)
    ensures
        r == occurs_at(s@, p@, i as int),
{
    reveal(occurs_at);
    if i > s.len() || p.len() > s.len() - i {
        return false;
    }
    let mut j: usize = 0;
    while j < p.len()
        invariant
            i + p.len() <= s.len(),
            j <= p.len(),
            forall|k: int| 0 <= k < j ==> s@[i + k] == p@[k],
        decreases p.len() - j,
    {
        if s[i + j] != p[j] {
            reveal(occurs_at);
            assert(s@.subrange(i as int, i + p.len())[j as int] != p@[j as int]);
            return false;
        }
        j = j + 1;
    }
    assert(s@.subrange(i as int, i + p.len()) =~= p@);
    true
}

/// Whether `p` is a prefix of `s`.
pub fn starts_with(s: &Vec<char>, p: &Vec<char>) -> (r: bool)
    ensures
        r == is_prefix(p@, s@),
{
    let r = occurs_at_exec(s, p, 0);
    reveal(occurs_at);
    assert(s@.subrange(0, p@.len() as int) =~= s@.take(p@.len() as int));
    r
}

/// The first position at which `p` occurs in `s`, if any.
pub fn find_chars(s: &Vec<char>, p: &Vec<char>) -> (r: Option<usize>)
    ensures
        match r {
            Some(i) => is_first_occurrence(s@, p@, i as int),
            None => !contains(s@, p@),
        },
{
    if p.len() > s.len() {
        assert forall|j: int| !occurs_at(s@, p@, j) by {
            reveal(occurs_at);
        }
        return None;
    }
    let last = s.len() - p.len();
    let mut i: usize = 0;
    loop
        invariant
            last == s.len() - p.len(),
            i <= last,
            forall|j: int| 0 <= j < i ==> !occurs_at(s@, p@, j),
        ensures
            forall|j: int| 0 <= j <= last ==> !occurs_at(s@, p@, j),
        decreases last - i,
    {
        if occurs_at_exec(s, p, i) {
            return Some(i);
        }
        if i == last {
            break;
        }
        i = i + 1;
    }
    assert forall|j: int| !occurs_at(s@, p@, j) by {
        if occurs_at(s@, p@, j) {
            reveal(occurs_at);
            assert(j <= last);
        }
    }
    None
}

/// Whether `p` occurs anywhere in `s`.
pub fn contains_chars(s: &Vec<char>, p: &Vec<char>) -> (r: bool)
    ensures
        r == contains(s@, p@),
{
    find_chars(s, p).is_some()
}

/// The value of digit `c` in base `radix`.
pub fn digit_value_exec(c: char, radix: u32) -> (r: Option<u32>)
    requires
        radix <= 36,
    ensures
        match r {
            Some(v) => digit_value(c, radix as nat) == Some(v as nat),
            None => digit_value(c, radix as nat) is None,
        },
{
    let n = c as u32;
    let v: u32 = if 0x30 <= n && n <= 0x39 {
        n - 0x30
    } else if 0x61 <= n && n <= 0x7A {
        n - 0x61 + 10
    } else if 0x41 <= n && n <= 0x5A {
        n - 0x41 + 10
    } else {
        return None;
    };
    if v < radix {
        Some(v)
    } else {
        None
    }
}

/// Parses an unsigned integer in base `radix` no greater than `max`, with
/// an optional leading `+`. The bound `max` is at most `u32::MAX` (the
/// library reads port numbers and key codes with it), which keeps the value
/// read so far, times the radix, clear of `u64` overflow.
pub fn parse_unsigned_exec(s: &Vec<char>, radix: u32, max: u64) -> (r: Option<u64>)
    requires
        2 <= radix <= 36,
        max <= u32::MAX,
    ensures
        match r {
            Some(v) => parse_unsigned(s@, radix as nat, max as nat) == Some(v as nat),
            None => parse_unsigned(s@, radix as nat, max as nat) is None,
        },
{
    let start: usize = if s.len() > 0 && s[0] == '+' {
        1
    } else {
        0
    };
    let ghost body = if s@.len() > 0 && s@[0] == '+' {
        s@.drop_first()
    } else {
        s@
    };
    assert(body =~= s@.skip(start as int));
    if start == s.len() {
        return None;
    }
    // acc is the value read so far, capped at max + 1
    let mut acc: u64 = 0;
    let mut i: usize = start;
    assert(body.take(0) =~= seq![]);
    while i < s.len()
        invariant
            2 <= radix <= 36,
            max <= u32::MAX,
            start <= i <= s.len(),
            body == s@.skip(start as int),
            body.len() > 0,
            body == (if s@.len() > 0 && s@[0] == '+' {
                s@.drop_first()
            } else {
                s@
            }),
            acc <= max + 1,
            digits_value(body.take(i - start), radix as nat) is Some,
            acc == if digits_value(body.take(i - start), radix as nat).unwrap() <= max {
                digits_value(body.take(i - start), radix as nat).unwrap()
            } else {
                (max + 1) as nat
            },
        decreases s.len() - i,
    {
        let ghost pre = body.take(i - start);
        let ghost pre1 = body.take(i - start + 1);
        assert(pre1.drop_last() =~= pre);
        assert(pre1.last() == s@[i as int]);
        match digit_value_exec(s[i], radix) {
            Some(d) => {
                let ghost v = digits_value(pre, radix as nat).unwrap();
                let ghost r = radix as nat;
                assert(digits_value(pre1, r) == Some((v * r + d) as nat));
                proof {
                    assert((acc as int) * (radix as int) + (d as int) <= 0x1_0000_0000 * 36 + 36)
                        by (nonlinear_arith)
                        requires
                            acc <= 0x1_0000_0000,
                            radix <= 36,
                            d < radix,
                    ;
                }
                let next = acc * (radix as u64) + (d as u64);
                proof {
                    if v <= max {
                        assert(acc == v);
                    } else {
                        assert(v * r + d >= max + 1) by (nonlinear_arith)
                            requires
                                v >= max + 1,
                                r >= 2,
                        ;
                        assert(next >= max + 1) by (nonlinear_arith)
                            requires
                                acc == max + 1,
                                next == acc * radix + d,
                                radix >= 2,
                        ;
                    }
                }
                acc = if next > max {
                    max + 1
                } else {
                    next
                };
            },
            None => {
                proof {
                    lemma_digits_prefix_none(body, i - start + 1, radix as nat);
                }
                return None;
            },
        }
        i = i + 1;
    }
    assert(body.take(s.len() - start) =~= body);
    if acc > max {
        None
    } else {
        Some(acc)
    }
}

proof fn lemma_digits_prefix_none(s: Seq<char>, k: int, radix: nat)
    requires
        0 <= k <= s.len(),
        digits_value(s.take(k), radix) is None,
    ensures
        digits_value(s, radix) is None,
    decreases s.len() - k,
{
    if k < s.len() {
        assert(s.take(k + 1).drop_last() =~= s.take(k));
        lemma_digits_prefix_none(s, k + 1, radix);
    } else {
        assert(s.take(k) =~= s);
    }
}

proof fn lemma_decimal_len(n: nat)
    ensures
        decimal(n).len() >= 1,
    decreases n,
{
    if n >= 10 {
        lemma_decimal_len(n / 10);
    }
}

/// Formats `n` in decimal, as `format!("{}", n)` does.
pub fn decimal_string(n: u64) -> (s: String)
    ensures
        s@ == decimal(n as nat),
{
    let mut digits: Vec<char> = Vec::new();
    let mut m: u64 = n;
    // digits holds the decimal digits of n below those of m, least significant first
    loop
        invariant_except_break
            decimal(n as nat) == decimal_prefix(m as nat, digits@),
        ensures
            decimal(n as nat) == reverse_chars(digits@),
        decreases m,
    {
        let d = m % 10;
        let c = if d == 0 { '0' } else if d == 1 { '1' } else if d == 2 { '2' } else if d == 3 {
            '3'
        } else if d == 4 { '4' } else if d == 5 { '5' } else if d == 6 { '6' } else if d == 7 {
            '7'
        } else if d == 8 { '8' } else { '9' };
        assert(c == digit_char((m % 10) as nat));
        let ghost old_digits = digits@;
        if m < 10 {
            digits.push(c);
            proof {
                assert(digits@.drop_last() =~= old_digits);
                lemma_decimal_prefix_done(m as nat, old_digits);
            }
            break;
        }
        proof {
            lemma_decimal_prefix_step(m as nat, digits@);
        }
        digits.push(c);
        m = m / 10;
    }
    // digits@ reversed is decimal(n)
    let mut s = String::new();
    let mut k: usize = digits.len();
    while k > 0
        invariant
            k <= digits.len(),
            s@ == reverse_chars(digits@).take((digits.len() - k) as int),
            decimal(n as nat) == reverse_chars(digits@),
        decreases k,
    {
        k = k - 1;
        proof {
            lemma_reverse_index(digits@, (digits.len() - k - 1) as int);
            assert(reverse_chars(digits@).take((digits.len() - k - 1) as int).push(
                reverse_chars(digits@)[(digits.len() - k - 1) as int],
            ) =~= reverse_chars(digits@).take((digits.len() - k) as int));
        }
        push_char(&mut s, digits[k]);
    }
    proof {
        lemma_reverse_len(digits@);
        assert(reverse_chars(digits@).take(digits.len() as int) =~= reverse_chars(digits@));
    }
    s
}

/// `ds` read from the last element to the first.
pub open spec fn reverse_chars(ds: Seq<char>) -> Seq<char>
    decreases ds.len(),
{
    if ds.len() == 0 {
        seq![]
    } else {
        seq![ds.last()] + reverse_chars(ds.drop_last())
    }
}

/// The decimal form of a number whose upper part is `m` and whose lower
/// digits, least significant first, are `low`.
pub open spec fn decimal_prefix(m: nat, low: Seq<char>) -> Seq<char> {
    decimal(m) + reverse_chars(low)
}

proof fn lemma_reverse_len(ds: Seq<char>)
    ensures
        reverse_chars(ds).len() == ds.len(),
    decreases ds.len(),
{
    if ds.len() > 0 {
        lemma_reverse_len(ds.drop_last());
    }
}

proof fn lemma_reverse_index(ds: Seq<char>, i: int)
    requires
        0 <= i < ds.len(),
    ensures
        reverse_chars(ds)[i] == ds[ds.len() - 1 - i],
        reverse_chars(ds).len() == ds.len(),
    decreases ds.len(),
{
    lemma_reverse_len(ds);
    if i > 0 {
        lemma_reverse_index(ds.drop_last(), i - 1);
        lemma_reverse_len(ds.drop_last());
    }
}

proof fn lemma_reverse_push(ds: Seq<char>, c: char)
    ensures
        reverse_chars(ds.push(c)) == seq![c] + reverse_chars(ds),
{
    assert(ds.push(c).drop_last() =~= ds);
}

proof fn lemma_decimal_prefix_step(m: nat, low: Seq<char>)
    requires
        m >= 10,
    ensures
        decimal_prefix(m, low) == decimal_prefix(m / 10, low.push(digit_char(m % 10))),
{
    lemma_reverse_push(low, digit_char(m % 10));
    assert(decimal(m) == decimal(m / 10).push(digit_char(m % 10)));
    assert(decimal(m / 10).push(digit_char(m % 10)) + reverse_chars(low) =~= decimal(m / 10) + (
    seq![digit_char(m % 10)] + reverse_chars(low)));
}

proof fn lemma_decimal_prefix_done(m: nat, low: Seq<char>)
    requires
        m < 10,
    ensures
        decimal_prefix(m, low) == reverse_chars(low.push(digit_char(m))),
{
    lemma_reverse_push(low, digit_char(m));
}

} // verus!
