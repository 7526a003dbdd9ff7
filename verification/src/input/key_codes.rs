//! The Linux input key codes (as the kernel's `input-event-codes.h`
//! numbers them) of the keys that the hotkey names stand for, and the laws
//! that tie every key name to the code of its key.
use crate::input::hotkey::key_table;
use crate::input::hotkey::lookup_key;
use crate::input::hotkey::resolve_key_spec;
use vstd::prelude::*;

verus! {

pub const KEY_KP0: u16 = 82;
pub const KEY_KP1: u16 = 79;
pub const KEY_KP2: u16 = 80;
pub const KEY_KP3: u16 = 81;
pub const KEY_KP4: u16 = 75;
pub const KEY_KP5: u16 = 76;
pub const KEY_KP6: u16 = 77;
pub const KEY_KP7: u16 = 71;
pub const KEY_KP8: u16 = 72;
pub const KEY_KP9: u16 = 73;
pub const KEY_KPENTER: u16 = 96;
pub const KEY_KPDOT: u16 = 83;
pub const KEY_KPPLUS: u16 = 78;
pub const KEY_KPMINUS: u16 = 74;
pub const KEY_KPASTERISK: u16 = 55;
pub const KEY_KPSLASH: u16 = 98;
pub const KEY_NUMLOCK: u16 = 69;
pub const KEY_KPEQUAL: u16 = 117;
pub const KEY_RIGHTALT: u16 = 100;
pub const KEY_LEFTALT: u16 = 56;
pub const KEY_RIGHTMETA: u16 = 126;
pub const KEY_LEFTMETA: u16 = 125;
pub const KEY_RIGHTSHIFT: u16 = 54;
pub const KEY_LEFTSHIFT: u16 = 42;
pub const KEY_RIGHTCTRL: u16 = 97;
pub const KEY_LEFTCTRL: u16 = 29;
pub const KEY_FN: u16 = 464;
pub const KEY_CAPSLOCK: u16 = 58;
pub const KEY_F1: u16 = 59;
pub const KEY_F2: u16 = 60;
pub const KEY_F3: u16 = 61;
pub const KEY_F4: u16 = 62;
pub const KEY_F5: u16 = 63;
pub const KEY_F6: u16 = 64;
pub const KEY_F7: u16 = 65;
pub const KEY_F8: u16 = 66;
pub const KEY_F9: u16 = 67;
pub const KEY_F10: u16 = 68;
pub const KEY_F11: u16 = 87;
pub const KEY_F12: u16 = 88;
pub const KEY_F13: u16 = 183;
pub const KEY_F14: u16 = 184;
pub const KEY_F15: u16 = 185;
pub const KEY_F16: u16 = 186;
pub const KEY_F17: u16 = 187;
pub const KEY_F18: u16 = 188;
pub const KEY_F19: u16 = 189;
pub const KEY_F20: u16 = 190;
pub const KEY_SPACE: u16 = 57;
pub const KEY_TAB: u16 = 15;
pub const KEY_ESC: u16 = 1;
pub const KEY_BACKSPACE: u16 = 14;
pub const KEY_DELETE: u16 = 111;
pub const KEY_ENTER: u16 = 28;
pub const KEY_HOME: u16 = 102;
pub const KEY_END: u16 = 107;
pub const KEY_PAGEUP: u16 = 104;
pub const KEY_PAGEDOWN: u16 = 109;
pub const KEY_UP: u16 = 103;
pub const KEY_DOWN: u16 = 108;
pub const KEY_LEFT: u16 = 105;
pub const KEY_RIGHT: u16 = 106;
pub const KEY_INSERT: u16 = 110;
pub const KEY_SYSRQ: u16 = 99;
pub const KEY_SCROLLLOCK: u16 = 70;
pub const KEY_PAUSE: u16 = 119;
pub const KEY_102ND: u16 = 86;
pub const KEY_GRAVE: u16 = 41;
pub const KEY_MINUS: u16 = 12;
pub const KEY_EQUAL: u16 = 13;
pub const KEY_LEFTBRACE: u16 = 26;
pub const KEY_RIGHTBRACE: u16 = 27;
pub const KEY_BACKSLASH: u16 = 43;
pub const KEY_SEMICOLON: u16 = 39;
pub const KEY_APOSTROPHE: u16 = 40;
pub const KEY_COMMA: u16 = 51;
pub const KEY_DOT: u16 = 52;
pub const KEY_SLASH: u16 = 53;

/// Each key, by its Linux input code, with the names that stand for it.
pub open spec fn named_keys() -> Seq<(u16, Seq<Seq<char>>)> {
    seq![
        (KEY_KP0, seq!["numpad_0"@]),
        (KEY_KP1, seq!["numpad_1"@]),
        (KEY_KP2, seq!["numpad_2"@]),
        (KEY_KP3, seq!["numpad_3"@]),
        (KEY_KP4, seq!["numpad_4"@]),
        (KEY_KP5, seq!["numpad_5"@]),
        (KEY_KP6, seq!["numpad_6"@]),
        (KEY_KP7, seq!["numpad_7"@]),
        (KEY_KP8, seq!["numpad_8"@]),
        (KEY_KP9, seq!["numpad_9"@]),
        (KEY_KPENTER, seq!["numpad_enter"@]),
        (KEY_KPDOT, seq!["numpad_decimal"@, "numpad_dot"@]),
        (KEY_KPPLUS, seq!["numpad_plus"@, "numpad_add"@]),
        (KEY_KPMINUS, seq!["numpad_minus"@, "numpad_subtract"@]),
        (KEY_KPASTERISK, seq!["numpad_multiply"@]),
        (KEY_KPSLASH, seq!["numpad_divide"@]),
        (KEY_NUMLOCK, seq!["numpad_clear"@, "num_lock"@]),
        (KEY_KPEQUAL, seq!["numpad_equals"@]),
        (KEY_RIGHTALT, seq!["right_option"@, "right_alt"@]),
        (KEY_LEFTALT, seq!["left_option"@, "left_alt"@]),
        (KEY_RIGHTMETA, seq!["right_command"@, "right_cmd"@]),
        (KEY_LEFTMETA, seq!["left_command"@, "left_cmd"@]),
        (KEY_RIGHTSHIFT, seq!["right_shift"@]),
        (KEY_LEFTSHIFT, seq!["left_shift"@]),
        (KEY_RIGHTCTRL, seq!["right_control"@, "right_ctrl"@]),
        (KEY_LEFTCTRL, seq!["left_control"@, "left_ctrl"@]),
        (KEY_FN, seq!["fn_key"@, "fn"@]),
        (KEY_CAPSLOCK, seq!["caps_lock"@]),
        (KEY_F1, seq!["f1"@]),
        (KEY_F2, seq!["f2"@]),
        (KEY_F3, seq!["f3"@]),
        (KEY_F4, seq!["f4"@]),
        (KEY_F5, seq!["f5"@]),
        (KEY_F6, seq!["f6"@]),
        (KEY_F7, seq!["f7"@]),
        (KEY_F8, seq!["f8"@]),
        (KEY_F9, seq!["f9"@]),
        (KEY_F10, seq!["f10"@]),
        (KEY_F11, seq!["f11"@]),
        (KEY_F12, seq!["f12"@]),
        (KEY_F13, seq!["f13"@]),
        (KEY_F14, seq!["f14"@]),
        (KEY_F15, seq!["f15"@]),
        (KEY_F16, seq!["f16"@]),
        (KEY_F17, seq!["f17"@]),
        (KEY_F18, seq!["f18"@]),
        (KEY_F19, seq!["f19"@]),
        (KEY_F20, seq!["f20"@]),
        (KEY_SPACE, seq!["space"@]),
        (KEY_TAB, seq!["tab"@]),
        (KEY_ESC, seq!["escape"@]),
        (KEY_BACKSPACE, seq!["delete"@]),
        (KEY_DELETE, seq!["forward_delete"@]),
        (KEY_ENTER, seq!["return_key"@, "return"@, "enter"@]),
        (KEY_HOME, seq!["home"@]),
        (KEY_END, seq!["end"@]),
        (KEY_PAGEUP, seq!["page_up"@]),
        (KEY_PAGEDOWN, seq!["page_down"@]),
        (KEY_UP, seq!["up_arrow"@]),
        (KEY_DOWN, seq!["down_arrow"@]),
        (KEY_LEFT, seq!["left_arrow"@]),
        (KEY_RIGHT, seq!["right_arrow"@]),
        (KEY_INSERT, seq!["insert"@]),
        (KEY_SYSRQ, seq!["print_screen"@]),
        (KEY_SCROLLLOCK, seq!["scroll_lock"@]),
        (KEY_PAUSE, seq!["pause"@]),
        (KEY_102ND, seq!["section"@]),
        (KEY_GRAVE, seq!["grave"@]),
        (KEY_MINUS, seq!["minus"@]),
        (KEY_EQUAL, seq!["equal"@]),
        (KEY_LEFTBRACE, seq!["left_bracket"@]),
        (KEY_RIGHTBRACE, seq!["right_bracket"@]),
        (KEY_BACKSLASH, seq!["backslash"@]),
        (KEY_SEMICOLON, seq!["semicolon"@]),
        (KEY_APOSTROPHE, seq!["quote"@]),
        (KEY_COMMA, seq!["comma"@]),
        (KEY_DOT, seq!["period"@]),
        (KEY_SLASH, seq!["slash"@]),
    ]
}

proof fn lemma_lookup_passes(t: Seq<(Seq<char>, u16)>, j: int, n: Seq<char>, k: int)
    requires
        0 <= j < t.len(),
        t[j].0.len() != n.len() || (0 <= k < n.len() && t[j].0[k] != n[k]),
    ensures
        lookup_key(t.skip(j), n) == lookup_key(t.skip(j + 1), n),
{
    assert(t.skip(j).drop_first() =~= t.skip(j + 1));
}

proof fn lemma_lookup_finds(t: Seq<(Seq<char>, u16)>, j: int, n: Seq<char>)
    requires
        0 <= j < t.len(),
        t[j].0 == n,
    ensures
        lookup_key(t.skip(j), n) == Some(t[j].1),
{
}

proof fn lemma_resolves_0()
    ensures
        resolve_key_spec("numpad_0"@) == Some(KEY_KP0),
{
    reveal_strlit("numpad_0");
    let t = key_table();
    let n = "numpad_0"@;
    assert(t.skip(0) =~= t);

    lemma_lookup_finds(t, 0, n);
}

proof fn lemma_resolves_1()
    ensures
        resolve_key_spec("numpad_1"@) == Some(KEY_KP1),
{
    reveal_strlit("numpad_0");
    reveal_strlit("numpad_1");
    let t = key_table();
    let n = "numpad_1"@;
    assert(t.skip(0) =~= t);
    lemma_lookup_passes(t, 0, n, 7);
    lemma_lookup_finds(t, 1, n);
}

proof fn lemma_resolves_2()
    ensures
        resolve_key_spec("numpad_2"@) == Some(KEY_KP2),
{
    reveal_strlit("numpad_0");
    reveal_strlit("numpad_1");
    reveal_strlit("numpad_2");
    let t = key_table();
    let n = "numpad_2"@;
    assert(t.skip(0) =~= t);
    lemma_lookup_passes(t, 0, n, 7);
    lemma_lookup_passes(t, 1, n, 7);
    lemma_lookup_finds(t, 2, n);
}

proof fn lemma_resolves_3()
    ensures
        resolve_key_spec("numpad_3"@) == Some(KEY_KP3),
{
    reveal_strlit("numpad_0");
    reveal_strlit("numpad_1");
    reveal_strlit("numpad_2");
    reveal_strlit("numpad_3");
    let t = key_table();
    let n = "numpad_3"@;
    assert(t.skip(0) =~= t);
    lemma_lookup_passes(t, 0, n, 7);
    lemma_lookup_passes(t, 1, n, 7);
    lemma_lookup_passes(t, 2, n, 7);
    lemma_lookup_finds(t, 3, n);
}

proof fn lemma_resolves_4()
    ensures
        resolve_key_spec("numpad_4"@) == Some(KEY_KP4),
{
    reveal_strlit("numpad_0");
    reveal_strlit("numpad_1");
    reveal_strlit("numpad_2");
    reveal_strlit("numpad_3");
    reveal_strlit("numpad_4");
    let t = key_table();
    let n = "numpad_4"@;
    assert(t.skip(0) =~= t);
    lemma_lookup_passes(t, 0, n, 7);
    lemma_lookup_passes(t, 1, n, 7);
    lemma_lookup_passes(t, 2, n, 7);
    lemma_lookup_passes(t, 3, n, 7);
    lemma_lookup_finds(t, 4, n);
}

proof fn lemma_resolves_5()
    ensures
        resolve_key_spec("numpad_5"@) == Some(KEY_KP5),
{
    reveal_strlit("numpad_0");
    reveal_strlit("numpad_1");
    reveal_strlit("numpad_2");
    reveal_strlit("numpad_3");
    reveal_strlit("numpad_4");
    reveal_strlit("numpad_5");
    let t = key_table();
    let n = "numpad_5"@;
    assert(t.skip(0) =~= t);
    lemma_lookup_passes(t, 0, n, 7);
    lemma_lookup_passes(t, 1, n, 7);
    lemma_lookup_passes(t, 2, n, 7);
    lemma_lookup_passes(t, 3, n, 7);
    lemma_lookup_passes(t, 4, n, 7);
    lemma_lookup_finds(t, 5, n);
}

proof fn lemma_resolves_6()
    ensures
        resolve_key_spec("numpad_6"@) == Some(KEY_KP6),
{
    reveal_strlit("numpad_0");
    reveal_strlit("numpad_1");
    reveal_strlit("numpad_2");
    reveal_strlit("numpad_3");
    reveal_strlit("numpad_4");
    reveal_strlit("numpad_5");
    reveal_strlit("numpad_6");
    let t = key_table();
    let n = "numpad_6"@;
    assert(t.skip(0) =~= t);
    lemma_lookup_passes(t, 0, n, 7);
    lemma_lookup_passes(t, 1, n, 7);
    lemma_lookup_passes(t, 2, n, 7);
    lemma_lookup_passes(t, 3, n, 7);
    lemma_lookup_passes(t, 4, n, 7);
    lemma_lookup_passes(t, 5, n, 7);
    lemma_lookup_finds(t, 6, n);
}

proof fn lemma_resolves_7()
    ensures
        resolve_key_spec("numpad_7"@) == Some(KEY_KP7),
{
    reveal_strlit("numpad_0");
    reveal_strlit("numpad_1");
    reveal_strlit("numpad_2");
    reveal_strlit("numpad_3");
    reveal_strlit("numpad_4");
    reveal_strlit("numpad_5");
    reveal_strlit("numpad_6");
    reveal_strlit("numpad_7");
    let t = key_table();
    let n = "numpad_7"@;
    assert(t.skip(0) =~= t);
    lemma_lookup_passes(t, 0, n, 7);
    lemma_lookup_passes(t, 1, n, 7);
    lemma_lookup_passes(t, 2, n, 7);
    lemma_lookup_passes(t, 3, n, 7);
    lemma_lookup_passes(t, 4, n, 7);
    lemma_lookup_passes(t, 5, n, 7);
    lemma_lookup_passes(t, 6, n, 7);
    lemma_lookup_finds(t, 7, n);
}

proof fn lemma_resolves_8()
    ensures
        resolve_key_spec("numpad_8"@) == Some(KEY_KP8),
{
    reveal_strlit("numpad_0");
    reveal_strlit("numpad_1");
    reveal_strlit("numpad_2");
    reveal_strlit("numpad_3");
    reveal_strlit("numpad_4");
    reveal_strlit("numpad_5");
    reveal_strlit("numpad_6");
    reveal_strlit("numpad_7");
    reveal_strlit("numpad_8");
    let t = key_table();
    let n = "numpad_8"@;
    assert(t.skip(0) =~= t);
    lemma_lookup_passes(t, 0, n, 7);
    lemma_lookup_passes(t, 1, n, 7);
    lemma_lookup_passes(t, 2, n, 7);
    lemma_lookup_passes(t, 3, n, 7);
    lemma_lookup_passes(t, 4, n, 7);
    lemma_lookup_passes(t, 5, n, 7);
    lemma_lookup_passes(t, 6, n, 7);
    lemma_lookup_passes(t, 7, n, 7);
    lemma_lookup_finds(t, 8, n);
}

proof fn lemma_resolves_9()
    ensures
        resolve_key_spec("numpad_9"@) == Some(KEY_KP9),
{
    reveal_strlit("numpad_0");
    reveal_strlit("numpad_1");
    reveal_strlit("numpad_2");
    reveal_strlit("numpad_3");
    reveal_strlit("numpad_4");
    reveal_strlit("numpad_5");
    reveal_strlit("numpad_6");
    reveal_strlit("numpad_7");
    reveal_strlit("numpad_8");
    reveal_strlit("numpad_9");
    let t = key_table();
    let n = "numpad_9"@;
    assert(t.skip(0) =~= t);
    lemma_lookup_passes(t, 0, n, 7);
    lemma_lookup_passes(t, 1, n, 7);
    lemma_lookup_passes(t, 2, n, 7);
    lemma_lookup_passes(t, 3, n, 7);
    lemma_lookup_passes(t, 4, n, 7);
    lemma_lookup_passes(t, 5, n, 7);
    lemma_lookup_passes(t, 6, n, 7);
    lemma_lookup_passes(t, 7, n, 7);
    lemma_lookup_passes(t, 8, n, 7);
    lemma_lookup_finds(t, 9, n);
}

proof fn lemma_resolves_10()
    ensures
        resolve_key_spec("numpad_enter"@) == Some(KEY_KPENTER),
{
    reveal_strlit("numpad_0");
    reveal_strlit("numpad_1");
    reveal_strlit("numpad_2");
    reveal_strlit("numpad_3");
    reveal_strlit("numpad_4");
    reveal_strlit("numpad_5");
    reveal_strlit("numpad_6");
    reveal_strlit("numpad_7");
    reveal_strlit("numpad_8");
    reveal_strlit("numpad_9");
    reveal_strlit("numpad_enter");
    let t = key_table();
    let n = "numpad_enter"@;
    assert(t.skip(0) =~= t);
    lemma_lookup_passes(t, 0, n, 0);
    lemma_lookup_passes(t, 1, n, 0);
    lemma_lookup_passes(t, 2, n, 0);
    lemma_lookup_passes(t, 3, n, 0);
    lemma_lookup_passes(t, 4, n, 0);
    lemma_lookup_passes(t, 5, n, 0);
    lemma_lookup_passes(t, 6, n, 0);
    lemma_lookup_passes(t, 7, n, 0);
    lemma_lookup_passes(t, 8, n, 0);
    lemma_lookup_passes(t, 9, n, 0);
    lemma_lookup_finds(t, 10, n);
}

proof fn lemma_resolves_11()
    ensures
        resolve_key_spec("numpad_decimal"@) == Some(KEY_KPDOT),
{
    reveal_strlit("numpad_0");
    reveal_strlit("numpad_1");
    reveal_strlit("numpad_2");
    reveal_strlit("numpad_3");
    reveal_strlit("numpad_4");
    reveal_strlit("numpad_5");
    reveal_strlit("numpad_6");
    reveal_strlit("numpad_7");
    reveal_strlit("numpad_8");
    reveal_strlit("numpad_9");
    reveal_strlit("numpad_decimal");
    reveal_strlit("numpad_enter");
    let t = key_table();
    let n = "numpad_decimal"@;
    assert(t.skip(0) =~= t);
    lemma_lookup_passes(t, 0, n, 0);
    lemma_lookup_passes(t, 1, n, 0);
    lemma_lookup_passes(t, 2, n, 0);
    lemma_lookup_passes(t, 3, n, 0);
    lemma_lookup_passes(t, 4, n, 0);
    lemma_lookup_passes(t, 5, n, 0);
    lemma_lookup_passes(t, 6, n, 0);
    lemma_lookup_passes(t, 7, n, 0);
    lemma_lookup_passes(t, 8, n, 0);
    lemma_lookup_passes(t, 9, n, 0);
    lemma_lookup_passes(t, 10, n, 0);
    lemma_lookup_finds(t, 11, n);
}

proof fn lemma_resolves_12()
    ensures
        resolve_key_spec("numpad_dot"@) == Some(KEY_KPDOT),
{
    reveal_strlit("numpad_0");
    reveal_strlit("numpad_1");
    reveal_strlit("numpad_2");
    reveal_strlit("numpad_3");
    reveal_strlit("numpad_4");
    reveal_strlit("numpad_5");
    reveal_strlit("numpad_6");
    reveal_strlit("numpad_7");
    reveal_strlit("numpad_8");
    reveal_strlit("numpad_9");
    reveal_strlit("numpad_decimal");
    reveal_strlit("numpad_dot");
    reveal_strlit("numpad_enter");
    let t = key_table();
    let n = "numpad_dot"@;
    assert(t.skip(0) =~= t);
    lemma_lookup_passes(t, 0, n, 0);
    lemma_lookup_passes(t, 1, n, 0);
    lemma_lookup_passes(t, 2, n, 0);
    lemma_lookup_passes(t, 3, n, 0);
    lemma_lookup_passes(t, 4, n, 0);
    lemma_lookup_passes(t, 5, n, 0);
    lemma_lookup_passes(t, 6, n, 0);
    lemma_lookup_passes(t, 7, n, 0);
    lemma_lookup_passes(t, 8, n, 0);
    lemma_lookup_passes(t, 9, n, 0);
    lemma_lookup_passes(t, 10, n, 0);
    lemma_lookup_passes(t, 11, n, 0);
    lemma_lookup_finds(t, 12, n);
}

proof fn lemma_resolves_13()
    ensures
        resolve_key_spec("numpad_plus"@) == Some(KEY_KPPLUS),
{
    reveal_strlit("numpad_0");
    reveal_strlit("numpad_1");
    reveal_strlit("numpad_2");
    reveal_strlit("numpad_3");
    reveal_strlit("numpad_4");
    reveal_strlit("numpad_5");
    reveal_strlit("numpad_6");
    reveal_strlit("numpad_7");
    reveal_strlit("numpad_8");
    reveal_strlit("numpad_9");
    reveal_strlit("numpad_decimal");
    reveal_strlit("numpad_dot");
    reveal_strlit("numpad_enter");
    reveal_strlit("numpad_plus");
    let t = key_table();
    let n = "numpad_plus"@;
    assert(t.skip(0) =~= t);
    lemma_lookup_passes(t, 0, n, 0);
    lemma_lookup_passes(t, 1, n, 0);
    lemma_lookup_passes(t, 2, n, 0);
    lemma_lookup_passes(t, 3, n, 0);
    lemma_lookup_passes(t, 4, n, 0);
    lemma_lookup_passes(t, 5, n, 0);
    lemma_lookup_passes(t, 6, n, 0);
    lemma_lookup_passes(t, 7, n, 0);
    lemma_lookup_passes(t, 8, n, 0);
    lemma_lookup_passes(t, 9, n, 0);
    lemma_lookup_passes(t, 10, n, 0);
    lemma_lookup_passes(t, 11, n, 0);
    lemma_lookup_passes(t, 12, n, 0);
    lemma_lookup_finds(t, 13, n);
}

proof fn lemma_resolves_14()
    ensures
        resolve_key_spec("numpad_add"@) == Some(KEY_KPPLUS),
{
    reveal_strlit("numpad_0");
    reveal_strlit("numpad_1");
    reveal_strlit("numpad_2");
    reveal_strlit("numpad_3");
    reveal_strlit("numpad_4");
    reveal_strlit("numpad_5");
    reveal_strlit("numpad_6");
    reveal_strlit("numpad_7");
    reveal_strlit("numpad_8");
    reveal_strlit("numpad_9");
    reveal_strlit("numpad_add");
    reveal_strlit("numpad_decimal");
    reveal_strlit("numpad_dot");
    reveal_strlit("numpad_enter");
    reveal_strlit("numpad_plus");
    let t = key_table();
    let n = "numpad_add"@;
    assert(t.skip(0) =~= t);
    lemma_lookup_passes(t, 0, n, 0);
    lemma_lookup_passes(t, 1, n, 0);
    lemma_lookup_passes(t, 2, n, 0);
    lemma_lookup_passes(t, 3, n, 0);
    lemma_lookup_passes(t, 4, n, 0);
    lemma_lookup_passes(t, 5, n, 0);
    lemma_lookup_passes(t, 6, n, 0);
    lemma_lookup_passes(t, 7, n, 0);
    lemma_lookup_passes(t, 8, n, 0);
    lemma_lookup_passes(t, 9, n, 0);
    lemma_lookup_passes(t, 10, n, 0);
    lemma_lookup_passes(t, 11, n, 0);
    lemma_lookup_passes(t, 12, n, 7);
    lemma_lookup_passes(t, 13, n, 0);
    lemma_lookup_finds(t, 14, n);
}

proof fn lemma_resolves_15()
    ensures
        resolve_key_spec("numpad_minus"@) == Some(KEY_KPMINUS),
{
    reveal_strlit("numpad_0");
    reveal_strlit("numpad_1");
    reveal_strlit("numpad_2");
    reveal_strlit("numpad_3");
    reveal_strlit("numpad_4");
    reveal_strlit("numpad_5");
    reveal_strlit("numpad_6");
    reveal_strlit("numpad_7");
    reveal_strlit("numpad_8");
    reveal_strlit("numpad_9");
    reveal_strlit("numpad_add");
    reveal_strlit("numpad_decimal");
    reveal_strlit("numpad_dot");
    reveal_strlit("numpad_enter");
    reveal_strlit("numpad_minus");
    reveal_strlit("numpad_plus");
    let t = key_table();
    let n = "numpad_minus"@;
    assert(t.skip(0) =~= t);
    lemma_lookup_passes(t, 0, n, 0);
    lemma_lookup_passes(t, 1, n, 0);
    lemma_lookup_passes(t, 2, n, 0);
    lemma_lookup_passes(t, 3, n, 0);
    lemma_lookup_passes(t, 4, n, 0);
    lemma_lookup_passes(t, 5, n, 0);
    lemma_lookup_passes(t, 6, n, 0);
    lemma_lookup_passes(t, 7, n, 0);
    lemma_lookup_passes(t, 8, n, 0);
    lemma_lookup_passes(t, 9, n, 0);
    lemma_lookup_passes(t, 10, n, 7);
    lemma_lookup_passes(t, 11, n, 0);
    lemma_lookup_passes(t, 12, n, 0);
    lemma_lookup_passes(t, 13, n, 0);
    lemma_lookup_passes(t, 14, n, 0);
    lemma_lookup_finds(t, 15, n);
}

proof fn lemma_resolves_16()
    ensures
        resolve_key_spec("numpad_subtract"@) == Some(KEY_KPMINUS),
{
    reveal_strlit("numpad_0");
    reveal_strlit("numpad_1");
    reveal_strlit("numpad_2");
    reveal_strlit("numpad_3");
    reveal_strlit("numpad_4");
    reveal_strlit("numpad_5");
    reveal_strlit("numpad_6");
    reveal_strlit("numpad_7");
    reveal_strlit("numpad_8");
    reveal_strlit("numpad_9");
    reveal_strlit("numpad_add");
    reveal_strlit("numpad_decimal");
    reveal_strlit("numpad_dot");
    reveal_strlit("numpad_enter");
    reveal_strlit("numpad_minus");
    reveal_strlit("numpad_plus");
    reveal_strlit("numpad_subtract");
    let t = key_table();
    let n = "numpad_subtract"@;
    assert(t.skip(0) =~= t);
    lemma_lookup_passes(t, 0, n, 0);
    lemma_lookup_passes(t, 1, n, 0);
    lemma_lookup_passes(t, 2, n, 0);
    lemma_lookup_passes(t, 3, n, 0);
    lemma_lookup_passes(t, 4, n, 0);
    lemma_lookup_passes(t, 5, n, 0);
    lemma_lookup_passes(t, 6, n, 0);
    lemma_lookup_passes(t, 7, n, 0);
    lemma_lookup_passes(t, 8, n, 0);
    lemma_lookup_passes(t, 9, n, 0);
    lemma_lookup_passes(t, 10, n, 0);
    lemma_lookup_passes(t, 11, n, 0);
    lemma_lookup_passes(t, 12, n, 0);
    lemma_lookup_passes(t, 13, n, 0);
    lemma_lookup_passes(t, 14, n, 0);
    lemma_lookup_passes(t, 15, n, 0);
    lemma_lookup_finds(t, 16, n);
}

proof fn lemma_resolves_17()
    ensures
        resolve_key_spec("numpad_multiply"@) == Some(KEY_KPASTERISK),
{
    reveal_strlit("numpad_0");
    reveal_strlit("numpad_1");
    reveal_strlit("numpad_2");
    reveal_strlit("numpad_3");
    reveal_strlit("numpad_4");
    reveal_strlit("numpad_5");
    reveal_strlit("numpad_6");
    reveal_strlit("numpad_7");
    reveal_strlit("numpad_8");
    reveal_strlit("numpad_9");
    reveal_strlit("numpad_add");
    reveal_strlit("numpad_decimal");
    reveal_strlit("numpad_dot");
    reveal_strlit("numpad_enter");
    reveal_strlit("numpad_minus");
    reveal_strlit("numpad_multiply");
    reveal_strlit("numpad_plus");
    reveal_strlit("numpad_subtract");
    let t = key_table();
    let n = "numpad_multiply"@;
    assert(t.skip(0) =~= t);
    lemma_lookup_passes(t, 0, n, 0);
    lemma_lookup_passes(t, 1, n, 0);
    lemma_lookup_passes(t, 2, n, 0);
    lemma_lookup_passes(t, 3, n, 0);
    lemma_lookup_passes(t, 4, n, 0);
    lemma_lookup_passes(t, 5, n, 0);
    lemma_lookup_passes(t, 6, n, 0);
    lemma_lookup_passes(t, 7, n, 0);
    lemma_lookup_passes(t, 8, n, 0);
    lemma_lookup_passes(t, 9, n, 0);
    lemma_lookup_passes(t, 10, n, 0);
    lemma_lookup_passes(t, 11, n, 0);
    lemma_lookup_passes(t, 12, n, 0);
    lemma_lookup_passes(t, 13, n, 0);
    lemma_lookup_passes(t, 14, n, 0);
    lemma_lookup_passes(t, 15, n, 0);
    lemma_lookup_passes(t, 16, n, 7);
    lemma_lookup_finds(t, 17, n);
}

proof fn lemma_resolves_18()
    ensures
        resolve_key_spec("numpad_divide"@) == Some(KEY_KPSLASH),
{
    reveal_strlit("numpad_0");
    reveal_strlit("numpad_1");
    reveal_strlit("numpad_2");
    reveal_strlit("numpad_3");
    reveal_strlit("numpad_4");
    reveal_strlit("numpad_5");
    reveal_strlit("numpad_6");
    reveal_strlit("numpad_7");
    reveal_strlit("numpad_8");
    reveal_strlit("numpad_9");
    reveal_strlit("numpad_add");
    reveal_strlit("numpad_decimal");
    reveal_strlit("numpad_divide");
    reveal_strlit("numpad_dot");
    reveal_strlit("numpad_enter");
    reveal_strlit("numpad_minus");
    reveal_strlit("numpad_multiply");
    reveal_strlit("numpad_plus");
    reveal_strlit("numpad_subtract");
    let t = key_table();
    let n = "numpad_divide"@;
    assert(t.skip(0) =~= t);
    lemma_lookup_passes(t, 0, n, 0);
    lemma_lookup_passes(t, 1, n, 0);
    lemma_lookup_passes(t, 2, n, 0);
    lemma_lookup_passes(t, 3, n, 0);
    lemma_lookup_passes(t, 4, n, 0);
    lemma_lookup_passes(t, 5, n, 0);
    lemma_lookup_passes(t, 6, n, 0);
    lemma_lookup_passes(t, 7, n, 0);
    lemma_lookup_passes(t, 8, n, 0);
    lemma_lookup_passes(t, 9, n, 0);
    lemma_lookup_passes(t, 10, n, 0);
    lemma_lookup_passes(t, 11, n, 0);
    lemma_lookup_passes(t, 12, n, 0);
    lemma_lookup_passes(t, 13, n, 0);
    lemma_lookup_passes(t, 14, n, 0);
    lemma_lookup_passes(t, 15, n, 0);
    lemma_lookup_passes(t, 16, n, 0);
    lemma_lookup_passes(t, 17, n, 0);
    lemma_lookup_finds(t, 18, n);
}

proof fn lemma_resolves_19()
    ensures
        resolve_key_spec("numpad_clear"@) == Some(KEY_NUMLOCK),
{
    reveal_strlit("numpad_0");
    reveal_strlit("numpad_1");
    reveal_strlit("numpad_2");
    reveal_strlit("numpad_3");
    reveal_strlit("numpad_4");
    reveal_strlit("numpad_5");
    reveal_strlit("numpad_6");
    reveal_strlit("numpad_7");
    reveal_strlit("numpad_8");
    reveal_strlit("numpad_9");
    reveal_strlit("numpad_add");
    reveal_strlit("numpad_clear");
    reveal_strlit("numpad_decimal");
    reveal_strlit("numpad_divide");
    reveal_strlit("numpad_dot");
    reveal_strlit("numpad_enter");
    reveal_strlit("numpad_minus");
    reveal_strlit("numpad_multiply");
    reveal_strlit("numpad_plus");
    reveal_strlit("numpad_subtract");
    let t = key_table();
    let n = "numpad_clear"@;
    assert(t.skip(0) =~= t);
    lemma_lookup_passes(t, 0, n, 0);
    lemma_lookup_passes(t, 1, n, 0);
    lemma_lookup_passes(t, 2, n, 0);
    lemma_lookup_passes(t, 3, n, 0);
    lemma_lookup_passes(t, 4, n, 0);
    lemma_lookup_passes(t, 5, n, 0);
    lemma_lookup_passes(t, 6, n, 0);
    lemma_lookup_passes(t, 7, n, 0);
    lemma_lookup_passes(t, 8, n, 0);
    lemma_lookup_passes(t, 9, n, 0);
    lemma_lookup_passes(t, 10, n, 7);
    lemma_lookup_passes(t, 11, n, 0);
    lemma_lookup_passes(t, 12, n, 0);
    lemma_lookup_passes(t, 13, n, 0);
    lemma_lookup_passes(t, 14, n, 0);
    lemma_lookup_passes(t, 15, n, 7);
    lemma_lookup_passes(t, 16, n, 0);
    lemma_lookup_passes(t, 17, n, 0);
    lemma_lookup_passes(t, 18, n, 0);
    lemma_lookup_finds(t, 19, n);
}

proof fn lemma_resolves_20()
    ensures
        resolve_key_spec("numpad_equals"@) == Some(KEY_KPEQUAL),
{
    reveal_strlit("numpad_0");
    reveal_strlit("numpad_1");
    reveal_strlit("numpad_2");
    reveal_strlit("numpad_3");
    reveal_strlit("numpad_4");
    reveal_strlit("numpad_5");
    reveal_strlit("numpad_6");
    reveal_strlit("numpad_7");
    reveal_strlit("numpad_8");
    reveal_strlit("numpad_9");
    reveal_strlit("numpad_add");
    reveal_strlit("numpad_clear");
    reveal_strlit("numpad_decimal");
    reveal_strlit("numpad_divide");
    reveal_strlit("numpad_dot");
    reveal_strlit("numpad_enter");
    reveal_strlit("numpad_equals");
    reveal_strlit("numpad_minus");
    reveal_strlit("numpad_multiply");
    reveal_strlit("numpad_plus");
    reveal_strlit("numpad_subtract");
    let t = key_table();
    let n = "numpad_equals"@;
    assert(t.skip(0) =~= t);
    lemma_lookup_passes(t, 0, n, 0);
    lemma_lookup_passes(t, 1, n, 0);
    lemma_lookup_passes(t, 2, n, 0);
    lemma_lookup_passes(t, 3, n, 0);
    lemma_lookup_passes(t, 4, n, 0);
    lemma_lookup_passes(t, 5, n, 0);
    lemma_lookup_passes(t, 6, n, 0);
    lemma_lookup_passes(t, 7, n, 0);
    lemma_lookup_passes(t, 8, n, 0);
    lemma_lookup_passes(t, 9, n, 0);
    lemma_lookup_passes(t, 10, n, 0);
    lemma_lookup_passes(t, 11, n, 0);
    lemma_lookup_passes(t, 12, n, 0);
    lemma_lookup_passes(t, 13, n, 0);
    lemma_lookup_passes(t, 14, n, 0);
    lemma_lookup_passes(t, 15, n, 0);
    lemma_lookup_passes(t, 16, n, 0);
    lemma_lookup_passes(t, 17, n, 0);
    lemma_lookup_passes(t, 18, n, 7);
    lemma_lookup_passes(t, 19, n, 0);
    lemma_lookup_finds(t, 20, n);
}

proof fn lemma_resolves_21()
    ensures
        resolve_key_spec("right_option"@) == Some(KEY_RIGHTALT),
{
    reveal_strlit("numpad_0");
    reveal_strlit("numpad_1");
    reveal_strlit("numpad_2");
    reveal_strlit("numpad_3");
    reveal_strlit("numpad_4");
    reveal_strlit("numpad_5");
    reveal_strlit("numpad_6");
    reveal_strlit("numpad_7");
    reveal_strlit("numpad_8");
    reveal_strlit("numpad_9");
    reveal_strlit("numpad_add");
    reveal_strlit("numpad_clear");
    reveal_strlit("numpad_decimal");
    reveal_strlit("numpad_divide");
    reveal_strlit("numpad_dot");
    reveal_strlit("numpad_enter");
    reveal_strlit("numpad_equals");
    reveal_strlit("numpad_minus");
    reveal_strlit("numpad_multiply");
    reveal_strlit("numpad_plus");
    reveal_strlit("numpad_subtract");
    reveal_strlit("right_option");
    let t = key_table();
    let n = "right_option"@;
    assert(t.skip(0) =~= t);
    lemma_lookup_passes(t, 0, n, 0);
    lemma_lookup_passes(t, 1, n, 0);
    lemma_lookup_passes(t, 2, n, 0);
    lemma_lookup_passes(t, 3, n, 0);
    lemma_lookup_passes(t, 4, n, 0);
    lemma_lookup_passes(t, 5, n, 0);
    lemma_lookup_passes(t, 6, n, 0);
    lemma_lookup_passes(t, 7, n, 0);
    lemma_lookup_passes(t, 8, n, 0);
    lemma_lookup_passes(t, 9, n, 0);
    lemma_lookup_passes(t, 10, n, 0);
    lemma_lookup_passes(t, 11, n, 0);
    lemma_lookup_passes(t, 12, n, 0);
    lemma_lookup_passes(t, 13, n, 0);
    lemma_lookup_passes(t, 14, n, 0);
    lemma_lookup_passes(t, 15, n, 0);
    lemma_lookup_passes(t, 16, n, 0);
    lemma_lookup_passes(t, 17, n, 0);
    lemma_lookup_passes(t, 18, n, 0);
    lemma_lookup_passes(t, 19, n, 0);
    lemma_lookup_passes(t, 20, n, 0);
    lemma_lookup_finds(t, 21, n);
}

proof fn lemma_resolves_22()
    ensures
        resolve_key_spec("right_alt"@) == Some(KEY_RIGHTALT),
{
    reveal_strlit("numpad_0");
    reveal_strlit("numpad_1");
    reveal_strlit("numpad_2");
    reveal_strlit("numpad_3");
    reveal_strlit("numpad_4");
    reveal_strlit("numpad_5");
    reveal_strlit("numpad_6");
    reveal_strlit("numpad_7");
    reveal_strlit("numpad_8");
    reveal_strlit("numpad_9");
    reveal_strlit("numpad_add");
    reveal_strlit("numpad_clear");
    reveal_strlit("numpad_decimal");
    reveal_strlit("numpad_divide");
    reveal_strlit("numpad_dot");
    reveal_strlit("numpad_enter");
    reveal_strlit("numpad_equals");
    reveal_strlit("numpad_minus");
    reveal_strlit("numpad_multiply");
    reveal_strlit("numpad_plus");
    reveal_strlit("numpad_subtract");
    reveal_strlit("right_alt");
    reveal_strlit("right_option");
    let t = key_table();
    let n = "right_alt"@;
    assert(t.skip(0) =~= t);
    lemma_lookup_passes(t, 0, n, 0);
    lemma_lookup_passes(t, 1, n, 0);
    lemma_lookup_passes(t, 2, n, 0);
    lemma_lookup_passes(t, 3, n, 0);
    lemma_lookup_passes(t, 4, n, 0);
    lemma_lookup_passes(t, 5, n, 0);
    lemma_lookup_passes(t, 6, n, 0);
    lemma_lookup_passes(t, 7, n, 0);
    lemma_lookup_passes(t, 8, n, 0);
    lemma_lookup_passes(t, 9, n, 0);
    lemma_lookup_passes(t, 10, n, 0);
    lemma_lookup_passes(t, 11, n, 0);
    lemma_lookup_passes(t, 12, n, 0);
    lemma_lookup_passes(t, 13, n, 0);
    lemma_lookup_passes(t, 14, n, 0);
    lemma_lookup_passes(t, 15, n, 0);
    lemma_lookup_passes(t, 16, n, 0);
    lemma_lookup_passes(t, 17, n, 0);
    lemma_lookup_passes(t, 18, n, 0);
    lemma_lookup_passes(t, 19, n, 0);
    lemma_lookup_passes(t, 20, n, 0);
    lemma_lookup_passes(t, 21, n, 0);
    lemma_lookup_finds(t, 22, n);
}

proof fn lemma_resolves_23()
    ensures
        resolve_key_spec("left_option"@) == Some(KEY_LEFTALT),
{
    reveal_strlit("left_option");
    reveal_strlit("numpad_0");
    reveal_strlit("numpad_1");
    reveal_strlit("numpad_2");
    reveal_strlit("numpad_3");
    reveal_strlit("numpad_4");
    reveal_strlit("numpad_5");
    reveal_strlit("numpad_6");
    reveal_strlit("numpad_7");
    reveal_strlit("numpad_8");
    reveal_strlit("numpad_9");
    reveal_strlit("numpad_add");
    reveal_strlit("numpad_clear");
    reveal_strlit("numpad_decimal");
    reveal_strlit("numpad_divide");
    reveal_strlit("numpad_dot");
    reveal_strlit("numpad_enter");
    reveal_strlit("numpad_equals");
    reveal_strlit("numpad_minus");
    reveal_strlit("numpad_multiply");
    reveal_strlit("numpad_plus");
    reveal_strlit("numpad_subtract");
    reveal_strlit("right_alt");
    reveal_strlit("right_option");
    let t = key_table();
    let n = "left_option"@;
    assert(t.skip(0) =~= t);
    lemma_lookup_passes(t, 0, n, 0);
    lemma_lookup_passes(t, 1, n, 0);
    lemma_lookup_passes(t, 2, n, 0);
    lemma_lookup_passes(t, 3, n, 0);
    lemma_lookup_passes(t, 4, n, 0);
    lemma_lookup_passes(t, 5, n, 0);
    lemma_lookup_passes(t, 6, n, 0);
    lemma_lookup_passes(t, 7, n, 0);
    lemma_lookup_passes(t, 8, n, 0);
    lemma_lookup_passes(t, 9, n, 0);
    lemma_lookup_passes(t, 10, n, 0);
    lemma_lookup_passes(t, 11, n, 0);
    lemma_lookup_passes(t, 12, n, 0);
    lemma_lookup_passes(t, 13, n, 0);
    lemma_lookup_passes(t, 14, n, 0);
    lemma_lookup_passes(t, 15, n, 0);
    lemma_lookup_passes(t, 16, n, 0);
    lemma_lookup_passes(t, 17, n, 0);
    lemma_lookup_passes(t, 18, n, 0);
    lemma_lookup_passes(t, 19, n, 0);
    lemma_lookup_passes(t, 20, n, 0);
    lemma_lookup_passes(t, 21, n, 0);
    lemma_lookup_passes(t, 22, n, 0);
    lemma_lookup_finds(t, 23, n);
}

proof fn lemma_resolves_24()
    ensures
        resolve_key_spec("left_alt"@) == Some(KEY_LEFTALT),
{
    reveal_strlit("left_alt");
    reveal_strlit("left_option");
    reveal_strlit("numpad_0");
    reveal_strlit("numpad_1");
    reveal_strlit("numpad_2");
    reveal_strlit("numpad_3");
    reveal_strlit("numpad_4");
    reveal_strlit("numpad_5");
    reveal_strlit("numpad_6");
    reveal_strlit("numpad_7");
    reveal_strlit("numpad_8");
    reveal_strlit("numpad_9");
    reveal_strlit("numpad_add");
    reveal_strlit("numpad_clear");
    reveal_strlit("numpad_decimal");
    reveal_strlit("numpad_divide");
    reveal_strlit("numpad_dot");
    reveal_strlit("numpad_enter");
    reveal_strlit("numpad_equals");
    reveal_strlit("numpad_minus");
    reveal_strlit("numpad_multiply");
    reveal_strlit("numpad_plus");
    reveal_strlit("numpad_subtract");
    reveal_strlit("right_alt");
    reveal_strlit("right_option");
    let t = key_table();
    let n = "left_alt"@;
    assert(t.skip(0) =~= t);
    lemma_lookup_passes(t, 0, n, 0);
    lemma_lookup_passes(t, 1, n, 0);
    lemma_lookup_passes(t, 2, n, 0);
    lemma_lookup_passes(t, 3, n, 0);
    lemma_lookup_passes(t, 4, n, 0);
    lemma_lookup_passes(t, 5, n, 0);
    lemma_lookup_passes(t, 6, n, 0);
    lemma_lookup_passes(t, 7, n, 0);
    lemma_lookup_passes(t, 8, n, 0);
    lemma_lookup_passes(t, 9, n, 0);
    lemma_lookup_passes(t, 10, n, 0);
    lemma_lookup_passes(t, 11, n, 0);
    lemma_lookup_passes(t, 12, n, 0);
    lemma_lookup_passes(t, 13, n, 0);
    lemma_lookup_passes(t, 14, n, 0);
    lemma_lookup_passes(t, 15, n, 0);
    lemma_lookup_passes(t, 16, n, 0);
    lemma_lookup_passes(t, 17, n, 0);
    lemma_lookup_passes(t, 18, n, 0);
    lemma_lookup_passes(t, 19, n, 0);
    lemma_lookup_passes(t, 20, n, 0);
    lemma_lookup_passes(t, 21, n, 0);
    lemma_lookup_passes(t, 22, n, 0);
    lemma_lookup_passes(t, 23, n, 0);
    lemma_lookup_finds(t, 24, n);
}

proof fn lemma_resolves_25()
    ensures
        resolve_key_spec("right_command"@) == Some(KEY_RIGHTMETA),
{
    reveal_strlit("left_alt");
    reveal_strlit("left_option");
    reveal_strlit("numpad_0");
    reveal_strlit("numpad_1");
    reveal_strlit("numpad_2");
    reveal_strlit("numpad_3");
    reveal_strlit("numpad_4");
    reveal_strlit("numpad_5");
    reveal_strlit("numpad_6");
    reveal_strlit("numpad_7");
    reveal_strlit("numpad_8");
    reveal_strlit("numpad_9");
    reveal_strlit("numpad_add");
    reveal_strlit("numpad_clear");
    reveal_strlit("numpad_decimal");
    reveal_strlit("numpad_divide");
    reveal_strlit("numpad_dot");
    reveal_strlit("numpad_enter");
    reveal_strlit("numpad_equals");
    reveal_strlit("numpad_minus");
    reveal_strlit("numpad_multiply");
    reveal_strlit("numpad_plus");
    reveal_strlit("numpad_subtract");
    reveal_strlit("right_alt");
    reveal_strlit("right_command");
    reveal_strlit("right_option");
    let t = key_table();
    let n = "right_command"@;
    assert(t.skip(0) =~= t);
    lemma_lookup_passes(t, 0, n, 0);
    lemma_lookup_passes(t, 1, n, 0);
    lemma_lookup_passes(t, 2, n, 0);
    lemma_lookup_passes(t, 3, n, 0);
    lemma_lookup_passes(t, 4, n, 0);
    lemma_lookup_passes(t, 5, n, 0);
    lemma_lookup_passes(t, 6, n, 0);
    lemma_lookup_passes(t, 7, n, 0);
    lemma_lookup_passes(t, 8, n, 0);
    lemma_lookup_passes(t, 9, n, 0);
    lemma_lookup_passes(t, 10, n, 0);
    lemma_lookup_passes(t, 11, n, 0);
    lemma_lookup_passes(t, 12, n, 0);
    lemma_lookup_passes(t, 13, n, 0);
    lemma_lookup_passes(t, 14, n, 0);
    lemma_lookup_passes(t, 15, n, 0);
    lemma_lookup_passes(t, 16, n, 0);
    lemma_lookup_passes(t, 17, n, 0);
    lemma_lookup_passes(t, 18, n, 0);
    lemma_lookup_passes(t, 19, n, 0);
    lemma_lookup_passes(t, 20, n, 0);
    lemma_lookup_passes(t, 21, n, 0);
    lemma_lookup_passes(t, 22, n, 0);
    lemma_lookup_passes(t, 23, n, 0);
    lemma_lookup_passes(t, 24, n, 0);
    lemma_lookup_finds(t, 25, n);
}

proof fn lemma_resolves_26()
    ensures
        resolve_key_spec("right_cmd"@) == Some(KEY_RIGHTMETA),
{
    reveal_strlit("left_alt");
    reveal_strlit("left_option");
    reveal_strlit("numpad_0");
    reveal_strlit("numpad_1");
    reveal_strlit("numpad_2");
    reveal_strlit("numpad_3");
    reveal_strlit("numpad_4");
    reveal_strlit("numpad_5");
    reveal_strlit("numpad_6");
    reveal_strlit("numpad_7");
    reveal_strlit("numpad_8");
    reveal_strlit("numpad_9");
    reveal_strlit("numpad_add");
    reveal_strlit("numpad_clear");
    reveal_strlit("numpad_decimal");
    reveal_strlit("numpad_divide");
    reveal_strlit("numpad_dot");
    reveal_strlit("numpad_enter");
    reveal_strlit("numpad_equals");
    reveal_strlit("numpad_minus");
    reveal_strlit("numpad_multiply");
    reveal_strlit("numpad_plus");
    reveal_strlit("numpad_subtract");
    reveal_strlit("right_alt");
    reveal_strlit("right_cmd");
    reveal_strlit("right_command");
    reveal_strlit("right_option");
    let t = key_table();
    let n = "right_cmd"@;
    assert(t.skip(0) =~= t);
    lemma_lookup_passes(t, 0, n, 0);
    lemma_lookup_passes(t, 1, n, 0);
    lemma_lookup_passes(t, 2, n, 0);
    lemma_lookup_passes(t, 3, n, 0);
    lemma_lookup_passes(t, 4, n, 0);
    lemma_lookup_passes(t, 5, n, 0);
    lemma_lookup_passes(t, 6, n, 0);
    lemma_lookup_passes(t, 7, n, 0);
    lemma_lookup_passes(t, 8, n, 0);
    lemma_lookup_passes(t, 9, n, 0);
    lemma_lookup_passes(t, 10, n, 0);
    lemma_lookup_passes(t, 11, n, 0);
    lemma_lookup_passes(t, 12, n, 0);
    lemma_lookup_passes(t, 13, n, 0);
    lemma_lookup_passes(t, 14, n, 0);
    lemma_lookup_passes(t, 15, n, 0);
    lemma_lookup_passes(t, 16, n, 0);
    lemma_lookup_passes(t, 17, n, 0);
    lemma_lookup_passes(t, 18, n, 0);
    lemma_lookup_passes(t, 19, n, 0);
    lemma_lookup_passes(t, 20, n, 0);
    lemma_lookup_passes(t, 21, n, 0);
    lemma_lookup_passes(t, 22, n, 6);
    lemma_lookup_passes(t, 23, n, 0);
    lemma_lookup_passes(t, 24, n, 0);
    lemma_lookup_passes(t, 25, n, 0);
    lemma_lookup_finds(t, 26, n);
}

proof fn lemma_resolves_27()
    ensures
        resolve_key_spec("left_command"@) == Some(KEY_LEFTMETA),
{
    reveal_strlit("left_alt");
    reveal_strlit("left_command");
    reveal_strlit("left_option");
    reveal_strlit("numpad_0");
    reveal_strlit("numpad_1");
    reveal_strlit("numpad_2");
    reveal_strlit("numpad_3");
    reveal_strlit("numpad_4");
    reveal_strlit("numpad_5");
    reveal_strlit("numpad_6");
    reveal_strlit("numpad_7");
    reveal_strlit("numpad_8");
    reveal_strlit("numpad_9");
    reveal_strlit("numpad_add");
    reveal_strlit("numpad_clear");
    reveal_strlit("numpad_decimal");
    reveal_strlit("numpad_divide");
    reveal_strlit("numpad_dot");
    reveal_strlit("numpad_enter");
    reveal_strlit("numpad_equals");
    reveal_strlit("numpad_minus");
    reveal_strlit("numpad_multiply");
    reveal_strlit("numpad_plus");
    reveal_strlit("numpad_subtract");
    reveal_strlit("right_alt");
    reveal_strlit("right_cmd");
    reveal_strlit("right_command");
    reveal_strlit("right_option");
    let t = key_table();
    let n = "left_command"@;
    assert(t.skip(0) =~= t);
    lemma_lookup_passes(t, 0, n, 0);
    lemma_lookup_passes(t, 1, n, 0);
    lemma_lookup_passes(t, 2, n, 0);
    lemma_lookup_passes(t, 3, n, 0);
    lemma_lookup_passes(t, 4, n, 0);
    lemma_lookup_passes(t, 5, n, 0);
    lemma_lookup_passes(t, 6, n, 0);
    lemma_lookup_passes(t, 7, n, 0);
    lemma_lookup_passes(t, 8, n, 0);
    lemma_lookup_passes(t, 9, n, 0);
    lemma_lookup_passes(t, 10, n, 0);
    lemma_lookup_passes(t, 11, n, 0);
    lemma_lookup_passes(t, 12, n, 0);
    lemma_lookup_passes(t, 13, n, 0);
    lemma_lookup_passes(t, 14, n, 0);
    lemma_lookup_passes(t, 15, n, 0);
    lemma_lookup_passes(t, 16, n, 0);
    lemma_lookup_passes(t, 17, n, 0);
    lemma_lookup_passes(t, 18, n, 0);
    lemma_lookup_passes(t, 19, n, 0);
    lemma_lookup_passes(t, 20, n, 0);
    lemma_lookup_passes(t, 21, n, 0);
    lemma_lookup_passes(t, 22, n, 0);
    lemma_lookup_passes(t, 23, n, 0);
    lemma_lookup_passes(t, 24, n, 0);
    lemma_lookup_passes(t, 25, n, 0);
    lemma_lookup_passes(t, 26, n, 0);
    lemma_lookup_finds(t, 27, n);
}

proof fn lemma_resolves_28()
    ensures
        resolve_key_spec("left_cmd"@) == Some(KEY_LEFTMETA),
{
    reveal_strlit("left_alt");
    reveal_strlit("left_cmd");
    reveal_strlit("left_command");
    reveal_strlit("left_option");
    reveal_strlit("numpad_0");
    reveal_strlit("numpad_1");
    reveal_strlit("numpad_2");
    reveal_strlit("numpad_3");
    reveal_strlit("numpad_4");
    reveal_strlit("numpad_5");
    reveal_strlit("numpad_6");
    reveal_strlit("numpad_7");
    reveal_strlit("numpad_8");
    reveal_strlit("numpad_9");
    reveal_strlit("numpad_add");
    reveal_strlit("numpad_clear");
    reveal_strlit("numpad_decimal");
    reveal_strlit("numpad_divide");
    reveal_strlit("numpad_dot");
    reveal_strlit("numpad_enter");
    reveal_strlit("numpad_equals");
    reveal_strlit("numpad_minus");
    reveal_strlit("numpad_multiply");
    reveal_strlit("numpad_plus");
    reveal_strlit("numpad_subtract");
    reveal_strlit("right_alt");
    reveal_strlit("right_cmd");
    reveal_strlit("right_command");
    reveal_strlit("right_option");
    let t = key_table();
    let n = "left_cmd"@;
    assert(t.skip(0) =~= t);
    lemma_lookup_passes(t, 0, n, 0);
    lemma_lookup_passes(t, 1, n, 0);
    lemma_lookup_passes(t, 2, n, 0);
    lemma_lookup_passes(t, 3, n, 0);
    lemma_lookup_passes(t, 4, n, 0);
    lemma_lookup_passes(t, 5, n, 0);
    lemma_lookup_passes(t, 6, n, 0);
    lemma_lookup_passes(t, 7, n, 0);
    lemma_lookup_passes(t, 8, n, 0);
    lemma_lookup_passes(t, 9, n, 0);
    lemma_lookup_passes(t, 10, n, 0);
    lemma_lookup_passes(t, 11, n, 0);
    lemma_lookup_passes(t, 12, n, 0);
    lemma_lookup_passes(t, 13, n, 0);
    lemma_lookup_passes(t, 14, n, 0);
    lemma_lookup_passes(t, 15, n, 0);
    lemma_lookup_passes(t, 16, n, 0);
    lemma_lookup_passes(t, 17, n, 0);
    lemma_lookup_passes(t, 18, n, 0);
    lemma_lookup_passes(t, 19, n, 0);
    lemma_lookup_passes(t, 20, n, 0);
    lemma_lookup_passes(t, 21, n, 0);
    lemma_lookup_passes(t, 22, n, 0);
    lemma_lookup_passes(t, 23, n, 0);
    lemma_lookup_passes(t, 24, n, 5);
    lemma_lookup_passes(t, 25, n, 0);
    lemma_lookup_passes(t, 26, n, 0);
    lemma_lookup_passes(t, 27, n, 0);
    lemma_lookup_finds(t, 28, n);
}

proof fn lemma_resolves_29()
    ensures
        resolve_key_spec("right_shift"@) == Some(KEY_RIGHTSHIFT),
{
    reveal_strlit("left_alt");
    reveal_strlit("left_cmd");
    reveal_strlit("left_command");
    reveal_strlit("left_option");
    reveal_strlit("numpad_0");
    reveal_strlit("numpad_1");
    reveal_strlit("numpad_2");
    reveal_strlit("numpad_3");
    reveal_strlit("numpad_4");
    reveal_strlit("numpad_5");
    reveal_strlit("numpad_6");
    reveal_strlit("numpad_7");
    reveal_strlit("numpad_8");
    reveal_strlit("numpad_9");
    reveal_strlit("numpad_add");
    reveal_strlit("numpad_clear");
    reveal_strlit("numpad_decimal");
    reveal_strlit("numpad_divide");
    reveal_strlit("numpad_dot");
    reveal_strlit("numpad_enter");
    reveal_strlit("numpad_equals");
    reveal_strlit("numpad_minus");
    reveal_strlit("numpad_multiply");
    reveal_strlit("numpad_plus");
    reveal_strlit("numpad_subtract");
    reveal_strlit("right_alt");
    reveal_strlit("right_cmd");
    reveal_strlit("right_command");
    reveal_strlit("right_option");
    reveal_strlit("right_shift");
    let t = key_table();
    let n = "right_shift"@;
    assert(t.skip(0) =~= t);
    lemma_lookup_passes(t, 0, n, 0);
    lemma_lookup_passes(t, 1, n, 0);
    lemma_lookup_passes(t, 2, n, 0);
    lemma_lookup_passes(t, 3, n, 0);
    lemma_lookup_passes(t, 4, n, 0);
    lemma_lookup_passes(t, 5, n, 0);
    lemma_lookup_passes(t, 6, n, 0);
    lemma_lookup_passes(t, 7, n, 0);
    lemma_lookup_passes(t, 8, n, 0);
    lemma_lookup_passes(t, 9, n, 0);
    lemma_lookup_passes(t, 10, n, 0);
    lemma_lookup_passes(t, 11, n, 0);
    lemma_lookup_passes(t, 12, n, 0);
    lemma_lookup_passes(t, 13, n, 0);
    lemma_lookup_passes(t, 14, n, 0);
    lemma_lookup_passes(t, 15, n, 0);
    lemma_lookup_passes(t, 16, n, 0);
    lemma_lookup_passes(t, 17, n, 0);
    lemma_lookup_passes(t, 18, n, 0);
    lemma_lookup_passes(t, 19, n, 0);
    lemma_lookup_passes(t, 20, n, 0);
    lemma_lookup_passes(t, 21, n, 0);
    lemma_lookup_passes(t, 22, n, 0);
    lemma_lookup_passes(t, 23, n, 0);
    lemma_lookup_passes(t, 24, n, 0);
    lemma_lookup_passes(t, 25, n, 0);
    lemma_lookup_passes(t, 26, n, 0);
    lemma_lookup_passes(t, 27, n, 0);
    lemma_lookup_passes(t, 28, n, 0);
    lemma_lookup_finds(t, 29, n);
}

proof fn lemma_resolves_30()
    ensures
        resolve_key_spec("left_shift"@) == Some(KEY_LEFTSHIFT),
{
    reveal_strlit("left_alt");
    reveal_strlit("left_cmd");
    reveal_strlit("left_command");
    reveal_strlit("left_option");
    reveal_strlit("left_shift");
    reveal_strlit("numpad_0");
    reveal_strlit("numpad_1");
    reveal_strlit("numpad_2");
    reveal_strlit("numpad_3");
    reveal_strlit("numpad_4");
    reveal_strlit("numpad_5");
    reveal_strlit("numpad_6");
    reveal_strlit("numpad_7");
    reveal_strlit("numpad_8");
    reveal_strlit("numpad_9");
    reveal_strlit("numpad_add");
    reveal_strlit("numpad_clear");
    reveal_strlit("numpad_decimal");
    reveal_strlit("numpad_divide");
    reveal_strlit("numpad_dot");
    reveal_strlit("numpad_enter");
    reveal_strlit("numpad_equals");
    reveal_strlit("numpad_minus");
    reveal_strlit("numpad_multiply");
    reveal_strlit("numpad_plus");
    reveal_strlit("numpad_subtract");
    reveal_strlit("right_alt");
    reveal_strlit("right_cmd");
    reveal_strlit("right_command");
    reveal_strlit("right_option");
    reveal_strlit("right_shift");
    let t = key_table();
    let n = "left_shift"@;
    assert(t.skip(0) =~= t);
    lemma_lookup_passes(t, 0, n, 0);
    lemma_lookup_passes(t, 1, n, 0);
    lemma_lookup_passes(t, 2, n, 0);
    lemma_lookup_passes(t, 3, n, 0);
    lemma_lookup_passes(t, 4, n, 0);
    lemma_lookup_passes(t, 5, n, 0);
    lemma_lookup_passes(t, 6, n, 0);
    lemma_lookup_passes(t, 7, n, 0);
    lemma_lookup_passes(t, 8, n, 0);
    lemma_lookup_passes(t, 9, n, 0);
    lemma_lookup_passes(t, 10, n, 0);
    lemma_lookup_passes(t, 11, n, 0);
    lemma_lookup_passes(t, 12, n, 0);
    lemma_lookup_passes(t, 13, n, 0);
    lemma_lookup_passes(t, 14, n, 0);
    lemma_lookup_passes(t, 15, n, 0);
    lemma_lookup_passes(t, 16, n, 0);
    lemma_lookup_passes(t, 17, n, 0);
    lemma_lookup_passes(t, 18, n, 0);
    lemma_lookup_passes(t, 19, n, 0);
    lemma_lookup_passes(t, 20, n, 0);
    lemma_lookup_passes(t, 21, n, 0);
    lemma_lookup_passes(t, 22, n, 0);
    lemma_lookup_passes(t, 23, n, 0);
    lemma_lookup_passes(t, 24, n, 0);
    lemma_lookup_passes(t, 25, n, 0);
    lemma_lookup_passes(t, 26, n, 0);
    lemma_lookup_passes(t, 27, n, 0);
    lemma_lookup_passes(t, 28, n, 0);
    lemma_lookup_passes(t, 29, n, 0);
    lemma_lookup_finds(t, 30, n);
}

proof fn lemma_resolves_31()
    ensures
        resolve_key_spec("right_control"@) == Some(KEY_RIGHTCTRL),
{
    reveal_strlit("left_alt");
    reveal_strlit("left_cmd");
    reveal_strlit("left_command");
    reveal_strlit("left_option");
    reveal_strlit("left_shift");
    reveal_strlit("numpad_0");
    reveal_strlit("numpad_1");
    reveal_strlit("numpad_2");
    reveal_strlit("numpad_3");
    reveal_strlit("numpad_4");
    reveal_strlit("numpad_5");
    reveal_strlit("numpad_6");
    reveal_strlit("numpad_7");
    reveal_strlit("numpad_8");
    reveal_strlit("numpad_9");
    reveal_strlit("numpad_add");
    reveal_strlit("numpad_clear");
    reveal_strlit("numpad_decimal");
    reveal_strlit("numpad_divide");
    reveal_strlit("numpad_dot");
    reveal_strlit("numpad_enter");
    reveal_strlit("numpad_equals");
    reveal_strlit("numpad_minus");
    reveal_strlit("numpad_multiply");
    reveal_strlit("numpad_plus");
    reveal_strlit("numpad_subtract");
    reveal_strlit("right_alt");
    reveal_strlit("right_cmd");
    reveal_strlit("right_command");
    reveal_strlit("right_control");
    reveal_strlit("right_option");
    reveal_strlit("right_shift");
    let t = key_table();
    let n = "right_control"@;
    assert(t.skip(0) =~= t);
    lemma_lookup_passes(t, 0, n, 0);
    lemma_lookup_passes(t, 1, n, 0);
    lemma_lookup_passes(t, 2, n, 0);
    lemma_lookup_passes(t, 3, n, 0);
    lemma_lookup_passes(t, 4, n, 0);
    lemma_lookup_passes(t, 5, n, 0);
    lemma_lookup_passes(t, 6, n, 0);
    lemma_lookup_passes(t, 7, n, 0);
    lemma_lookup_passes(t, 8, n, 0);
    lemma_lookup_passes(t, 9, n, 0);
    lemma_lookup_passes(t, 10, n, 0);
    lemma_lookup_passes(t, 11, n, 0);
    lemma_lookup_passes(t, 12, n, 0);
    lemma_lookup_passes(t, 13, n, 0);
    lemma_lookup_passes(t, 14, n, 0);
    lemma_lookup_passes(t, 15, n, 0);
    lemma_lookup_passes(t, 16, n, 0);
    lemma_lookup_passes(t, 17, n, 0);
    lemma_lookup_passes(t, 18, n, 0);
    lemma_lookup_passes(t, 19, n, 0);
    lemma_lookup_passes(t, 20, n, 0);
    lemma_lookup_passes(t, 21, n, 0);
    lemma_lookup_passes(t, 22, n, 0);
    lemma_lookup_passes(t, 23, n, 0);
    lemma_lookup_passes(t, 24, n, 0);
    lemma_lookup_passes(t, 25, n, 8);
    lemma_lookup_passes(t, 26, n, 0);
    lemma_lookup_passes(t, 27, n, 0);
    lemma_lookup_passes(t, 28, n, 0);
    lemma_lookup_passes(t, 29, n, 0);
    lemma_lookup_passes(t, 30, n, 0);
    lemma_lookup_finds(t, 31, n);
}

proof fn lemma_resolves_32()
    ensures
        resolve_key_spec("right_ctrl"@) == Some(KEY_RIGHTCTRL),
{
    reveal_strlit("left_alt");
    reveal_strlit("left_cmd");
    reveal_strlit("left_command");
    reveal_strlit("left_option");
    reveal_strlit("left_shift");
    reveal_strlit("numpad_0");
    reveal_strlit("numpad_1");
    reveal_strlit("numpad_2");
    reveal_strlit("numpad_3");
    reveal_strlit("numpad_4");
    reveal_strlit("numpad_5");
    reveal_strlit("numpad_6");
    reveal_strlit("numpad_7");
    reveal_strlit("numpad_8");
    reveal_strlit("numpad_9");
    reveal_strlit("numpad_add");
    reveal_strlit("numpad_clear");
    reveal_strlit("numpad_decimal");
    reveal_strlit("numpad_divide");
    reveal_strlit("numpad_dot");
    reveal_strlit("numpad_enter");
    reveal_strlit("numpad_equals");
    reveal_strlit("numpad_minus");
    reveal_strlit("numpad_multiply");
    reveal_strlit("numpad_plus");
    reveal_strlit("numpad_subtract");
    reveal_strlit("right_alt");
    reveal_strlit("right_cmd");
    reveal_strlit("right_command");
    reveal_strlit("right_control");
    reveal_strlit("right_ctrl");
    reveal_strlit("right_option");
    reveal_strlit("right_shift");
    let t = key_table();
    let n = "right_ctrl"@;
    assert(t.skip(0) =~= t);
    lemma_lookup_passes(t, 0, n, 0);
    lemma_lookup_passes(t, 1, n, 0);
    lemma_lookup_passes(t, 2, n, 0);
    lemma_lookup_passes(t, 3, n, 0);
    lemma_lookup_passes(t, 4, n, 0);
    lemma_lookup_passes(t, 5, n, 0);
    lemma_lookup_passes(t, 6, n, 0);
    lemma_lookup_passes(t, 7, n, 0);
    lemma_lookup_passes(t, 8, n, 0);
    lemma_lookup_passes(t, 9, n, 0);
    lemma_lookup_passes(t, 10, n, 0);
    lemma_lookup_passes(t, 11, n, 0);
    lemma_lookup_passes(t, 12, n, 0);
    lemma_lookup_passes(t, 13, n, 0);
    lemma_lookup_passes(t, 14, n, 0);
    lemma_lookup_passes(t, 15, n, 0);
    lemma_lookup_passes(t, 16, n, 0);
    lemma_lookup_passes(t, 17, n, 0);
    lemma_lookup_passes(t, 18, n, 0);
    lemma_lookup_passes(t, 19, n, 0);
    lemma_lookup_passes(t, 20, n, 0);
    lemma_lookup_passes(t, 21, n, 0);
    lemma_lookup_passes(t, 22, n, 0);
    lemma_lookup_passes(t, 23, n, 0);
    lemma_lookup_passes(t, 24, n, 0);
    lemma_lookup_passes(t, 25, n, 0);
    lemma_lookup_passes(t, 26, n, 0);
    lemma_lookup_passes(t, 27, n, 0);
    lemma_lookup_passes(t, 28, n, 0);
    lemma_lookup_passes(t, 29, n, 0);
    lemma_lookup_passes(t, 30, n, 0);
    lemma_lookup_passes(t, 31, n, 0);
    lemma_lookup_finds(t, 32, n);
}

proof fn lemma_resolves_33()
    ensures
        resolve_key_spec("left_control"@) == Some(KEY_LEFTCTRL),
{
    reveal_strlit("left_alt");
    reveal_strlit("left_cmd");
    reveal_strlit("left_command");
    reveal_strlit("left_control");
    reveal_strlit("left_option");
    reveal_strlit("left_shift");
    reveal_strlit("numpad_0");
    reveal_strlit("numpad_1");
    reveal_strlit("numpad_2");
    reveal_strlit("numpad_3");
    reveal_strlit("numpad_4");
    reveal_strlit("numpad_5");
    reveal_strlit("numpad_6");
    reveal_strlit("numpad_7");
    reveal_strlit("numpad_8");
    reveal_strlit("numpad_9");
    reveal_strlit("numpad_add");
    reveal_strlit("numpad_clear");
    reveal_strlit("numpad_decimal");
    reveal_strlit("numpad_divide");
    reveal_strlit("numpad_dot");
    reveal_strlit("numpad_enter");
    reveal_strlit("numpad_equals");
    reveal_strlit("numpad_minus");
    reveal_strlit("numpad_multiply");
    reveal_strlit("numpad_plus");
    reveal_strlit("numpad_subtract");
    reveal_strlit("right_alt");
    reveal_strlit("right_cmd");
    reveal_strlit("right_command");
    reveal_strlit("right_control");
    reveal_strlit("right_ctrl");
    reveal_strlit("right_option");
    reveal_strlit("right_shift");
    let t = key_table();
    let n = "left_control"@;
    assert(t.skip(0) =~= t);
    lemma_lookup_passes(t, 0, n, 0);
    lemma_lookup_passes(t, 1, n, 0);
    lemma_lookup_passes(t, 2, n, 0);
    lemma_lookup_passes(t, 3, n, 0);
    lemma_lookup_passes(t, 4, n, 0);
    lemma_lookup_passes(t, 5, n, 0);
    lemma_lookup_passes(t, 6, n, 0);
    lemma_lookup_passes(t, 7, n, 0);
    lemma_lookup_passes(t, 8, n, 0);
    lemma_lookup_passes(t, 9, n, 0);
    lemma_lookup_passes(t, 10, n, 0);
    lemma_lookup_passes(t, 11, n, 0);
    lemma_lookup_passes(t, 12, n, 0);
    lemma_lookup_passes(t, 13, n, 0);
    lemma_lookup_passes(t, 14, n, 0);
    lemma_lookup_passes(t, 15, n, 0);
    lemma_lookup_passes(t, 16, n, 0);
    lemma_lookup_passes(t, 17, n, 0);
    lemma_lookup_passes(t, 18, n, 0);
    lemma_lookup_passes(t, 19, n, 0);
    lemma_lookup_passes(t, 20, n, 0);
    lemma_lookup_passes(t, 21, n, 0);
    lemma_lookup_passes(t, 22, n, 0);
    lemma_lookup_passes(t, 23, n, 0);
    lemma_lookup_passes(t, 24, n, 0);
    lemma_lookup_passes(t, 25, n, 0);
    lemma_lookup_passes(t, 26, n, 0);
    lemma_lookup_passes(t, 27, n, 7);
    lemma_lookup_passes(t, 28, n, 0);
    lemma_lookup_passes(t, 29, n, 0);
    lemma_lookup_passes(t, 30, n, 0);
    lemma_lookup_passes(t, 31, n, 0);
    lemma_lookup_passes(t, 32, n, 0);
    lemma_lookup_finds(t, 33, n);
}

proof fn lemma_resolves_34()
    ensures
        resolve_key_spec("left_ctrl"@) == Some(KEY_LEFTCTRL),
{
    reveal_strlit("left_alt");
    reveal_strlit("left_cmd");
    reveal_strlit("left_command");
    reveal_strlit("left_control");
    reveal_strlit("left_ctrl");
    reveal_strlit("left_option");
    reveal_strlit("left_shift");
    reveal_strlit("numpad_0");
    reveal_strlit("numpad_1");
    reveal_strlit("numpad_2");
    reveal_strlit("numpad_3");
    reveal_strlit("numpad_4");
    reveal_strlit("numpad_5");
    reveal_strlit("numpad_6");
    reveal_strlit("numpad_7");
    reveal_strlit("numpad_8");
    reveal_strlit("numpad_9");
    reveal_strlit("numpad_add");
    reveal_strlit("numpad_clear");
    reveal_strlit("numpad_decimal");
    reveal_strlit("numpad_divide");
    reveal_strlit("numpad_dot");
    reveal_strlit("numpad_enter");
    reveal_strlit("numpad_equals");
    reveal_strlit("numpad_minus");
    reveal_strlit("numpad_multiply");
    reveal_strlit("numpad_plus");
    reveal_strlit("numpad_subtract");
    reveal_strlit("right_alt");
    reveal_strlit("right_cmd");
    reveal_strlit("right_command");
    reveal_strlit("right_control");
    reveal_strlit("right_ctrl");
    reveal_strlit("right_option");
    reveal_strlit("right_shift");
    let t = key_table();
    let n = "left_ctrl"@;
    assert(t.skip(0) =~= t);
    lemma_lookup_passes(t, 0, n, 0);
    lemma_lookup_passes(t, 1, n, 0);
    lemma_lookup_passes(t, 2, n, 0);
    lemma_lookup_passes(t, 3, n, 0);
    lemma_lookup_passes(t, 4, n, 0);
    lemma_lookup_passes(t, 5, n, 0);
    lemma_lookup_passes(t, 6, n, 0);
    lemma_lookup_passes(t, 7, n, 0);
    lemma_lookup_passes(t, 8, n, 0);
    lemma_lookup_passes(t, 9, n, 0);
    lemma_lookup_passes(t, 10, n, 0);
    lemma_lookup_passes(t, 11, n, 0);
    lemma_lookup_passes(t, 12, n, 0);
    lemma_lookup_passes(t, 13, n, 0);
    lemma_lookup_passes(t, 14, n, 0);
    lemma_lookup_passes(t, 15, n, 0);
    lemma_lookup_passes(t, 16, n, 0);
    lemma_lookup_passes(t, 17, n, 0);
    lemma_lookup_passes(t, 18, n, 0);
    lemma_lookup_passes(t, 19, n, 0);
    lemma_lookup_passes(t, 20, n, 0);
    lemma_lookup_passes(t, 21, n, 0);
    lemma_lookup_passes(t, 22, n, 0);
    lemma_lookup_passes(t, 23, n, 0);
    lemma_lookup_passes(t, 24, n, 0);
    lemma_lookup_passes(t, 25, n, 0);
    lemma_lookup_passes(t, 26, n, 0);
    lemma_lookup_passes(t, 27, n, 0);
    lemma_lookup_passes(t, 28, n, 0);
    lemma_lookup_passes(t, 29, n, 0);
    lemma_lookup_passes(t, 30, n, 0);
    lemma_lookup_passes(t, 31, n, 0);
    lemma_lookup_passes(t, 32, n, 0);
    lemma_lookup_passes(t, 33, n, 0);
    lemma_lookup_finds(t, 34, n);
}

proof fn lemma_resolves_35()
    ensures
        resolve_key_spec("fn_key"@) == Some(KEY_FN),
{
    reveal_strlit("fn_key");
    reveal_strlit("left_alt");
    reveal_strlit("left_cmd");
    reveal_strlit("left_command");
    reveal_strlit("left_control");
    reveal_strlit("left_ctrl");
    reveal_strlit("left_option");
    reveal_strlit("left_shift");
    reveal_strlit("numpad_0");
    reveal_strlit("numpad_1");
    reveal_strlit("numpad_2");
    reveal_strlit("numpad_3");
    reveal_strlit("numpad_4");
    reveal_strlit("numpad_5");
    reveal_strlit("numpad_6");
    reveal_strlit("numpad_7");
    reveal_strlit("numpad_8");
    reveal_strlit("numpad_9");
    reveal_strlit("numpad_add");
    reveal_strlit("numpad_clear");
    reveal_strlit("numpad_decimal");
    reveal_strlit("numpad_divide");
    reveal_strlit("numpad_dot");
    reveal_strlit("numpad_enter");
    reveal_strlit("numpad_equals");
    reveal_strlit("numpad_minus");
    reveal_strlit("numpad_multiply");
    reveal_strlit("numpad_plus");
    reveal_strlit("numpad_subtract");
    reveal_strlit("right_alt");
    reveal_strlit("right_cmd");
    reveal_strlit("right_command");
    reveal_strlit("right_control");
    reveal_strlit("right_ctrl");
    reveal_strlit("right_option");
    reveal_strlit("right_shift");
    let t = key_table();
    let n = "fn_key"@;
    assert(t.skip(0) =~= t);
    lemma_lookup_passes(t, 0, n, 0);
    lemma_lookup_passes(t, 1, n, 0);
    lemma_lookup_passes(t, 2, n, 0);
    lemma_lookup_passes(t, 3, n, 0);
    lemma_lookup_passes(t, 4, n, 0);
    lemma_lookup_passes(t, 5, n, 0);
    lemma_lookup_passes(t, 6, n, 0);
    lemma_lookup_passes(t, 7, n, 0);
    lemma_lookup_passes(t, 8, n, 0);
    lemma_lookup_passes(t, 9, n, 0);
    lemma_lookup_passes(t, 10, n, 0);
    lemma_lookup_passes(t, 11, n, 0);
    lemma_lookup_passes(t, 12, n, 0);
    lemma_lookup_passes(t, 13, n, 0);
    lemma_lookup_passes(t, 14, n, 0);
    lemma_lookup_passes(t, 15, n, 0);
    lemma_lookup_passes(t, 16, n, 0);
    lemma_lookup_passes(t, 17, n, 0);
    lemma_lookup_passes(t, 18, n, 0);
    lemma_lookup_passes(t, 19, n, 0);
    lemma_lookup_passes(t, 20, n, 0);
    lemma_lookup_passes(t, 21, n, 0);
    lemma_lookup_passes(t, 22, n, 0);
    lemma_lookup_passes(t, 23, n, 0);
    lemma_lookup_passes(t, 24, n, 0);
    lemma_lookup_passes(t, 25, n, 0);
    lemma_lookup_passes(t, 26, n, 0);
    lemma_lookup_passes(t, 27, n, 0);
    lemma_lookup_passes(t, 28, n, 0);
    lemma_lookup_passes(t, 29, n, 0);
    lemma_lookup_passes(t, 30, n, 0);
    lemma_lookup_passes(t, 31, n, 0);
    lemma_lookup_passes(t, 32, n, 0);
    lemma_lookup_passes(t, 33, n, 0);
    lemma_lookup_passes(t, 34, n, 0);
    lemma_lookup_finds(t, 35, n);
}

proof fn lemma_resolves_36()
    ensures
        resolve_key_spec("fn"@) == Some(KEY_FN),
{
    reveal_strlit("fn");
    reveal_strlit("fn_key");
    reveal_strlit("left_alt");
    reveal_strlit("left_cmd");
    reveal_strlit("left_command");
    reveal_strlit("left_control");
    reveal_strlit("left_ctrl");
    reveal_strlit("left_option");
    reveal_strlit("left_shift");
    reveal_strlit("numpad_0");
    reveal_strlit("numpad_1");
    reveal_strlit("numpad_2");
    reveal_strlit("numpad_3");
    reveal_strlit("numpad_4");
    reveal_strlit("numpad_5");
    reveal_strlit("numpad_6");
    reveal_strlit("numpad_7");
    reveal_strlit("numpad_8");
    reveal_strlit("numpad_9");
    reveal_strlit("numpad_add");
    reveal_strlit("numpad_clear");
    reveal_strlit("numpad_decimal");
    reveal_strlit("numpad_divide");
    reveal_strlit("numpad_dot");
    reveal_strlit("numpad_enter");
    reveal_strlit("numpad_equals");
    reveal_strlit("numpad_minus");
    reveal_strlit("numpad_multiply");
    reveal_strlit("numpad_plus");
    reveal_strlit("numpad_subtract");
    reveal_strlit("right_alt");
    reveal_strlit("right_cmd");
    reveal_strlit("right_command");
    reveal_strlit("right_control");
    reveal_strlit("right_ctrl");
    reveal_strlit("right_option");
    reveal_strlit("right_shift");
    let t = key_table();
    let n = "fn"@;
    assert(t.skip(0) =~= t);
    lemma_lookup_passes(t, 0, n, 0);
    lemma_lookup_passes(t, 1, n, 0);
    lemma_lookup_passes(t, 2, n, 0);
    lemma_lookup_passes(t, 3, n, 0);
    lemma_lookup_passes(t, 4, n, 0);
    lemma_lookup_passes(t, 5, n, 0);
    lemma_lookup_passes(t, 6, n, 0);
    lemma_lookup_passes(t, 7, n, 0);
    lemma_lookup_passes(t, 8, n, 0);
    lemma_lookup_passes(t, 9, n, 0);
    lemma_lookup_passes(t, 10, n, 0);
    lemma_lookup_passes(t, 11, n, 0);
    lemma_lookup_passes(t, 12, n, 0);
    lemma_lookup_passes(t, 13, n, 0);
    lemma_lookup_passes(t, 14, n, 0);
    lemma_lookup_passes(t, 15, n, 0);
    lemma_lookup_passes(t, 16, n, 0);
    lemma_lookup_passes(t, 17, n, 0);
    lemma_lookup_passes(t, 18, n, 0);
    lemma_lookup_passes(t, 19, n, 0);
    lemma_lookup_passes(t, 20, n, 0);
    lemma_lookup_passes(t, 21, n, 0);
    lemma_lookup_passes(t, 22, n, 0);
    lemma_lookup_passes(t, 23, n, 0);
    lemma_lookup_passes(t, 24, n, 0);
    lemma_lookup_passes(t, 25, n, 0);
    lemma_lookup_passes(t, 26, n, 0);
    lemma_lookup_passes(t, 27, n, 0);
    lemma_lookup_passes(t, 28, n, 0);
    lemma_lookup_passes(t, 29, n, 0);
    lemma_lookup_passes(t, 30, n, 0);
    lemma_lookup_passes(t, 31, n, 0);
    lemma_lookup_passes(t, 32, n, 0);
    lemma_lookup_passes(t, 33, n, 0);
    lemma_lookup_passes(t, 34, n, 0);
    lemma_lookup_passes(t, 35, n, 0);
    lemma_lookup_finds(t, 36, n);
}

proof fn lemma_resolves_37()
    ensures
        resolve_key_spec("caps_lock"@) == Some(KEY_CAPSLOCK),
{
    reveal_strlit("caps_lock");
    reveal_strlit("fn");
    reveal_strlit("fn_key");
    reveal_strlit("left_alt");
    reveal_strlit("left_cmd");
    reveal_strlit("left_command");
    reveal_strlit("left_control");
    reveal_strlit("left_ctrl");
    reveal_strlit("left_option");
    reveal_strlit("left_shift");
    reveal_strlit("numpad_0");
    reveal_strlit("numpad_1");
    reveal_strlit("numpad_2");
    reveal_strlit("numpad_3");
    reveal_strlit("numpad_4");
    reveal_strlit("numpad_5");
    reveal_strlit("numpad_6");
    reveal_strlit("numpad_7");
    reveal_strlit("numpad_8");
    reveal_strlit("numpad_9");
    reveal_strlit("numpad_add");
    reveal_strlit("numpad_clear");
    reveal_strlit("numpad_decimal");
    reveal_strlit("numpad_divide");
    reveal_strlit("numpad_dot");
    reveal_strlit("numpad_enter");
    reveal_strlit("numpad_equals");
    reveal_strlit("numpad_minus");
    reveal_strlit("numpad_multiply");
    reveal_strlit("numpad_plus");
    reveal_strlit("numpad_subtract");
    reveal_strlit("right_alt");
    reveal_strlit("right_cmd");
    reveal_strlit("right_command");
    reveal_strlit("right_control");
    reveal_strlit("right_ctrl");
    reveal_strlit("right_option");
    reveal_strlit("right_shift");
    let t = key_table();
    let n = "caps_lock"@;
    assert(t.skip(0) =~= t);
    lemma_lookup_passes(t, 0, n, 0);
    lemma_lookup_passes(t, 1, n, 0);
    lemma_lookup_passes(t, 2, n, 0);
    lemma_lookup_passes(t, 3, n, 0);
    lemma_lookup_passes(t, 4, n, 0);
    lemma_lookup_passes(t, 5, n, 0);
    lemma_lookup_passes(t, 6, n, 0);
    lemma_lookup_passes(t, 7, n, 0);
    lemma_lookup_passes(t, 8, n, 0);
    lemma_lookup_passes(t, 9, n, 0);
    lemma_lookup_passes(t, 10, n, 0);
    lemma_lookup_passes(t, 11, n, 0);
    lemma_lookup_passes(t, 12, n, 0);
    lemma_lookup_passes(t, 13, n, 0);
    lemma_lookup_passes(t, 14, n, 0);
    lemma_lookup_passes(t, 15, n, 0);
    lemma_lookup_passes(t, 16, n, 0);
    lemma_lookup_passes(t, 17, n, 0);
    lemma_lookup_passes(t, 18, n, 0);
    lemma_lookup_passes(t, 19, n, 0);
    lemma_lookup_passes(t, 20, n, 0);
    lemma_lookup_passes(t, 21, n, 0);
    lemma_lookup_passes(t, 22, n, 0);
    lemma_lookup_passes(t, 23, n, 0);
    lemma_lookup_passes(t, 24, n, 0);
    lemma_lookup_passes(t, 25, n, 0);
    lemma_lookup_passes(t, 26, n, 0);
    lemma_lookup_passes(t, 27, n, 0);
    lemma_lookup_passes(t, 28, n, 0);
    lemma_lookup_passes(t, 29, n, 0);
    lemma_lookup_passes(t, 30, n, 0);
    lemma_lookup_passes(t, 31, n, 0);
    lemma_lookup_passes(t, 32, n, 0);
    lemma_lookup_passes(t, 33, n, 0);
    lemma_lookup_passes(t, 34, n, 0);
    lemma_lookup_passes(t, 35, n, 0);
    lemma_lookup_passes(t, 36, n, 0);
    lemma_lookup_finds(t, 37, n);
}

proof fn lemma_resolves_38()
    ensures
        resolve_key_spec("f1"@) == Some(KEY_F1),
{
    reveal_strlit("caps_lock");
    reveal_strlit("f1");
    reveal_strlit("fn");
    reveal_strlit("fn_key");
    reveal_strlit("left_alt");
    reveal_strlit("left_cmd");
    reveal_strlit("left_command");
    reveal_strlit("left_control");
    reveal_strlit("left_ctrl");
    reveal_strlit("left_option");
    reveal_strlit("left_shift");
    reveal_strlit("numpad_0");
    reveal_strlit("numpad_1");
    reveal_strlit("numpad_2");
    reveal_strlit("numpad_3");
    reveal_strlit("numpad_4");
    reveal_strlit("numpad_5");
    reveal_strlit("numpad_6");
    reveal_strlit("numpad_7");
    reveal_strlit("numpad_8");
    reveal_strlit("numpad_9");
    reveal_strlit("numpad_add");
    reveal_strlit("numpad_clear");
    reveal_strlit("numpad_decimal");
    reveal_strlit("numpad_divide");
    reveal_strlit("numpad_dot");
    reveal_strlit("numpad_enter");
    reveal_strlit("numpad_equals");
    reveal_strlit("numpad_minus");
    reveal_strlit("numpad_multiply");
    reveal_strlit("numpad_plus");
    reveal_strlit("numpad_subtract");
    reveal_strlit("right_alt");
    reveal_strlit("right_cmd");
    reveal_strlit("right_command");
    reveal_strlit("right_control");
    reveal_strlit("right_ctrl");
    reveal_strlit("right_option");
    reveal_strlit("right_shift");
    let t = key_table();
    let n = "f1"@;
    assert(t.skip(0) =~= t);
    lemma_lookup_passes(t, 0, n, 0);
    lemma_lookup_passes(t, 1, n, 0);
    lemma_lookup_passes(t, 2, n, 0);
    lemma_lookup_passes(t, 3, n, 0);
    lemma_lookup_passes(t, 4, n, 0);
    lemma_lookup_passes(t, 5, n, 0);
    lemma_lookup_passes(t, 6, n, 0);
    lemma_lookup_passes(t, 7, n, 0);
    lemma_lookup_passes(t, 8, n, 0);
    lemma_lookup_passes(t, 9, n, 0);
    lemma_lookup_passes(t, 10, n, 0);
    lemma_lookup_passes(t, 11, n, 0);
    lemma_lookup_passes(t, 12, n, 0);
    lemma_lookup_passes(t, 13, n, 0);
    lemma_lookup_passes(t, 14, n, 0);
    lemma_lookup_passes(t, 15, n, 0);
    lemma_lookup_passes(t, 16, n, 0);
    lemma_lookup_passes(t, 17, n, 0);
    lemma_lookup_passes(t, 18, n, 0);
    lemma_lookup_passes(t, 19, n, 0);
    lemma_lookup_passes(t, 20, n, 0);
    lemma_lookup_passes(t, 21, n, 0);
    lemma_lookup_passes(t, 22, n, 0);
    lemma_lookup_passes(t, 23, n, 0);
    lemma_lookup_passes(t, 24, n, 0);
    lemma_lookup_passes(t, 25, n, 0);
    lemma_lookup_passes(t, 26, n, 0);
    lemma_lookup_passes(t, 27, n, 0);
    lemma_lookup_passes(t, 28, n, 0);
    lemma_lookup_passes(t, 29, n, 0);
    lemma_lookup_passes(t, 30, n, 0);
    lemma_lookup_passes(t, 31, n, 0);
    lemma_lookup_passes(t, 32, n, 0);
    lemma_lookup_passes(t, 33, n, 0);
    lemma_lookup_passes(t, 34, n, 0);
    lemma_lookup_passes(t, 35, n, 0);
    lemma_lookup_passes(t, 36, n, 1);
    lemma_lookup_passes(t, 37, n, 0);
    lemma_lookup_finds(t, 38, n);
}

proof fn lemma_resolves_39()
    ensures
        resolve_key_spec("f2"@) == Some(KEY_F2),
{
    reveal_strlit("caps_lock");
    reveal_strlit("f1");
    reveal_strlit("f2");
    reveal_strlit("fn");
    reveal_strlit("fn_key");
    reveal_strlit("left_alt");
    reveal_strlit("left_cmd");
    reveal_strlit("left_command");
    reveal_strlit("left_control");
    reveal_strlit("left_ctrl");
    reveal_strlit("left_option");
    reveal_strlit("left_shift");
    reveal_strlit("numpad_0");
    reveal_strlit("numpad_1");
    reveal_strlit("numpad_2");
    reveal_strlit("numpad_3");
    reveal_strlit("numpad_4");
    reveal_strlit("numpad_5");
    reveal_strlit("numpad_6");
    reveal_strlit("numpad_7");
    reveal_strlit("numpad_8");
    reveal_strlit("numpad_9");
    reveal_strlit("numpad_add");
    reveal_strlit("numpad_clear");
    reveal_strlit("numpad_decimal");
    reveal_strlit("numpad_divide");
    reveal_strlit("numpad_dot");
    reveal_strlit("numpad_enter");
    reveal_strlit("numpad_equals");
    reveal_strlit("numpad_minus");
    reveal_strlit("numpad_multiply");
    reveal_strlit("numpad_plus");
    reveal_strlit("numpad_subtract");
    reveal_strlit("right_alt");
    reveal_strlit("right_cmd");
    reveal_strlit("right_command");
    reveal_strlit("right_control");
    reveal_strlit("right_ctrl");
    reveal_strlit("right_option");
    reveal_strlit("right_shift");
    let t = key_table();
    let n = "f2"@;
    assert(t.skip(0) =~= t);
    lemma_lookup_passes(t, 0, n, 0);
    lemma_lookup_passes(t, 1, n, 0);
    lemma_lookup_passes(t, 2, n, 0);
    lemma_lookup_passes(t, 3, n, 0);
    lemma_lookup_passes(t, 4, n, 0);
    lemma_lookup_passes(t, 5, n, 0);
    lemma_lookup_passes(t, 6, n, 0);
    lemma_lookup_passes(t, 7, n, 0);
    lemma_lookup_passes(t, 8, n, 0);
    lemma_lookup_passes(t, 9, n, 0);
    lemma_lookup_passes(t, 10, n, 0);
    lemma_lookup_passes(t, 11, n, 0);
    lemma_lookup_passes(t, 12, n, 0);
    lemma_lookup_passes(t, 13, n, 0);
    lemma_lookup_passes(t, 14, n, 0);
    lemma_lookup_passes(t, 15, n, 0);
    lemma_lookup_passes(t, 16, n, 0);
    lemma_lookup_passes(t, 17, n, 0);
    lemma_lookup_passes(t, 18, n, 0);
    lemma_lookup_passes(t, 19, n, 0);
    lemma_lookup_passes(t, 20, n, 0);
    lemma_lookup_passes(t, 21, n, 0);
    lemma_lookup_passes(t, 22, n, 0);
    lemma_lookup_passes(t, 23, n, 0);
    lemma_lookup_passes(t, 24, n, 0);
    lemma_lookup_passes(t, 25, n, 0);
    lemma_lookup_passes(t, 26, n, 0);
    lemma_lookup_passes(t, 27, n, 0);
    lemma_lookup_passes(t, 28, n, 0);
    lemma_lookup_passes(t, 29, n, 0);
    lemma_lookup_passes(t, 30, n, 0);
    lemma_lookup_passes(t, 31, n, 0);
    lemma_lookup_passes(t, 32, n, 0);
    lemma_lookup_passes(t, 33, n, 0);
    lemma_lookup_passes(t, 34, n, 0);
    lemma_lookup_passes(t, 35, n, 0);
    lemma_lookup_passes(t, 36, n, 1);
    lemma_lookup_passes(t, 37, n, 0);
    lemma_lookup_passes(t, 38, n, 1);
    lemma_lookup_finds(t, 39, n);
}

proof fn lemma_resolves_40()
    ensures
        resolve_key_spec("f3"@) == Some(KEY_F3),
{
    reveal_strlit("caps_lock");
    reveal_strlit("f1");
    reveal_strlit("f2");
    reveal_strlit("f3");
    reveal_strlit("fn");
    reveal_strlit("fn_key");
    reveal_strlit("left_alt");
    reveal_strlit("left_cmd");
    reveal_strlit("left_command");
    reveal_strlit("left_control");
    reveal_strlit("left_ctrl");
    reveal_strlit("left_option");
    reveal_strlit("left_shift");
    reveal_strlit("numpad_0");
    reveal_strlit("numpad_1");
    reveal_strlit("numpad_2");
    reveal_strlit("numpad_3");
    reveal_strlit("numpad_4");
    reveal_strlit("numpad_5");
    reveal_strlit("numpad_6");
    reveal_strlit("numpad_7");
    reveal_strlit("numpad_8");
    reveal_strlit("numpad_9");
    reveal_strlit("numpad_add");
    reveal_strlit("numpad_clear");
    reveal_strlit("numpad_decimal");
    reveal_strlit("numpad_divide");
    reveal_strlit("numpad_dot");
    reveal_strlit("numpad_enter");
    reveal_strlit("numpad_equals");
    reveal_strlit("numpad_minus");
    reveal_strlit("numpad_multiply");
    reveal_strlit("numpad_plus");
    reveal_strlit("numpad_subtract");
    reveal_strlit("right_alt");
    reveal_strlit("right_cmd");
    reveal_strlit("right_command");
    reveal_strlit("right_control");
    reveal_strlit("right_ctrl");
    reveal_strlit("right_option");
    reveal_strlit("right_shift");
    let t = key_table();
    let n = "f3"@;
    assert(t.skip(0) =~= t);
    lemma_lookup_passes(t, 0, n, 0);
    lemma_lookup_passes(t, 1, n, 0);
    lemma_lookup_passes(t, 2, n, 0);
    lemma_lookup_passes(t, 3, n, 0);
    lemma_lookup_passes(t, 4, n, 0);
    lemma_lookup_passes(t, 5, n, 0);
    lemma_lookup_passes(t, 6, n, 0);
    lemma_lookup_passes(t, 7, n, 0);
    lemma_lookup_passes(t, 8, n, 0);
    lemma_lookup_passes(t, 9, n, 0);
    lemma_lookup_passes(t, 10, n, 0);
    lemma_lookup_passes(t, 11, n, 0);
    lemma_lookup_passes(t, 12, n, 0);
    lemma_lookup_passes(t, 13, n, 0);
    lemma_lookup_passes(t, 14, n, 0);
    lemma_lookup_passes(t, 15, n, 0);
    lemma_lookup_passes(t, 16, n, 0);
    lemma_lookup_passes(t, 17, n, 0);
    lemma_lookup_passes(t, 18, n, 0);
    lemma_lookup_passes(t, 19, n, 0);
    lemma_lookup_passes(t, 20, n, 0);
    lemma_lookup_passes(t, 21, n, 0);
    lemma_lookup_passes(t, 22, n, 0);
    lemma_lookup_passes(t, 23, n, 0);
    lemma_lookup_passes(t, 24, n, 0);
    lemma_lookup_passes(t, 25, n, 0);
    lemma_lookup_passes(t, 26, n, 0);
    lemma_lookup_passes(t, 27, n, 0);
    lemma_lookup_passes(t, 28, n, 0);
    lemma_lookup_passes(t, 29, n, 0);
    lemma_lookup_passes(t, 30, n, 0);
    lemma_lookup_passes(t, 31, n, 0);
    lemma_lookup_passes(t, 32, n, 0);
    lemma_lookup_passes(t, 33, n, 0);
    lemma_lookup_passes(t, 34, n, 0);
    lemma_lookup_passes(t, 35, n, 0);
    lemma_lookup_passes(t, 36, n, 1);
    lemma_lookup_passes(t, 37, n, 0);
    lemma_lookup_passes(t, 38, n, 1);
    lemma_lookup_passes(t, 39, n, 1);
    lemma_lookup_finds(t, 40, n);
}

proof fn lemma_resolves_41()
    ensures
        resolve_key_spec("f4"@) == Some(KEY_F4),
{
    reveal_strlit("caps_lock");
    reveal_strlit("f1");
    reveal_strlit("f2");
    reveal_strlit("f3");
    reveal_strlit("f4");
    reveal_strlit("fn");
    reveal_strlit("fn_key");
    reveal_strlit("left_alt");
    reveal_strlit("left_cmd");
    reveal_strlit("left_command");
    reveal_strlit("left_control");
    reveal_strlit("left_ctrl");
    reveal_strlit("left_option");
    reveal_strlit("left_shift");
    reveal_strlit("numpad_0");
    reveal_strlit("numpad_1");
    reveal_strlit("numpad_2");
    reveal_strlit("numpad_3");
    reveal_strlit("numpad_4");
    reveal_strlit("numpad_5");
    reveal_strlit("numpad_6");
    reveal_strlit("numpad_7");
    reveal_strlit("numpad_8");
    reveal_strlit("numpad_9");
    reveal_strlit("numpad_add");
    reveal_strlit("numpad_clear");
    reveal_strlit("numpad_decimal");
    reveal_strlit("numpad_divide");
    reveal_strlit("numpad_dot");
    reveal_strlit("numpad_enter");
    reveal_strlit("numpad_equals");
    reveal_strlit("numpad_minus");
    reveal_strlit("numpad_multiply");
    reveal_strlit("numpad_plus");
    reveal_strlit("numpad_subtract");
    reveal_strlit("right_alt");
    reveal_strlit("right_cmd");
    reveal_strlit("right_command");
    reveal_strlit("right_control");
    reveal_strlit("right_ctrl");
    reveal_strlit("right_option");
    reveal_strlit("right_shift");
    let t = key_table();
    let n = "f4"@;
    assert(t.skip(0) =~= t);
    lemma_lookup_passes(t, 0, n, 0);
    lemma_lookup_passes(t, 1, n, 0);
    lemma_lookup_passes(t, 2, n, 0);
    lemma_lookup_passes(t, 3, n, 0);
    lemma_lookup_passes(t, 4, n, 0);
    lemma_lookup_passes(t, 5, n, 0);
    lemma_lookup_passes(t, 6, n, 0);
    lemma_lookup_passes(t, 7, n, 0);
    lemma_lookup_passes(t, 8, n, 0);
    lemma_lookup_passes(t, 9, n, 0);
    lemma_lookup_passes(t, 10, n, 0);
    lemma_lookup_passes(t, 11, n, 0);
    lemma_lookup_passes(t, 12, n, 0);
    lemma_lookup_passes(t, 13, n, 0);
    lemma_lookup_passes(t, 14, n, 0);
    lemma_lookup_passes(t, 15, n, 0);
    lemma_lookup_passes(t, 16, n, 0);
    lemma_lookup_passes(t, 17, n, 0);
    lemma_lookup_passes(t, 18, n, 0);
    lemma_lookup_passes(t, 19, n, 0);
    lemma_lookup_passes(t, 20, n, 0);
    lemma_lookup_passes(t, 21, n, 0);
    lemma_lookup_passes(t, 22, n, 0);
    lemma_lookup_passes(t, 23, n, 0);
    lemma_lookup_passes(t, 24, n, 0);
    lemma_lookup_passes(t, 25, n, 0);
    lemma_lookup_passes(t, 26, n, 0);
    lemma_lookup_passes(t, 27, n, 0);
    lemma_lookup_passes(t, 28, n, 0);
    lemma_lookup_passes(t, 29, n, 0);
    lemma_lookup_passes(t, 30, n, 0);
    lemma_lookup_passes(t, 31, n, 0);
    lemma_lookup_passes(t, 32, n, 0);
    lemma_lookup_passes(t, 33, n, 0);
    lemma_lookup_passes(t, 34, n, 0);
    lemma_lookup_passes(t, 35, n, 0);
    lemma_lookup_passes(t, 36, n, 1);
    lemma_lookup_passes(t, 37, n, 0);
    lemma_lookup_passes(t, 38, n, 1);
    lemma_lookup_passes(t, 39, n, 1);
    lemma_lookup_passes(t, 40, n, 1);
    lemma_lookup_finds(t, 41, n);
}

proof fn lemma_resolves_42()
    ensures
        resolve_key_spec("f5"@) == Some(KEY_F5),
{
    reveal_strlit("caps_lock");
    reveal_strlit("f1");
    reveal_strlit("f2");
    reveal_strlit("f3");
    reveal_strlit("f4");
    reveal_strlit("f5");
    reveal_strlit("fn");
    reveal_strlit("fn_key");
    reveal_strlit("left_alt");
    reveal_strlit("left_cmd");
    reveal_strlit("left_command");
    reveal_strlit("left_control");
    reveal_strlit("left_ctrl");
    reveal_strlit("left_option");
    reveal_strlit("left_shift");
    reveal_strlit("numpad_0");
    reveal_strlit("numpad_1");
    reveal_strlit("numpad_2");
    reveal_strlit("numpad_3");
    reveal_strlit("numpad_4");
    reveal_strlit("numpad_5");
    reveal_strlit("numpad_6");
    reveal_strlit("numpad_7");
    reveal_strlit("numpad_8");
    reveal_strlit("numpad_9");
    reveal_strlit("numpad_add");
    reveal_strlit("numpad_clear");
    reveal_strlit("numpad_decimal");
    reveal_strlit("numpad_divide");
    reveal_strlit("numpad_dot");
    reveal_strlit("numpad_enter");
    reveal_strlit("numpad_equals");
    reveal_strlit("numpad_minus");
    reveal_strlit("numpad_multiply");
    reveal_strlit("numpad_plus");
    reveal_strlit("numpad_subtract");
    reveal_strlit("right_alt");
    reveal_strlit("right_cmd");
    reveal_strlit("right_command");
    reveal_strlit("right_control");
    reveal_strlit("right_ctrl");
    reveal_strlit("right_option");
    reveal_strlit("right_shift");
    let t = key_table();
    let n = "f5"@;
    assert(t.skip(0) =~= t);
    lemma_lookup_passes(t, 0, n, 0);
    lemma_lookup_passes(t, 1, n, 0);
    lemma_lookup_passes(t, 2, n, 0);
    lemma_lookup_passes(t, 3, n, 0);
    lemma_lookup_passes(t, 4, n, 0);
    lemma_lookup_passes(t, 5, n, 0);
    lemma_lookup_passes(t, 6, n, 0);
    lemma_lookup_passes(t, 7, n, 0);
    lemma_lookup_passes(t, 8, n, 0);
    lemma_lookup_passes(t, 9, n, 0);
    lemma_lookup_passes(t, 10, n, 0);
    lemma_lookup_passes(t, 11, n, 0);
    lemma_lookup_passes(t, 12, n, 0);
    lemma_lookup_passes(t, 13, n, 0);
    lemma_lookup_passes(t, 14, n, 0);
    lemma_lookup_passes(t, 15, n, 0);
    lemma_lookup_passes(t, 16, n, 0);
    lemma_lookup_passes(t, 17, n, 0);
    lemma_lookup_passes(t, 18, n, 0);
    lemma_lookup_passes(t, 19, n, 0);
    lemma_lookup_passes(t, 20, n, 0);
    lemma_lookup_passes(t, 21, n, 0);
    lemma_lookup_passes(t, 22, n, 0);
    lemma_lookup_passes(t, 23, n, 0);
    lemma_lookup_passes(t, 24, n, 0);
    lemma_lookup_passes(t, 25, n, 0);
    lemma_lookup_passes(t, 26, n, 0);
    lemma_lookup_passes(t, 27, n, 0);
    lemma_lookup_passes(t, 28, n, 0);
    lemma_lookup_passes(t, 29, n, 0);
    lemma_lookup_passes(t, 30, n, 0);
    lemma_lookup_passes(t, 31, n, 0);
    lemma_lookup_passes(t, 32, n, 0);
    lemma_lookup_passes(t, 33, n, 0);
    lemma_lookup_passes(t, 34, n, 0);
    lemma_lookup_passes(t, 35, n, 0);
    lemma_lookup_passes(t, 36, n, 1);
    lemma_lookup_passes(t, 37, n, 0);
    lemma_lookup_passes(t, 38, n, 1);
    lemma_lookup_passes(t, 39, n, 1);
    lemma_lookup_passes(t, 40, n, 1);
    lemma_lookup_passes(t, 41, n, 1);
    lemma_lookup_finds(t, 42, n);
}

proof fn lemma_resolves_43()
    ensures
        resolve_key_spec("f6"@) == Some(KEY_F6),
{
    reveal_strlit("caps_lock");
    reveal_strlit("f1");
    reveal_strlit("f2");
    reveal_strlit("f3");
    reveal_strlit("f4");
    reveal_strlit("f5");
    reveal_strlit("f6");
    reveal_strlit("fn");
    reveal_strlit("fn_key");
    reveal_strlit("left_alt");
    reveal_strlit("left_cmd");
    reveal_strlit("left_command");
    reveal_strlit("left_control");
    reveal_strlit("left_ctrl");
    reveal_strlit("left_option");
    reveal_strlit("left_shift");
    reveal_strlit("numpad_0");
    reveal_strlit("numpad_1");
    reveal_strlit("numpad_2");
    reveal_strlit("numpad_3");
    reveal_strlit("numpad_4");
    reveal_strlit("numpad_5");
    reveal_strlit("numpad_6");
    reveal_strlit("numpad_7");
    reveal_strlit("numpad_8");
    reveal_strlit("numpad_9");
    reveal_strlit("numpad_add");
    reveal_strlit("numpad_clear");
    reveal_strlit("numpad_decimal");
    reveal_strlit("numpad_divide");
    reveal_strlit("numpad_dot");
    reveal_strlit("numpad_enter");
    reveal_strlit("numpad_equals");
    reveal_strlit("numpad_minus");
    reveal_strlit("numpad_multiply");
    reveal_strlit("numpad_plus");
    reveal_strlit("numpad_subtract");
    reveal_strlit("right_alt");
    reveal_strlit("right_cmd");
    reveal_strlit("right_command");
    reveal_strlit("right_control");
    reveal_strlit("right_ctrl");
    reveal_strlit("right_option");
    reveal_strlit("right_shift");
    let t = key_table();
    let n = "f6"@;
    assert(t.skip(0) =~= t);
    lemma_lookup_passes(t, 0, n, 0);
    lemma_lookup_passes(t, 1, n, 0);
    lemma_lookup_passes(t, 2, n, 0);
    lemma_lookup_passes(t, 3, n, 0);
    lemma_lookup_passes(t, 4, n, 0);
    lemma_lookup_passes(t, 5, n, 0);
    lemma_lookup_passes(t, 6, n, 0);
    lemma_lookup_passes(t, 7, n, 0);
    lemma_lookup_passes(t, 8, n, 0);
    lemma_lookup_passes(t, 9, n, 0);
    lemma_lookup_passes(t, 10, n, 0);
    lemma_lookup_passes(t, 11, n, 0);
    lemma_lookup_passes(t, 12, n, 0);
    lemma_lookup_passes(t, 13, n, 0);
    lemma_lookup_passes(t, 14, n, 0);
    lemma_lookup_passes(t, 15, n, 0);
    lemma_lookup_passes(t, 16, n, 0);
    lemma_lookup_passes(t, 17, n, 0);
    lemma_lookup_passes(t, 18, n, 0);
    lemma_lookup_passes(t, 19, n, 0);
    lemma_lookup_passes(t, 20, n, 0);
    lemma_lookup_passes(t, 21, n, 0);
    lemma_lookup_passes(t, 22, n, 0);
    lemma_lookup_passes(t, 23, n, 0);
    lemma_lookup_passes(t, 24, n, 0);
    lemma_lookup_passes(t, 25, n, 0);
    lemma_lookup_passes(t, 26, n, 0);
    lemma_lookup_passes(t, 27, n, 0);
    lemma_lookup_passes(t, 28, n, 0);
    lemma_lookup_passes(t, 29, n, 0);
    lemma_lookup_passes(t, 30, n, 0);
    lemma_lookup_passes(t, 31, n, 0);
    lemma_lookup_passes(t, 32, n, 0);
    lemma_lookup_passes(t, 33, n, 0);
    lemma_lookup_passes(t, 34, n, 0);
    lemma_lookup_passes(t, 35, n, 0);
    lemma_lookup_passes(t, 36, n, 1);
    lemma_lookup_passes(t, 37, n, 0);
    lemma_lookup_passes(t, 38, n, 1);
    lemma_lookup_passes(t, 39, n, 1);
    lemma_lookup_passes(t, 40, n, 1);
    lemma_lookup_passes(t, 41, n, 1);
    lemma_lookup_passes(t, 42, n, 1);
    lemma_lookup_finds(t, 43, n);
}

proof fn lemma_resolves_44()
    ensures
        resolve_key_spec("f7"@) == Some(KEY_F7),
{
    reveal_strlit("caps_lock");
    reveal_strlit("f1");
    reveal_strlit("f2");
    reveal_strlit("f3");
    reveal_strlit("f4");
    reveal_strlit("f5");
    reveal_strlit("f6");
    reveal_strlit("f7");
    reveal_strlit("fn");
    reveal_strlit("fn_key");
    reveal_strlit("left_alt");
    reveal_strlit("left_cmd");
    reveal_strlit("left_command");
    reveal_strlit("left_control");
    reveal_strlit("left_ctrl");
    reveal_strlit("left_option");
    reveal_strlit("left_shift");
    reveal_strlit("numpad_0");
    reveal_strlit("numpad_1");
    reveal_strlit("numpad_2");
    reveal_strlit("numpad_3");
    reveal_strlit("numpad_4");
    reveal_strlit("numpad_5");
    reveal_strlit("numpad_6");
    reveal_strlit("numpad_7");
    reveal_strlit("numpad_8");
    reveal_strlit("numpad_9");
    reveal_strlit("numpad_add");
    reveal_strlit("numpad_clear");
    reveal_strlit("numpad_decimal");
    reveal_strlit("numpad_divide");
    reveal_strlit("numpad_dot");
    reveal_strlit("numpad_enter");
    reveal_strlit("numpad_equals");
    reveal_strlit("numpad_minus");
    reveal_strlit("numpad_multiply");
    reveal_strlit("numpad_plus");
    reveal_strlit("numpad_subtract");
    reveal_strlit("right_alt");
    reveal_strlit("right_cmd");
    reveal_strlit("right_command");
    reveal_strlit("right_control");
    reveal_strlit("right_ctrl");
    reveal_strlit("right_option");
    reveal_strlit("right_shift");
    let t = key_table();
    let n = "f7"@;
    assert(t.skip(0) =~= t);
    lemma_lookup_passes(t, 0, n, 0);
    lemma_lookup_passes(t, 1, n, 0);
    lemma_lookup_passes(t, 2, n, 0);
    lemma_lookup_passes(t, 3, n, 0);
    lemma_lookup_passes(t, 4, n, 0);
    lemma_lookup_passes(t, 5, n, 0);
    lemma_lookup_passes(t, 6, n, 0);
    lemma_lookup_passes(t, 7, n, 0);
    lemma_lookup_passes(t, 8, n, 0);
    lemma_lookup_passes(t, 9, n, 0);
    lemma_lookup_passes(t, 10, n, 0);
    lemma_lookup_passes(t, 11, n, 0);
    lemma_lookup_passes(t, 12, n, 0);
    lemma_lookup_passes(t, 13, n, 0);
    lemma_lookup_passes(t, 14, n, 0);
    lemma_lookup_passes(t, 15, n, 0);
    lemma_lookup_passes(t, 16, n, 0);
    lemma_lookup_passes(t, 17, n, 0);
    lemma_lookup_passes(t, 18, n, 0);
    lemma_lookup_passes(t, 19, n, 0);
    lemma_lookup_passes(t, 20, n, 0);
    lemma_lookup_passes(t, 21, n, 0);
    lemma_lookup_passes(t, 22, n, 0);
    lemma_lookup_passes(t, 23, n, 0);
    lemma_lookup_passes(t, 24, n, 0);
    lemma_lookup_passes(t, 25, n, 0);
    lemma_lookup_passes(t, 26, n, 0);
    lemma_lookup_passes(t, 27, n, 0);
    lemma_lookup_passes(t, 28, n, 0);
    lemma_lookup_passes(t, 29, n, 0);
    lemma_lookup_passes(t, 30, n, 0);
    lemma_lookup_passes(t, 31, n, 0);
    lemma_lookup_passes(t, 32, n, 0);
    lemma_lookup_passes(t, 33, n, 0);
    lemma_lookup_passes(t, 34, n, 0);
    lemma_lookup_passes(t, 35, n, 0);
    lemma_lookup_passes(t, 36, n, 1);
    lemma_lookup_passes(t, 37, n, 0);
    lemma_lookup_passes(t, 38, n, 1);
    lemma_lookup_passes(t, 39, n, 1);
    lemma_lookup_passes(t, 40, n, 1);
    lemma_lookup_passes(t, 41, n, 1);
    lemma_lookup_passes(t, 42, n, 1);
    lemma_lookup_passes(t, 43, n, 1);
    lemma_lookup_finds(t, 44, n);
}

proof fn lemma_resolves_45()
    ensures
        resolve_key_spec("f8"@) == Some(KEY_F8),
{
    reveal_strlit("caps_lock");
    reveal_strlit("f1");
    reveal_strlit("f2");
    reveal_strlit("f3");
    reveal_strlit("f4");
    reveal_strlit("f5");
    reveal_strlit("f6");
    reveal_strlit("f7");
    reveal_strlit("f8");
    reveal_strlit("fn");
    reveal_strlit("fn_key");
    reveal_strlit("left_alt");
    reveal_strlit("left_cmd");
    reveal_strlit("left_command");
    reveal_strlit("left_control");
    reveal_strlit("left_ctrl");
    reveal_strlit("left_option");
    reveal_strlit("left_shift");
    reveal_strlit("numpad_0");
    reveal_strlit("numpad_1");
    reveal_strlit("numpad_2");
    reveal_strlit("numpad_3");
    reveal_strlit("numpad_4");
    reveal_strlit("numpad_5");
    reveal_strlit("numpad_6");
    reveal_strlit("numpad_7");
    reveal_strlit("numpad_8");
    reveal_strlit("numpad_9");
    reveal_strlit("numpad_add");
    reveal_strlit("numpad_clear");
    reveal_strlit("numpad_decimal");
    reveal_strlit("numpad_divide");
    reveal_strlit("numpad_dot");
    reveal_strlit("numpad_enter");
    reveal_strlit("numpad_equals");
    reveal_strlit("numpad_minus");
    reveal_strlit("numpad_multiply");
    reveal_strlit("numpad_plus");
    reveal_strlit("numpad_subtract");
    reveal_strlit("right_alt");
    reveal_strlit("right_cmd");
    reveal_strlit("right_command");
    reveal_strlit("right_control");
    reveal_strlit("right_ctrl");
    reveal_strlit("right_option");
    reveal_strlit("right_shift");
    let t = key_table();
    let n = "f8"@;
    assert(t.skip(0) =~= t);
    lemma_lookup_passes(t, 0, n, 0);
    lemma_lookup_passes(t, 1, n, 0);
    lemma_lookup_passes(t, 2, n, 0);
    lemma_lookup_passes(t, 3, n, 0);
    lemma_lookup_passes(t, 4, n, 0);
    lemma_lookup_passes(t, 5, n, 0);
    lemma_lookup_passes(t, 6, n, 0);
    lemma_lookup_passes(t, 7, n, 0);
    lemma_lookup_passes(t, 8, n, 0);
    lemma_lookup_passes(t, 9, n, 0);
    lemma_lookup_passes(t, 10, n, 0);
    lemma_lookup_passes(t, 11, n, 0);
    lemma_lookup_passes(t, 12, n, 0);
    lemma_lookup_passes(t, 13, n, 0);
    lemma_lookup_passes(t, 14, n, 0);
    lemma_lookup_passes(t, 15, n, 0);
    lemma_lookup_passes(t, 16, n, 0);
    lemma_lookup_passes(t, 17, n, 0);
    lemma_lookup_passes(t, 18, n, 0);
    lemma_lookup_passes(t, 19, n, 0);
    lemma_lookup_passes(t, 20, n, 0);
    lemma_lookup_passes(t, 21, n, 0);
    lemma_lookup_passes(t, 22, n, 0);
    lemma_lookup_passes(t, 23, n, 0);
    lemma_lookup_passes(t, 24, n, 0);
    lemma_lookup_passes(t, 25, n, 0);
    lemma_lookup_passes(t, 26, n, 0);
    lemma_lookup_passes(t, 27, n, 0);
    lemma_lookup_passes(t, 28, n, 0);
    lemma_lookup_passes(t, 29, n, 0);
    lemma_lookup_passes(t, 30, n, 0);
    lemma_lookup_passes(t, 31, n, 0);
    lemma_lookup_passes(t, 32, n, 0);
    lemma_lookup_passes(t, 33, n, 0);
    lemma_lookup_passes(t, 34, n, 0);
    lemma_lookup_passes(t, 35, n, 0);
    lemma_lookup_passes(t, 36, n, 1);
    lemma_lookup_passes(t, 37, n, 0);
    lemma_lookup_passes(t, 38, n, 1);
    lemma_lookup_passes(t, 39, n, 1);
    lemma_lookup_passes(t, 40, n, 1);
    lemma_lookup_passes(t, 41, n, 1);
    lemma_lookup_passes(t, 42, n, 1);
    lemma_lookup_passes(t, 43, n, 1);
    lemma_lookup_passes(t, 44, n, 1);
    lemma_lookup_finds(t, 45, n);
}

proof fn lemma_resolves_46()
    ensures
        resolve_key_spec("f9"@) == Some(KEY_F9),
{
    reveal_strlit("caps_lock");
    reveal_strlit("f1");
    reveal_strlit("f2");
    reveal_strlit("f3");
    reveal_strlit("f4");
    reveal_strlit("f5");
    reveal_strlit("f6");
    reveal_strlit("f7");
    reveal_strlit("f8");
    reveal_strlit("f9");
    reveal_strlit("fn");
    reveal_strlit("fn_key");
    reveal_strlit("left_alt");
    reveal_strlit("left_cmd");
    reveal_strlit("left_command");
    reveal_strlit("left_control");
    reveal_strlit("left_ctrl");
    reveal_strlit("left_option");
    reveal_strlit("left_shift");
    reveal_strlit("numpad_0");
    reveal_strlit("numpad_1");
    reveal_strlit("numpad_2");
    reveal_strlit("numpad_3");
    reveal_strlit("numpad_4");
    reveal_strlit("numpad_5");
    reveal_strlit("numpad_6");
    reveal_strlit("numpad_7");
    reveal_strlit("numpad_8");
    reveal_strlit("numpad_9");
    reveal_strlit("numpad_add");
    reveal_strlit("numpad_clear");
    reveal_strlit("numpad_decimal");
    reveal_strlit("numpad_divide");
    reveal_strlit("numpad_dot");
    reveal_strlit("numpad_enter");
    reveal_strlit("numpad_equals");
    reveal_strlit("numpad_minus");
    reveal_strlit("numpad_multiply");
    reveal_strlit("numpad_plus");
    reveal_strlit("numpad_subtract");
    reveal_strlit("right_alt");
    reveal_strlit("right_cmd");
    reveal_strlit("right_command");
    reveal_strlit("right_control");
    reveal_strlit("right_ctrl");
    reveal_strlit("right_option");
    reveal_strlit("right_shift");
    let t = key_table();
    let n = "f9"@;
    assert(t.skip(0) =~= t);
    lemma_lookup_passes(t, 0, n, 0);
    lemma_lookup_passes(t, 1, n, 0);
    lemma_lookup_passes(t, 2, n, 0);
    lemma_lookup_passes(t, 3, n, 0);
    lemma_lookup_passes(t, 4, n, 0);
    lemma_lookup_passes(t, 5, n, 0);
    lemma_lookup_passes(t, 6, n, 0);
    lemma_lookup_passes(t, 7, n, 0);
    lemma_lookup_passes(t, 8, n, 0);
    lemma_lookup_passes(t, 9, n, 0);
    lemma_lookup_passes(t, 10, n, 0);
    lemma_lookup_passes(t, 11, n, 0);
    lemma_lookup_passes(t, 12, n, 0);
    lemma_lookup_passes(t, 13, n, 0);
    lemma_lookup_passes(t, 14, n, 0);
    lemma_lookup_passes(t, 15, n, 0);
    lemma_lookup_passes(t, 16, n, 0);
    lemma_lookup_passes(t, 17, n, 0);
    lemma_lookup_passes(t, 18, n, 0);
    lemma_lookup_passes(t, 19, n, 0);
    lemma_lookup_passes(t, 20, n, 0);
    lemma_lookup_passes(t, 21, n, 0);
    lemma_lookup_passes(t, 22, n, 0);
    lemma_lookup_passes(t, 23, n, 0);
    lemma_lookup_passes(t, 24, n, 0);
    lemma_lookup_passes(t, 25, n, 0);
    lemma_lookup_passes(t, 26, n, 0);
    lemma_lookup_passes(t, 27, n, 0);
    lemma_lookup_passes(t, 28, n, 0);
    lemma_lookup_passes(t, 29, n, 0);
    lemma_lookup_passes(t, 30, n, 0);
    lemma_lookup_passes(t, 31, n, 0);
    lemma_lookup_passes(t, 32, n, 0);
    lemma_lookup_passes(t, 33, n, 0);
    lemma_lookup_passes(t, 34, n, 0);
    lemma_lookup_passes(t, 35, n, 0);
    lemma_lookup_passes(t, 36, n, 1);
    lemma_lookup_passes(t, 37, n, 0);
    lemma_lookup_passes(t, 38, n, 1);
    lemma_lookup_passes(t, 39, n, 1);
    lemma_lookup_passes(t, 40, n, 1);
    lemma_lookup_passes(t, 41, n, 1);
    lemma_lookup_passes(t, 42, n, 1);
    lemma_lookup_passes(t, 43, n, 1);
    lemma_lookup_passes(t, 44, n, 1);
    lemma_lookup_passes(t, 45, n, 1);
    lemma_lookup_finds(t, 46, n);
}

proof fn lemma_resolves_47()
    ensures
        resolve_key_spec("f10"@) == Some(KEY_F10),
{
    reveal_strlit("caps_lock");
    reveal_strlit("f1");
    reveal_strlit("f10");
    reveal_strlit("f2");
    reveal_strlit("f3");
    reveal_strlit("f4");
    reveal_strlit("f5");
    reveal_strlit("f6");
    reveal_strlit("f7");
    reveal_strlit("f8");
    reveal_strlit("f9");
    reveal_strlit("fn");
    reveal_strlit("fn_key");
    reveal_strlit("left_alt");
    reveal_strlit("left_cmd");
    reveal_strlit("left_command");
    reveal_strlit("left_control");
    reveal_strlit("left_ctrl");
    reveal_strlit("left_option");
    reveal_strlit("left_shift");
    reveal_strlit("numpad_0");
    reveal_strlit("numpad_1");
    reveal_strlit("numpad_2");
    reveal_strlit("numpad_3");
    reveal_strlit("numpad_4");
    reveal_strlit("numpad_5");
    reveal_strlit("numpad_6");
    reveal_strlit("numpad_7");
    reveal_strlit("numpad_8");
    reveal_strlit("numpad_9");
    reveal_strlit("numpad_add");
    reveal_strlit("numpad_clear");
    reveal_strlit("numpad_decimal");
    reveal_strlit("numpad_divide");
    reveal_strlit("numpad_dot");
    reveal_strlit("numpad_enter");
    reveal_strlit("numpad_equals");
    reveal_strlit("numpad_minus");
    reveal_strlit("numpad_multiply");
    reveal_strlit("numpad_plus");
    reveal_strlit("numpad_subtract");
    reveal_strlit("right_alt");
    reveal_strlit("right_cmd");
    reveal_strlit("right_command");
    reveal_strlit("right_control");
    reveal_strlit("right_ctrl");
    reveal_strlit("right_option");
    reveal_strlit("right_shift");
    let t = key_table();
    let n = "f10"@;
    assert(t.skip(0) =~= t);
    lemma_lookup_passes(t, 0, n, 0);
    lemma_lookup_passes(t, 1, n, 0);
    lemma_lookup_passes(t, 2, n, 0);
    lemma_lookup_passes(t, 3, n, 0);
    lemma_lookup_passes(t, 4, n, 0);
    lemma_lookup_passes(t, 5, n, 0);
    lemma_lookup_passes(t, 6, n, 0);
    lemma_lookup_passes(t, 7, n, 0);
    lemma_lookup_passes(t, 8, n, 0);
    lemma_lookup_passes(t, 9, n, 0);
    lemma_lookup_passes(t, 10, n, 0);
    lemma_lookup_passes(t, 11, n, 0);
    lemma_lookup_passes(t, 12, n, 0);
    lemma_lookup_passes(t, 13, n, 0);
    lemma_lookup_passes(t, 14, n, 0);
    lemma_lookup_passes(t, 15, n, 0);
    lemma_lookup_passes(t, 16, n, 0);
    lemma_lookup_passes(t, 17, n, 0);
    lemma_lookup_passes(t, 18, n, 0);
    lemma_lookup_passes(t, 19, n, 0);
    lemma_lookup_passes(t, 20, n, 0);
    lemma_lookup_passes(t, 21, n, 0);
    lemma_lookup_passes(t, 22, n, 0);
    lemma_lookup_passes(t, 23, n, 0);
    lemma_lookup_passes(t, 24, n, 0);
    lemma_lookup_passes(t, 25, n, 0);
    lemma_lookup_passes(t, 26, n, 0);
    lemma_lookup_passes(t, 27, n, 0);
    lemma_lookup_passes(t, 28, n, 0);
    lemma_lookup_passes(t, 29, n, 0);
    lemma_lookup_passes(t, 30, n, 0);
    lemma_lookup_passes(t, 31, n, 0);
    lemma_lookup_passes(t, 32, n, 0);
    lemma_lookup_passes(t, 33, n, 0);
    lemma_lookup_passes(t, 34, n, 0);
    lemma_lookup_passes(t, 35, n, 0);
    lemma_lookup_passes(t, 36, n, 0);
    lemma_lookup_passes(t, 37, n, 0);
    lemma_lookup_passes(t, 38, n, 0);
    lemma_lookup_passes(t, 39, n, 0);
    lemma_lookup_passes(t, 40, n, 0);
    lemma_lookup_passes(t, 41, n, 0);
    lemma_lookup_passes(t, 42, n, 0);
    lemma_lookup_passes(t, 43, n, 0);
    lemma_lookup_passes(t, 44, n, 0);
    lemma_lookup_passes(t, 45, n, 0);
    lemma_lookup_passes(t, 46, n, 0);
    lemma_lookup_finds(t, 47, n);
}

proof fn lemma_resolves_48()
    ensures
        resolve_key_spec("f11"@) == Some(KEY_F11),
{
    reveal_strlit("caps_lock");
    reveal_strlit("f1");
    reveal_strlit("f10");
    reveal_strlit("f11");
    reveal_strlit("f2");
    reveal_strlit("f3");
    reveal_strlit("f4");
    reveal_strlit("f5");
    reveal_strlit("f6");
    reveal_strlit("f7");
    reveal_strlit("f8");
    reveal_strlit("f9");
    reveal_strlit("fn");
    reveal_strlit("fn_key");
    reveal_strlit("left_alt");
    reveal_strlit("left_cmd");
    reveal_strlit("left_command");
    reveal_strlit("left_control");
    reveal_strlit("left_ctrl");
    reveal_strlit("left_option");
    reveal_strlit("left_shift");
    reveal_strlit("numpad_0");
    reveal_strlit("numpad_1");
    reveal_strlit("numpad_2");
    reveal_strlit("numpad_3");
    reveal_strlit("numpad_4");
    reveal_strlit("numpad_5");
    reveal_strlit("numpad_6");
    reveal_strlit("numpad_7");
    reveal_strlit("numpad_8");
    reveal_strlit("numpad_9");
    reveal_strlit("numpad_add");
    reveal_strlit("numpad_clear");
    reveal_strlit("numpad_decimal");
    reveal_strlit("numpad_divide");
    reveal_strlit("numpad_dot");
    reveal_strlit("numpad_enter");
    reveal_strlit("numpad_equals");
    reveal_strlit("numpad_minus");
    reveal_strlit("numpad_multiply");
    reveal_strlit("numpad_plus");
    reveal_strlit("numpad_subtract");
    reveal_strlit("right_alt");
    reveal_strlit("right_cmd");
    reveal_strlit("right_command");
    reveal_strlit("right_control");
    reveal_strlit("right_ctrl");
    reveal_strlit("right_option");
    reveal_strlit("right_shift");
    let t = key_table();
    let n = "f11"@;
    assert(t.skip(0) =~= t);
    lemma_lookup_passes(t, 0, n, 0);
    lemma_lookup_passes(t, 1, n, 0);
    lemma_lookup_passes(t, 2, n, 0);
    lemma_lookup_passes(t, 3, n, 0);
    lemma_lookup_passes(t, 4, n, 0);
    lemma_lookup_passes(t, 5, n, 0);
    lemma_lookup_passes(t, 6, n, 0);
    lemma_lookup_passes(t, 7, n, 0);
    lemma_lookup_passes(t, 8, n, 0);
    lemma_lookup_passes(t, 9, n, 0);
    lemma_lookup_passes(t, 10, n, 0);
    lemma_lookup_passes(t, 11, n, 0);
    lemma_lookup_passes(t, 12, n, 0);
    lemma_lookup_passes(t, 13, n, 0);
    lemma_lookup_passes(t, 14, n, 0);
    lemma_lookup_passes(t, 15, n, 0);
    lemma_lookup_passes(t, 16, n, 0);
    lemma_lookup_passes(t, 17, n, 0);
    lemma_lookup_passes(t, 18, n, 0);
    lemma_lookup_passes(t, 19, n, 0);
    lemma_lookup_passes(t, 20, n, 0);
    lemma_lookup_passes(t, 21, n, 0);
    lemma_lookup_passes(t, 22, n, 0);
    lemma_lookup_passes(t, 23, n, 0);
    lemma_lookup_passes(t, 24, n, 0);
    lemma_lookup_passes(t, 25, n, 0);
    lemma_lookup_passes(t, 26, n, 0);
    lemma_lookup_passes(t, 27, n, 0);
    lemma_lookup_passes(t, 28, n, 0);
    lemma_lookup_passes(t, 29, n, 0);
    lemma_lookup_passes(t, 30, n, 0);
    lemma_lookup_passes(t, 31, n, 0);
    lemma_lookup_passes(t, 32, n, 0);
    lemma_lookup_passes(t, 33, n, 0);
    lemma_lookup_passes(t, 34, n, 0);
    lemma_lookup_passes(t, 35, n, 0);
    lemma_lookup_passes(t, 36, n, 0);
    lemma_lookup_passes(t, 37, n, 0);
    lemma_lookup_passes(t, 38, n, 0);
    lemma_lookup_passes(t, 39, n, 0);
    lemma_lookup_passes(t, 40, n, 0);
    lemma_lookup_passes(t, 41, n, 0);
    lemma_lookup_passes(t, 42, n, 0);
    lemma_lookup_passes(t, 43, n, 0);
    lemma_lookup_passes(t, 44, n, 0);
    lemma_lookup_passes(t, 45, n, 0);
    lemma_lookup_passes(t, 46, n, 0);
    lemma_lookup_passes(t, 47, n, 2);
    lemma_lookup_finds(t, 48, n);
}

proof fn lemma_resolves_49()
    ensures
        resolve_key_spec("f12"@) == Some(KEY_F12),
{
    reveal_strlit("caps_lock");
    reveal_strlit("f1");
    reveal_strlit("f10");
    reveal_strlit("f11");
    reveal_strlit("f12");
    reveal_strlit("f2");
    reveal_strlit("f3");
    reveal_strlit("f4");
    reveal_strlit("f5");
    reveal_strlit("f6");
    reveal_strlit("f7");
    reveal_strlit("f8");
    reveal_strlit("f9");
    reveal_strlit("fn");
    reveal_strlit("fn_key");
    reveal_strlit("left_alt");
    reveal_strlit("left_cmd");
    reveal_strlit("left_command");
    reveal_strlit("left_control");
    reveal_strlit("left_ctrl");
    reveal_strlit("left_option");
    reveal_strlit("left_shift");
    reveal_strlit("numpad_0");
    reveal_strlit("numpad_1");
    reveal_strlit("numpad_2");
    reveal_strlit("numpad_3");
    reveal_strlit("numpad_4");
    reveal_strlit("numpad_5");
    reveal_strlit("numpad_6");
    reveal_strlit("numpad_7");
    reveal_strlit("numpad_8");
    reveal_strlit("numpad_9");
    reveal_strlit("numpad_add");
    reveal_strlit("numpad_clear");
    reveal_strlit("numpad_decimal");
    reveal_strlit("numpad_divide");
    reveal_strlit("numpad_dot");
    reveal_strlit("numpad_enter");
    reveal_strlit("numpad_equals");
    reveal_strlit("numpad_minus");
    reveal_strlit("numpad_multiply");
    reveal_strlit("numpad_plus");
    reveal_strlit("numpad_subtract");
    reveal_strlit("right_alt");
    reveal_strlit("right_cmd");
    reveal_strlit("right_command");
    reveal_strlit("right_control");
    reveal_strlit("right_ctrl");
    reveal_strlit("right_option");
    reveal_strlit("right_shift");
    let t = key_table();
    let n = "f12"@;
    assert(t.skip(0) =~= t);
    lemma_lookup_passes(t, 0, n, 0);
    lemma_lookup_passes(t, 1, n, 0);
    lemma_lookup_passes(t, 2, n, 0);
    lemma_lookup_passes(t, 3, n, 0);
    lemma_lookup_passes(t, 4, n, 0);
    lemma_lookup_passes(t, 5, n, 0);
    lemma_lookup_passes(t, 6, n, 0);
    lemma_lookup_passes(t, 7, n, 0);
    lemma_lookup_passes(t, 8, n, 0);
    lemma_lookup_passes(t, 9, n, 0);
    lemma_lookup_passes(t, 10, n, 0);
    lemma_lookup_passes(t, 11, n, 0);
    lemma_lookup_passes(t, 12, n, 0);
    lemma_lookup_passes(t, 13, n, 0);
    lemma_lookup_passes(t, 14, n, 0);
    lemma_lookup_passes(t, 15, n, 0);
    lemma_lookup_passes(t, 16, n, 0);
    lemma_lookup_passes(t, 17, n, 0);
    lemma_lookup_passes(t, 18, n, 0);
    lemma_lookup_passes(t, 19, n, 0);
    lemma_lookup_passes(t, 20, n, 0);
    lemma_lookup_passes(t, 21, n, 0);
    lemma_lookup_passes(t, 22, n, 0);
    lemma_lookup_passes(t, 23, n, 0);
    lemma_lookup_passes(t, 24, n, 0);
    lemma_lookup_passes(t, 25, n, 0);
    lemma_lookup_passes(t, 26, n, 0);
    lemma_lookup_passes(t, 27, n, 0);
    lemma_lookup_passes(t, 28, n, 0);
    lemma_lookup_passes(t, 29, n, 0);
    lemma_lookup_passes(t, 30, n, 0);
    lemma_lookup_passes(t, 31, n, 0);
    lemma_lookup_passes(t, 32, n, 0);
    lemma_lookup_passes(t, 33, n, 0);
    lemma_lookup_passes(t, 34, n, 0);
    lemma_lookup_passes(t, 35, n, 0);
    lemma_lookup_passes(t, 36, n, 0);
    lemma_lookup_passes(t, 37, n, 0);
    lemma_lookup_passes(t, 38, n, 0);
    lemma_lookup_passes(t, 39, n, 0);
    lemma_lookup_passes(t, 40, n, 0);
    lemma_lookup_passes(t, 41, n, 0);
    lemma_lookup_passes(t, 42, n, 0);
    lemma_lookup_passes(t, 43, n, 0);
    lemma_lookup_passes(t, 44, n, 0);
    lemma_lookup_passes(t, 45, n, 0);
    lemma_lookup_passes(t, 46, n, 0);
    lemma_lookup_passes(t, 47, n, 2);
    lemma_lookup_passes(t, 48, n, 2);
    lemma_lookup_finds(t, 49, n);
}

proof fn lemma_resolves_50()
    ensures
        resolve_key_spec("f13"@) == Some(KEY_F13),
{
    reveal_strlit("caps_lock");
    reveal_strlit("f1");
    reveal_strlit("f10");
    reveal_strlit("f11");
    reveal_strlit("f12");
    reveal_strlit("f13");
    reveal_strlit("f2");
    reveal_strlit("f3");
    reveal_strlit("f4");
    reveal_strlit("f5");
    reveal_strlit("f6");
    reveal_strlit("f7");
    reveal_strlit("f8");
    reveal_strlit("f9");
    reveal_strlit("fn");
    reveal_strlit("fn_key");
    reveal_strlit("left_alt");
    reveal_strlit("left_cmd");
    reveal_strlit("left_command");
    reveal_strlit("left_control");
    reveal_strlit("left_ctrl");
    reveal_strlit("left_option");
    reveal_strlit("left_shift");
    reveal_strlit("numpad_0");
    reveal_strlit("numpad_1");
    reveal_strlit("numpad_2");
    reveal_strlit("numpad_3");
    reveal_strlit("numpad_4");
    reveal_strlit("numpad_5");
    reveal_strlit("numpad_6");
    reveal_strlit("numpad_7");
    reveal_strlit("numpad_8");
    reveal_strlit("numpad_9");
    reveal_strlit("numpad_add");
    reveal_strlit("numpad_clear");
    reveal_strlit("numpad_decimal");
    reveal_strlit("numpad_divide");
    reveal_strlit("numpad_dot");
    reveal_strlit("numpad_enter");
    reveal_strlit("numpad_equals");
    reveal_strlit("numpad_minus");
    reveal_strlit("numpad_multiply");
    reveal_strlit("numpad_plus");
    reveal_strlit("numpad_subtract");
    reveal_strlit("right_alt");
    reveal_strlit("right_cmd");
    reveal_strlit("right_command");
    reveal_strlit("right_control");
    reveal_strlit("right_ctrl");
    reveal_strlit("right_option");
    reveal_strlit("right_shift");
    let t = key_table();
    let n = "f13"@;
    assert(t.skip(0) =~= t);
    lemma_lookup_passes(t, 0, n, 0);
    lemma_lookup_passes(t, 1, n, 0);
    lemma_lookup_passes(t, 2, n, 0);
    lemma_lookup_passes(t, 3, n, 0);
    lemma_lookup_passes(t, 4, n, 0);
    lemma_lookup_passes(t, 5, n, 0);
    lemma_lookup_passes(t, 6, n, 0);
    lemma_lookup_passes(t, 7, n, 0);
    lemma_lookup_passes(t, 8, n, 0);
    lemma_lookup_passes(t, 9, n, 0);
    lemma_lookup_passes(t, 10, n, 0);
    lemma_lookup_passes(t, 11, n, 0);
    lemma_lookup_passes(t, 12, n, 0);
    lemma_lookup_passes(t, 13, n, 0);
    lemma_lookup_passes(t, 14, n, 0);
    lemma_lookup_passes(t, 15, n, 0);
    lemma_lookup_passes(t, 16, n, 0);
    lemma_lookup_passes(t, 17, n, 0);
    lemma_lookup_passes(t, 18, n, 0);
    lemma_lookup_passes(t, 19, n, 0);
    lemma_lookup_passes(t, 20, n, 0);
    lemma_lookup_passes(t, 21, n, 0);
    lemma_lookup_passes(t, 22, n, 0);
    lemma_lookup_passes(t, 23, n, 0);
    lemma_lookup_passes(t, 24, n, 0);
    lemma_lookup_passes(t, 25, n, 0);
    lemma_lookup_passes(t, 26, n, 0);
    lemma_lookup_passes(t, 27, n, 0);
    lemma_lookup_passes(t, 28, n, 0);
    lemma_lookup_passes(t, 29, n, 0);
    lemma_lookup_passes(t, 30, n, 0);
    lemma_lookup_passes(t, 31, n, 0);
    lemma_lookup_passes(t, 32, n, 0);
    lemma_lookup_passes(t, 33, n, 0);
    lemma_lookup_passes(t, 34, n, 0);
    lemma_lookup_passes(t, 35, n, 0);
    lemma_lookup_passes(t, 36, n, 0);
    lemma_lookup_passes(t, 37, n, 0);
    lemma_lookup_passes(t, 38, n, 0);
    lemma_lookup_passes(t, 39, n, 0);
    lemma_lookup_passes(t, 40, n, 0);
    lemma_lookup_passes(t, 41, n, 0);
    lemma_lookup_passes(t, 42, n, 0);
    lemma_lookup_passes(t, 43, n, 0);
    lemma_lookup_passes(t, 44, n, 0);
    lemma_lookup_passes(t, 45, n, 0);
    lemma_lookup_passes(t, 46, n, 0);
    lemma_lookup_passes(t, 47, n, 2);
    lemma_lookup_passes(t, 48, n, 2);
    lemma_lookup_passes(t, 49, n, 2);
    lemma_lookup_finds(t, 50, n);
}

proof fn lemma_resolves_51()
    ensures
        resolve_key_spec("f14"@) == Some(KEY_F14),
{
    reveal_strlit("caps_lock");
    reveal_strlit("f1");
    reveal_strlit("f10");
    reveal_strlit("f11");
    reveal_strlit("f12");
    reveal_strlit("f13");
    reveal_strlit("f14");
    reveal_strlit("f2");
    reveal_strlit("f3");
    reveal_strlit("f4");
    reveal_strlit("f5");
    reveal_strlit("f6");
    reveal_strlit("f7");
    reveal_strlit("f8");
    reveal_strlit("f9");
    reveal_strlit("fn");
    reveal_strlit("fn_key");
    reveal_strlit("left_alt");
    reveal_strlit("left_cmd");
    reveal_strlit("left_command");
    reveal_strlit("left_control");
    reveal_strlit("left_ctrl");
    reveal_strlit("left_option");
    reveal_strlit("left_shift");
    reveal_strlit("numpad_0");
    reveal_strlit("numpad_1");
    reveal_strlit("numpad_2");
    reveal_strlit("numpad_3");
    reveal_strlit("numpad_4");
    reveal_strlit("numpad_5");
    reveal_strlit("numpad_6");
    reveal_strlit("numpad_7");
    reveal_strlit("numpad_8");
    reveal_strlit("numpad_9");
    reveal_strlit("numpad_add");
    reveal_strlit("numpad_clear");
    reveal_strlit("numpad_decimal");
    reveal_strlit("numpad_divide");
    reveal_strlit("numpad_dot");
    reveal_strlit("numpad_enter");
    reveal_strlit("numpad_equals");
    reveal_strlit("numpad_minus");
    reveal_strlit("numpad_multiply");
    reveal_strlit("numpad_plus");
    reveal_strlit("numpad_subtract");
    reveal_strlit("right_alt");
    reveal_strlit("right_cmd");
    reveal_strlit("right_command");
    reveal_strlit("right_control");
    reveal_strlit("right_ctrl");
    reveal_strlit("right_option");
    reveal_strlit("right_shift");
    let t = key_table();
    let n = "f14"@;
    assert(t.skip(0) =~= t);
    lemma_lookup_passes(t, 0, n, 0);
    lemma_lookup_passes(t, 1, n, 0);
    lemma_lookup_passes(t, 2, n, 0);
    lemma_lookup_passes(t, 3, n, 0);
    lemma_lookup_passes(t, 4, n, 0);
    lemma_lookup_passes(t, 5, n, 0);
    lemma_lookup_passes(t, 6, n, 0);
    lemma_lookup_passes(t, 7, n, 0);
    lemma_lookup_passes(t, 8, n, 0);
    lemma_lookup_passes(t, 9, n, 0);
    lemma_lookup_passes(t, 10, n, 0);
    lemma_lookup_passes(t, 11, n, 0);
    lemma_lookup_passes(t, 12, n, 0);
    lemma_lookup_passes(t, 13, n, 0);
    lemma_lookup_passes(t, 14, n, 0);
    lemma_lookup_passes(t, 15, n, 0);
    lemma_lookup_passes(t, 16, n, 0);
    lemma_lookup_passes(t, 17, n, 0);
    lemma_lookup_passes(t, 18, n, 0);
    lemma_lookup_passes(t, 19, n, 0);
    lemma_lookup_passes(t, 20, n, 0);
    lemma_lookup_passes(t, 21, n, 0);
    lemma_lookup_passes(t, 22, n, 0);
    lemma_lookup_passes(t, 23, n, 0);
    lemma_lookup_passes(t, 24, n, 0);
    lemma_lookup_passes(t, 25, n, 0);
    lemma_lookup_passes(t, 26, n, 0);
    lemma_lookup_passes(t, 27, n, 0);
    lemma_lookup_passes(t, 28, n, 0);
    lemma_lookup_passes(t, 29, n, 0);
    lemma_lookup_passes(t, 30, n, 0);
    lemma_lookup_passes(t, 31, n, 0);
    lemma_lookup_passes(t, 32, n, 0);
    lemma_lookup_passes(t, 33, n, 0);
    lemma_lookup_passes(t, 34, n, 0);
    lemma_lookup_passes(t, 35, n, 0);
    lemma_lookup_passes(t, 36, n, 0);
    lemma_lookup_passes(t, 37, n, 0);
    lemma_lookup_passes(t, 38, n, 0);
    lemma_lookup_passes(t, 39, n, 0);
    lemma_lookup_passes(t, 40, n, 0);
    lemma_lookup_passes(t, 41, n, 0);
    lemma_lookup_passes(t, 42, n, 0);
    lemma_lookup_passes(t, 43, n, 0);
    lemma_lookup_passes(t, 44, n, 0);
    lemma_lookup_passes(t, 45, n, 0);
    lemma_lookup_passes(t, 46, n, 0);
    lemma_lookup_passes(t, 47, n, 2);
    lemma_lookup_passes(t, 48, n, 2);
    lemma_lookup_passes(t, 49, n, 2);
    lemma_lookup_passes(t, 50, n, 2);
    lemma_lookup_finds(t, 51, n);
}

proof fn lemma_resolves_52()
    ensures
        resolve_key_spec("f15"@) == Some(KEY_F15),
{
    reveal_strlit("caps_lock");
    reveal_strlit("f1");
    reveal_strlit("f10");
    reveal_strlit("f11");
    reveal_strlit("f12");
    reveal_strlit("f13");
    reveal_strlit("f14");
    reveal_strlit("f15");
    reveal_strlit("f2");
    reveal_strlit("f3");
    reveal_strlit("f4");
    reveal_strlit("f5");
    reveal_strlit("f6");
    reveal_strlit("f7");
    reveal_strlit("f8");
    reveal_strlit("f9");
    reveal_strlit("fn");
    reveal_strlit("fn_key");
    reveal_strlit("left_alt");
    reveal_strlit("left_cmd");
    reveal_strlit("left_command");
    reveal_strlit("left_control");
    reveal_strlit("left_ctrl");
    reveal_strlit("left_option");
    reveal_strlit("left_shift");
    reveal_strlit("numpad_0");
    reveal_strlit("numpad_1");
    reveal_strlit("numpad_2");
    reveal_strlit("numpad_3");
    reveal_strlit("numpad_4");
    reveal_strlit("numpad_5");
    reveal_strlit("numpad_6");
    reveal_strlit("numpad_7");
    reveal_strlit("numpad_8");
    reveal_strlit("numpad_9");
    reveal_strlit("numpad_add");
    reveal_strlit("numpad_clear");
    reveal_strlit("numpad_decimal");
    reveal_strlit("numpad_divide");
    reveal_strlit("numpad_dot");
    reveal_strlit("numpad_enter");
    reveal_strlit("numpad_equals");
    reveal_strlit("numpad_minus");
    reveal_strlit("numpad_multiply");
    reveal_strlit("numpad_plus");
    reveal_strlit("numpad_subtract");
    reveal_strlit("right_alt");
    reveal_strlit("right_cmd");
    reveal_strlit("right_command");
    reveal_strlit("right_control");
    reveal_strlit("right_ctrl");
    reveal_strlit("right_option");
    reveal_strlit("right_shift");
    let t = key_table();
    let n = "f15"@;
    assert(t.skip(0) =~= t);
    lemma_lookup_passes(t, 0, n, 0);
    lemma_lookup_passes(t, 1, n, 0);
    lemma_lookup_passes(t, 2, n, 0);
    lemma_lookup_passes(t, 3, n, 0);
    lemma_lookup_passes(t, 4, n, 0);
    lemma_lookup_passes(t, 5, n, 0);
    lemma_lookup_passes(t, 6, n, 0);
    lemma_lookup_passes(t, 7, n, 0);
    lemma_lookup_passes(t, 8, n, 0);
    lemma_lookup_passes(t, 9, n, 0);
    lemma_lookup_passes(t, 10, n, 0);
    lemma_lookup_passes(t, 11, n, 0);
    lemma_lookup_passes(t, 12, n, 0);
    lemma_lookup_passes(t, 13, n, 0);
    lemma_lookup_passes(t, 14, n, 0);
    lemma_lookup_passes(t, 15, n, 0);
    lemma_lookup_passes(t, 16, n, 0);
    lemma_lookup_passes(t, 17, n, 0);
    lemma_lookup_passes(t, 18, n, 0);
    lemma_lookup_passes(t, 19, n, 0);
    lemma_lookup_passes(t, 20, n, 0);
    lemma_lookup_passes(t, 21, n, 0);
    lemma_lookup_passes(t, 22, n, 0);
    lemma_lookup_passes(t, 23, n, 0);
    lemma_lookup_passes(t, 24, n, 0);
    lemma_lookup_passes(t, 25, n, 0);
    lemma_lookup_passes(t, 26, n, 0);
    lemma_lookup_passes(t, 27, n, 0);
    lemma_lookup_passes(t, 28, n, 0);
    lemma_lookup_passes(t, 29, n, 0);
    lemma_lookup_passes(t, 30, n, 0);
    lemma_lookup_passes(t, 31, n, 0);
    lemma_lookup_passes(t, 32, n, 0);
    lemma_lookup_passes(t, 33, n, 0);
    lemma_lookup_passes(t, 34, n, 0);
    lemma_lookup_passes(t, 35, n, 0);
    lemma_lookup_passes(t, 36, n, 0);
    lemma_lookup_passes(t, 37, n, 0);
    lemma_lookup_passes(t, 38, n, 0);
    lemma_lookup_passes(t, 39, n, 0);
    lemma_lookup_passes(t, 40, n, 0);
    lemma_lookup_passes(t, 41, n, 0);
    lemma_lookup_passes(t, 42, n, 0);
    lemma_lookup_passes(t, 43, n, 0);
    lemma_lookup_passes(t, 44, n, 0);
    lemma_lookup_passes(t, 45, n, 0);
    lemma_lookup_passes(t, 46, n, 0);
    lemma_lookup_passes(t, 47, n, 2);
    lemma_lookup_passes(t, 48, n, 2);
    lemma_lookup_passes(t, 49, n, 2);
    lemma_lookup_passes(t, 50, n, 2);
    lemma_lookup_passes(t, 51, n, 2);
    lemma_lookup_finds(t, 52, n);
}

proof fn lemma_resolves_53()
    ensures
        resolve_key_spec("f16"@) == Some(KEY_F16),
{
    reveal_strlit("caps_lock");
    reveal_strlit("f1");
    reveal_strlit("f10");
    reveal_strlit("f11");
    reveal_strlit("f12");
    reveal_strlit("f13");
    reveal_strlit("f14");
    reveal_strlit("f15");
    reveal_strlit("f16");
    reveal_strlit("f2");
    reveal_strlit("f3");
    reveal_strlit("f4");
    reveal_strlit("f5");
    reveal_strlit("f6");
    reveal_strlit("f7");
    reveal_strlit("f8");
    reveal_strlit("f9");
    reveal_strlit("fn");
    reveal_strlit("fn_key");
    reveal_strlit("left_alt");
    reveal_strlit("left_cmd");
    reveal_strlit("left_command");
    reveal_strlit("left_control");
    reveal_strlit("left_ctrl");
    reveal_strlit("left_option");
    reveal_strlit("left_shift");
    reveal_strlit("numpad_0");
    reveal_strlit("numpad_1");
    reveal_strlit("numpad_2");
    reveal_strlit("numpad_3");
    reveal_strlit("numpad_4");
    reveal_strlit("numpad_5");
    reveal_strlit("numpad_6");
    reveal_strlit("numpad_7");
    reveal_strlit("numpad_8");
    reveal_strlit("numpad_9");
    reveal_strlit("numpad_add");
    reveal_strlit("numpad_clear");
    reveal_strlit("numpad_decimal");
    reveal_strlit("numpad_divide");
    reveal_strlit("numpad_dot");
    reveal_strlit("numpad_enter");
    reveal_strlit("numpad_equals");
    reveal_strlit("numpad_minus");
    reveal_strlit("numpad_multiply");
    reveal_strlit("numpad_plus");
    reveal_strlit("numpad_subtract");
    reveal_strlit("right_alt");
    reveal_strlit("right_cmd");
    reveal_strlit("right_command");
    reveal_strlit("right_control");
    reveal_strlit("right_ctrl");
    reveal_strlit("right_option");
    reveal_strlit("right_shift");
    let t = key_table();
    let n = "f16"@;
    assert(t.skip(0) =~= t);
    lemma_lookup_passes(t, 0, n, 0);
    lemma_lookup_passes(t, 1, n, 0);
    lemma_lookup_passes(t, 2, n, 0);
    lemma_lookup_passes(t, 3, n, 0);
    lemma_lookup_passes(t, 4, n, 0);
    lemma_lookup_passes(t, 5, n, 0);
    lemma_lookup_passes(t, 6, n, 0);
    lemma_lookup_passes(t, 7, n, 0);
    lemma_lookup_passes(t, 8, n, 0);
    lemma_lookup_passes(t, 9, n, 0);
    lemma_lookup_passes(t, 10, n, 0);
    lemma_lookup_passes(t, 11, n, 0);
    lemma_lookup_passes(t, 12, n, 0);
    lemma_lookup_passes(t, 13, n, 0);
    lemma_lookup_passes(t, 14, n, 0);
    lemma_lookup_passes(t, 15, n, 0);
    lemma_lookup_passes(t, 16, n, 0);
    lemma_lookup_passes(t, 17, n, 0);
    lemma_lookup_passes(t, 18, n, 0);
    lemma_lookup_passes(t, 19, n, 0);
    lemma_lookup_passes(t, 20, n, 0);
    lemma_lookup_passes(t, 21, n, 0);
    lemma_lookup_passes(t, 22, n, 0);
    lemma_lookup_passes(t, 23, n, 0);
    lemma_lookup_passes(t, 24, n, 0);
    lemma_lookup_passes(t, 25, n, 0);
    lemma_lookup_passes(t, 26, n, 0);
    lemma_lookup_passes(t, 27, n, 0);
    lemma_lookup_passes(t, 28, n, 0);
    lemma_lookup_passes(t, 29, n, 0);
    lemma_lookup_passes(t, 30, n, 0);
    lemma_lookup_passes(t, 31, n, 0);
    lemma_lookup_passes(t, 32, n, 0);
    lemma_lookup_passes(t, 33, n, 0);
    lemma_lookup_passes(t, 34, n, 0);
    lemma_lookup_passes(t, 35, n, 0);
    lemma_lookup_passes(t, 36, n, 0);
    lemma_lookup_passes(t, 37, n, 0);
    lemma_lookup_passes(t, 38, n, 0);
    lemma_lookup_passes(t, 39, n, 0);
    lemma_lookup_passes(t, 40, n, 0);
    lemma_lookup_passes(t, 41, n, 0);
    lemma_lookup_passes(t, 42, n, 0);
    lemma_lookup_passes(t, 43, n, 0);
    lemma_lookup_passes(t, 44, n, 0);
    lemma_lookup_passes(t, 45, n, 0);
    lemma_lookup_passes(t, 46, n, 0);
    lemma_lookup_passes(t, 47, n, 2);
    lemma_lookup_passes(t, 48, n, 2);
    lemma_lookup_passes(t, 49, n, 2);
    lemma_lookup_passes(t, 50, n, 2);
    lemma_lookup_passes(t, 51, n, 2);
    lemma_lookup_passes(t, 52, n, 2);
    lemma_lookup_finds(t, 53, n);
}

proof fn lemma_resolves_54()
    ensures
        resolve_key_spec("f17"@) == Some(KEY_F17),
{
    reveal_strlit("caps_lock");
    reveal_strlit("f1");
    reveal_strlit("f10");
    reveal_strlit("f11");
    reveal_strlit("f12");
    reveal_strlit("f13");
    reveal_strlit("f14");
    reveal_strlit("f15");
    reveal_strlit("f16");
    reveal_strlit("f17");
    reveal_strlit("f2");
    reveal_strlit("f3");
    reveal_strlit("f4");
    reveal_strlit("f5");
    reveal_strlit("f6");
    reveal_strlit("f7");
    reveal_strlit("f8");
    reveal_strlit("f9");
    reveal_strlit("fn");
    reveal_strlit("fn_key");
    reveal_strlit("left_alt");
    reveal_strlit("left_cmd");
    reveal_strlit("left_command");
    reveal_strlit("left_control");
    reveal_strlit("left_ctrl");
    reveal_strlit("left_option");
    reveal_strlit("left_shift");
    reveal_strlit("numpad_0");
    reveal_strlit("numpad_1");
    reveal_strlit("numpad_2");
    reveal_strlit("numpad_3");
    reveal_strlit("numpad_4");
    reveal_strlit("numpad_5");
    reveal_strlit("numpad_6");
    reveal_strlit("numpad_7");
    reveal_strlit("numpad_8");
    reveal_strlit("numpad_9");
    reveal_strlit("numpad_add");
    reveal_strlit("numpad_clear");
    reveal_strlit("numpad_decimal");
    reveal_strlit("numpad_divide");
    reveal_strlit("numpad_dot");
    reveal_strlit("numpad_enter");
    reveal_strlit("numpad_equals");
    reveal_strlit("numpad_minus");
    reveal_strlit("numpad_multiply");
    reveal_strlit("numpad_plus");
    reveal_strlit("numpad_subtract");
    reveal_strlit("right_alt");
    reveal_strlit("right_cmd");
    reveal_strlit("right_command");
    reveal_strlit("right_control");
    reveal_strlit("right_ctrl");
    reveal_strlit("right_option");
    reveal_strlit("right_shift");
    let t = key_table();
    let n = "f17"@;
    assert(t.skip(0) =~= t);
    lemma_lookup_passes(t, 0, n, 0);
    lemma_lookup_passes(t, 1, n, 0);
    lemma_lookup_passes(t, 2, n, 0);
    lemma_lookup_passes(t, 3, n, 0);
    lemma_lookup_passes(t, 4, n, 0);
    lemma_lookup_passes(t, 5, n, 0);
    lemma_lookup_passes(t, 6, n, 0);
    lemma_lookup_passes(t, 7, n, 0);
    lemma_lookup_passes(t, 8, n, 0);
    lemma_lookup_passes(t, 9, n, 0);
    lemma_lookup_passes(t, 10, n, 0);
    lemma_lookup_passes(t, 11, n, 0);
    lemma_lookup_passes(t, 12, n, 0);
    lemma_lookup_passes(t, 13, n, 0);
    lemma_lookup_passes(t, 14, n, 0);
    lemma_lookup_passes(t, 15, n, 0);
    lemma_lookup_passes(t, 16, n, 0);
    lemma_lookup_passes(t, 17, n, 0);
    lemma_lookup_passes(t, 18, n, 0);
    lemma_lookup_passes(t, 19, n, 0);
    lemma_lookup_passes(t, 20, n, 0);
    lemma_lookup_passes(t, 21, n, 0);
    lemma_lookup_passes(t, 22, n, 0);
    lemma_lookup_passes(t, 23, n, 0);
    lemma_lookup_passes(t, 24, n, 0);
    lemma_lookup_passes(t, 25, n, 0);
    lemma_lookup_passes(t, 26, n, 0);
    lemma_lookup_passes(t, 27, n, 0);
    lemma_lookup_passes(t, 28, n, 0);
    lemma_lookup_passes(t, 29, n, 0);
    lemma_lookup_passes(t, 30, n, 0);
    lemma_lookup_passes(t, 31, n, 0);
    lemma_lookup_passes(t, 32, n, 0);
    lemma_lookup_passes(t, 33, n, 0);
    lemma_lookup_passes(t, 34, n, 0);
    lemma_lookup_passes(t, 35, n, 0);
    lemma_lookup_passes(t, 36, n, 0);
    lemma_lookup_passes(t, 37, n, 0);
    lemma_lookup_passes(t, 38, n, 0);
    lemma_lookup_passes(t, 39, n, 0);
    lemma_lookup_passes(t, 40, n, 0);
    lemma_lookup_passes(t, 41, n, 0);
    lemma_lookup_passes(t, 42, n, 0);
    lemma_lookup_passes(t, 43, n, 0);
    lemma_lookup_passes(t, 44, n, 0);
    lemma_lookup_passes(t, 45, n, 0);
    lemma_lookup_passes(t, 46, n, 0);
    lemma_lookup_passes(t, 47, n, 2);
    lemma_lookup_passes(t, 48, n, 2);
    lemma_lookup_passes(t, 49, n, 2);
    lemma_lookup_passes(t, 50, n, 2);
    lemma_lookup_passes(t, 51, n, 2);
    lemma_lookup_passes(t, 52, n, 2);
    lemma_lookup_passes(t, 53, n, 2);
    lemma_lookup_finds(t, 54, n);
}

proof fn lemma_resolves_55()
    ensures
        resolve_key_spec("f18"@) == Some(KEY_F18),
{
    reveal_strlit("caps_lock");
    reveal_strlit("f1");
    reveal_strlit("f10");
    reveal_strlit("f11");
    reveal_strlit("f12");
    reveal_strlit("f13");
    reveal_strlit("f14");
    reveal_strlit("f15");
    reveal_strlit("f16");
    reveal_strlit("f17");
    reveal_strlit("f18");
    reveal_strlit("f2");
    reveal_strlit("f3");
    reveal_strlit("f4");
    reveal_strlit("f5");
    reveal_strlit("f6");
    reveal_strlit("f7");
    reveal_strlit("f8");
    reveal_strlit("f9");
    reveal_strlit("fn");
    reveal_strlit("fn_key");
    reveal_strlit("left_alt");
    reveal_strlit("left_cmd");
    reveal_strlit("left_command");
    reveal_strlit("left_control");
    reveal_strlit("left_ctrl");
    reveal_strlit("left_option");
    reveal_strlit("left_shift");
    reveal_strlit("numpad_0");
    reveal_strlit("numpad_1");
    reveal_strlit("numpad_2");
    reveal_strlit("numpad_3");
    reveal_strlit("numpad_4");
    reveal_strlit("numpad_5");
    reveal_strlit("numpad_6");
    reveal_strlit("numpad_7");
    reveal_strlit("numpad_8");
    reveal_strlit("numpad_9");
    reveal_strlit("numpad_add");
    reveal_strlit("numpad_clear");
    reveal_strlit("numpad_decimal");
    reveal_strlit("numpad_divide");
    reveal_strlit("numpad_dot");
    reveal_strlit("numpad_enter");
    reveal_strlit("numpad_equals");
    reveal_strlit("numpad_minus");
    reveal_strlit("numpad_multiply");
    reveal_strlit("numpad_plus");
    reveal_strlit("numpad_subtract");
    reveal_strlit("right_alt");
    reveal_strlit("right_cmd");
    reveal_strlit("right_command");
    reveal_strlit("right_control");
    reveal_strlit("right_ctrl");
    reveal_strlit("right_option");
    reveal_strlit("right_shift");
    let t = key_table();
    let n = "f18"@;
    assert(t.skip(0) =~= t);
    lemma_lookup_passes(t, 0, n, 0);
    lemma_lookup_passes(t, 1, n, 0);
    lemma_lookup_passes(t, 2, n, 0);
    lemma_lookup_passes(t, 3, n, 0);
    lemma_lookup_passes(t, 4, n, 0);
    lemma_lookup_passes(t, 5, n, 0);
    lemma_lookup_passes(t, 6, n, 0);
    lemma_lookup_passes(t, 7, n, 0);
    lemma_lookup_passes(t, 8, n, 0);
    lemma_lookup_passes(t, 9, n, 0);
    lemma_lookup_passes(t, 10, n, 0);
    lemma_lookup_passes(t, 11, n, 0);
    lemma_lookup_passes(t, 12, n, 0);
    lemma_lookup_passes(t, 13, n, 0);
    lemma_lookup_passes(t, 14, n, 0);
    lemma_lookup_passes(t, 15, n, 0);
    lemma_lookup_passes(t, 16, n, 0);
    lemma_lookup_passes(t, 17, n, 0);
    lemma_lookup_passes(t, 18, n, 0);
    lemma_lookup_passes(t, 19, n, 0);
    lemma_lookup_passes(t, 20, n, 0);
    lemma_lookup_passes(t, 21, n, 0);
    lemma_lookup_passes(t, 22, n, 0);
    lemma_lookup_passes(t, 23, n, 0);
    lemma_lookup_passes(t, 24, n, 0);
    lemma_lookup_passes(t, 25, n, 0);
    lemma_lookup_passes(t, 26, n, 0);
    lemma_lookup_passes(t, 27, n, 0);
    lemma_lookup_passes(t, 28, n, 0);
    lemma_lookup_passes(t, 29, n, 0);
    lemma_lookup_passes(t, 30, n, 0);
    lemma_lookup_passes(t, 31, n, 0);
    lemma_lookup_passes(t, 32, n, 0);
    lemma_lookup_passes(t, 33, n, 0);
    lemma_lookup_passes(t, 34, n, 0);
    lemma_lookup_passes(t, 35, n, 0);
    lemma_lookup_passes(t, 36, n, 0);
    lemma_lookup_passes(t, 37, n, 0);
    lemma_lookup_passes(t, 38, n, 0);
    lemma_lookup_passes(t, 39, n, 0);
    lemma_lookup_passes(t, 40, n, 0);
    lemma_lookup_passes(t, 41, n, 0);
    lemma_lookup_passes(t, 42, n, 0);
    lemma_lookup_passes(t, 43, n, 0);
    lemma_lookup_passes(t, 44, n, 0);
    lemma_lookup_passes(t, 45, n, 0);
    lemma_lookup_passes(t, 46, n, 0);
    lemma_lookup_passes(t, 47, n, 2);
    lemma_lookup_passes(t, 48, n, 2);
    lemma_lookup_passes(t, 49, n, 2);
    lemma_lookup_passes(t, 50, n, 2);
    lemma_lookup_passes(t, 51, n, 2);
    lemma_lookup_passes(t, 52, n, 2);
    lemma_lookup_passes(t, 53, n, 2);
    lemma_lookup_passes(t, 54, n, 2);
    lemma_lookup_finds(t, 55, n);
}

proof fn lemma_resolves_56()
    ensures
        resolve_key_spec("f19"@) == Some(KEY_F19),
{
    reveal_strlit("caps_lock");
    reveal_strlit("f1");
    reveal_strlit("f10");
    reveal_strlit("f11");
    reveal_strlit("f12");
    reveal_strlit("f13");
    reveal_strlit("f14");
    reveal_strlit("f15");
    reveal_strlit("f16");
    reveal_strlit("f17");
    reveal_strlit("f18");
    reveal_strlit("f19");
    reveal_strlit("f2");
    reveal_strlit("f3");
    reveal_strlit("f4");
    reveal_strlit("f5");
    reveal_strlit("f6");
    reveal_strlit("f7");
    reveal_strlit("f8");
    reveal_strlit("f9");
    reveal_strlit("fn");
    reveal_strlit("fn_key");
    reveal_strlit("left_alt");
    reveal_strlit("left_cmd");
    reveal_strlit("left_command");
    reveal_strlit("left_control");
    reveal_strlit("left_ctrl");
    reveal_strlit("left_option");
    reveal_strlit("left_shift");
    reveal_strlit("numpad_0");
    reveal_strlit("numpad_1");
    reveal_strlit("numpad_2");
    reveal_strlit("numpad_3");
    reveal_strlit("numpad_4");
    reveal_strlit("numpad_5");
    reveal_strlit("numpad_6");
    reveal_strlit("numpad_7");
    reveal_strlit("numpad_8");
    reveal_strlit("numpad_9");
    reveal_strlit("numpad_add");
    reveal_strlit("numpad_clear");
    reveal_strlit("numpad_decimal");
    reveal_strlit("numpad_divide");
    reveal_strlit("numpad_dot");
    reveal_strlit("numpad_enter");
    reveal_strlit("numpad_equals");
    reveal_strlit("numpad_minus");
    reveal_strlit("numpad_multiply");
    reveal_strlit("numpad_plus");
    reveal_strlit("numpad_subtract");
    reveal_strlit("right_alt");
    reveal_strlit("right_cmd");
    reveal_strlit("right_command");
    reveal_strlit("right_control");
    reveal_strlit("right_ctrl");
    reveal_strlit("right_option");
    reveal_strlit("right_shift");
    let t = key_table();
    let n = "f19"@;
    assert(t.skip(0) =~= t);
    lemma_lookup_passes(t, 0, n, 0);
    lemma_lookup_passes(t, 1, n, 0);
    lemma_lookup_passes(t, 2, n, 0);
    lemma_lookup_passes(t, 3, n, 0);
    lemma_lookup_passes(t, 4, n, 0);
    lemma_lookup_passes(t, 5, n, 0);
    lemma_lookup_passes(t, 6, n, 0);
    lemma_lookup_passes(t, 7, n, 0);
    lemma_lookup_passes(t, 8, n, 0);
    lemma_lookup_passes(t, 9, n, 0);
    lemma_lookup_passes(t, 10, n, 0);
    lemma_lookup_passes(t, 11, n, 0);
    lemma_lookup_passes(t, 12, n, 0);
    lemma_lookup_passes(t, 13, n, 0);
    lemma_lookup_passes(t, 14, n, 0);
    lemma_lookup_passes(t, 15, n, 0);
    lemma_lookup_passes(t, 16, n, 0);
    lemma_lookup_passes(t, 17, n, 0);
    lemma_lookup_passes(t, 18, n, 0);
    lemma_lookup_passes(t, 19, n, 0);
    lemma_lookup_passes(t, 20, n, 0);
    lemma_lookup_passes(t, 21, n, 0);
    lemma_lookup_passes(t, 22, n, 0);
    lemma_lookup_passes(t, 23, n, 0);
    lemma_lookup_passes(t, 24, n, 0);
    lemma_lookup_passes(t, 25, n, 0);
    lemma_lookup_passes(t, 26, n, 0);
    lemma_lookup_passes(t, 27, n, 0);
    lemma_lookup_passes(t, 28, n, 0);
    lemma_lookup_passes(t, 29, n, 0);
    lemma_lookup_passes(t, 30, n, 0);
    lemma_lookup_passes(t, 31, n, 0);
    lemma_lookup_passes(t, 32, n, 0);
    lemma_lookup_passes(t, 33, n, 0);
    lemma_lookup_passes(t, 34, n, 0);
    lemma_lookup_passes(t, 35, n, 0);
    lemma_lookup_passes(t, 36, n, 0);
    lemma_lookup_passes(t, 37, n, 0);
    lemma_lookup_passes(t, 38, n, 0);
    lemma_lookup_passes(t, 39, n, 0);
    lemma_lookup_passes(t, 40, n, 0);
    lemma_lookup_passes(t, 41, n, 0);
    lemma_lookup_passes(t, 42, n, 0);
    lemma_lookup_passes(t, 43, n, 0);
    lemma_lookup_passes(t, 44, n, 0);
    lemma_lookup_passes(t, 45, n, 0);
    lemma_lookup_passes(t, 46, n, 0);
    lemma_lookup_passes(t, 47, n, 2);
    lemma_lookup_passes(t, 48, n, 2);
    lemma_lookup_passes(t, 49, n, 2);
    lemma_lookup_passes(t, 50, n, 2);
    lemma_lookup_passes(t, 51, n, 2);
    lemma_lookup_passes(t, 52, n, 2);
    lemma_lookup_passes(t, 53, n, 2);
    lemma_lookup_passes(t, 54, n, 2);
    lemma_lookup_passes(t, 55, n, 2);
    lemma_lookup_finds(t, 56, n);
}

proof fn lemma_resolves_57()
    ensures
        resolve_key_spec("f20"@) == Some(KEY_F20),
{
    reveal_strlit("caps_lock");
    reveal_strlit("f1");
    reveal_strlit("f10");
    reveal_strlit("f11");
    reveal_strlit("f12");
    reveal_strlit("f13");
    reveal_strlit("f14");
    reveal_strlit("f15");
    reveal_strlit("f16");
    reveal_strlit("f17");
    reveal_strlit("f18");
    reveal_strlit("f19");
    reveal_strlit("f2");
    reveal_strlit("f20");
    reveal_strlit("f3");
    reveal_strlit("f4");
    reveal_strlit("f5");
    reveal_strlit("f6");
    reveal_strlit("f7");
    reveal_strlit("f8");
    reveal_strlit("f9");
    reveal_strlit("fn");
    reveal_strlit("fn_key");
    reveal_strlit("left_alt");
    reveal_strlit("left_cmd");
    reveal_strlit("left_command");
    reveal_strlit("left_control");
    reveal_strlit("left_ctrl");
    reveal_strlit("left_option");
    reveal_strlit("left_shift");
    reveal_strlit("numpad_0");
    reveal_strlit("numpad_1");
    reveal_strlit("numpad_2");
    reveal_strlit("numpad_3");
    reveal_strlit("numpad_4");
    reveal_strlit("numpad_5");
    reveal_strlit("numpad_6");
    reveal_strlit("numpad_7");
    reveal_strlit("numpad_8");
    reveal_strlit("numpad_9");
    reveal_strlit("numpad_add");
    reveal_strlit("numpad_clear");
    reveal_strlit("numpad_decimal");
    reveal_strlit("numpad_divide");
    reveal_strlit("numpad_dot");
    reveal_strlit("numpad_enter");
    reveal_strlit("numpad_equals");
    reveal_strlit("numpad_minus");
    reveal_strlit("numpad_multiply");
    reveal_strlit("numpad_plus");
    reveal_strlit("numpad_subtract");
    reveal_strlit("right_alt");
    reveal_strlit("right_cmd");
    reveal_strlit("right_command");
    reveal_strlit("right_control");
    reveal_strlit("right_ctrl");
    reveal_strlit("right_option");
    reveal_strlit("right_shift");
    let t = key_table();
    let n = "f20"@;
    assert(t.skip(0) =~= t);
    lemma_lookup_passes(t, 0, n, 0);
    lemma_lookup_passes(t, 1, n, 0);
    lemma_lookup_passes(t, 2, n, 0);
    lemma_lookup_passes(t, 3, n, 0);
    lemma_lookup_passes(t, 4, n, 0);
    lemma_lookup_passes(t, 5, n, 0);
    lemma_lookup_passes(t, 6, n, 0);
    lemma_lookup_passes(t, 7, n, 0);
    lemma_lookup_passes(t, 8, n, 0);
    lemma_lookup_passes(t, 9, n, 0);
    lemma_lookup_passes(t, 10, n, 0);
    lemma_lookup_passes(t, 11, n, 0);
    lemma_lookup_passes(t, 12, n, 0);
    lemma_lookup_passes(t, 13, n, 0);
    lemma_lookup_passes(t, 14, n, 0);
    lemma_lookup_passes(t, 15, n, 0);
    lemma_lookup_passes(t, 16, n, 0);
    lemma_lookup_passes(t, 17, n, 0);
    lemma_lookup_passes(t, 18, n, 0);
    lemma_lookup_passes(t, 19, n, 0);
    lemma_lookup_passes(t, 20, n, 0);
    lemma_lookup_passes(t, 21, n, 0);
    lemma_lookup_passes(t, 22, n, 0);
    lemma_lookup_passes(t, 23, n, 0);
    lemma_lookup_passes(t, 24, n, 0);
    lemma_lookup_passes(t, 25, n, 0);
    lemma_lookup_passes(t, 26, n, 0);
    lemma_lookup_passes(t, 27, n, 0);
    lemma_lookup_passes(t, 28, n, 0);
    lemma_lookup_passes(t, 29, n, 0);
    lemma_lookup_passes(t, 30, n, 0);
    lemma_lookup_passes(t, 31, n, 0);
    lemma_lookup_passes(t, 32, n, 0);
    lemma_lookup_passes(t, 33, n, 0);
    lemma_lookup_passes(t, 34, n, 0);
    lemma_lookup_passes(t, 35, n, 0);
    lemma_lookup_passes(t, 36, n, 0);
    lemma_lookup_passes(t, 37, n, 0);
    lemma_lookup_passes(t, 38, n, 0);
    lemma_lookup_passes(t, 39, n, 0);
    lemma_lookup_passes(t, 40, n, 0);
    lemma_lookup_passes(t, 41, n, 0);
    lemma_lookup_passes(t, 42, n, 0);
    lemma_lookup_passes(t, 43, n, 0);
    lemma_lookup_passes(t, 44, n, 0);
    lemma_lookup_passes(t, 45, n, 0);
    lemma_lookup_passes(t, 46, n, 0);
    lemma_lookup_passes(t, 47, n, 1);
    lemma_lookup_passes(t, 48, n, 1);
    lemma_lookup_passes(t, 49, n, 1);
    lemma_lookup_passes(t, 50, n, 1);
    lemma_lookup_passes(t, 51, n, 1);
    lemma_lookup_passes(t, 52, n, 1);
    lemma_lookup_passes(t, 53, n, 1);
    lemma_lookup_passes(t, 54, n, 1);
    lemma_lookup_passes(t, 55, n, 1);
    lemma_lookup_passes(t, 56, n, 1);
    lemma_lookup_finds(t, 57, n);
}

proof fn lemma_resolves_58()
    ensures
        resolve_key_spec("space"@) == Some(KEY_SPACE),
{
    reveal_strlit("caps_lock");
    reveal_strlit("f1");
    reveal_strlit("f10");
    reveal_strlit("f11");
    reveal_strlit("f12");
    reveal_strlit("f13");
    reveal_strlit("f14");
    reveal_strlit("f15");
    reveal_strlit("f16");
    reveal_strlit("f17");
    reveal_strlit("f18");
    reveal_strlit("f19");
    reveal_strlit("f2");
    reveal_strlit("f20");
    reveal_strlit("f3");
    reveal_strlit("f4");
    reveal_strlit("f5");
    reveal_strlit("f6");
    reveal_strlit("f7");
    reveal_strlit("f8");
    reveal_strlit("f9");
    reveal_strlit("fn");
    reveal_strlit("fn_key");
    reveal_strlit("left_alt");
    reveal_strlit("left_cmd");
    reveal_strlit("left_command");
    reveal_strlit("left_control");
    reveal_strlit("left_ctrl");
    reveal_strlit("left_option");
    reveal_strlit("left_shift");
    reveal_strlit("numpad_0");
    reveal_strlit("numpad_1");
    reveal_strlit("numpad_2");
    reveal_strlit("numpad_3");
    reveal_strlit("numpad_4");
    reveal_strlit("numpad_5");
    reveal_strlit("numpad_6");
    reveal_strlit("numpad_7");
    reveal_strlit("numpad_8");
    reveal_strlit("numpad_9");
    reveal_strlit("numpad_add");
    reveal_strlit("numpad_clear");
    reveal_strlit("numpad_decimal");
    reveal_strlit("numpad_divide");
    reveal_strlit("numpad_dot");
    reveal_strlit("numpad_enter");
    reveal_strlit("numpad_equals");
    reveal_strlit("numpad_minus");
    reveal_strlit("numpad_multiply");
    reveal_strlit("numpad_plus");
    reveal_strlit("numpad_subtract");
    reveal_strlit("right_alt");
    reveal_strlit("right_cmd");
    reveal_strlit("right_command");
    reveal_strlit("right_control");
    reveal_strlit("right_ctrl");
    reveal_strlit("right_option");
    reveal_strlit("right_shift");
    reveal_strlit("space");
    let t = key_table();
    let n = "space"@;
    assert(t.skip(0) =~= t);
    lemma_lookup_passes(t, 0, n, 0);
    lemma_lookup_passes(t, 1, n, 0);
    lemma_lookup_passes(t, 2, n, 0);
    lemma_lookup_passes(t, 3, n, 0);
    lemma_lookup_passes(t, 4, n, 0);
    lemma_lookup_passes(t, 5, n, 0);
    lemma_lookup_passes(t, 6, n, 0);
    lemma_lookup_passes(t, 7, n, 0);
    lemma_lookup_passes(t, 8, n, 0);
    lemma_lookup_passes(t, 9, n, 0);
    lemma_lookup_passes(t, 10, n, 0);
    lemma_lookup_passes(t, 11, n, 0);
    lemma_lookup_passes(t, 12, n, 0);
    lemma_lookup_passes(t, 13, n, 0);
    lemma_lookup_passes(t, 14, n, 0);
    lemma_lookup_passes(t, 15, n, 0);
    lemma_lookup_passes(t, 16, n, 0);
    lemma_lookup_passes(t, 17, n, 0);
    lemma_lookup_passes(t, 18, n, 0);
    lemma_lookup_passes(t, 19, n, 0);
    lemma_lookup_passes(t, 20, n, 0);
    lemma_lookup_passes(t, 21, n, 0);
    lemma_lookup_passes(t, 22, n, 0);
    lemma_lookup_passes(t, 23, n, 0);
    lemma_lookup_passes(t, 24, n, 0);
    lemma_lookup_passes(t, 25, n, 0);
    lemma_lookup_passes(t, 26, n, 0);
    lemma_lookup_passes(t, 27, n, 0);
    lemma_lookup_passes(t, 28, n, 0);
    lemma_lookup_passes(t, 29, n, 0);
    lemma_lookup_passes(t, 30, n, 0);
    lemma_lookup_passes(t, 31, n, 0);
    lemma_lookup_passes(t, 32, n, 0);
    lemma_lookup_passes(t, 33, n, 0);
    lemma_lookup_passes(t, 34, n, 0);
    lemma_lookup_passes(t, 35, n, 0);
    lemma_lookup_passes(t, 36, n, 0);
    lemma_lookup_passes(t, 37, n, 0);
    lemma_lookup_passes(t, 38, n, 0);
    lemma_lookup_passes(t, 39, n, 0);
    lemma_lookup_passes(t, 40, n, 0);
    lemma_lookup_passes(t, 41, n, 0);
    lemma_lookup_passes(t, 42, n, 0);
    lemma_lookup_passes(t, 43, n, 0);
    lemma_lookup_passes(t, 44, n, 0);
    lemma_lookup_passes(t, 45, n, 0);
    lemma_lookup_passes(t, 46, n, 0);
    lemma_lookup_passes(t, 47, n, 0);
    lemma_lookup_passes(t, 48, n, 0);
    lemma_lookup_passes(t, 49, n, 0);
    lemma_lookup_passes(t, 50, n, 0);
    lemma_lookup_passes(t, 51, n, 0);
    lemma_lookup_passes(t, 52, n, 0);
    lemma_lookup_passes(t, 53, n, 0);
    lemma_lookup_passes(t, 54, n, 0);
    lemma_lookup_passes(t, 55, n, 0);
    lemma_lookup_passes(t, 56, n, 0);
    lemma_lookup_passes(t, 57, n, 0);
    lemma_lookup_finds(t, 58, n);
}

proof fn lemma_resolves_59()
    ensures
        resolve_key_spec("tab"@) == Some(KEY_TAB),
{
    reveal_strlit("caps_lock");
    reveal_strlit("f1");
    reveal_strlit("f10");
    reveal_strlit("f11");
    reveal_strlit("f12");
    reveal_strlit("f13");
    reveal_strlit("f14");
    reveal_strlit("f15");
    reveal_strlit("f16");
    reveal_strlit("f17");
    reveal_strlit("f18");
    reveal_strlit("f19");
    reveal_strlit("f2");
    reveal_strlit("f20");
    reveal_strlit("f3");
    reveal_strlit("f4");
    reveal_strlit("f5");
    reveal_strlit("f6");
    reveal_strlit("f7");
    reveal_strlit("f8");
    reveal_strlit("f9");
    reveal_strlit("fn");
    reveal_strlit("fn_key");
    reveal_strlit("left_alt");
    reveal_strlit("left_cmd");
    reveal_strlit("left_command");
    reveal_strlit("left_control");
    reveal_strlit("left_ctrl");
    reveal_strlit("left_option");
    reveal_strlit("left_shift");
    reveal_strlit("numpad_0");
    reveal_strlit("numpad_1");
    reveal_strlit("numpad_2");
    reveal_strlit("numpad_3");
    reveal_strlit("numpad_4");
    reveal_strlit("numpad_5");
    reveal_strlit("numpad_6");
    reveal_strlit("numpad_7");
    reveal_strlit("numpad_8");
    reveal_strlit("numpad_9");
    reveal_strlit("numpad_add");
    reveal_strlit("numpad_clear");
    reveal_strlit("numpad_decimal");
    reveal_strlit("numpad_divide");
    reveal_strlit("numpad_dot");
    reveal_strlit("numpad_enter");
    reveal_strlit("numpad_equals");
    reveal_strlit("numpad_minus");
    reveal_strlit("numpad_multiply");
    reveal_strlit("numpad_plus");
    reveal_strlit("numpad_subtract");
    reveal_strlit("right_alt");
    reveal_strlit("right_cmd");
    reveal_strlit("right_command");
    reveal_strlit("right_control");
    reveal_strlit("right_ctrl");
    reveal_strlit("right_option");
    reveal_strlit("right_shift");
    reveal_strlit("space");
    reveal_strlit("tab");
    let t = key_table();
    let n = "tab"@;
    assert(t.skip(0) =~= t);
    lemma_lookup_passes(t, 0, n, 0);
    lemma_lookup_passes(t, 1, n, 0);
    lemma_lookup_passes(t, 2, n, 0);
    lemma_lookup_passes(t, 3, n, 0);
    lemma_lookup_passes(t, 4, n, 0);
    lemma_lookup_passes(t, 5, n, 0);
    lemma_lookup_passes(t, 6, n, 0);
    lemma_lookup_passes(t, 7, n, 0);
    lemma_lookup_passes(t, 8, n, 0);
    lemma_lookup_passes(t, 9, n, 0);
    lemma_lookup_passes(t, 10, n, 0);
    lemma_lookup_passes(t, 11, n, 0);
    lemma_lookup_passes(t, 12, n, 0);
    lemma_lookup_passes(t, 13, n, 0);
    lemma_lookup_passes(t, 14, n, 0);
    lemma_lookup_passes(t, 15, n, 0);
    lemma_lookup_passes(t, 16, n, 0);
    lemma_lookup_passes(t, 17, n, 0);
    lemma_lookup_passes(t, 18, n, 0);
    lemma_lookup_passes(t, 19, n, 0);
    lemma_lookup_passes(t, 20, n, 0);
    lemma_lookup_passes(t, 21, n, 0);
    lemma_lookup_passes(t, 22, n, 0);
    lemma_lookup_passes(t, 23, n, 0);
    lemma_lookup_passes(t, 24, n, 0);
    lemma_lookup_passes(t, 25, n, 0);
    lemma_lookup_passes(t, 26, n, 0);
    lemma_lookup_passes(t, 27, n, 0);
    lemma_lookup_passes(t, 28, n, 0);
    lemma_lookup_passes(t, 29, n, 0);
    lemma_lookup_passes(t, 30, n, 0);
    lemma_lookup_passes(t, 31, n, 0);
    lemma_lookup_passes(t, 32, n, 0);
    lemma_lookup_passes(t, 33, n, 0);
    lemma_lookup_passes(t, 34, n, 0);
    lemma_lookup_passes(t, 35, n, 0);
    lemma_lookup_passes(t, 36, n, 0);
    lemma_lookup_passes(t, 37, n, 0);
    lemma_lookup_passes(t, 38, n, 0);
    lemma_lookup_passes(t, 39, n, 0);
    lemma_lookup_passes(t, 40, n, 0);
    lemma_lookup_passes(t, 41, n, 0);
    lemma_lookup_passes(t, 42, n, 0);
    lemma_lookup_passes(t, 43, n, 0);
    lemma_lookup_passes(t, 44, n, 0);
    lemma_lookup_passes(t, 45, n, 0);
    lemma_lookup_passes(t, 46, n, 0);
    lemma_lookup_passes(t, 47, n, 0);
    lemma_lookup_passes(t, 48, n, 0);
    lemma_lookup_passes(t, 49, n, 0);
    lemma_lookup_passes(t, 50, n, 0);
    lemma_lookup_passes(t, 51, n, 0);
    lemma_lookup_passes(t, 52, n, 0);
    lemma_lookup_passes(t, 53, n, 0);
    lemma_lookup_passes(t, 54, n, 0);
    lemma_lookup_passes(t, 55, n, 0);
    lemma_lookup_passes(t, 56, n, 0);
    lemma_lookup_passes(t, 57, n, 0);
    lemma_lookup_passes(t, 58, n, 0);
    lemma_lookup_finds(t, 59, n);
}

proof fn lemma_resolves_60()
    ensures
        resolve_key_spec("escape"@) == Some(KEY_ESC),
{
    reveal_strlit("caps_lock");
    reveal_strlit("escape");
    reveal_strlit("f1");
    reveal_strlit("f10");
    reveal_strlit("f11");
    reveal_strlit("f12");
    reveal_strlit("f13");
    reveal_strlit("f14");
    reveal_strlit("f15");
    reveal_strlit("f16");
    reveal_strlit("f17");
    reveal_strlit("f18");
    reveal_strlit("f19");
    reveal_strlit("f2");
    reveal_strlit("f20");
    reveal_strlit("f3");
    reveal_strlit("f4");
    reveal_strlit("f5");
    reveal_strlit("f6");
    reveal_strlit("f7");
    reveal_strlit("f8");
    reveal_strlit("f9");
    reveal_strlit("fn");
    reveal_strlit("fn_key");
    reveal_strlit("left_alt");
    reveal_strlit("left_cmd");
    reveal_strlit("left_command");
    reveal_strlit("left_control");
    reveal_strlit("left_ctrl");
    reveal_strlit("left_option");
    reveal_strlit("left_shift");
    reveal_strlit("numpad_0");
    reveal_strlit("numpad_1");
    reveal_strlit("numpad_2");
    reveal_strlit("numpad_3");
    reveal_strlit("numpad_4");
    reveal_strlit("numpad_5");
    reveal_strlit("numpad_6");
    reveal_strlit("numpad_7");
    reveal_strlit("numpad_8");
    reveal_strlit("numpad_9");
    reveal_strlit("numpad_add");
    reveal_strlit("numpad_clear");
    reveal_strlit("numpad_decimal");
    reveal_strlit("numpad_divide");
    reveal_strlit("numpad_dot");
    reveal_strlit("numpad_enter");
    reveal_strlit("numpad_equals");
    reveal_strlit("numpad_minus");
    reveal_strlit("numpad_multiply");
    reveal_strlit("numpad_plus");
    reveal_strlit("numpad_subtract");
    reveal_strlit("right_alt");
    reveal_strlit("right_cmd");
    reveal_strlit("right_command");
    reveal_strlit("right_control");
    reveal_strlit("right_ctrl");
    reveal_strlit("right_option");
    reveal_strlit("right_shift");
    reveal_strlit("space");
    reveal_strlit("tab");
    let t = key_table();
    let n = "escape"@;
    assert(t.skip(0) =~= t);
    lemma_lookup_passes(t, 0, n, 0);
    lemma_lookup_passes(t, 1, n, 0);
    lemma_lookup_passes(t, 2, n, 0);
    lemma_lookup_passes(t, 3, n, 0);
    lemma_lookup_passes(t, 4, n, 0);
    lemma_lookup_passes(t, 5, n, 0);
    lemma_lookup_passes(t, 6, n, 0);
    lemma_lookup_passes(t, 7, n, 0);
    lemma_lookup_passes(t, 8, n, 0);
    lemma_lookup_passes(t, 9, n, 0);
    lemma_lookup_passes(t, 10, n, 0);
    lemma_lookup_passes(t, 11, n, 0);
    lemma_lookup_passes(t, 12, n, 0);
    lemma_lookup_passes(t, 13, n, 0);
    lemma_lookup_passes(t, 14, n, 0);
    lemma_lookup_passes(t, 15, n, 0);
    lemma_lookup_passes(t, 16, n, 0);
    lemma_lookup_passes(t, 17, n, 0);
    lemma_lookup_passes(t, 18, n, 0);
    lemma_lookup_passes(t, 19, n, 0);
    lemma_lookup_passes(t, 20, n, 0);
    lemma_lookup_passes(t, 21, n, 0);
    lemma_lookup_passes(t, 22, n, 0);
    lemma_lookup_passes(t, 23, n, 0);
    lemma_lookup_passes(t, 24, n, 0);
    lemma_lookup_passes(t, 25, n, 0);
    lemma_lookup_passes(t, 26, n, 0);
    lemma_lookup_passes(t, 27, n, 0);
    lemma_lookup_passes(t, 28, n, 0);
    lemma_lookup_passes(t, 29, n, 0);
    lemma_lookup_passes(t, 30, n, 0);
    lemma_lookup_passes(t, 31, n, 0);
    lemma_lookup_passes(t, 32, n, 0);
    lemma_lookup_passes(t, 33, n, 0);
    lemma_lookup_passes(t, 34, n, 0);
    lemma_lookup_passes(t, 35, n, 0);
    lemma_lookup_passes(t, 36, n, 0);
    lemma_lookup_passes(t, 37, n, 0);
    lemma_lookup_passes(t, 38, n, 0);
    lemma_lookup_passes(t, 39, n, 0);
    lemma_lookup_passes(t, 40, n, 0);
    lemma_lookup_passes(t, 41, n, 0);
    lemma_lookup_passes(t, 42, n, 0);
    lemma_lookup_passes(t, 43, n, 0);
    lemma_lookup_passes(t, 44, n, 0);
    lemma_lookup_passes(t, 45, n, 0);
    lemma_lookup_passes(t, 46, n, 0);
    lemma_lookup_passes(t, 47, n, 0);
    lemma_lookup_passes(t, 48, n, 0);
    lemma_lookup_passes(t, 49, n, 0);
    lemma_lookup_passes(t, 50, n, 0);
    lemma_lookup_passes(t, 51, n, 0);
    lemma_lookup_passes(t, 52, n, 0);
    lemma_lookup_passes(t, 53, n, 0);
    lemma_lookup_passes(t, 54, n, 0);
    lemma_lookup_passes(t, 55, n, 0);
    lemma_lookup_passes(t, 56, n, 0);
    lemma_lookup_passes(t, 57, n, 0);
    lemma_lookup_passes(t, 58, n, 0);
    lemma_lookup_passes(t, 59, n, 0);
    lemma_lookup_finds(t, 60, n);
}

proof fn lemma_resolves_61()
    ensures
        resolve_key_spec("delete"@) == Some(KEY_BACKSPACE),
{
    reveal_strlit("caps_lock");
    reveal_strlit("delete");
    reveal_strlit("escape");
    reveal_strlit("f1");
    reveal_strlit("f10");
    reveal_strlit("f11");
    reveal_strlit("f12");
    reveal_strlit("f13");
    reveal_strlit("f14");
    reveal_strlit("f15");
    reveal_strlit("f16");
    reveal_strlit("f17");
    reveal_strlit("f18");
    reveal_strlit("f19");
    reveal_strlit("f2");
    reveal_strlit("f20");
    reveal_strlit("f3");
    reveal_strlit("f4");
    reveal_strlit("f5");
    reveal_strlit("f6");
    reveal_strlit("f7");
    reveal_strlit("f8");
    reveal_strlit("f9");
    reveal_strlit("fn");
    reveal_strlit("fn_key");
    reveal_strlit("left_alt");
    reveal_strlit("left_cmd");
    reveal_strlit("left_command");
    reveal_strlit("left_control");
    reveal_strlit("left_ctrl");
    reveal_strlit("left_option");
    reveal_strlit("left_shift");
    reveal_strlit("numpad_0");
    reveal_strlit("numpad_1");
    reveal_strlit("numpad_2");
    reveal_strlit("numpad_3");
    reveal_strlit("numpad_4");
    reveal_strlit("numpad_5");
    reveal_strlit("numpad_6");
    reveal_strlit("numpad_7");
    reveal_strlit("numpad_8");
    reveal_strlit("numpad_9");
    reveal_strlit("numpad_add");
    reveal_strlit("numpad_clear");
    reveal_strlit("numpad_decimal");
    reveal_strlit("numpad_divide");
    reveal_strlit("numpad_dot");
    reveal_strlit("numpad_enter");
    reveal_strlit("numpad_equals");
    reveal_strlit("numpad_minus");
    reveal_strlit("numpad_multiply");
    reveal_strlit("numpad_plus");
    reveal_strlit("numpad_subtract");
    reveal_strlit("right_alt");
    reveal_strlit("right_cmd");
    reveal_strlit("right_command");
    reveal_strlit("right_control");
    reveal_strlit("right_ctrl");
    reveal_strlit("right_option");
    reveal_strlit("right_shift");
    reveal_strlit("space");
    reveal_strlit("tab");
    let t = key_table();
    let n = "delete"@;
    assert(t.skip(0) =~= t);
    lemma_lookup_passes(t, 0, n, 0);
    lemma_lookup_passes(t, 1, n, 0);
    lemma_lookup_passes(t, 2, n, 0);
    lemma_lookup_passes(t, 3, n, 0);
    lemma_lookup_passes(t, 4, n, 0);
    lemma_lookup_passes(t, 5, n, 0);
    lemma_lookup_passes(t, 6, n, 0);
    lemma_lookup_passes(t, 7, n, 0);
    lemma_lookup_passes(t, 8, n, 0);
    lemma_lookup_passes(t, 9, n, 0);
    lemma_lookup_passes(t, 10, n, 0);
    lemma_lookup_passes(t, 11, n, 0);
    lemma_lookup_passes(t, 12, n, 0);
    lemma_lookup_passes(t, 13, n, 0);
    lemma_lookup_passes(t, 14, n, 0);
    lemma_lookup_passes(t, 15, n, 0);
    lemma_lookup_passes(t, 16, n, 0);
    lemma_lookup_passes(t, 17, n, 0);
    lemma_lookup_passes(t, 18, n, 0);
    lemma_lookup_passes(t, 19, n, 0);
    lemma_lookup_passes(t, 20, n, 0);
    lemma_lookup_passes(t, 21, n, 0);
    lemma_lookup_passes(t, 22, n, 0);
    lemma_lookup_passes(t, 23, n, 0);
    lemma_lookup_passes(t, 24, n, 0);
    lemma_lookup_passes(t, 25, n, 0);
    lemma_lookup_passes(t, 26, n, 0);
    lemma_lookup_passes(t, 27, n, 0);
    lemma_lookup_passes(t, 28, n, 0);
    lemma_lookup_passes(t, 29, n, 0);
    lemma_lookup_passes(t, 30, n, 0);
    lemma_lookup_passes(t, 31, n, 0);
    lemma_lookup_passes(t, 32, n, 0);
    lemma_lookup_passes(t, 33, n, 0);
    lemma_lookup_passes(t, 34, n, 0);
    lemma_lookup_passes(t, 35, n, 0);
    lemma_lookup_passes(t, 36, n, 0);
    lemma_lookup_passes(t, 37, n, 0);
    lemma_lookup_passes(t, 38, n, 0);
    lemma_lookup_passes(t, 39, n, 0);
    lemma_lookup_passes(t, 40, n, 0);
    lemma_lookup_passes(t, 41, n, 0);
    lemma_lookup_passes(t, 42, n, 0);
    lemma_lookup_passes(t, 43, n, 0);
    lemma_lookup_passes(t, 44, n, 0);
    lemma_lookup_passes(t, 45, n, 0);
    lemma_lookup_passes(t, 46, n, 0);
    lemma_lookup_passes(t, 47, n, 0);
    lemma_lookup_passes(t, 48, n, 0);
    lemma_lookup_passes(t, 49, n, 0);
    lemma_lookup_passes(t, 50, n, 0);
    lemma_lookup_passes(t, 51, n, 0);
    lemma_lookup_passes(t, 52, n, 0);
    lemma_lookup_passes(t, 53, n, 0);
    lemma_lookup_passes(t, 54, n, 0);
    lemma_lookup_passes(t, 55, n, 0);
    lemma_lookup_passes(t, 56, n, 0);
    lemma_lookup_passes(t, 57, n, 0);
    lemma_lookup_passes(t, 58, n, 0);
    lemma_lookup_passes(t, 59, n, 0);
    lemma_lookup_passes(t, 60, n, 0);
    lemma_lookup_finds(t, 61, n);
}

proof fn lemma_resolves_62()
    ensures
        resolve_key_spec("forward_delete"@) == Some(KEY_DELETE),
{
    reveal_strlit("caps_lock");
    reveal_strlit("delete");
    reveal_strlit("escape");
    reveal_strlit("f1");
    reveal_strlit("f10");
    reveal_strlit("f11");
    reveal_strlit("f12");
    reveal_strlit("f13");
    reveal_strlit("f14");
    reveal_strlit("f15");
    reveal_strlit("f16");
    reveal_strlit("f17");
    reveal_strlit("f18");
    reveal_strlit("f19");
    reveal_strlit("f2");
    reveal_strlit("f20");
    reveal_strlit("f3");
    reveal_strlit("f4");
    reveal_strlit("f5");
    reveal_strlit("f6");
    reveal_strlit("f7");
    reveal_strlit("f8");
    reveal_strlit("f9");
    reveal_strlit("fn");
    reveal_strlit("fn_key");
    reveal_strlit("forward_delete");
    reveal_strlit("left_alt");
    reveal_strlit("left_cmd");
    reveal_strlit("left_command");
    reveal_strlit("left_control");
    reveal_strlit("left_ctrl");
    reveal_strlit("left_option");
    reveal_strlit("left_shift");
    reveal_strlit("numpad_0");
    reveal_strlit("numpad_1");
    reveal_strlit("numpad_2");
    reveal_strlit("numpad_3");
    reveal_strlit("numpad_4");
    reveal_strlit("numpad_5");
    reveal_strlit("numpad_6");
    reveal_strlit("numpad_7");
    reveal_strlit("numpad_8");
    reveal_strlit("numpad_9");
    reveal_strlit("numpad_add");
    reveal_strlit("numpad_clear");
    reveal_strlit("numpad_decimal");
    reveal_strlit("numpad_divide");
    reveal_strlit("numpad_dot");
    reveal_strlit("numpad_enter");
    reveal_strlit("numpad_equals");
    reveal_strlit("numpad_minus");
    reveal_strlit("numpad_multiply");
    reveal_strlit("numpad_plus");
    reveal_strlit("numpad_subtract");
    reveal_strlit("right_alt");
    reveal_strlit("right_cmd");
    reveal_strlit("right_command");
    reveal_strlit("right_control");
    reveal_strlit("right_ctrl");
    reveal_strlit("right_option");
    reveal_strlit("right_shift");
    reveal_strlit("space");
    reveal_strlit("tab");
    let t = key_table();
    let n = "forward_delete"@;
    assert(t.skip(0) =~= t);
    lemma_lookup_passes(t, 0, n, 0);
    lemma_lookup_passes(t, 1, n, 0);
    lemma_lookup_passes(t, 2, n, 0);
    lemma_lookup_passes(t, 3, n, 0);
    lemma_lookup_passes(t, 4, n, 0);
    lemma_lookup_passes(t, 5, n, 0);
    lemma_lookup_passes(t, 6, n, 0);
    lemma_lookup_passes(t, 7, n, 0);
    lemma_lookup_passes(t, 8, n, 0);
    lemma_lookup_passes(t, 9, n, 0);
    lemma_lookup_passes(t, 10, n, 0);
    lemma_lookup_passes(t, 11, n, 0);
    lemma_lookup_passes(t, 12, n, 0);
    lemma_lookup_passes(t, 13, n, 0);
    lemma_lookup_passes(t, 14, n, 0);
    lemma_lookup_passes(t, 15, n, 0);
    lemma_lookup_passes(t, 16, n, 0);
    lemma_lookup_passes(t, 17, n, 0);
    lemma_lookup_passes(t, 18, n, 0);
    lemma_lookup_passes(t, 19, n, 0);
    lemma_lookup_passes(t, 20, n, 0);
    lemma_lookup_passes(t, 21, n, 0);
    lemma_lookup_passes(t, 22, n, 0);
    lemma_lookup_passes(t, 23, n, 0);
    lemma_lookup_passes(t, 24, n, 0);
    lemma_lookup_passes(t, 25, n, 0);
    lemma_lookup_passes(t, 26, n, 0);
    lemma_lookup_passes(t, 27, n, 0);
    lemma_lookup_passes(t, 28, n, 0);
    lemma_lookup_passes(t, 29, n, 0);
    lemma_lookup_passes(t, 30, n, 0);
    lemma_lookup_passes(t, 31, n, 0);
    lemma_lookup_passes(t, 32, n, 0);
    lemma_lookup_passes(t, 33, n, 0);
    lemma_lookup_passes(t, 34, n, 0);
    lemma_lookup_passes(t, 35, n, 0);
    lemma_lookup_passes(t, 36, n, 0);
    lemma_lookup_passes(t, 37, n, 0);
    lemma_lookup_passes(t, 38, n, 0);
    lemma_lookup_passes(t, 39, n, 0);
    lemma_lookup_passes(t, 40, n, 0);
    lemma_lookup_passes(t, 41, n, 0);
    lemma_lookup_passes(t, 42, n, 0);
    lemma_lookup_passes(t, 43, n, 0);
    lemma_lookup_passes(t, 44, n, 0);
    lemma_lookup_passes(t, 45, n, 0);
    lemma_lookup_passes(t, 46, n, 0);
    lemma_lookup_passes(t, 47, n, 0);
    lemma_lookup_passes(t, 48, n, 0);
    lemma_lookup_passes(t, 49, n, 0);
    lemma_lookup_passes(t, 50, n, 0);
    lemma_lookup_passes(t, 51, n, 0);
    lemma_lookup_passes(t, 52, n, 0);
    lemma_lookup_passes(t, 53, n, 0);
    lemma_lookup_passes(t, 54, n, 0);
    lemma_lookup_passes(t, 55, n, 0);
    lemma_lookup_passes(t, 56, n, 0);
    lemma_lookup_passes(t, 57, n, 0);
    lemma_lookup_passes(t, 58, n, 0);
    lemma_lookup_passes(t, 59, n, 0);
    lemma_lookup_passes(t, 60, n, 0);
    lemma_lookup_passes(t, 61, n, 0);
    lemma_lookup_finds(t, 62, n);
}

proof fn lemma_resolves_63()
    ensures
        resolve_key_spec("return_key"@) == Some(KEY_ENTER),
{
    reveal_strlit("caps_lock");
    reveal_strlit("delete");
    reveal_strlit("escape");
    reveal_strlit("f1");
    reveal_strlit("f10");
    reveal_strlit("f11");
    reveal_strlit("f12");
    reveal_strlit("f13");
    reveal_strlit("f14");
    reveal_strlit("f15");
    reveal_strlit("f16");
    reveal_strlit("f17");
    reveal_strlit("f18");
    reveal_strlit("f19");
    reveal_strlit("f2");
    reveal_strlit("f20");
    reveal_strlit("f3");
    reveal_strlit("f4");
    reveal_strlit("f5");
    reveal_strlit("f6");
    reveal_strlit("f7");
    reveal_strlit("f8");
    reveal_strlit("f9");
    reveal_strlit("fn");
    reveal_strlit("fn_key");
    reveal_strlit("forward_delete");
    reveal_strlit("left_alt");
    reveal_strlit("left_cmd");
    reveal_strlit("left_command");
    reveal_strlit("left_control");
    reveal_strlit("left_ctrl");
    reveal_strlit("left_option");
    reveal_strlit("left_shift");
    reveal_strlit("numpad_0");
    reveal_strlit("numpad_1");
    reveal_strlit("numpad_2");
    reveal_strlit("numpad_3");
    reveal_strlit("numpad_4");
    reveal_strlit("numpad_5");
    reveal_strlit("numpad_6");
    reveal_strlit("numpad_7");
    reveal_strlit("numpad_8");
    reveal_strlit("numpad_9");
    reveal_strlit("numpad_add");
    reveal_strlit("numpad_clear");
    reveal_strlit("numpad_decimal");
    reveal_strlit("numpad_divide");
    reveal_strlit("numpad_dot");
    reveal_strlit("numpad_enter");
    reveal_strlit("numpad_equals");
    reveal_strlit("numpad_minus");
    reveal_strlit("numpad_multiply");
    reveal_strlit("numpad_plus");
    reveal_strlit("numpad_subtract");
    reveal_strlit("return_key");
    reveal_strlit("right_alt");
    reveal_strlit("right_cmd");
    reveal_strlit("right_command");
    reveal_strlit("right_control");
    reveal_strlit("right_ctrl");
    reveal_strlit("right_option");
    reveal_strlit("right_shift");
    reveal_strlit("space");
    reveal_strlit("tab");
    let t = key_table();
    let n = "return_key"@;
    assert(t.skip(0) =~= t);
    lemma_lookup_passes(t, 0, n, 0);
    lemma_lookup_passes(t, 1, n, 0);
    lemma_lookup_passes(t, 2, n, 0);
    lemma_lookup_passes(t, 3, n, 0);
    lemma_lookup_passes(t, 4, n, 0);
    lemma_lookup_passes(t, 5, n, 0);
    lemma_lookup_passes(t, 6, n, 0);
    lemma_lookup_passes(t, 7, n, 0);
    lemma_lookup_passes(t, 8, n, 0);
    lemma_lookup_passes(t, 9, n, 0);
    lemma_lookup_passes(t, 10, n, 0);
    lemma_lookup_passes(t, 11, n, 0);
    lemma_lookup_passes(t, 12, n, 0);
    lemma_lookup_passes(t, 13, n, 0);
    lemma_lookup_passes(t, 14, n, 0);
    lemma_lookup_passes(t, 15, n, 0);
    lemma_lookup_passes(t, 16, n, 0);
    lemma_lookup_passes(t, 17, n, 0);
    lemma_lookup_passes(t, 18, n, 0);
    lemma_lookup_passes(t, 19, n, 0);
    lemma_lookup_passes(t, 20, n, 0);
    lemma_lookup_passes(t, 21, n, 0);
    lemma_lookup_passes(t, 22, n, 0);
    lemma_lookup_passes(t, 23, n, 0);
    lemma_lookup_passes(t, 24, n, 0);
    lemma_lookup_passes(t, 25, n, 0);
    lemma_lookup_passes(t, 26, n, 0);
    lemma_lookup_passes(t, 27, n, 0);
    lemma_lookup_passes(t, 28, n, 0);
    lemma_lookup_passes(t, 29, n, 0);
    lemma_lookup_passes(t, 30, n, 0);
    lemma_lookup_passes(t, 31, n, 0);
    lemma_lookup_passes(t, 32, n, 1);
    lemma_lookup_passes(t, 33, n, 0);
    lemma_lookup_passes(t, 34, n, 0);
    lemma_lookup_passes(t, 35, n, 0);
    lemma_lookup_passes(t, 36, n, 0);
    lemma_lookup_passes(t, 37, n, 0);
    lemma_lookup_passes(t, 38, n, 0);
    lemma_lookup_passes(t, 39, n, 0);
    lemma_lookup_passes(t, 40, n, 0);
    lemma_lookup_passes(t, 41, n, 0);
    lemma_lookup_passes(t, 42, n, 0);
    lemma_lookup_passes(t, 43, n, 0);
    lemma_lookup_passes(t, 44, n, 0);
    lemma_lookup_passes(t, 45, n, 0);
    lemma_lookup_passes(t, 46, n, 0);
    lemma_lookup_passes(t, 47, n, 0);
    lemma_lookup_passes(t, 48, n, 0);
    lemma_lookup_passes(t, 49, n, 0);
    lemma_lookup_passes(t, 50, n, 0);
    lemma_lookup_passes(t, 51, n, 0);
    lemma_lookup_passes(t, 52, n, 0);
    lemma_lookup_passes(t, 53, n, 0);
    lemma_lookup_passes(t, 54, n, 0);
    lemma_lookup_passes(t, 55, n, 0);
    lemma_lookup_passes(t, 56, n, 0);
    lemma_lookup_passes(t, 57, n, 0);
    lemma_lookup_passes(t, 58, n, 0);
    lemma_lookup_passes(t, 59, n, 0);
    lemma_lookup_passes(t, 60, n, 0);
    lemma_lookup_passes(t, 61, n, 0);
    lemma_lookup_passes(t, 62, n, 0);
    lemma_lookup_finds(t, 63, n);
}

proof fn lemma_resolves_64()
    ensures
        resolve_key_spec("return"@) == Some(KEY_ENTER),
{
    reveal_strlit("caps_lock");
    reveal_strlit("delete");
    reveal_strlit("escape");
    reveal_strlit("f1");
    reveal_strlit("f10");
    reveal_strlit("f11");
    reveal_strlit("f12");
    reveal_strlit("f13");
    reveal_strlit("f14");
    reveal_strlit("f15");
    reveal_strlit("f16");
    reveal_strlit("f17");
    reveal_strlit("f18");
    reveal_strlit("f19");
    reveal_strlit("f2");
    reveal_strlit("f20");
    reveal_strlit("f3");
    reveal_strlit("f4");
    reveal_strlit("f5");
    reveal_strlit("f6");
    reveal_strlit("f7");
    reveal_strlit("f8");
    reveal_strlit("f9");
    reveal_strlit("fn");
    reveal_strlit("fn_key");
    reveal_strlit("forward_delete");
    reveal_strlit("left_alt");
    reveal_strlit("left_cmd");
    reveal_strlit("left_command");
    reveal_strlit("left_control");
    reveal_strlit("left_ctrl");
    reveal_strlit("left_option");
    reveal_strlit("left_shift");
    reveal_strlit("numpad_0");
    reveal_strlit("numpad_1");
    reveal_strlit("numpad_2");
    reveal_strlit("numpad_3");
    reveal_strlit("numpad_4");
    reveal_strlit("numpad_5");
    reveal_strlit("numpad_6");
    reveal_strlit("numpad_7");
    reveal_strlit("numpad_8");
    reveal_strlit("numpad_9");
    reveal_strlit("numpad_add");
    reveal_strlit("numpad_clear");
    reveal_strlit("numpad_decimal");
    reveal_strlit("numpad_divide");
    reveal_strlit("numpad_dot");
    reveal_strlit("numpad_enter");
    reveal_strlit("numpad_equals");
    reveal_strlit("numpad_minus");
    reveal_strlit("numpad_multiply");
    reveal_strlit("numpad_plus");
    reveal_strlit("numpad_subtract");
    reveal_strlit("return");
    reveal_strlit("return_key");
    reveal_strlit("right_alt");
    reveal_strlit("right_cmd");
    reveal_strlit("right_command");
    reveal_strlit("right_control");
    reveal_strlit("right_ctrl");
    reveal_strlit("right_option");
    reveal_strlit("right_shift");
    reveal_strlit("space");
    reveal_strlit("tab");
    let t = key_table();
    let n = "return"@;
    assert(t.skip(0) =~= t);
    lemma_lookup_passes(t, 0, n, 0);
    lemma_lookup_passes(t, 1, n, 0);
    lemma_lookup_passes(t, 2, n, 0);
    lemma_lookup_passes(t, 3, n, 0);
    lemma_lookup_passes(t, 4, n, 0);
    lemma_lookup_passes(t, 5, n, 0);
    lemma_lookup_passes(t, 6, n, 0);
    lemma_lookup_passes(t, 7, n, 0);
    lemma_lookup_passes(t, 8, n, 0);
    lemma_lookup_passes(t, 9, n, 0);
    lemma_lookup_passes(t, 10, n, 0);
    lemma_lookup_passes(t, 11, n, 0);
    lemma_lookup_passes(t, 12, n, 0);
    lemma_lookup_passes(t, 13, n, 0);
    lemma_lookup_passes(t, 14, n, 0);
    lemma_lookup_passes(t, 15, n, 0);
    lemma_lookup_passes(t, 16, n, 0);
    lemma_lookup_passes(t, 17, n, 0);
    lemma_lookup_passes(t, 18, n, 0);
    lemma_lookup_passes(t, 19, n, 0);
    lemma_lookup_passes(t, 20, n, 0);
    lemma_lookup_passes(t, 21, n, 0);
    lemma_lookup_passes(t, 22, n, 0);
    lemma_lookup_passes(t, 23, n, 0);
    lemma_lookup_passes(t, 24, n, 0);
    lemma_lookup_passes(t, 25, n, 0);
    lemma_lookup_passes(t, 26, n, 0);
    lemma_lookup_passes(t, 27, n, 0);
    lemma_lookup_passes(t, 28, n, 0);
    lemma_lookup_passes(t, 29, n, 0);
    lemma_lookup_passes(t, 30, n, 0);
    lemma_lookup_passes(t, 31, n, 0);
    lemma_lookup_passes(t, 32, n, 0);
    lemma_lookup_passes(t, 33, n, 0);
    lemma_lookup_passes(t, 34, n, 0);
    lemma_lookup_passes(t, 35, n, 0);
    lemma_lookup_passes(t, 36, n, 0);
    lemma_lookup_passes(t, 37, n, 0);
    lemma_lookup_passes(t, 38, n, 0);
    lemma_lookup_passes(t, 39, n, 0);
    lemma_lookup_passes(t, 40, n, 0);
    lemma_lookup_passes(t, 41, n, 0);
    lemma_lookup_passes(t, 42, n, 0);
    lemma_lookup_passes(t, 43, n, 0);
    lemma_lookup_passes(t, 44, n, 0);
    lemma_lookup_passes(t, 45, n, 0);
    lemma_lookup_passes(t, 46, n, 0);
    lemma_lookup_passes(t, 47, n, 0);
    lemma_lookup_passes(t, 48, n, 0);
    lemma_lookup_passes(t, 49, n, 0);
    lemma_lookup_passes(t, 50, n, 0);
    lemma_lookup_passes(t, 51, n, 0);
    lemma_lookup_passes(t, 52, n, 0);
    lemma_lookup_passes(t, 53, n, 0);
    lemma_lookup_passes(t, 54, n, 0);
    lemma_lookup_passes(t, 55, n, 0);
    lemma_lookup_passes(t, 56, n, 0);
    lemma_lookup_passes(t, 57, n, 0);
    lemma_lookup_passes(t, 58, n, 0);
    lemma_lookup_passes(t, 59, n, 0);
    lemma_lookup_passes(t, 60, n, 0);
    lemma_lookup_passes(t, 61, n, 0);
    lemma_lookup_passes(t, 62, n, 0);
    lemma_lookup_passes(t, 63, n, 0);
    lemma_lookup_finds(t, 64, n);
}

proof fn lemma_resolves_65()
    ensures
        resolve_key_spec("enter"@) == Some(KEY_ENTER),
{
    reveal_strlit("caps_lock");
    reveal_strlit("delete");
    reveal_strlit("enter");
    reveal_strlit("escape");
    reveal_strlit("f1");
    reveal_strlit("f10");
    reveal_strlit("f11");
    reveal_strlit("f12");
    reveal_strlit("f13");
    reveal_strlit("f14");
    reveal_strlit("f15");
    reveal_strlit("f16");
    reveal_strlit("f17");
    reveal_strlit("f18");
    reveal_strlit("f19");
    reveal_strlit("f2");
    reveal_strlit("f20");
    reveal_strlit("f3");
    reveal_strlit("f4");
    reveal_strlit("f5");
    reveal_strlit("f6");
    reveal_strlit("f7");
    reveal_strlit("f8");
    reveal_strlit("f9");
    reveal_strlit("fn");
    reveal_strlit("fn_key");
    reveal_strlit("forward_delete");
    reveal_strlit("left_alt");
    reveal_strlit("left_cmd");
    reveal_strlit("left_command");
    reveal_strlit("left_control");
    reveal_strlit("left_ctrl");
    reveal_strlit("left_option");
    reveal_strlit("left_shift");
    reveal_strlit("numpad_0");
    reveal_strlit("numpad_1");
    reveal_strlit("numpad_2");
    reveal_strlit("numpad_3");
    reveal_strlit("numpad_4");
    reveal_strlit("numpad_5");
    reveal_strlit("numpad_6");
    reveal_strlit("numpad_7");
    reveal_strlit("numpad_8");
    reveal_strlit("numpad_9");
    reveal_strlit("numpad_add");
    reveal_strlit("numpad_clear");
    reveal_strlit("numpad_decimal");
    reveal_strlit("numpad_divide");
    reveal_strlit("numpad_dot");
    reveal_strlit("numpad_enter");
    reveal_strlit("numpad_equals");
    reveal_strlit("numpad_minus");
    reveal_strlit("numpad_multiply");
    reveal_strlit("numpad_plus");
    reveal_strlit("numpad_subtract");
    reveal_strlit("return");
    reveal_strlit("return_key");
    reveal_strlit("right_alt");
    reveal_strlit("right_cmd");
    reveal_strlit("right_command");
    reveal_strlit("right_control");
    reveal_strlit("right_ctrl");
    reveal_strlit("right_option");
    reveal_strlit("right_shift");
    reveal_strlit("space");
    reveal_strlit("tab");
    let t = key_table();
    let n = "enter"@;
    assert(t.skip(0) =~= t);
    lemma_lookup_passes(t, 0, n, 0);
    lemma_lookup_passes(t, 1, n, 0);
    lemma_lookup_passes(t, 2, n, 0);
    lemma_lookup_passes(t, 3, n, 0);
    lemma_lookup_passes(t, 4, n, 0);
    lemma_lookup_passes(t, 5, n, 0);
    lemma_lookup_passes(t, 6, n, 0);
    lemma_lookup_passes(t, 7, n, 0);
    lemma_lookup_passes(t, 8, n, 0);
    lemma_lookup_passes(t, 9, n, 0);
    lemma_lookup_passes(t, 10, n, 0);
    lemma_lookup_passes(t, 11, n, 0);
    lemma_lookup_passes(t, 12, n, 0);
    lemma_lookup_passes(t, 13, n, 0);
    lemma_lookup_passes(t, 14, n, 0);
    lemma_lookup_passes(t, 15, n, 0);
    lemma_lookup_passes(t, 16, n, 0);
    lemma_lookup_passes(t, 17, n, 0);
    lemma_lookup_passes(t, 18, n, 0);
    lemma_lookup_passes(t, 19, n, 0);
    lemma_lookup_passes(t, 20, n, 0);
    lemma_lookup_passes(t, 21, n, 0);
    lemma_lookup_passes(t, 22, n, 0);
    lemma_lookup_passes(t, 23, n, 0);
    lemma_lookup_passes(t, 24, n, 0);
    lemma_lookup_passes(t, 25, n, 0);
    lemma_lookup_passes(t, 26, n, 0);
    lemma_lookup_passes(t, 27, n, 0);
    lemma_lookup_passes(t, 28, n, 0);
    lemma_lookup_passes(t, 29, n, 0);
    lemma_lookup_passes(t, 30, n, 0);
    lemma_lookup_passes(t, 31, n, 0);
    lemma_lookup_passes(t, 32, n, 0);
    lemma_lookup_passes(t, 33, n, 0);
    lemma_lookup_passes(t, 34, n, 0);
    lemma_lookup_passes(t, 35, n, 0);
    lemma_lookup_passes(t, 36, n, 0);
    lemma_lookup_passes(t, 37, n, 0);
    lemma_lookup_passes(t, 38, n, 0);
    lemma_lookup_passes(t, 39, n, 0);
    lemma_lookup_passes(t, 40, n, 0);
    lemma_lookup_passes(t, 41, n, 0);
    lemma_lookup_passes(t, 42, n, 0);
    lemma_lookup_passes(t, 43, n, 0);
    lemma_lookup_passes(t, 44, n, 0);
    lemma_lookup_passes(t, 45, n, 0);
    lemma_lookup_passes(t, 46, n, 0);
    lemma_lookup_passes(t, 47, n, 0);
    lemma_lookup_passes(t, 48, n, 0);
    lemma_lookup_passes(t, 49, n, 0);
    lemma_lookup_passes(t, 50, n, 0);
    lemma_lookup_passes(t, 51, n, 0);
    lemma_lookup_passes(t, 52, n, 0);
    lemma_lookup_passes(t, 53, n, 0);
    lemma_lookup_passes(t, 54, n, 0);
    lemma_lookup_passes(t, 55, n, 0);
    lemma_lookup_passes(t, 56, n, 0);
    lemma_lookup_passes(t, 57, n, 0);
    lemma_lookup_passes(t, 58, n, 0);
    lemma_lookup_passes(t, 59, n, 0);
    lemma_lookup_passes(t, 60, n, 0);
    lemma_lookup_passes(t, 61, n, 0);
    lemma_lookup_passes(t, 62, n, 0);
    lemma_lookup_passes(t, 63, n, 0);
    lemma_lookup_passes(t, 64, n, 0);
    lemma_lookup_finds(t, 65, n);
}

proof fn lemma_resolves_66()
    ensures
        resolve_key_spec("home"@) == Some(KEY_HOME),
{
    reveal_strlit("caps_lock");
    reveal_strlit("delete");
    reveal_strlit("enter");
    reveal_strlit("escape");
    reveal_strlit("f1");
    reveal_strlit("f10");
    reveal_strlit("f11");
    reveal_strlit("f12");
    reveal_strlit("f13");
    reveal_strlit("f14");
    reveal_strlit("f15");
    reveal_strlit("f16");
    reveal_strlit("f17");
    reveal_strlit("f18");
    reveal_strlit("f19");
    reveal_strlit("f2");
    reveal_strlit("f20");
    reveal_strlit("f3");
    reveal_strlit("f4");
    reveal_strlit("f5");
    reveal_strlit("f6");
    reveal_strlit("f7");
    reveal_strlit("f8");
    reveal_strlit("f9");
    reveal_strlit("fn");
    reveal_strlit("fn_key");
    reveal_strlit("forward_delete");
    reveal_strlit("home");
    reveal_strlit("left_alt");
    reveal_strlit("left_cmd");
    reveal_strlit("left_command");
    reveal_strlit("left_control");
    reveal_strlit("left_ctrl");
    reveal_strlit("left_option");
    reveal_strlit("left_shift");
    reveal_strlit("numpad_0");
    reveal_strlit("numpad_1");
    reveal_strlit("numpad_2");
    reveal_strlit("numpad_3");
    reveal_strlit("numpad_4");
    reveal_strlit("numpad_5");
    reveal_strlit("numpad_6");
    reveal_strlit("numpad_7");
    reveal_strlit("numpad_8");
    reveal_strlit("numpad_9");
    reveal_strlit("numpad_add");
    reveal_strlit("numpad_clear");
    reveal_strlit("numpad_decimal");
    reveal_strlit("numpad_divide");
    reveal_strlit("numpad_dot");
    reveal_strlit("numpad_enter");
    reveal_strlit("numpad_equals");
    reveal_strlit("numpad_minus");
    reveal_strlit("numpad_multiply");
    reveal_strlit("numpad_plus");
    reveal_strlit("numpad_subtract");
    reveal_strlit("return");
    reveal_strlit("return_key");
    reveal_strlit("right_alt");
    reveal_strlit("right_cmd");
    reveal_strlit("right_command");
    reveal_strlit("right_control");
    reveal_strlit("right_ctrl");
    reveal_strlit("right_option");
    reveal_strlit("right_shift");
    reveal_strlit("space");
    reveal_strlit("tab");
    let t = key_table();
    let n = "home"@;
    assert(t.skip(0) =~= t);
    lemma_lookup_passes(t, 0, n, 0);
    lemma_lookup_passes(t, 1, n, 0);
    lemma_lookup_passes(t, 2, n, 0);
    lemma_lookup_passes(t, 3, n, 0);
    lemma_lookup_passes(t, 4, n, 0);
    lemma_lookup_passes(t, 5, n, 0);
    lemma_lookup_passes(t, 6, n, 0);
    lemma_lookup_passes(t, 7, n, 0);
    lemma_lookup_passes(t, 8, n, 0);
    lemma_lookup_passes(t, 9, n, 0);
    lemma_lookup_passes(t, 10, n, 0);
    lemma_lookup_passes(t, 11, n, 0);
    lemma_lookup_passes(t, 12, n, 0);
    lemma_lookup_passes(t, 13, n, 0);
    lemma_lookup_passes(t, 14, n, 0);
    lemma_lookup_passes(t, 15, n, 0);
    lemma_lookup_passes(t, 16, n, 0);
    lemma_lookup_passes(t, 17, n, 0);
    lemma_lookup_passes(t, 18, n, 0);
    lemma_lookup_passes(t, 19, n, 0);
    lemma_lookup_passes(t, 20, n, 0);
    lemma_lookup_passes(t, 21, n, 0);
    lemma_lookup_passes(t, 22, n, 0);
    lemma_lookup_passes(t, 23, n, 0);
    lemma_lookup_passes(t, 24, n, 0);
    lemma_lookup_passes(t, 25, n, 0);
    lemma_lookup_passes(t, 26, n, 0);
    lemma_lookup_passes(t, 27, n, 0);
    lemma_lookup_passes(t, 28, n, 0);
    lemma_lookup_passes(t, 29, n, 0);
    lemma_lookup_passes(t, 30, n, 0);
    lemma_lookup_passes(t, 31, n, 0);
    lemma_lookup_passes(t, 32, n, 0);
    lemma_lookup_passes(t, 33, n, 0);
    lemma_lookup_passes(t, 34, n, 0);
    lemma_lookup_passes(t, 35, n, 0);
    lemma_lookup_passes(t, 36, n, 0);
    lemma_lookup_passes(t, 37, n, 0);
    lemma_lookup_passes(t, 38, n, 0);
    lemma_lookup_passes(t, 39, n, 0);
    lemma_lookup_passes(t, 40, n, 0);
    lemma_lookup_passes(t, 41, n, 0);
    lemma_lookup_passes(t, 42, n, 0);
    lemma_lookup_passes(t, 43, n, 0);
    lemma_lookup_passes(t, 44, n, 0);
    lemma_lookup_passes(t, 45, n, 0);
    lemma_lookup_passes(t, 46, n, 0);
    lemma_lookup_passes(t, 47, n, 0);
    lemma_lookup_passes(t, 48, n, 0);
    lemma_lookup_passes(t, 49, n, 0);
    lemma_lookup_passes(t, 50, n, 0);
    lemma_lookup_passes(t, 51, n, 0);
    lemma_lookup_passes(t, 52, n, 0);
    lemma_lookup_passes(t, 53, n, 0);
    lemma_lookup_passes(t, 54, n, 0);
    lemma_lookup_passes(t, 55, n, 0);
    lemma_lookup_passes(t, 56, n, 0);
    lemma_lookup_passes(t, 57, n, 0);
    lemma_lookup_passes(t, 58, n, 0);
    lemma_lookup_passes(t, 59, n, 0);
    lemma_lookup_passes(t, 60, n, 0);
    lemma_lookup_passes(t, 61, n, 0);
    lemma_lookup_passes(t, 62, n, 0);
    lemma_lookup_passes(t, 63, n, 0);
    lemma_lookup_passes(t, 64, n, 0);
    lemma_lookup_passes(t, 65, n, 0);
    lemma_lookup_finds(t, 66, n);
}

proof fn lemma_resolves_67()
    ensures
        resolve_key_spec("end"@) == Some(KEY_END),
{
    reveal_strlit("caps_lock");
    reveal_strlit("delete");
    reveal_strlit("end");
    reveal_strlit("enter");
    reveal_strlit("escape");
    reveal_strlit("f1");
    reveal_strlit("f10");
    reveal_strlit("f11");
    reveal_strlit("f12");
    reveal_strlit("f13");
    reveal_strlit("f14");
    reveal_strlit("f15");
    reveal_strlit("f16");
    reveal_strlit("f17");
    reveal_strlit("f18");
    reveal_strlit("f19");
    reveal_strlit("f2");
    reveal_strlit("f20");
    reveal_strlit("f3");
    reveal_strlit("f4");
    reveal_strlit("f5");
    reveal_strlit("f6");
    reveal_strlit("f7");
    reveal_strlit("f8");
    reveal_strlit("f9");
    reveal_strlit("fn");
    reveal_strlit("fn_key");
    reveal_strlit("forward_delete");
    reveal_strlit("home");
    reveal_strlit("left_alt");
    reveal_strlit("left_cmd");
    reveal_strlit("left_command");
    reveal_strlit("left_control");
    reveal_strlit("left_ctrl");
    reveal_strlit("left_option");
    reveal_strlit("left_shift");
    reveal_strlit("numpad_0");
    reveal_strlit("numpad_1");
    reveal_strlit("numpad_2");
    reveal_strlit("numpad_3");
    reveal_strlit("numpad_4");
    reveal_strlit("numpad_5");
    reveal_strlit("numpad_6");
    reveal_strlit("numpad_7");
    reveal_strlit("numpad_8");
    reveal_strlit("numpad_9");
    reveal_strlit("numpad_add");
    reveal_strlit("numpad_clear");
    reveal_strlit("numpad_decimal");
    reveal_strlit("numpad_divide");
    reveal_strlit("numpad_dot");
    reveal_strlit("numpad_enter");
    reveal_strlit("numpad_equals");
    reveal_strlit("numpad_minus");
    reveal_strlit("numpad_multiply");
    reveal_strlit("numpad_plus");
    reveal_strlit("numpad_subtract");
    reveal_strlit("return");
    reveal_strlit("return_key");
    reveal_strlit("right_alt");
    reveal_strlit("right_cmd");
    reveal_strlit("right_command");
    reveal_strlit("right_control");
    reveal_strlit("right_ctrl");
    reveal_strlit("right_option");
    reveal_strlit("right_shift");
    reveal_strlit("space");
    reveal_strlit("tab");
    let t = key_table();
    let n = "end"@;
    assert(t.skip(0) =~= t);
    lemma_lookup_passes(t, 0, n, 0);
    lemma_lookup_passes(t, 1, n, 0);
    lemma_lookup_passes(t, 2, n, 0);
    lemma_lookup_passes(t, 3, n, 0);
    lemma_lookup_passes(t, 4, n, 0);
    lemma_lookup_passes(t, 5, n, 0);
    lemma_lookup_passes(t, 6, n, 0);
    lemma_lookup_passes(t, 7, n, 0);
    lemma_lookup_passes(t, 8, n, 0);
    lemma_lookup_passes(t, 9, n, 0);
    lemma_lookup_passes(t, 10, n, 0);
    lemma_lookup_passes(t, 11, n, 0);
    lemma_lookup_passes(t, 12, n, 0);
    lemma_lookup_passes(t, 13, n, 0);
    lemma_lookup_passes(t, 14, n, 0);
    lemma_lookup_passes(t, 15, n, 0);
    lemma_lookup_passes(t, 16, n, 0);
    lemma_lookup_passes(t, 17, n, 0);
    lemma_lookup_passes(t, 18, n, 0);
    lemma_lookup_passes(t, 19, n, 0);
    lemma_lookup_passes(t, 20, n, 0);
    lemma_lookup_passes(t, 21, n, 0);
    lemma_lookup_passes(t, 22, n, 0);
    lemma_lookup_passes(t, 23, n, 0);
    lemma_lookup_passes(t, 24, n, 0);
    lemma_lookup_passes(t, 25, n, 0);
    lemma_lookup_passes(t, 26, n, 0);
    lemma_lookup_passes(t, 27, n, 0);
    lemma_lookup_passes(t, 28, n, 0);
    lemma_lookup_passes(t, 29, n, 0);
    lemma_lookup_passes(t, 30, n, 0);
    lemma_lookup_passes(t, 31, n, 0);
    lemma_lookup_passes(t, 32, n, 0);
    lemma_lookup_passes(t, 33, n, 0);
    lemma_lookup_passes(t, 34, n, 0);
    lemma_lookup_passes(t, 35, n, 0);
    lemma_lookup_passes(t, 36, n, 0);
    lemma_lookup_passes(t, 37, n, 0);
    lemma_lookup_passes(t, 38, n, 0);
    lemma_lookup_passes(t, 39, n, 0);
    lemma_lookup_passes(t, 40, n, 0);
    lemma_lookup_passes(t, 41, n, 0);
    lemma_lookup_passes(t, 42, n, 0);
    lemma_lookup_passes(t, 43, n, 0);
    lemma_lookup_passes(t, 44, n, 0);
    lemma_lookup_passes(t, 45, n, 0);
    lemma_lookup_passes(t, 46, n, 0);
    lemma_lookup_passes(t, 47, n, 0);
    lemma_lookup_passes(t, 48, n, 0);
    lemma_lookup_passes(t, 49, n, 0);
    lemma_lookup_passes(t, 50, n, 0);
    lemma_lookup_passes(t, 51, n, 0);
    lemma_lookup_passes(t, 52, n, 0);
    lemma_lookup_passes(t, 53, n, 0);
    lemma_lookup_passes(t, 54, n, 0);
    lemma_lookup_passes(t, 55, n, 0);
    lemma_lookup_passes(t, 56, n, 0);
    lemma_lookup_passes(t, 57, n, 0);
    lemma_lookup_passes(t, 58, n, 0);
    lemma_lookup_passes(t, 59, n, 0);
    lemma_lookup_passes(t, 60, n, 0);
    lemma_lookup_passes(t, 61, n, 0);
    lemma_lookup_passes(t, 62, n, 0);
    lemma_lookup_passes(t, 63, n, 0);
    lemma_lookup_passes(t, 64, n, 0);
    lemma_lookup_passes(t, 65, n, 0);
    lemma_lookup_passes(t, 66, n, 0);
    lemma_lookup_finds(t, 67, n);
}

proof fn lemma_resolves_68()
    ensures
        resolve_key_spec("page_up"@) == Some(KEY_PAGEUP),
{
    reveal_strlit("caps_lock");
    reveal_strlit("delete");
    reveal_strlit("end");
    reveal_strlit("enter");
    reveal_strlit("escape");
    reveal_strlit("f1");
    reveal_strlit("f10");
    reveal_strlit("f11");
    reveal_strlit("f12");
    reveal_strlit("f13");
    reveal_strlit("f14");
    reveal_strlit("f15");
    reveal_strlit("f16");
    reveal_strlit("f17");
    reveal_strlit("f18");
    reveal_strlit("f19");
    reveal_strlit("f2");
    reveal_strlit("f20");
    reveal_strlit("f3");
    reveal_strlit("f4");
    reveal_strlit("f5");
    reveal_strlit("f6");
    reveal_strlit("f7");
    reveal_strlit("f8");
    reveal_strlit("f9");
    reveal_strlit("fn");
    reveal_strlit("fn_key");
    reveal_strlit("forward_delete");
    reveal_strlit("home");
    reveal_strlit("left_alt");
    reveal_strlit("left_cmd");
    reveal_strlit("left_command");
    reveal_strlit("left_control");
    reveal_strlit("left_ctrl");
    reveal_strlit("left_option");
    reveal_strlit("left_shift");
    reveal_strlit("numpad_0");
    reveal_strlit("numpad_1");
    reveal_strlit("numpad_2");
    reveal_strlit("numpad_3");
    reveal_strlit("numpad_4");
    reveal_strlit("numpad_5");
    reveal_strlit("numpad_6");
    reveal_strlit("numpad_7");
    reveal_strlit("numpad_8");
    reveal_strlit("numpad_9");
    reveal_strlit("numpad_add");
    reveal_strlit("numpad_clear");
    reveal_strlit("numpad_decimal");
    reveal_strlit("numpad_divide");
    reveal_strlit("numpad_dot");
    reveal_strlit("numpad_enter");
    reveal_strlit("numpad_equals");
    reveal_strlit("numpad_minus");
    reveal_strlit("numpad_multiply");
    reveal_strlit("numpad_plus");
    reveal_strlit("numpad_subtract");
    reveal_strlit("page_up");
    reveal_strlit("return");
    reveal_strlit("return_key");
    reveal_strlit("right_alt");
    reveal_strlit("right_cmd");
    reveal_strlit("right_command");
    reveal_strlit("right_control");
    reveal_strlit("right_ctrl");
    reveal_strlit("right_option");
    reveal_strlit("right_shift");
    reveal_strlit("space");
    reveal_strlit("tab");
    let t = key_table();
    let n = "page_up"@;
    assert(t.skip(0) =~= t);
    lemma_lookup_passes(t, 0, n, 0);
    lemma_lookup_passes(t, 1, n, 0);
    lemma_lookup_passes(t, 2, n, 0);
    lemma_lookup_passes(t, 3, n, 0);
    lemma_lookup_passes(t, 4, n, 0);
    lemma_lookup_passes(t, 5, n, 0);
    lemma_lookup_passes(t, 6, n, 0);
    lemma_lookup_passes(t, 7, n, 0);
    lemma_lookup_passes(t, 8, n, 0);
    lemma_lookup_passes(t, 9, n, 0);
    lemma_lookup_passes(t, 10, n, 0);
    lemma_lookup_passes(t, 11, n, 0);
    lemma_lookup_passes(t, 12, n, 0);
    lemma_lookup_passes(t, 13, n, 0);
    lemma_lookup_passes(t, 14, n, 0);
    lemma_lookup_passes(t, 15, n, 0);
    lemma_lookup_passes(t, 16, n, 0);
    lemma_lookup_passes(t, 17, n, 0);
    lemma_lookup_passes(t, 18, n, 0);
    lemma_lookup_passes(t, 19, n, 0);
    lemma_lookup_passes(t, 20, n, 0);
    lemma_lookup_passes(t, 21, n, 0);
    lemma_lookup_passes(t, 22, n, 0);
    lemma_lookup_passes(t, 23, n, 0);
    lemma_lookup_passes(t, 24, n, 0);
    lemma_lookup_passes(t, 25, n, 0);
    lemma_lookup_passes(t, 26, n, 0);
    lemma_lookup_passes(t, 27, n, 0);
    lemma_lookup_passes(t, 28, n, 0);
    lemma_lookup_passes(t, 29, n, 0);
    lemma_lookup_passes(t, 30, n, 0);
    lemma_lookup_passes(t, 31, n, 0);
    lemma_lookup_passes(t, 32, n, 0);
    lemma_lookup_passes(t, 33, n, 0);
    lemma_lookup_passes(t, 34, n, 0);
    lemma_lookup_passes(t, 35, n, 0);
    lemma_lookup_passes(t, 36, n, 0);
    lemma_lookup_passes(t, 37, n, 0);
    lemma_lookup_passes(t, 38, n, 0);
    lemma_lookup_passes(t, 39, n, 0);
    lemma_lookup_passes(t, 40, n, 0);
    lemma_lookup_passes(t, 41, n, 0);
    lemma_lookup_passes(t, 42, n, 0);
    lemma_lookup_passes(t, 43, n, 0);
    lemma_lookup_passes(t, 44, n, 0);
    lemma_lookup_passes(t, 45, n, 0);
    lemma_lookup_passes(t, 46, n, 0);
    lemma_lookup_passes(t, 47, n, 0);
    lemma_lookup_passes(t, 48, n, 0);
    lemma_lookup_passes(t, 49, n, 0);
    lemma_lookup_passes(t, 50, n, 0);
    lemma_lookup_passes(t, 51, n, 0);
    lemma_lookup_passes(t, 52, n, 0);
    lemma_lookup_passes(t, 53, n, 0);
    lemma_lookup_passes(t, 54, n, 0);
    lemma_lookup_passes(t, 55, n, 0);
    lemma_lookup_passes(t, 56, n, 0);
    lemma_lookup_passes(t, 57, n, 0);
    lemma_lookup_passes(t, 58, n, 0);
    lemma_lookup_passes(t, 59, n, 0);
    lemma_lookup_passes(t, 60, n, 0);
    lemma_lookup_passes(t, 61, n, 0);
    lemma_lookup_passes(t, 62, n, 0);
    lemma_lookup_passes(t, 63, n, 0);
    lemma_lookup_passes(t, 64, n, 0);
    lemma_lookup_passes(t, 65, n, 0);
    lemma_lookup_passes(t, 66, n, 0);
    lemma_lookup_passes(t, 67, n, 0);
    lemma_lookup_finds(t, 68, n);
}

proof fn lemma_resolves_69()
    ensures
        resolve_key_spec("page_down"@) == Some(KEY_PAGEDOWN),
{
    reveal_strlit("caps_lock");
    reveal_strlit("delete");
    reveal_strlit("end");
    reveal_strlit("enter");
    reveal_strlit("escape");
    reveal_strlit("f1");
    reveal_strlit("f10");
    reveal_strlit("f11");
    reveal_strlit("f12");
    reveal_strlit("f13");
    reveal_strlit("f14");
    reveal_strlit("f15");
    reveal_strlit("f16");
    reveal_strlit("f17");
    reveal_strlit("f18");
    reveal_strlit("f19");
    reveal_strlit("f2");
    reveal_strlit("f20");
    reveal_strlit("f3");
    reveal_strlit("f4");
    reveal_strlit("f5");
    reveal_strlit("f6");
    reveal_strlit("f7");
    reveal_strlit("f8");
    reveal_strlit("f9");
    reveal_strlit("fn");
    reveal_strlit("fn_key");
    reveal_strlit("forward_delete");
    reveal_strlit("home");
    reveal_strlit("left_alt");
    reveal_strlit("left_cmd");
    reveal_strlit("left_command");
    reveal_strlit("left_control");
    reveal_strlit("left_ctrl");
    reveal_strlit("left_option");
    reveal_strlit("left_shift");
    reveal_strlit("numpad_0");
    reveal_strlit("numpad_1");
    reveal_strlit("numpad_2");
    reveal_strlit("numpad_3");
    reveal_strlit("numpad_4");
    reveal_strlit("numpad_5");
    reveal_strlit("numpad_6");
    reveal_strlit("numpad_7");
    reveal_strlit("numpad_8");
    reveal_strlit("numpad_9");
    reveal_strlit("numpad_add");
    reveal_strlit("numpad_clear");
    reveal_strlit("numpad_decimal");
    reveal_strlit("numpad_divide");
    reveal_strlit("numpad_dot");
    reveal_strlit("numpad_enter");
    reveal_strlit("numpad_equals");
    reveal_strlit("numpad_minus");
    reveal_strlit("numpad_multiply");
    reveal_strlit("numpad_plus");
    reveal_strlit("numpad_subtract");
    reveal_strlit("page_down");
    reveal_strlit("page_up");
    reveal_strlit("return");
    reveal_strlit("return_key");
    reveal_strlit("right_alt");
    reveal_strlit("right_cmd");
    reveal_strlit("right_command");
    reveal_strlit("right_control");
    reveal_strlit("right_ctrl");
    reveal_strlit("right_option");
    reveal_strlit("right_shift");
    reveal_strlit("space");
    reveal_strlit("tab");
    let t = key_table();
    let n = "page_down"@;
    assert(t.skip(0) =~= t);
    lemma_lookup_passes(t, 0, n, 0);
    lemma_lookup_passes(t, 1, n, 0);
    lemma_lookup_passes(t, 2, n, 0);
    lemma_lookup_passes(t, 3, n, 0);
    lemma_lookup_passes(t, 4, n, 0);
    lemma_lookup_passes(t, 5, n, 0);
    lemma_lookup_passes(t, 6, n, 0);
    lemma_lookup_passes(t, 7, n, 0);
    lemma_lookup_passes(t, 8, n, 0);
    lemma_lookup_passes(t, 9, n, 0);
    lemma_lookup_passes(t, 10, n, 0);
    lemma_lookup_passes(t, 11, n, 0);
    lemma_lookup_passes(t, 12, n, 0);
    lemma_lookup_passes(t, 13, n, 0);
    lemma_lookup_passes(t, 14, n, 0);
    lemma_lookup_passes(t, 15, n, 0);
    lemma_lookup_passes(t, 16, n, 0);
    lemma_lookup_passes(t, 17, n, 0);
    lemma_lookup_passes(t, 18, n, 0);
    lemma_lookup_passes(t, 19, n, 0);
    lemma_lookup_passes(t, 20, n, 0);
    lemma_lookup_passes(t, 21, n, 0);
    lemma_lookup_passes(t, 22, n, 0);
    lemma_lookup_passes(t, 23, n, 0);
    lemma_lookup_passes(t, 24, n, 0);
    lemma_lookup_passes(t, 25, n, 0);
    lemma_lookup_passes(t, 26, n, 0);
    lemma_lookup_passes(t, 27, n, 0);
    lemma_lookup_passes(t, 28, n, 0);
    lemma_lookup_passes(t, 29, n, 0);
    lemma_lookup_passes(t, 30, n, 0);
    lemma_lookup_passes(t, 31, n, 0);
    lemma_lookup_passes(t, 32, n, 0);
    lemma_lookup_passes(t, 33, n, 0);
    lemma_lookup_passes(t, 34, n, 0);
    lemma_lookup_passes(t, 35, n, 0);
    lemma_lookup_passes(t, 36, n, 0);
    lemma_lookup_passes(t, 37, n, 0);
    lemma_lookup_passes(t, 38, n, 0);
    lemma_lookup_passes(t, 39, n, 0);
    lemma_lookup_passes(t, 40, n, 0);
    lemma_lookup_passes(t, 41, n, 0);
    lemma_lookup_passes(t, 42, n, 0);
    lemma_lookup_passes(t, 43, n, 0);
    lemma_lookup_passes(t, 44, n, 0);
    lemma_lookup_passes(t, 45, n, 0);
    lemma_lookup_passes(t, 46, n, 0);
    lemma_lookup_passes(t, 47, n, 0);
    lemma_lookup_passes(t, 48, n, 0);
    lemma_lookup_passes(t, 49, n, 0);
    lemma_lookup_passes(t, 50, n, 0);
    lemma_lookup_passes(t, 51, n, 0);
    lemma_lookup_passes(t, 52, n, 0);
    lemma_lookup_passes(t, 53, n, 0);
    lemma_lookup_passes(t, 54, n, 0);
    lemma_lookup_passes(t, 55, n, 0);
    lemma_lookup_passes(t, 56, n, 0);
    lemma_lookup_passes(t, 57, n, 0);
    lemma_lookup_passes(t, 58, n, 0);
    lemma_lookup_passes(t, 59, n, 0);
    lemma_lookup_passes(t, 60, n, 0);
    lemma_lookup_passes(t, 61, n, 0);
    lemma_lookup_passes(t, 62, n, 0);
    lemma_lookup_passes(t, 63, n, 0);
    lemma_lookup_passes(t, 64, n, 0);
    lemma_lookup_passes(t, 65, n, 0);
    lemma_lookup_passes(t, 66, n, 0);
    lemma_lookup_passes(t, 67, n, 0);
    lemma_lookup_passes(t, 68, n, 0);
    lemma_lookup_finds(t, 69, n);
}

proof fn lemma_resolves_70()
    ensures
        resolve_key_spec("up_arrow"@) == Some(KEY_UP),
{
    reveal_strlit("caps_lock");
    reveal_strlit("delete");
    reveal_strlit("end");
    reveal_strlit("enter");
    reveal_strlit("escape");
    reveal_strlit("f1");
    reveal_strlit("f10");
    reveal_strlit("f11");
    reveal_strlit("f12");
    reveal_strlit("f13");
    reveal_strlit("f14");
    reveal_strlit("f15");
    reveal_strlit("f16");
    reveal_strlit("f17");
    reveal_strlit("f18");
    reveal_strlit("f19");
    reveal_strlit("f2");
    reveal_strlit("f20");
    reveal_strlit("f3");
    reveal_strlit("f4");
    reveal_strlit("f5");
    reveal_strlit("f6");
    reveal_strlit("f7");
    reveal_strlit("f8");
    reveal_strlit("f9");
    reveal_strlit("fn");
    reveal_strlit("fn_key");
    reveal_strlit("forward_delete");
    reveal_strlit("home");
    reveal_strlit("left_alt");
    reveal_strlit("left_cmd");
    reveal_strlit("left_command");
    reveal_strlit("left_control");
    reveal_strlit("left_ctrl");
    reveal_strlit("left_option");
    reveal_strlit("left_shift");
    reveal_strlit("numpad_0");
    reveal_strlit("numpad_1");
    reveal_strlit("numpad_2");
    reveal_strlit("numpad_3");
    reveal_strlit("numpad_4");
    reveal_strlit("numpad_5");
    reveal_strlit("numpad_6");
    reveal_strlit("numpad_7");
    reveal_strlit("numpad_8");
    reveal_strlit("numpad_9");
    reveal_strlit("numpad_add");
    reveal_strlit("numpad_clear");
    reveal_strlit("numpad_decimal");
    reveal_strlit("numpad_divide");
    reveal_strlit("numpad_dot");
    reveal_strlit("numpad_enter");
    reveal_strlit("numpad_equals");
    reveal_strlit("numpad_minus");
    reveal_strlit("numpad_multiply");
    reveal_strlit("numpad_plus");
    reveal_strlit("numpad_subtract");
    reveal_strlit("page_down");
    reveal_strlit("page_up");
    reveal_strlit("return");
    reveal_strlit("return_key");
    reveal_strlit("right_alt");
    reveal_strlit("right_cmd");
    reveal_strlit("right_command");
    reveal_strlit("right_control");
    reveal_strlit("right_ctrl");
    reveal_strlit("right_option");
    reveal_strlit("right_shift");
    reveal_strlit("space");
    reveal_strlit("tab");
    reveal_strlit("up_arrow");
    let t = key_table();
    let n = "up_arrow"@;
    assert(t.skip(0) =~= t);
    lemma_lookup_passes(t, 0, n, 0);
    lemma_lookup_passes(t, 1, n, 0);
    lemma_lookup_passes(t, 2, n, 0);
    lemma_lookup_passes(t, 3, n, 0);
    lemma_lookup_passes(t, 4, n, 0);
    lemma_lookup_passes(t, 5, n, 0);
    lemma_lookup_passes(t, 6, n, 0);
    lemma_lookup_passes(t, 7, n, 0);
    lemma_lookup_passes(t, 8, n, 0);
    lemma_lookup_passes(t, 9, n, 0);
    lemma_lookup_passes(t, 10, n, 0);
    lemma_lookup_passes(t, 11, n, 0);
    lemma_lookup_passes(t, 12, n, 0);
    lemma_lookup_passes(t, 13, n, 0);
    lemma_lookup_passes(t, 14, n, 0);
    lemma_lookup_passes(t, 15, n, 0);
    lemma_lookup_passes(t, 16, n, 0);
    lemma_lookup_passes(t, 17, n, 0);
    lemma_lookup_passes(t, 18, n, 0);
    lemma_lookup_passes(t, 19, n, 0);
    lemma_lookup_passes(t, 20, n, 0);
    lemma_lookup_passes(t, 21, n, 0);
    lemma_lookup_passes(t, 22, n, 0);
    lemma_lookup_passes(t, 23, n, 0);
    lemma_lookup_passes(t, 24, n, 0);
    lemma_lookup_passes(t, 25, n, 0);
    lemma_lookup_passes(t, 26, n, 0);
    lemma_lookup_passes(t, 27, n, 0);
    lemma_lookup_passes(t, 28, n, 0);
    lemma_lookup_passes(t, 29, n, 0);
    lemma_lookup_passes(t, 30, n, 0);
    lemma_lookup_passes(t, 31, n, 0);
    lemma_lookup_passes(t, 32, n, 0);
    lemma_lookup_passes(t, 33, n, 0);
    lemma_lookup_passes(t, 34, n, 0);
    lemma_lookup_passes(t, 35, n, 0);
    lemma_lookup_passes(t, 36, n, 0);
    lemma_lookup_passes(t, 37, n, 0);
    lemma_lookup_passes(t, 38, n, 0);
    lemma_lookup_passes(t, 39, n, 0);
    lemma_lookup_passes(t, 40, n, 0);
    lemma_lookup_passes(t, 41, n, 0);
    lemma_lookup_passes(t, 42, n, 0);
    lemma_lookup_passes(t, 43, n, 0);
    lemma_lookup_passes(t, 44, n, 0);
    lemma_lookup_passes(t, 45, n, 0);
    lemma_lookup_passes(t, 46, n, 0);
    lemma_lookup_passes(t, 47, n, 0);
    lemma_lookup_passes(t, 48, n, 0);
    lemma_lookup_passes(t, 49, n, 0);
    lemma_lookup_passes(t, 50, n, 0);
    lemma_lookup_passes(t, 51, n, 0);
    lemma_lookup_passes(t, 52, n, 0);
    lemma_lookup_passes(t, 53, n, 0);
    lemma_lookup_passes(t, 54, n, 0);
    lemma_lookup_passes(t, 55, n, 0);
    lemma_lookup_passes(t, 56, n, 0);
    lemma_lookup_passes(t, 57, n, 0);
    lemma_lookup_passes(t, 58, n, 0);
    lemma_lookup_passes(t, 59, n, 0);
    lemma_lookup_passes(t, 60, n, 0);
    lemma_lookup_passes(t, 61, n, 0);
    lemma_lookup_passes(t, 62, n, 0);
    lemma_lookup_passes(t, 63, n, 0);
    lemma_lookup_passes(t, 64, n, 0);
    lemma_lookup_passes(t, 65, n, 0);
    lemma_lookup_passes(t, 66, n, 0);
    lemma_lookup_passes(t, 67, n, 0);
    lemma_lookup_passes(t, 68, n, 0);
    lemma_lookup_passes(t, 69, n, 0);
    lemma_lookup_finds(t, 70, n);
}

proof fn lemma_resolves_71()
    ensures
        resolve_key_spec("down_arrow"@) == Some(KEY_DOWN),
{
    reveal_strlit("caps_lock");
    reveal_strlit("delete");
    reveal_strlit("down_arrow");
    reveal_strlit("end");
    reveal_strlit("enter");
    reveal_strlit("escape");
    reveal_strlit("f1");
    reveal_strlit("f10");
    reveal_strlit("f11");
    reveal_strlit("f12");
    reveal_strlit("f13");
    reveal_strlit("f14");
    reveal_strlit("f15");
    reveal_strlit("f16");
    reveal_strlit("f17");
    reveal_strlit("f18");
    reveal_strlit("f19");
    reveal_strlit("f2");
    reveal_strlit("f20");
    reveal_strlit("f3");
    reveal_strlit("f4");
    reveal_strlit("f5");
    reveal_strlit("f6");
    reveal_strlit("f7");
    reveal_strlit("f8");
    reveal_strlit("f9");
    reveal_strlit("fn");
    reveal_strlit("fn_key");
    reveal_strlit("forward_delete");
    reveal_strlit("home");
    reveal_strlit("left_alt");
    reveal_strlit("left_cmd");
    reveal_strlit("left_command");
    reveal_strlit("left_control");
    reveal_strlit("left_ctrl");
    reveal_strlit("left_option");
    reveal_strlit("left_shift");
    reveal_strlit("numpad_0");
    reveal_strlit("numpad_1");
    reveal_strlit("numpad_2");
    reveal_strlit("numpad_3");
    reveal_strlit("numpad_4");
    reveal_strlit("numpad_5");
    reveal_strlit("numpad_6");
    reveal_strlit("numpad_7");
    reveal_strlit("numpad_8");
    reveal_strlit("numpad_9");
    reveal_strlit("numpad_add");
    reveal_strlit("numpad_clear");
    reveal_strlit("numpad_decimal");
    reveal_strlit("numpad_divide");
    reveal_strlit("numpad_dot");
    reveal_strlit("numpad_enter");
    reveal_strlit("numpad_equals");
    reveal_strlit("numpad_minus");
    reveal_strlit("numpad_multiply");
    reveal_strlit("numpad_plus");
    reveal_strlit("numpad_subtract");
    reveal_strlit("page_down");
    reveal_strlit("page_up");
    reveal_strlit("return");
    reveal_strlit("return_key");
    reveal_strlit("right_alt");
    reveal_strlit("right_cmd");
    reveal_strlit("right_command");
    reveal_strlit("right_control");
    reveal_strlit("right_ctrl");
    reveal_strlit("right_option");
    reveal_strlit("right_shift");
    reveal_strlit("space");
    reveal_strlit("tab");
    reveal_strlit("up_arrow");
    let t = key_table();
    let n = "down_arrow"@;
    assert(t.skip(0) =~= t);
    lemma_lookup_passes(t, 0, n, 0);
    lemma_lookup_passes(t, 1, n, 0);
    lemma_lookup_passes(t, 2, n, 0);
    lemma_lookup_passes(t, 3, n, 0);
    lemma_lookup_passes(t, 4, n, 0);
    lemma_lookup_passes(t, 5, n, 0);
    lemma_lookup_passes(t, 6, n, 0);
    lemma_lookup_passes(t, 7, n, 0);
    lemma_lookup_passes(t, 8, n, 0);
    lemma_lookup_passes(t, 9, n, 0);
    lemma_lookup_passes(t, 10, n, 0);
    lemma_lookup_passes(t, 11, n, 0);
    lemma_lookup_passes(t, 12, n, 0);
    lemma_lookup_passes(t, 13, n, 0);
    lemma_lookup_passes(t, 14, n, 0);
    lemma_lookup_passes(t, 15, n, 0);
    lemma_lookup_passes(t, 16, n, 0);
    lemma_lookup_passes(t, 17, n, 0);
    lemma_lookup_passes(t, 18, n, 0);
    lemma_lookup_passes(t, 19, n, 0);
    lemma_lookup_passes(t, 20, n, 0);
    lemma_lookup_passes(t, 21, n, 0);
    lemma_lookup_passes(t, 22, n, 0);
    lemma_lookup_passes(t, 23, n, 0);
    lemma_lookup_passes(t, 24, n, 0);
    lemma_lookup_passes(t, 25, n, 0);
    lemma_lookup_passes(t, 26, n, 0);
    lemma_lookup_passes(t, 27, n, 0);
    lemma_lookup_passes(t, 28, n, 0);
    lemma_lookup_passes(t, 29, n, 0);
    lemma_lookup_passes(t, 30, n, 0);
    lemma_lookup_passes(t, 31, n, 0);
    lemma_lookup_passes(t, 32, n, 0);
    lemma_lookup_passes(t, 33, n, 0);
    lemma_lookup_passes(t, 34, n, 0);
    lemma_lookup_passes(t, 35, n, 0);
    lemma_lookup_passes(t, 36, n, 0);
    lemma_lookup_passes(t, 37, n, 0);
    lemma_lookup_passes(t, 38, n, 0);
    lemma_lookup_passes(t, 39, n, 0);
    lemma_lookup_passes(t, 40, n, 0);
    lemma_lookup_passes(t, 41, n, 0);
    lemma_lookup_passes(t, 42, n, 0);
    lemma_lookup_passes(t, 43, n, 0);
    lemma_lookup_passes(t, 44, n, 0);
    lemma_lookup_passes(t, 45, n, 0);
    lemma_lookup_passes(t, 46, n, 0);
    lemma_lookup_passes(t, 47, n, 0);
    lemma_lookup_passes(t, 48, n, 0);
    lemma_lookup_passes(t, 49, n, 0);
    lemma_lookup_passes(t, 50, n, 0);
    lemma_lookup_passes(t, 51, n, 0);
    lemma_lookup_passes(t, 52, n, 0);
    lemma_lookup_passes(t, 53, n, 0);
    lemma_lookup_passes(t, 54, n, 0);
    lemma_lookup_passes(t, 55, n, 0);
    lemma_lookup_passes(t, 56, n, 0);
    lemma_lookup_passes(t, 57, n, 0);
    lemma_lookup_passes(t, 58, n, 0);
    lemma_lookup_passes(t, 59, n, 0);
    lemma_lookup_passes(t, 60, n, 0);
    lemma_lookup_passes(t, 61, n, 0);
    lemma_lookup_passes(t, 62, n, 0);
    lemma_lookup_passes(t, 63, n, 0);
    lemma_lookup_passes(t, 64, n, 0);
    lemma_lookup_passes(t, 65, n, 0);
    lemma_lookup_passes(t, 66, n, 0);
    lemma_lookup_passes(t, 67, n, 0);
    lemma_lookup_passes(t, 68, n, 0);
    lemma_lookup_passes(t, 69, n, 0);
    lemma_lookup_passes(t, 70, n, 0);
    lemma_lookup_finds(t, 71, n);
}

proof fn lemma_resolves_72()
    ensures
        resolve_key_spec("left_arrow"@) == Some(KEY_LEFT),
{
    reveal_strlit("caps_lock");
    reveal_strlit("delete");
    reveal_strlit("down_arrow");
    reveal_strlit("end");
    reveal_strlit("enter");
    reveal_strlit("escape");
    reveal_strlit("f1");
    reveal_strlit("f10");
    reveal_strlit("f11");
    reveal_strlit("f12");
    reveal_strlit("f13");
    reveal_strlit("f14");
    reveal_strlit("f15");
    reveal_strlit("f16");
    reveal_strlit("f17");
    reveal_strlit("f18");
    reveal_strlit("f19");
    reveal_strlit("f2");
    reveal_strlit("f20");
    reveal_strlit("f3");
    reveal_strlit("f4");
    reveal_strlit("f5");
    reveal_strlit("f6");
    reveal_strlit("f7");
    reveal_strlit("f8");
    reveal_strlit("f9");
    reveal_strlit("fn");
    reveal_strlit("fn_key");
    reveal_strlit("forward_delete");
    reveal_strlit("home");
    reveal_strlit("left_alt");
    reveal_strlit("left_arrow");
    reveal_strlit("left_cmd");
    reveal_strlit("left_command");
    reveal_strlit("left_control");
    reveal_strlit("left_ctrl");
    reveal_strlit("left_option");
    reveal_strlit("left_shift");
    reveal_strlit("numpad_0");
    reveal_strlit("numpad_1");
    reveal_strlit("numpad_2");
    reveal_strlit("numpad_3");
    reveal_strlit("numpad_4");
    reveal_strlit("numpad_5");
    reveal_strlit("numpad_6");
    reveal_strlit("numpad_7");
    reveal_strlit("numpad_8");
    reveal_strlit("numpad_9");
    reveal_strlit("numpad_add");
    reveal_strlit("numpad_clear");
    reveal_strlit("numpad_decimal");
    reveal_strlit("numpad_divide");
    reveal_strlit("numpad_dot");
    reveal_strlit("numpad_enter");
    reveal_strlit("numpad_equals");
    reveal_strlit("numpad_minus");
    reveal_strlit("numpad_multiply");
    reveal_strlit("numpad_plus");
    reveal_strlit("numpad_subtract");
    reveal_strlit("page_down");
    reveal_strlit("page_up");
    reveal_strlit("return");
    reveal_strlit("return_key");
    reveal_strlit("right_alt");
    reveal_strlit("right_cmd");
    reveal_strlit("right_command");
    reveal_strlit("right_control");
    reveal_strlit("right_ctrl");
    reveal_strlit("right_option");
    reveal_strlit("right_shift");
    reveal_strlit("space");
    reveal_strlit("tab");
    reveal_strlit("up_arrow");
    let t = key_table();
    let n = "left_arrow"@;
    assert(t.skip(0) =~= t);
    lemma_lookup_passes(t, 0, n, 0);
    lemma_lookup_passes(t, 1, n, 0);
    lemma_lookup_passes(t, 2, n, 0);
    lemma_lookup_passes(t, 3, n, 0);
    lemma_lookup_passes(t, 4, n, 0);
    lemma_lookup_passes(t, 5, n, 0);
    lemma_lookup_passes(t, 6, n, 0);
    lemma_lookup_passes(t, 7, n, 0);
    lemma_lookup_passes(t, 8, n, 0);
    lemma_lookup_passes(t, 9, n, 0);
    lemma_lookup_passes(t, 10, n, 0);
    lemma_lookup_passes(t, 11, n, 0);
    lemma_lookup_passes(t, 12, n, 0);
    lemma_lookup_passes(t, 13, n, 0);
    lemma_lookup_passes(t, 14, n, 0);
    lemma_lookup_passes(t, 15, n, 0);
    lemma_lookup_passes(t, 16, n, 0);
    lemma_lookup_passes(t, 17, n, 0);
    lemma_lookup_passes(t, 18, n, 0);
    lemma_lookup_passes(t, 19, n, 0);
    lemma_lookup_passes(t, 20, n, 0);
    lemma_lookup_passes(t, 21, n, 0);
    lemma_lookup_passes(t, 22, n, 0);
    lemma_lookup_passes(t, 23, n, 0);
    lemma_lookup_passes(t, 24, n, 0);
    lemma_lookup_passes(t, 25, n, 0);
    lemma_lookup_passes(t, 26, n, 0);
    lemma_lookup_passes(t, 27, n, 0);
    lemma_lookup_passes(t, 28, n, 0);
    lemma_lookup_passes(t, 29, n, 0);
    lemma_lookup_passes(t, 30, n, 5);
    lemma_lookup_passes(t, 31, n, 0);
    lemma_lookup_passes(t, 32, n, 0);
    lemma_lookup_passes(t, 33, n, 0);
    lemma_lookup_passes(t, 34, n, 0);
    lemma_lookup_passes(t, 35, n, 0);
    lemma_lookup_passes(t, 36, n, 0);
    lemma_lookup_passes(t, 37, n, 0);
    lemma_lookup_passes(t, 38, n, 0);
    lemma_lookup_passes(t, 39, n, 0);
    lemma_lookup_passes(t, 40, n, 0);
    lemma_lookup_passes(t, 41, n, 0);
    lemma_lookup_passes(t, 42, n, 0);
    lemma_lookup_passes(t, 43, n, 0);
    lemma_lookup_passes(t, 44, n, 0);
    lemma_lookup_passes(t, 45, n, 0);
    lemma_lookup_passes(t, 46, n, 0);
    lemma_lookup_passes(t, 47, n, 0);
    lemma_lookup_passes(t, 48, n, 0);
    lemma_lookup_passes(t, 49, n, 0);
    lemma_lookup_passes(t, 50, n, 0);
    lemma_lookup_passes(t, 51, n, 0);
    lemma_lookup_passes(t, 52, n, 0);
    lemma_lookup_passes(t, 53, n, 0);
    lemma_lookup_passes(t, 54, n, 0);
    lemma_lookup_passes(t, 55, n, 0);
    lemma_lookup_passes(t, 56, n, 0);
    lemma_lookup_passes(t, 57, n, 0);
    lemma_lookup_passes(t, 58, n, 0);
    lemma_lookup_passes(t, 59, n, 0);
    lemma_lookup_passes(t, 60, n, 0);
    lemma_lookup_passes(t, 61, n, 0);
    lemma_lookup_passes(t, 62, n, 0);
    lemma_lookup_passes(t, 63, n, 0);
    lemma_lookup_passes(t, 64, n, 0);
    lemma_lookup_passes(t, 65, n, 0);
    lemma_lookup_passes(t, 66, n, 0);
    lemma_lookup_passes(t, 67, n, 0);
    lemma_lookup_passes(t, 68, n, 0);
    lemma_lookup_passes(t, 69, n, 0);
    lemma_lookup_passes(t, 70, n, 0);
    lemma_lookup_passes(t, 71, n, 0);
    lemma_lookup_finds(t, 72, n);
}

proof fn lemma_resolves_73()
    ensures
        resolve_key_spec("right_arrow"@) == Some(KEY_RIGHT),
{
    reveal_strlit("caps_lock");
    reveal_strlit("delete");
    reveal_strlit("down_arrow");
    reveal_strlit("end");
    reveal_strlit("enter");
    reveal_strlit("escape");
    reveal_strlit("f1");
    reveal_strlit("f10");
    reveal_strlit("f11");
    reveal_strlit("f12");
    reveal_strlit("f13");
    reveal_strlit("f14");
    reveal_strlit("f15");
    reveal_strlit("f16");
    reveal_strlit("f17");
    reveal_strlit("f18");
    reveal_strlit("f19");
    reveal_strlit("f2");
    reveal_strlit("f20");
    reveal_strlit("f3");
    reveal_strlit("f4");
    reveal_strlit("f5");
    reveal_strlit("f6");
    reveal_strlit("f7");
    reveal_strlit("f8");
    reveal_strlit("f9");
    reveal_strlit("fn");
    reveal_strlit("fn_key");
    reveal_strlit("forward_delete");
    reveal_strlit("home");
    reveal_strlit("left_alt");
    reveal_strlit("left_arrow");
    reveal_strlit("left_cmd");
    reveal_strlit("left_command");
    reveal_strlit("left_control");
    reveal_strlit("left_ctrl");
    reveal_strlit("left_option");
    reveal_strlit("left_shift");
    reveal_strlit("numpad_0");
    reveal_strlit("numpad_1");
    reveal_strlit("numpad_2");
    reveal_strlit("numpad_3");
    reveal_strlit("numpad_4");
    reveal_strlit("numpad_5");
    reveal_strlit("numpad_6");
    reveal_strlit("numpad_7");
    reveal_strlit("numpad_8");
    reveal_strlit("numpad_9");
    reveal_strlit("numpad_add");
    reveal_strlit("numpad_clear");
    reveal_strlit("numpad_decimal");
    reveal_strlit("numpad_divide");
    reveal_strlit("numpad_dot");
    reveal_strlit("numpad_enter");
    reveal_strlit("numpad_equals");
    reveal_strlit("numpad_minus");
    reveal_strlit("numpad_multiply");
    reveal_strlit("numpad_plus");
    reveal_strlit("numpad_subtract");
    reveal_strlit("page_down");
    reveal_strlit("page_up");
    reveal_strlit("return");
    reveal_strlit("return_key");
    reveal_strlit("right_alt");
    reveal_strlit("right_arrow");
    reveal_strlit("right_cmd");
    reveal_strlit("right_command");
    reveal_strlit("right_control");
    reveal_strlit("right_ctrl");
    reveal_strlit("right_option");
    reveal_strlit("right_shift");
    reveal_strlit("space");
    reveal_strlit("tab");
    reveal_strlit("up_arrow");
    let t = key_table();
    let n = "right_arrow"@;
    assert(t.skip(0) =~= t);
    lemma_lookup_passes(t, 0, n, 0);
    lemma_lookup_passes(t, 1, n, 0);
    lemma_lookup_passes(t, 2, n, 0);
    lemma_lookup_passes(t, 3, n, 0);
    lemma_lookup_passes(t, 4, n, 0);
    lemma_lookup_passes(t, 5, n, 0);
    lemma_lookup_passes(t, 6, n, 0);
    lemma_lookup_passes(t, 7, n, 0);
    lemma_lookup_passes(t, 8, n, 0);
    lemma_lookup_passes(t, 9, n, 0);
    lemma_lookup_passes(t, 10, n, 0);
    lemma_lookup_passes(t, 11, n, 0);
    lemma_lookup_passes(t, 12, n, 0);
    lemma_lookup_passes(t, 13, n, 0);
    lemma_lookup_passes(t, 14, n, 0);
    lemma_lookup_passes(t, 15, n, 0);
    lemma_lookup_passes(t, 16, n, 0);
    lemma_lookup_passes(t, 17, n, 0);
    lemma_lookup_passes(t, 18, n, 0);
    lemma_lookup_passes(t, 19, n, 0);
    lemma_lookup_passes(t, 20, n, 0);
    lemma_lookup_passes(t, 21, n, 0);
    lemma_lookup_passes(t, 22, n, 0);
    lemma_lookup_passes(t, 23, n, 0);
    lemma_lookup_passes(t, 24, n, 0);
    lemma_lookup_passes(t, 25, n, 0);
    lemma_lookup_passes(t, 26, n, 0);
    lemma_lookup_passes(t, 27, n, 0);
    lemma_lookup_passes(t, 28, n, 0);
    lemma_lookup_passes(t, 29, n, 6);
    lemma_lookup_passes(t, 30, n, 0);
    lemma_lookup_passes(t, 31, n, 0);
    lemma_lookup_passes(t, 32, n, 0);
    lemma_lookup_passes(t, 33, n, 0);
    lemma_lookup_passes(t, 34, n, 0);
    lemma_lookup_passes(t, 35, n, 0);
    lemma_lookup_passes(t, 36, n, 0);
    lemma_lookup_passes(t, 37, n, 0);
    lemma_lookup_passes(t, 38, n, 0);
    lemma_lookup_passes(t, 39, n, 0);
    lemma_lookup_passes(t, 40, n, 0);
    lemma_lookup_passes(t, 41, n, 0);
    lemma_lookup_passes(t, 42, n, 0);
    lemma_lookup_passes(t, 43, n, 0);
    lemma_lookup_passes(t, 44, n, 0);
    lemma_lookup_passes(t, 45, n, 0);
    lemma_lookup_passes(t, 46, n, 0);
    lemma_lookup_passes(t, 47, n, 0);
    lemma_lookup_passes(t, 48, n, 0);
    lemma_lookup_passes(t, 49, n, 0);
    lemma_lookup_passes(t, 50, n, 0);
    lemma_lookup_passes(t, 51, n, 0);
    lemma_lookup_passes(t, 52, n, 0);
    lemma_lookup_passes(t, 53, n, 0);
    lemma_lookup_passes(t, 54, n, 0);
    lemma_lookup_passes(t, 55, n, 0);
    lemma_lookup_passes(t, 56, n, 0);
    lemma_lookup_passes(t, 57, n, 0);
    lemma_lookup_passes(t, 58, n, 0);
    lemma_lookup_passes(t, 59, n, 0);
    lemma_lookup_passes(t, 60, n, 0);
    lemma_lookup_passes(t, 61, n, 0);
    lemma_lookup_passes(t, 62, n, 0);
    lemma_lookup_passes(t, 63, n, 0);
    lemma_lookup_passes(t, 64, n, 0);
    lemma_lookup_passes(t, 65, n, 0);
    lemma_lookup_passes(t, 66, n, 0);
    lemma_lookup_passes(t, 67, n, 0);
    lemma_lookup_passes(t, 68, n, 0);
    lemma_lookup_passes(t, 69, n, 0);
    lemma_lookup_passes(t, 70, n, 0);
    lemma_lookup_passes(t, 71, n, 0);
    lemma_lookup_passes(t, 72, n, 0);
    lemma_lookup_finds(t, 73, n);
}

proof fn lemma_resolves_74()
    ensures
        resolve_key_spec("insert"@) == Some(KEY_INSERT),
{
    reveal_strlit("caps_lock");
    reveal_strlit("delete");
    reveal_strlit("down_arrow");
    reveal_strlit("end");
    reveal_strlit("enter");
    reveal_strlit("escape");
    reveal_strlit("f1");
    reveal_strlit("f10");
    reveal_strlit("f11");
    reveal_strlit("f12");
    reveal_strlit("f13");
    reveal_strlit("f14");
    reveal_strlit("f15");
    reveal_strlit("f16");
    reveal_strlit("f17");
    reveal_strlit("f18");
    reveal_strlit("f19");
    reveal_strlit("f2");
    reveal_strlit("f20");
    reveal_strlit("f3");
    reveal_strlit("f4");
    reveal_strlit("f5");
    reveal_strlit("f6");
    reveal_strlit("f7");
    reveal_strlit("f8");
    reveal_strlit("f9");
    reveal_strlit("fn");
    reveal_strlit("fn_key");
    reveal_strlit("forward_delete");
    reveal_strlit("home");
    reveal_strlit("insert");
    reveal_strlit("left_alt");
    reveal_strlit("left_arrow");
    reveal_strlit("left_cmd");
    reveal_strlit("left_command");
    reveal_strlit("left_control");
    reveal_strlit("left_ctrl");
    reveal_strlit("left_option");
    reveal_strlit("left_shift");
    reveal_strlit("numpad_0");
    reveal_strlit("numpad_1");
    reveal_strlit("numpad_2");
    reveal_strlit("numpad_3");
    reveal_strlit("numpad_4");
    reveal_strlit("numpad_5");
    reveal_strlit("numpad_6");
    reveal_strlit("numpad_7");
    reveal_strlit("numpad_8");
    reveal_strlit("numpad_9");
    reveal_strlit("numpad_add");
    reveal_strlit("numpad_clear");
    reveal_strlit("numpad_decimal");
    reveal_strlit("numpad_divide");
    reveal_strlit("numpad_dot");
    reveal_strlit("numpad_enter");
    reveal_strlit("numpad_equals");
    reveal_strlit("numpad_minus");
    reveal_strlit("numpad_multiply");
    reveal_strlit("numpad_plus");
    reveal_strlit("numpad_subtract");
    reveal_strlit("page_down");
    reveal_strlit("page_up");
    reveal_strlit("return");
    reveal_strlit("return_key");
    reveal_strlit("right_alt");
    reveal_strlit("right_arrow");
    reveal_strlit("right_cmd");
    reveal_strlit("right_command");
    reveal_strlit("right_control");
    reveal_strlit("right_ctrl");
    reveal_strlit("right_option");
    reveal_strlit("right_shift");
    reveal_strlit("space");
    reveal_strlit("tab");
    reveal_strlit("up_arrow");
    let t = key_table();
    let n = "insert"@;
    assert(t.skip(0) =~= t);
    lemma_lookup_passes(t, 0, n, 0);
    lemma_lookup_passes(t, 1, n, 0);
    lemma_lookup_passes(t, 2, n, 0);
    lemma_lookup_passes(t, 3, n, 0);
    lemma_lookup_passes(t, 4, n, 0);
    lemma_lookup_passes(t, 5, n, 0);
    lemma_lookup_passes(t, 6, n, 0);
    lemma_lookup_passes(t, 7, n, 0);
    lemma_lookup_passes(t, 8, n, 0);
    lemma_lookup_passes(t, 9, n, 0);
    lemma_lookup_passes(t, 10, n, 0);
    lemma_lookup_passes(t, 11, n, 0);
    lemma_lookup_passes(t, 12, n, 0);
    lemma_lookup_passes(t, 13, n, 0);
    lemma_lookup_passes(t, 14, n, 0);
    lemma_lookup_passes(t, 15, n, 0);
    lemma_lookup_passes(t, 16, n, 0);
    lemma_lookup_passes(t, 17, n, 0);
    lemma_lookup_passes(t, 18, n, 0);
    lemma_lookup_passes(t, 19, n, 0);
    lemma_lookup_passes(t, 20, n, 0);
    lemma_lookup_passes(t, 21, n, 0);
    lemma_lookup_passes(t, 22, n, 0);
    lemma_lookup_passes(t, 23, n, 0);
    lemma_lookup_passes(t, 24, n, 0);
    lemma_lookup_passes(t, 25, n, 0);
    lemma_lookup_passes(t, 26, n, 0);
    lemma_lookup_passes(t, 27, n, 0);
    lemma_lookup_passes(t, 28, n, 0);
    lemma_lookup_passes(t, 29, n, 0);
    lemma_lookup_passes(t, 30, n, 0);
    lemma_lookup_passes(t, 31, n, 0);
    lemma_lookup_passes(t, 32, n, 0);
    lemma_lookup_passes(t, 33, n, 0);
    lemma_lookup_passes(t, 34, n, 0);
    lemma_lookup_passes(t, 35, n, 0);
    lemma_lookup_passes(t, 36, n, 0);
    lemma_lookup_passes(t, 37, n, 0);
    lemma_lookup_passes(t, 38, n, 0);
    lemma_lookup_passes(t, 39, n, 0);
    lemma_lookup_passes(t, 40, n, 0);
    lemma_lookup_passes(t, 41, n, 0);
    lemma_lookup_passes(t, 42, n, 0);
    lemma_lookup_passes(t, 43, n, 0);
    lemma_lookup_passes(t, 44, n, 0);
    lemma_lookup_passes(t, 45, n, 0);
    lemma_lookup_passes(t, 46, n, 0);
    lemma_lookup_passes(t, 47, n, 0);
    lemma_lookup_passes(t, 48, n, 0);
    lemma_lookup_passes(t, 49, n, 0);
    lemma_lookup_passes(t, 50, n, 0);
    lemma_lookup_passes(t, 51, n, 0);
    lemma_lookup_passes(t, 52, n, 0);
    lemma_lookup_passes(t, 53, n, 0);
    lemma_lookup_passes(t, 54, n, 0);
    lemma_lookup_passes(t, 55, n, 0);
    lemma_lookup_passes(t, 56, n, 0);
    lemma_lookup_passes(t, 57, n, 0);
    lemma_lookup_passes(t, 58, n, 0);
    lemma_lookup_passes(t, 59, n, 0);
    lemma_lookup_passes(t, 60, n, 0);
    lemma_lookup_passes(t, 61, n, 0);
    lemma_lookup_passes(t, 62, n, 0);
    lemma_lookup_passes(t, 63, n, 0);
    lemma_lookup_passes(t, 64, n, 0);
    lemma_lookup_passes(t, 65, n, 0);
    lemma_lookup_passes(t, 66, n, 0);
    lemma_lookup_passes(t, 67, n, 0);
    lemma_lookup_passes(t, 68, n, 0);
    lemma_lookup_passes(t, 69, n, 0);
    lemma_lookup_passes(t, 70, n, 0);
    lemma_lookup_passes(t, 71, n, 0);
    lemma_lookup_passes(t, 72, n, 0);
    lemma_lookup_passes(t, 73, n, 0);
    lemma_lookup_finds(t, 74, n);
}

proof fn lemma_resolves_75()
    ensures
        resolve_key_spec("print_screen"@) == Some(KEY_SYSRQ),
{
    reveal_strlit("caps_lock");
    reveal_strlit("delete");
    reveal_strlit("down_arrow");
    reveal_strlit("end");
    reveal_strlit("enter");
    reveal_strlit("escape");
    reveal_strlit("f1");
    reveal_strlit("f10");
    reveal_strlit("f11");
    reveal_strlit("f12");
    reveal_strlit("f13");
    reveal_strlit("f14");
    reveal_strlit("f15");
    reveal_strlit("f16");
    reveal_strlit("f17");
    reveal_strlit("f18");
    reveal_strlit("f19");
    reveal_strlit("f2");
    reveal_strlit("f20");
    reveal_strlit("f3");
    reveal_strlit("f4");
    reveal_strlit("f5");
    reveal_strlit("f6");
    reveal_strlit("f7");
    reveal_strlit("f8");
    reveal_strlit("f9");
    reveal_strlit("fn");
    reveal_strlit("fn_key");
    reveal_strlit("forward_delete");
    reveal_strlit("home");
    reveal_strlit("insert");
    reveal_strlit("left_alt");
    reveal_strlit("left_arrow");
    reveal_strlit("left_cmd");
    reveal_strlit("left_command");
    reveal_strlit("left_control");
    reveal_strlit("left_ctrl");
    reveal_strlit("left_option");
    reveal_strlit("left_shift");
    reveal_strlit("numpad_0");
    reveal_strlit("numpad_1");
    reveal_strlit("numpad_2");
    reveal_strlit("numpad_3");
    reveal_strlit("numpad_4");
    reveal_strlit("numpad_5");
    reveal_strlit("numpad_6");
    reveal_strlit("numpad_7");
    reveal_strlit("numpad_8");
    reveal_strlit("numpad_9");
    reveal_strlit("numpad_add");
    reveal_strlit("numpad_clear");
    reveal_strlit("numpad_decimal");
    reveal_strlit("numpad_divide");
    reveal_strlit("numpad_dot");
    reveal_strlit("numpad_enter");
    reveal_strlit("numpad_equals");
    reveal_strlit("numpad_minus");
    reveal_strlit("numpad_multiply");
    reveal_strlit("numpad_plus");
    reveal_strlit("numpad_subtract");
    reveal_strlit("page_down");
    reveal_strlit("page_up");
    reveal_strlit("print_screen");
    reveal_strlit("return");
    reveal_strlit("return_key");
    reveal_strlit("right_alt");
    reveal_strlit("right_arrow");
    reveal_strlit("right_cmd");
    reveal_strlit("right_command");
    reveal_strlit("right_control");
    reveal_strlit("right_ctrl");
    reveal_strlit("right_option");
    reveal_strlit("right_shift");
    reveal_strlit("space");
    reveal_strlit("tab");
    reveal_strlit("up_arrow");
    let t = key_table();
    let n = "print_screen"@;
    assert(t.skip(0) =~= t);
    lemma_lookup_passes(t, 0, n, 0);
    lemma_lookup_passes(t, 1, n, 0);
    lemma_lookup_passes(t, 2, n, 0);
    lemma_lookup_passes(t, 3, n, 0);
    lemma_lookup_passes(t, 4, n, 0);
    lemma_lookup_passes(t, 5, n, 0);
    lemma_lookup_passes(t, 6, n, 0);
    lemma_lookup_passes(t, 7, n, 0);
    lemma_lookup_passes(t, 8, n, 0);
    lemma_lookup_passes(t, 9, n, 0);
    lemma_lookup_passes(t, 10, n, 0);
    lemma_lookup_passes(t, 11, n, 0);
    lemma_lookup_passes(t, 12, n, 0);
    lemma_lookup_passes(t, 13, n, 0);
    lemma_lookup_passes(t, 14, n, 0);
    lemma_lookup_passes(t, 15, n, 0);
    lemma_lookup_passes(t, 16, n, 0);
    lemma_lookup_passes(t, 17, n, 0);
    lemma_lookup_passes(t, 18, n, 0);
    lemma_lookup_passes(t, 19, n, 0);
    lemma_lookup_passes(t, 20, n, 0);
    lemma_lookup_passes(t, 21, n, 0);
    lemma_lookup_passes(t, 22, n, 0);
    lemma_lookup_passes(t, 23, n, 0);
    lemma_lookup_passes(t, 24, n, 0);
    lemma_lookup_passes(t, 25, n, 0);
    lemma_lookup_passes(t, 26, n, 0);
    lemma_lookup_passes(t, 27, n, 0);
    lemma_lookup_passes(t, 28, n, 0);
    lemma_lookup_passes(t, 29, n, 0);
    lemma_lookup_passes(t, 30, n, 0);
    lemma_lookup_passes(t, 31, n, 0);
    lemma_lookup_passes(t, 32, n, 0);
    lemma_lookup_passes(t, 33, n, 0);
    lemma_lookup_passes(t, 34, n, 0);
    lemma_lookup_passes(t, 35, n, 0);
    lemma_lookup_passes(t, 36, n, 0);
    lemma_lookup_passes(t, 37, n, 0);
    lemma_lookup_passes(t, 38, n, 0);
    lemma_lookup_passes(t, 39, n, 0);
    lemma_lookup_passes(t, 40, n, 0);
    lemma_lookup_passes(t, 41, n, 0);
    lemma_lookup_passes(t, 42, n, 0);
    lemma_lookup_passes(t, 43, n, 0);
    lemma_lookup_passes(t, 44, n, 0);
    lemma_lookup_passes(t, 45, n, 0);
    lemma_lookup_passes(t, 46, n, 0);
    lemma_lookup_passes(t, 47, n, 0);
    lemma_lookup_passes(t, 48, n, 0);
    lemma_lookup_passes(t, 49, n, 0);
    lemma_lookup_passes(t, 50, n, 0);
    lemma_lookup_passes(t, 51, n, 0);
    lemma_lookup_passes(t, 52, n, 0);
    lemma_lookup_passes(t, 53, n, 0);
    lemma_lookup_passes(t, 54, n, 0);
    lemma_lookup_passes(t, 55, n, 0);
    lemma_lookup_passes(t, 56, n, 0);
    lemma_lookup_passes(t, 57, n, 0);
    lemma_lookup_passes(t, 58, n, 0);
    lemma_lookup_passes(t, 59, n, 0);
    lemma_lookup_passes(t, 60, n, 0);
    lemma_lookup_passes(t, 61, n, 0);
    lemma_lookup_passes(t, 62, n, 0);
    lemma_lookup_passes(t, 63, n, 0);
    lemma_lookup_passes(t, 64, n, 0);
    lemma_lookup_passes(t, 65, n, 0);
    lemma_lookup_passes(t, 66, n, 0);
    lemma_lookup_passes(t, 67, n, 0);
    lemma_lookup_passes(t, 68, n, 0);
    lemma_lookup_passes(t, 69, n, 0);
    lemma_lookup_passes(t, 70, n, 0);
    lemma_lookup_passes(t, 71, n, 0);
    lemma_lookup_passes(t, 72, n, 0);
    lemma_lookup_passes(t, 73, n, 0);
    lemma_lookup_passes(t, 74, n, 0);
    lemma_lookup_finds(t, 75, n);
}

proof fn lemma_resolves_76()
    ensures
        resolve_key_spec("scroll_lock"@) == Some(KEY_SCROLLLOCK),
{
    reveal_strlit("caps_lock");
    reveal_strlit("delete");
    reveal_strlit("down_arrow");
    reveal_strlit("end");
    reveal_strlit("enter");
    reveal_strlit("escape");
    reveal_strlit("f1");
    reveal_strlit("f10");
    reveal_strlit("f11");
    reveal_strlit("f12");
    reveal_strlit("f13");
    reveal_strlit("f14");
    reveal_strlit("f15");
    reveal_strlit("f16");
    reveal_strlit("f17");
    reveal_strlit("f18");
    reveal_strlit("f19");
    reveal_strlit("f2");
    reveal_strlit("f20");
    reveal_strlit("f3");
    reveal_strlit("f4");
    reveal_strlit("f5");
    reveal_strlit("f6");
    reveal_strlit("f7");
    reveal_strlit("f8");
    reveal_strlit("f9");
    reveal_strlit("fn");
    reveal_strlit("fn_key");
    reveal_strlit("forward_delete");
    reveal_strlit("home");
    reveal_strlit("insert");
    reveal_strlit("left_alt");
    reveal_strlit("left_arrow");
    reveal_strlit("left_cmd");
    reveal_strlit("left_command");
    reveal_strlit("left_control");
    reveal_strlit("left_ctrl");
    reveal_strlit("left_option");
    reveal_strlit("left_shift");
    reveal_strlit("numpad_0");
    reveal_strlit("numpad_1");
    reveal_strlit("numpad_2");
    reveal_strlit("numpad_3");
    reveal_strlit("numpad_4");
    reveal_strlit("numpad_5");
    reveal_strlit("numpad_6");
    reveal_strlit("numpad_7");
    reveal_strlit("numpad_8");
    reveal_strlit("numpad_9");
    reveal_strlit("numpad_add");
    reveal_strlit("numpad_clear");
    reveal_strlit("numpad_decimal");
    reveal_strlit("numpad_divide");
    reveal_strlit("numpad_dot");
    reveal_strlit("numpad_enter");
    reveal_strlit("numpad_equals");
    reveal_strlit("numpad_minus");
    reveal_strlit("numpad_multiply");
    reveal_strlit("numpad_plus");
    reveal_strlit("numpad_subtract");
    reveal_strlit("page_down");
    reveal_strlit("page_up");
    reveal_strlit("print_screen");
    reveal_strlit("return");
    reveal_strlit("return_key");
    reveal_strlit("right_alt");
    reveal_strlit("right_arrow");
    reveal_strlit("right_cmd");
    reveal_strlit("right_command");
    reveal_strlit("right_control");
    reveal_strlit("right_ctrl");
    reveal_strlit("right_option");
    reveal_strlit("right_shift");
    reveal_strlit("scroll_lock");
    reveal_strlit("space");
    reveal_strlit("tab");
    reveal_strlit("up_arrow");
    let t = key_table();
    let n = "scroll_lock"@;
    assert(t.skip(0) =~= t);
    lemma_lookup_passes(t, 0, n, 0);
    lemma_lookup_passes(t, 1, n, 0);
    lemma_lookup_passes(t, 2, n, 0);
    lemma_lookup_passes(t, 3, n, 0);
    lemma_lookup_passes(t, 4, n, 0);
    lemma_lookup_passes(t, 5, n, 0);
    lemma_lookup_passes(t, 6, n, 0);
    lemma_lookup_passes(t, 7, n, 0);
    lemma_lookup_passes(t, 8, n, 0);
    lemma_lookup_passes(t, 9, n, 0);
    lemma_lookup_passes(t, 10, n, 0);
    lemma_lookup_passes(t, 11, n, 0);
    lemma_lookup_passes(t, 12, n, 0);
    lemma_lookup_passes(t, 13, n, 0);
    lemma_lookup_passes(t, 14, n, 0);
    lemma_lookup_passes(t, 15, n, 0);
    lemma_lookup_passes(t, 16, n, 0);
    lemma_lookup_passes(t, 17, n, 0);
    lemma_lookup_passes(t, 18, n, 0);
    lemma_lookup_passes(t, 19, n, 0);
    lemma_lookup_passes(t, 20, n, 0);
    lemma_lookup_passes(t, 21, n, 0);
    lemma_lookup_passes(t, 22, n, 0);
    lemma_lookup_passes(t, 23, n, 0);
    lemma_lookup_passes(t, 24, n, 0);
    lemma_lookup_passes(t, 25, n, 0);
    lemma_lookup_passes(t, 26, n, 0);
    lemma_lookup_passes(t, 27, n, 0);
    lemma_lookup_passes(t, 28, n, 0);
    lemma_lookup_passes(t, 29, n, 0);
    lemma_lookup_passes(t, 30, n, 0);
    lemma_lookup_passes(t, 31, n, 0);
    lemma_lookup_passes(t, 32, n, 0);
    lemma_lookup_passes(t, 33, n, 0);
    lemma_lookup_passes(t, 34, n, 0);
    lemma_lookup_passes(t, 35, n, 0);
    lemma_lookup_passes(t, 36, n, 0);
    lemma_lookup_passes(t, 37, n, 0);
    lemma_lookup_passes(t, 38, n, 0);
    lemma_lookup_passes(t, 39, n, 0);
    lemma_lookup_passes(t, 40, n, 0);
    lemma_lookup_passes(t, 41, n, 0);
    lemma_lookup_passes(t, 42, n, 0);
    lemma_lookup_passes(t, 43, n, 0);
    lemma_lookup_passes(t, 44, n, 0);
    lemma_lookup_passes(t, 45, n, 0);
    lemma_lookup_passes(t, 46, n, 0);
    lemma_lookup_passes(t, 47, n, 0);
    lemma_lookup_passes(t, 48, n, 0);
    lemma_lookup_passes(t, 49, n, 0);
    lemma_lookup_passes(t, 50, n, 0);
    lemma_lookup_passes(t, 51, n, 0);
    lemma_lookup_passes(t, 52, n, 0);
    lemma_lookup_passes(t, 53, n, 0);
    lemma_lookup_passes(t, 54, n, 0);
    lemma_lookup_passes(t, 55, n, 0);
    lemma_lookup_passes(t, 56, n, 0);
    lemma_lookup_passes(t, 57, n, 0);
    lemma_lookup_passes(t, 58, n, 0);
    lemma_lookup_passes(t, 59, n, 0);
    lemma_lookup_passes(t, 60, n, 0);
    lemma_lookup_passes(t, 61, n, 0);
    lemma_lookup_passes(t, 62, n, 0);
    lemma_lookup_passes(t, 63, n, 0);
    lemma_lookup_passes(t, 64, n, 0);
    lemma_lookup_passes(t, 65, n, 0);
    lemma_lookup_passes(t, 66, n, 0);
    lemma_lookup_passes(t, 67, n, 0);
    lemma_lookup_passes(t, 68, n, 0);
    lemma_lookup_passes(t, 69, n, 0);
    lemma_lookup_passes(t, 70, n, 0);
    lemma_lookup_passes(t, 71, n, 0);
    lemma_lookup_passes(t, 72, n, 0);
    lemma_lookup_passes(t, 73, n, 0);
    lemma_lookup_passes(t, 74, n, 0);
    lemma_lookup_passes(t, 75, n, 0);
    lemma_lookup_finds(t, 76, n);
}

proof fn lemma_resolves_77()
    ensures
        resolve_key_spec("pause"@) == Some(KEY_PAUSE),
{
    reveal_strlit("caps_lock");
    reveal_strlit("delete");
    reveal_strlit("down_arrow");
    reveal_strlit("end");
    reveal_strlit("enter");
    reveal_strlit("escape");
    reveal_strlit("f1");
    reveal_strlit("f10");
    reveal_strlit("f11");
    reveal_strlit("f12");
    reveal_strlit("f13");
    reveal_strlit("f14");
    reveal_strlit("f15");
    reveal_strlit("f16");
    reveal_strlit("f17");
    reveal_strlit("f18");
    reveal_strlit("f19");
    reveal_strlit("f2");
    reveal_strlit("f20");
    reveal_strlit("f3");
    reveal_strlit("f4");
    reveal_strlit("f5");
    reveal_strlit("f6");
    reveal_strlit("f7");
    reveal_strlit("f8");
    reveal_strlit("f9");
    reveal_strlit("fn");
    reveal_strlit("fn_key");
    reveal_strlit("forward_delete");
    reveal_strlit("home");
    reveal_strlit("insert");
    reveal_strlit("left_alt");
    reveal_strlit("left_arrow");
    reveal_strlit("left_cmd");
    reveal_strlit("left_command");
    reveal_strlit("left_control");
    reveal_strlit("left_ctrl");
    reveal_strlit("left_option");
    reveal_strlit("left_shift");
    reveal_strlit("numpad_0");
    reveal_strlit("numpad_1");
    reveal_strlit("numpad_2");
    reveal_strlit("numpad_3");
    reveal_strlit("numpad_4");
    reveal_strlit("numpad_5");
    reveal_strlit("numpad_6");
    reveal_strlit("numpad_7");
    reveal_strlit("numpad_8");
    reveal_strlit("numpad_9");
    reveal_strlit("numpad_add");
    reveal_strlit("numpad_clear");
    reveal_strlit("numpad_decimal");
    reveal_strlit("numpad_divide");
    reveal_strlit("numpad_dot");
    reveal_strlit("numpad_enter");
    reveal_strlit("numpad_equals");
    reveal_strlit("numpad_minus");
    reveal_strlit("numpad_multiply");
    reveal_strlit("numpad_plus");
    reveal_strlit("numpad_subtract");
    reveal_strlit("page_down");
    reveal_strlit("page_up");
    reveal_strlit("pause");
    reveal_strlit("print_screen");
    reveal_strlit("return");
    reveal_strlit("return_key");
    reveal_strlit("right_alt");
    reveal_strlit("right_arrow");
    reveal_strlit("right_cmd");
    reveal_strlit("right_command");
    reveal_strlit("right_control");
    reveal_strlit("right_ctrl");
    reveal_strlit("right_option");
    reveal_strlit("right_shift");
    reveal_strlit("scroll_lock");
    reveal_strlit("space");
    reveal_strlit("tab");
    reveal_strlit("up_arrow");
    let t = key_table();
    let n = "pause"@;
    assert(t.skip(0) =~= t);
    lemma_lookup_passes(t, 0, n, 0);
    lemma_lookup_passes(t, 1, n, 0);
    lemma_lookup_passes(t, 2, n, 0);
    lemma_lookup_passes(t, 3, n, 0);
    lemma_lookup_passes(t, 4, n, 0);
    lemma_lookup_passes(t, 5, n, 0);
    lemma_lookup_passes(t, 6, n, 0);
    lemma_lookup_passes(t, 7, n, 0);
    lemma_lookup_passes(t, 8, n, 0);
    lemma_lookup_passes(t, 9, n, 0);
    lemma_lookup_passes(t, 10, n, 0);
    lemma_lookup_passes(t, 11, n, 0);
    lemma_lookup_passes(t, 12, n, 0);
    lemma_lookup_passes(t, 13, n, 0);
    lemma_lookup_passes(t, 14, n, 0);
    lemma_lookup_passes(t, 15, n, 0);
    lemma_lookup_passes(t, 16, n, 0);
    lemma_lookup_passes(t, 17, n, 0);
    lemma_lookup_passes(t, 18, n, 0);
    lemma_lookup_passes(t, 19, n, 0);
    lemma_lookup_passes(t, 20, n, 0);
    lemma_lookup_passes(t, 21, n, 0);
    lemma_lookup_passes(t, 22, n, 0);
    lemma_lookup_passes(t, 23, n, 0);
    lemma_lookup_passes(t, 24, n, 0);
    lemma_lookup_passes(t, 25, n, 0);
    lemma_lookup_passes(t, 26, n, 0);
    lemma_lookup_passes(t, 27, n, 0);
    lemma_lookup_passes(t, 28, n, 0);
    lemma_lookup_passes(t, 29, n, 0);
    lemma_lookup_passes(t, 30, n, 0);
    lemma_lookup_passes(t, 31, n, 0);
    lemma_lookup_passes(t, 32, n, 0);
    lemma_lookup_passes(t, 33, n, 0);
    lemma_lookup_passes(t, 34, n, 0);
    lemma_lookup_passes(t, 35, n, 0);
    lemma_lookup_passes(t, 36, n, 0);
    lemma_lookup_passes(t, 37, n, 0);
    lemma_lookup_passes(t, 38, n, 0);
    lemma_lookup_passes(t, 39, n, 0);
    lemma_lookup_passes(t, 40, n, 0);
    lemma_lookup_passes(t, 41, n, 0);
    lemma_lookup_passes(t, 42, n, 0);
    lemma_lookup_passes(t, 43, n, 0);
    lemma_lookup_passes(t, 44, n, 0);
    lemma_lookup_passes(t, 45, n, 0);
    lemma_lookup_passes(t, 46, n, 0);
    lemma_lookup_passes(t, 47, n, 0);
    lemma_lookup_passes(t, 48, n, 0);
    lemma_lookup_passes(t, 49, n, 0);
    lemma_lookup_passes(t, 50, n, 0);
    lemma_lookup_passes(t, 51, n, 0);
    lemma_lookup_passes(t, 52, n, 0);
    lemma_lookup_passes(t, 53, n, 0);
    lemma_lookup_passes(t, 54, n, 0);
    lemma_lookup_passes(t, 55, n, 0);
    lemma_lookup_passes(t, 56, n, 0);
    lemma_lookup_passes(t, 57, n, 0);
    lemma_lookup_passes(t, 58, n, 0);
    lemma_lookup_passes(t, 59, n, 0);
    lemma_lookup_passes(t, 60, n, 0);
    lemma_lookup_passes(t, 61, n, 0);
    lemma_lookup_passes(t, 62, n, 0);
    lemma_lookup_passes(t, 63, n, 0);
    lemma_lookup_passes(t, 64, n, 0);
    lemma_lookup_passes(t, 65, n, 0);
    lemma_lookup_passes(t, 66, n, 0);
    lemma_lookup_passes(t, 67, n, 0);
    lemma_lookup_passes(t, 68, n, 0);
    lemma_lookup_passes(t, 69, n, 0);
    lemma_lookup_passes(t, 70, n, 0);
    lemma_lookup_passes(t, 71, n, 0);
    lemma_lookup_passes(t, 72, n, 0);
    lemma_lookup_passes(t, 73, n, 0);
    lemma_lookup_passes(t, 74, n, 0);
    lemma_lookup_passes(t, 75, n, 0);
    lemma_lookup_passes(t, 76, n, 0);
    lemma_lookup_finds(t, 77, n);
}

proof fn lemma_resolves_78()
    ensures
        resolve_key_spec("num_lock"@) == Some(KEY_NUMLOCK),
{
    reveal_strlit("caps_lock");
    reveal_strlit("delete");
    reveal_strlit("down_arrow");
    reveal_strlit("end");
    reveal_strlit("enter");
    reveal_strlit("escape");
    reveal_strlit("f1");
    reveal_strlit("f10");
    reveal_strlit("f11");
    reveal_strlit("f12");
    reveal_strlit("f13");
    reveal_strlit("f14");
    reveal_strlit("f15");
    reveal_strlit("f16");
    reveal_strlit("f17");
    reveal_strlit("f18");
    reveal_strlit("f19");
    reveal_strlit("f2");
    reveal_strlit("f20");
    reveal_strlit("f3");
    reveal_strlit("f4");
    reveal_strlit("f5");
    reveal_strlit("f6");
    reveal_strlit("f7");
    reveal_strlit("f8");
    reveal_strlit("f9");
    reveal_strlit("fn");
    reveal_strlit("fn_key");
    reveal_strlit("forward_delete");
    reveal_strlit("home");
    reveal_strlit("insert");
    reveal_strlit("left_alt");
    reveal_strlit("left_arrow");
    reveal_strlit("left_cmd");
    reveal_strlit("left_command");
    reveal_strlit("left_control");
    reveal_strlit("left_ctrl");
    reveal_strlit("left_option");
    reveal_strlit("left_shift");
    reveal_strlit("num_lock");
    reveal_strlit("numpad_0");
    reveal_strlit("numpad_1");
    reveal_strlit("numpad_2");
    reveal_strlit("numpad_3");
    reveal_strlit("numpad_4");
    reveal_strlit("numpad_5");
    reveal_strlit("numpad_6");
    reveal_strlit("numpad_7");
    reveal_strlit("numpad_8");
    reveal_strlit("numpad_9");
    reveal_strlit("numpad_add");
    reveal_strlit("numpad_clear");
    reveal_strlit("numpad_decimal");
    reveal_strlit("numpad_divide");
    reveal_strlit("numpad_dot");
    reveal_strlit("numpad_enter");
    reveal_strlit("numpad_equals");
    reveal_strlit("numpad_minus");
    reveal_strlit("numpad_multiply");
    reveal_strlit("numpad_plus");
    reveal_strlit("numpad_subtract");
    reveal_strlit("page_down");
    reveal_strlit("page_up");
    reveal_strlit("pause");
    reveal_strlit("print_screen");
    reveal_strlit("return");
    reveal_strlit("return_key");
    reveal_strlit("right_alt");
    reveal_strlit("right_arrow");
    reveal_strlit("right_cmd");
    reveal_strlit("right_command");
    reveal_strlit("right_control");
    reveal_strlit("right_ctrl");
    reveal_strlit("right_option");
    reveal_strlit("right_shift");
    reveal_strlit("scroll_lock");
    reveal_strlit("space");
    reveal_strlit("tab");
    reveal_strlit("up_arrow");
    let t = key_table();
    let n = "num_lock"@;
    assert(t.skip(0) =~= t);
    lemma_lookup_passes(t, 0, n, 3);
    lemma_lookup_passes(t, 1, n, 3);
    lemma_lookup_passes(t, 2, n, 3);
    lemma_lookup_passes(t, 3, n, 3);
    lemma_lookup_passes(t, 4, n, 3);
    lemma_lookup_passes(t, 5, n, 3);
    lemma_lookup_passes(t, 6, n, 3);
    lemma_lookup_passes(t, 7, n, 3);
    lemma_lookup_passes(t, 8, n, 3);
    lemma_lookup_passes(t, 9, n, 3);
    lemma_lookup_passes(t, 10, n, 0);
    lemma_lookup_passes(t, 11, n, 0);
    lemma_lookup_passes(t, 12, n, 0);
    lemma_lookup_passes(t, 13, n, 0);
    lemma_lookup_passes(t, 14, n, 0);
    lemma_lookup_passes(t, 15, n, 0);
    lemma_lookup_passes(t, 16, n, 0);
    lemma_lookup_passes(t, 17, n, 0);
    lemma_lookup_passes(t, 18, n, 0);
    lemma_lookup_passes(t, 19, n, 0);
    lemma_lookup_passes(t, 20, n, 0);
    lemma_lookup_passes(t, 21, n, 0);
    lemma_lookup_passes(t, 22, n, 0);
    lemma_lookup_passes(t, 23, n, 0);
    lemma_lookup_passes(t, 24, n, 0);
    lemma_lookup_passes(t, 25, n, 0);
    lemma_lookup_passes(t, 26, n, 0);
    lemma_lookup_passes(t, 27, n, 0);
    lemma_lookup_passes(t, 28, n, 0);
    lemma_lookup_passes(t, 29, n, 0);
    lemma_lookup_passes(t, 30, n, 0);
    lemma_lookup_passes(t, 31, n, 0);
    lemma_lookup_passes(t, 32, n, 0);
    lemma_lookup_passes(t, 33, n, 0);
    lemma_lookup_passes(t, 34, n, 0);
    lemma_lookup_passes(t, 35, n, 0);
    lemma_lookup_passes(t, 36, n, 0);
    lemma_lookup_passes(t, 37, n, 0);
    lemma_lookup_passes(t, 38, n, 0);
    lemma_lookup_passes(t, 39, n, 0);
    lemma_lookup_passes(t, 40, n, 0);
    lemma_lookup_passes(t, 41, n, 0);
    lemma_lookup_passes(t, 42, n, 0);
    lemma_lookup_passes(t, 43, n, 0);
    lemma_lookup_passes(t, 44, n, 0);
    lemma_lookup_passes(t, 45, n, 0);
    lemma_lookup_passes(t, 46, n, 0);
    lemma_lookup_passes(t, 47, n, 0);
    lemma_lookup_passes(t, 48, n, 0);
    lemma_lookup_passes(t, 49, n, 0);
    lemma_lookup_passes(t, 50, n, 0);
    lemma_lookup_passes(t, 51, n, 0);
    lemma_lookup_passes(t, 52, n, 0);
    lemma_lookup_passes(t, 53, n, 0);
    lemma_lookup_passes(t, 54, n, 0);
    lemma_lookup_passes(t, 55, n, 0);
    lemma_lookup_passes(t, 56, n, 0);
    lemma_lookup_passes(t, 57, n, 0);
    lemma_lookup_passes(t, 58, n, 0);
    lemma_lookup_passes(t, 59, n, 0);
    lemma_lookup_passes(t, 60, n, 0);
    lemma_lookup_passes(t, 61, n, 0);
    lemma_lookup_passes(t, 62, n, 0);
    lemma_lookup_passes(t, 63, n, 0);
    lemma_lookup_passes(t, 64, n, 0);
    lemma_lookup_passes(t, 65, n, 0);
    lemma_lookup_passes(t, 66, n, 0);
    lemma_lookup_passes(t, 67, n, 0);
    lemma_lookup_passes(t, 68, n, 0);
    lemma_lookup_passes(t, 69, n, 0);
    lemma_lookup_passes(t, 70, n, 0);
    lemma_lookup_passes(t, 71, n, 0);
    lemma_lookup_passes(t, 72, n, 0);
    lemma_lookup_passes(t, 73, n, 0);
    lemma_lookup_passes(t, 74, n, 0);
    lemma_lookup_passes(t, 75, n, 0);
    lemma_lookup_passes(t, 76, n, 0);
    lemma_lookup_passes(t, 77, n, 0);
    lemma_lookup_finds(t, 78, n);
}

proof fn lemma_resolves_79()
    ensures
        resolve_key_spec("section"@) == Some(KEY_102ND),
{
    reveal_strlit("caps_lock");
    reveal_strlit("delete");
    reveal_strlit("down_arrow");
    reveal_strlit("end");
    reveal_strlit("enter");
    reveal_strlit("escape");
    reveal_strlit("f1");
    reveal_strlit("f10");
    reveal_strlit("f11");
    reveal_strlit("f12");
    reveal_strlit("f13");
    reveal_strlit("f14");
    reveal_strlit("f15");
    reveal_strlit("f16");
    reveal_strlit("f17");
    reveal_strlit("f18");
    reveal_strlit("f19");
    reveal_strlit("f2");
    reveal_strlit("f20");
    reveal_strlit("f3");
    reveal_strlit("f4");
    reveal_strlit("f5");
    reveal_strlit("f6");
    reveal_strlit("f7");
    reveal_strlit("f8");
    reveal_strlit("f9");
    reveal_strlit("fn");
    reveal_strlit("fn_key");
    reveal_strlit("forward_delete");
    reveal_strlit("home");
    reveal_strlit("insert");
    reveal_strlit("left_alt");
    reveal_strlit("left_arrow");
    reveal_strlit("left_cmd");
    reveal_strlit("left_command");
    reveal_strlit("left_control");
    reveal_strlit("left_ctrl");
    reveal_strlit("left_option");
    reveal_strlit("left_shift");
    reveal_strlit("num_lock");
    reveal_strlit("numpad_0");
    reveal_strlit("numpad_1");
    reveal_strlit("numpad_2");
    reveal_strlit("numpad_3");
    reveal_strlit("numpad_4");
    reveal_strlit("numpad_5");
    reveal_strlit("numpad_6");
    reveal_strlit("numpad_7");
    reveal_strlit("numpad_8");
    reveal_strlit("numpad_9");
    reveal_strlit("numpad_add");
    reveal_strlit("numpad_clear");
    reveal_strlit("numpad_decimal");
    reveal_strlit("numpad_divide");
    reveal_strlit("numpad_dot");
    reveal_strlit("numpad_enter");
    reveal_strlit("numpad_equals");
    reveal_strlit("numpad_minus");
    reveal_strlit("numpad_multiply");
    reveal_strlit("numpad_plus");
    reveal_strlit("numpad_subtract");
    reveal_strlit("page_down");
    reveal_strlit("page_up");
    reveal_strlit("pause");
    reveal_strlit("print_screen");
    reveal_strlit("return");
    reveal_strlit("return_key");
    reveal_strlit("right_alt");
    reveal_strlit("right_arrow");
    reveal_strlit("right_cmd");
    reveal_strlit("right_command");
    reveal_strlit("right_control");
    reveal_strlit("right_ctrl");
    reveal_strlit("right_option");
    reveal_strlit("right_shift");
    reveal_strlit("scroll_lock");
    reveal_strlit("section");
    reveal_strlit("space");
    reveal_strlit("tab");
    reveal_strlit("up_arrow");
    let t = key_table();
    let n = "section"@;
    assert(t.skip(0) =~= t);
    lemma_lookup_passes(t, 0, n, 0);
    lemma_lookup_passes(t, 1, n, 0);
    lemma_lookup_passes(t, 2, n, 0);
    lemma_lookup_passes(t, 3, n, 0);
    lemma_lookup_passes(t, 4, n, 0);
    lemma_lookup_passes(t, 5, n, 0);
    lemma_lookup_passes(t, 6, n, 0);
    lemma_lookup_passes(t, 7, n, 0);
    lemma_lookup_passes(t, 8, n, 0);
    lemma_lookup_passes(t, 9, n, 0);
    lemma_lookup_passes(t, 10, n, 0);
    lemma_lookup_passes(t, 11, n, 0);
    lemma_lookup_passes(t, 12, n, 0);
    lemma_lookup_passes(t, 13, n, 0);
    lemma_lookup_passes(t, 14, n, 0);
    lemma_lookup_passes(t, 15, n, 0);
    lemma_lookup_passes(t, 16, n, 0);
    lemma_lookup_passes(t, 17, n, 0);
    lemma_lookup_passes(t, 18, n, 0);
    lemma_lookup_passes(t, 19, n, 0);
    lemma_lookup_passes(t, 20, n, 0);
    lemma_lookup_passes(t, 21, n, 0);
    lemma_lookup_passes(t, 22, n, 0);
    lemma_lookup_passes(t, 23, n, 0);
    lemma_lookup_passes(t, 24, n, 0);
    lemma_lookup_passes(t, 25, n, 0);
    lemma_lookup_passes(t, 26, n, 0);
    lemma_lookup_passes(t, 27, n, 0);
    lemma_lookup_passes(t, 28, n, 0);
    lemma_lookup_passes(t, 29, n, 0);
    lemma_lookup_passes(t, 30, n, 0);
    lemma_lookup_passes(t, 31, n, 0);
    lemma_lookup_passes(t, 32, n, 0);
    lemma_lookup_passes(t, 33, n, 0);
    lemma_lookup_passes(t, 34, n, 0);
    lemma_lookup_passes(t, 35, n, 0);
    lemma_lookup_passes(t, 36, n, 0);
    lemma_lookup_passes(t, 37, n, 0);
    lemma_lookup_passes(t, 38, n, 0);
    lemma_lookup_passes(t, 39, n, 0);
    lemma_lookup_passes(t, 40, n, 0);
    lemma_lookup_passes(t, 41, n, 0);
    lemma_lookup_passes(t, 42, n, 0);
    lemma_lookup_passes(t, 43, n, 0);
    lemma_lookup_passes(t, 44, n, 0);
    lemma_lookup_passes(t, 45, n, 0);
    lemma_lookup_passes(t, 46, n, 0);
    lemma_lookup_passes(t, 47, n, 0);
    lemma_lookup_passes(t, 48, n, 0);
    lemma_lookup_passes(t, 49, n, 0);
    lemma_lookup_passes(t, 50, n, 0);
    lemma_lookup_passes(t, 51, n, 0);
    lemma_lookup_passes(t, 52, n, 0);
    lemma_lookup_passes(t, 53, n, 0);
    lemma_lookup_passes(t, 54, n, 0);
    lemma_lookup_passes(t, 55, n, 0);
    lemma_lookup_passes(t, 56, n, 0);
    lemma_lookup_passes(t, 57, n, 0);
    lemma_lookup_passes(t, 58, n, 0);
    lemma_lookup_passes(t, 59, n, 0);
    lemma_lookup_passes(t, 60, n, 0);
    lemma_lookup_passes(t, 61, n, 0);
    lemma_lookup_passes(t, 62, n, 0);
    lemma_lookup_passes(t, 63, n, 0);
    lemma_lookup_passes(t, 64, n, 0);
    lemma_lookup_passes(t, 65, n, 0);
    lemma_lookup_passes(t, 66, n, 0);
    lemma_lookup_passes(t, 67, n, 0);
    lemma_lookup_passes(t, 68, n, 0);
    lemma_lookup_passes(t, 69, n, 0);
    lemma_lookup_passes(t, 70, n, 0);
    lemma_lookup_passes(t, 71, n, 0);
    lemma_lookup_passes(t, 72, n, 0);
    lemma_lookup_passes(t, 73, n, 0);
    lemma_lookup_passes(t, 74, n, 0);
    lemma_lookup_passes(t, 75, n, 0);
    lemma_lookup_passes(t, 76, n, 0);
    lemma_lookup_passes(t, 77, n, 0);
    lemma_lookup_passes(t, 78, n, 0);
    lemma_lookup_finds(t, 79, n);
}

proof fn lemma_resolves_80()
    ensures
        resolve_key_spec("grave"@) == Some(KEY_GRAVE),
{
    reveal_strlit("caps_lock");
    reveal_strlit("delete");
    reveal_strlit("down_arrow");
    reveal_strlit("end");
    reveal_strlit("enter");
    reveal_strlit("escape");
    reveal_strlit("f1");
    reveal_strlit("f10");
    reveal_strlit("f11");
    reveal_strlit("f12");
    reveal_strlit("f13");
    reveal_strlit("f14");
    reveal_strlit("f15");
    reveal_strlit("f16");
    reveal_strlit("f17");
    reveal_strlit("f18");
    reveal_strlit("f19");
    reveal_strlit("f2");
    reveal_strlit("f20");
    reveal_strlit("f3");
    reveal_strlit("f4");
    reveal_strlit("f5");
    reveal_strlit("f6");
    reveal_strlit("f7");
    reveal_strlit("f8");
    reveal_strlit("f9");
    reveal_strlit("fn");
    reveal_strlit("fn_key");
    reveal_strlit("forward_delete");
    reveal_strlit("grave");
    reveal_strlit("home");
    reveal_strlit("insert");
    reveal_strlit("left_alt");
    reveal_strlit("left_arrow");
    reveal_strlit("left_cmd");
    reveal_strlit("left_command");
    reveal_strlit("left_control");
    reveal_strlit("left_ctrl");
    reveal_strlit("left_option");
    reveal_strlit("left_shift");
    reveal_strlit("num_lock");
    reveal_strlit("numpad_0");
    reveal_strlit("numpad_1");
    reveal_strlit("numpad_2");
    reveal_strlit("numpad_3");
    reveal_strlit("numpad_4");
    reveal_strlit("numpad_5");
    reveal_strlit("numpad_6");
    reveal_strlit("numpad_7");
    reveal_strlit("numpad_8");
    reveal_strlit("numpad_9");
    reveal_strlit("numpad_add");
    reveal_strlit("numpad_clear");
    reveal_strlit("numpad_decimal");
    reveal_strlit("numpad_divide");
    reveal_strlit("numpad_dot");
    reveal_strlit("numpad_enter");
    reveal_strlit("numpad_equals");
    reveal_strlit("numpad_minus");
    reveal_strlit("numpad_multiply");
    reveal_strlit("numpad_plus");
    reveal_strlit("numpad_subtract");
    reveal_strlit("page_down");
    reveal_strlit("page_up");
    reveal_strlit("pause");
    reveal_strlit("print_screen");
    reveal_strlit("return");
    reveal_strlit("return_key");
    reveal_strlit("right_alt");
    reveal_strlit("right_arrow");
    reveal_strlit("right_cmd");
    reveal_strlit("right_command");
    reveal_strlit("right_control");
    reveal_strlit("right_ctrl");
    reveal_strlit("right_option");
    reveal_strlit("right_shift");
    reveal_strlit("scroll_lock");
    reveal_strlit("section");
    reveal_strlit("space");
    reveal_strlit("tab");
    reveal_strlit("up_arrow");
    let t = key_table();
    let n = "grave"@;
    assert(t.skip(0) =~= t);
    lemma_lookup_passes(t, 0, n, 0);
    lemma_lookup_passes(t, 1, n, 0);
    lemma_lookup_passes(t, 2, n, 0);
    lemma_lookup_passes(t, 3, n, 0);
    lemma_lookup_passes(t, 4, n, 0);
    lemma_lookup_passes(t, 5, n, 0);
    lemma_lookup_passes(t, 6, n, 0);
    lemma_lookup_passes(t, 7, n, 0);
    lemma_lookup_passes(t, 8, n, 0);
    lemma_lookup_passes(t, 9, n, 0);
    lemma_lookup_passes(t, 10, n, 0);
    lemma_lookup_passes(t, 11, n, 0);
    lemma_lookup_passes(t, 12, n, 0);
    lemma_lookup_passes(t, 13, n, 0);
    lemma_lookup_passes(t, 14, n, 0);
    lemma_lookup_passes(t, 15, n, 0);
    lemma_lookup_passes(t, 16, n, 0);
    lemma_lookup_passes(t, 17, n, 0);
    lemma_lookup_passes(t, 18, n, 0);
    lemma_lookup_passes(t, 19, n, 0);
    lemma_lookup_passes(t, 20, n, 0);
    lemma_lookup_passes(t, 21, n, 0);
    lemma_lookup_passes(t, 22, n, 0);
    lemma_lookup_passes(t, 23, n, 0);
    lemma_lookup_passes(t, 24, n, 0);
    lemma_lookup_passes(t, 25, n, 0);
    lemma_lookup_passes(t, 26, n, 0);
    lemma_lookup_passes(t, 27, n, 0);
    lemma_lookup_passes(t, 28, n, 0);
    lemma_lookup_passes(t, 29, n, 0);
    lemma_lookup_passes(t, 30, n, 0);
    lemma_lookup_passes(t, 31, n, 0);
    lemma_lookup_passes(t, 32, n, 0);
    lemma_lookup_passes(t, 33, n, 0);
    lemma_lookup_passes(t, 34, n, 0);
    lemma_lookup_passes(t, 35, n, 0);
    lemma_lookup_passes(t, 36, n, 0);
    lemma_lookup_passes(t, 37, n, 0);
    lemma_lookup_passes(t, 38, n, 0);
    lemma_lookup_passes(t, 39, n, 0);
    lemma_lookup_passes(t, 40, n, 0);
    lemma_lookup_passes(t, 41, n, 0);
    lemma_lookup_passes(t, 42, n, 0);
    lemma_lookup_passes(t, 43, n, 0);
    lemma_lookup_passes(t, 44, n, 0);
    lemma_lookup_passes(t, 45, n, 0);
    lemma_lookup_passes(t, 46, n, 0);
    lemma_lookup_passes(t, 47, n, 0);
    lemma_lookup_passes(t, 48, n, 0);
    lemma_lookup_passes(t, 49, n, 0);
    lemma_lookup_passes(t, 50, n, 0);
    lemma_lookup_passes(t, 51, n, 0);
    lemma_lookup_passes(t, 52, n, 0);
    lemma_lookup_passes(t, 53, n, 0);
    lemma_lookup_passes(t, 54, n, 0);
    lemma_lookup_passes(t, 55, n, 0);
    lemma_lookup_passes(t, 56, n, 0);
    lemma_lookup_passes(t, 57, n, 0);
    lemma_lookup_passes(t, 58, n, 0);
    lemma_lookup_passes(t, 59, n, 0);
    lemma_lookup_passes(t, 60, n, 0);
    lemma_lookup_passes(t, 61, n, 0);
    lemma_lookup_passes(t, 62, n, 0);
    lemma_lookup_passes(t, 63, n, 0);
    lemma_lookup_passes(t, 64, n, 0);
    lemma_lookup_passes(t, 65, n, 0);
    lemma_lookup_passes(t, 66, n, 0);
    lemma_lookup_passes(t, 67, n, 0);
    lemma_lookup_passes(t, 68, n, 0);
    lemma_lookup_passes(t, 69, n, 0);
    lemma_lookup_passes(t, 70, n, 0);
    lemma_lookup_passes(t, 71, n, 0);
    lemma_lookup_passes(t, 72, n, 0);
    lemma_lookup_passes(t, 73, n, 0);
    lemma_lookup_passes(t, 74, n, 0);
    lemma_lookup_passes(t, 75, n, 0);
    lemma_lookup_passes(t, 76, n, 0);
    lemma_lookup_passes(t, 77, n, 0);
    lemma_lookup_passes(t, 78, n, 0);
    lemma_lookup_passes(t, 79, n, 0);
    lemma_lookup_finds(t, 80, n);
}

proof fn lemma_resolves_81()
    ensures
        resolve_key_spec("minus"@) == Some(KEY_MINUS),
{
    reveal_strlit("caps_lock");
    reveal_strlit("delete");
    reveal_strlit("down_arrow");
    reveal_strlit("end");
    reveal_strlit("enter");
    reveal_strlit("escape");
    reveal_strlit("f1");
    reveal_strlit("f10");
    reveal_strlit("f11");
    reveal_strlit("f12");
    reveal_strlit("f13");
    reveal_strlit("f14");
    reveal_strlit("f15");
    reveal_strlit("f16");
    reveal_strlit("f17");
    reveal_strlit("f18");
    reveal_strlit("f19");
    reveal_strlit("f2");
    reveal_strlit("f20");
    reveal_strlit("f3");
    reveal_strlit("f4");
    reveal_strlit("f5");
    reveal_strlit("f6");
    reveal_strlit("f7");
    reveal_strlit("f8");
    reveal_strlit("f9");
    reveal_strlit("fn");
    reveal_strlit("fn_key");
    reveal_strlit("forward_delete");
    reveal_strlit("grave");
    reveal_strlit("home");
    reveal_strlit("insert");
    reveal_strlit("left_alt");
    reveal_strlit("left_arrow");
    reveal_strlit("left_cmd");
    reveal_strlit("left_command");
    reveal_strlit("left_control");
    reveal_strlit("left_ctrl");
    reveal_strlit("left_option");
    reveal_strlit("left_shift");
    reveal_strlit("minus");
    reveal_strlit("num_lock");
    reveal_strlit("numpad_0");
    reveal_strlit("numpad_1");
    reveal_strlit("numpad_2");
    reveal_strlit("numpad_3");
    reveal_strlit("numpad_4");
    reveal_strlit("numpad_5");
    reveal_strlit("numpad_6");
    reveal_strlit("numpad_7");
    reveal_strlit("numpad_8");
    reveal_strlit("numpad_9");
    reveal_strlit("numpad_add");
    reveal_strlit("numpad_clear");
    reveal_strlit("numpad_decimal");
    reveal_strlit("numpad_divide");
    reveal_strlit("numpad_dot");
    reveal_strlit("numpad_enter");
    reveal_strlit("numpad_equals");
    reveal_strlit("numpad_minus");
    reveal_strlit("numpad_multiply");
    reveal_strlit("numpad_plus");
    reveal_strlit("numpad_subtract");
    reveal_strlit("page_down");
    reveal_strlit("page_up");
    reveal_strlit("pause");
    reveal_strlit("print_screen");
    reveal_strlit("return");
    reveal_strlit("return_key");
    reveal_strlit("right_alt");
    reveal_strlit("right_arrow");
    reveal_strlit("right_cmd");
    reveal_strlit("right_command");
    reveal_strlit("right_control");
    reveal_strlit("right_ctrl");
    reveal_strlit("right_option");
    reveal_strlit("right_shift");
    reveal_strlit("scroll_lock");
    reveal_strlit("section");
    reveal_strlit("space");
    reveal_strlit("tab");
    reveal_strlit("up_arrow");
    let t = key_table();
    let n = "minus"@;
    assert(t.skip(0) =~= t);
    lemma_lookup_passes(t, 0, n, 0);
    lemma_lookup_passes(t, 1, n, 0);
    lemma_lookup_passes(t, 2, n, 0);
    lemma_lookup_passes(t, 3, n, 0);
    lemma_lookup_passes(t, 4, n, 0);
    lemma_lookup_passes(t, 5, n, 0);
    lemma_lookup_passes(t, 6, n, 0);
    lemma_lookup_passes(t, 7, n, 0);
    lemma_lookup_passes(t, 8, n, 0);
    lemma_lookup_passes(t, 9, n, 0);
    lemma_lookup_passes(t, 10, n, 0);
    lemma_lookup_passes(t, 11, n, 0);
    lemma_lookup_passes(t, 12, n, 0);
    lemma_lookup_passes(t, 13, n, 0);
    lemma_lookup_passes(t, 14, n, 0);
    lemma_lookup_passes(t, 15, n, 0);
    lemma_lookup_passes(t, 16, n, 0);
    lemma_lookup_passes(t, 17, n, 0);
    lemma_lookup_passes(t, 18, n, 0);
    lemma_lookup_passes(t, 19, n, 0);
    lemma_lookup_passes(t, 20, n, 0);
    lemma_lookup_passes(t, 21, n, 0);
    lemma_lookup_passes(t, 22, n, 0);
    lemma_lookup_passes(t, 23, n, 0);
    lemma_lookup_passes(t, 24, n, 0);
    lemma_lookup_passes(t, 25, n, 0);
    lemma_lookup_passes(t, 26, n, 0);
    lemma_lookup_passes(t, 27, n, 0);
    lemma_lookup_passes(t, 28, n, 0);
    lemma_lookup_passes(t, 29, n, 0);
    lemma_lookup_passes(t, 30, n, 0);
    lemma_lookup_passes(t, 31, n, 0);
    lemma_lookup_passes(t, 32, n, 0);
    lemma_lookup_passes(t, 33, n, 0);
    lemma_lookup_passes(t, 34, n, 0);
    lemma_lookup_passes(t, 35, n, 0);
    lemma_lookup_passes(t, 36, n, 0);
    lemma_lookup_passes(t, 37, n, 0);
    lemma_lookup_passes(t, 38, n, 0);
    lemma_lookup_passes(t, 39, n, 0);
    lemma_lookup_passes(t, 40, n, 0);
    lemma_lookup_passes(t, 41, n, 0);
    lemma_lookup_passes(t, 42, n, 0);
    lemma_lookup_passes(t, 43, n, 0);
    lemma_lookup_passes(t, 44, n, 0);
    lemma_lookup_passes(t, 45, n, 0);
    lemma_lookup_passes(t, 46, n, 0);
    lemma_lookup_passes(t, 47, n, 0);
    lemma_lookup_passes(t, 48, n, 0);
    lemma_lookup_passes(t, 49, n, 0);
    lemma_lookup_passes(t, 50, n, 0);
    lemma_lookup_passes(t, 51, n, 0);
    lemma_lookup_passes(t, 52, n, 0);
    lemma_lookup_passes(t, 53, n, 0);
    lemma_lookup_passes(t, 54, n, 0);
    lemma_lookup_passes(t, 55, n, 0);
    lemma_lookup_passes(t, 56, n, 0);
    lemma_lookup_passes(t, 57, n, 0);
    lemma_lookup_passes(t, 58, n, 0);
    lemma_lookup_passes(t, 59, n, 0);
    lemma_lookup_passes(t, 60, n, 0);
    lemma_lookup_passes(t, 61, n, 0);
    lemma_lookup_passes(t, 62, n, 0);
    lemma_lookup_passes(t, 63, n, 0);
    lemma_lookup_passes(t, 64, n, 0);
    lemma_lookup_passes(t, 65, n, 0);
    lemma_lookup_passes(t, 66, n, 0);
    lemma_lookup_passes(t, 67, n, 0);
    lemma_lookup_passes(t, 68, n, 0);
    lemma_lookup_passes(t, 69, n, 0);
    lemma_lookup_passes(t, 70, n, 0);
    lemma_lookup_passes(t, 71, n, 0);
    lemma_lookup_passes(t, 72, n, 0);
    lemma_lookup_passes(t, 73, n, 0);
    lemma_lookup_passes(t, 74, n, 0);
    lemma_lookup_passes(t, 75, n, 0);
    lemma_lookup_passes(t, 76, n, 0);
    lemma_lookup_passes(t, 77, n, 0);
    lemma_lookup_passes(t, 78, n, 0);
    lemma_lookup_passes(t, 79, n, 0);
    lemma_lookup_passes(t, 80, n, 0);
    lemma_lookup_finds(t, 81, n);
}

proof fn lemma_resolves_82()
    ensures
        resolve_key_spec("equal"@) == Some(KEY_EQUAL),
{
    reveal_strlit("caps_lock");
    reveal_strlit("delete");
    reveal_strlit("down_arrow");
    reveal_strlit("end");
    reveal_strlit("enter");
    reveal_strlit("equal");
    reveal_strlit("escape");
    reveal_strlit("f1");
    reveal_strlit("f10");
    reveal_strlit("f11");
    reveal_strlit("f12");
    reveal_strlit("f13");
    reveal_strlit("f14");
    reveal_strlit("f15");
    reveal_strlit("f16");
    reveal_strlit("f17");
    reveal_strlit("f18");
    reveal_strlit("f19");
    reveal_strlit("f2");
    reveal_strlit("f20");
    reveal_strlit("f3");
    reveal_strlit("f4");
    reveal_strlit("f5");
    reveal_strlit("f6");
    reveal_strlit("f7");
    reveal_strlit("f8");
    reveal_strlit("f9");
    reveal_strlit("fn");
    reveal_strlit("fn_key");
    reveal_strlit("forward_delete");
    reveal_strlit("grave");
    reveal_strlit("home");
    reveal_strlit("insert");
    reveal_strlit("left_alt");
    reveal_strlit("left_arrow");
    reveal_strlit("left_cmd");
    reveal_strlit("left_command");
    reveal_strlit("left_control");
    reveal_strlit("left_ctrl");
    reveal_strlit("left_option");
    reveal_strlit("left_shift");
    reveal_strlit("minus");
    reveal_strlit("num_lock");
    reveal_strlit("numpad_0");
    reveal_strlit("numpad_1");
    reveal_strlit("numpad_2");
    reveal_strlit("numpad_3");
    reveal_strlit("numpad_4");
    reveal_strlit("numpad_5");
    reveal_strlit("numpad_6");
    reveal_strlit("numpad_7");
    reveal_strlit("numpad_8");
    reveal_strlit("numpad_9");
    reveal_strlit("numpad_add");
    reveal_strlit("numpad_clear");
    reveal_strlit("numpad_decimal");
    reveal_strlit("numpad_divide");
    reveal_strlit("numpad_dot");
    reveal_strlit("numpad_enter");
    reveal_strlit("numpad_equals");
    reveal_strlit("numpad_minus");
    reveal_strlit("numpad_multiply");
    reveal_strlit("numpad_plus");
    reveal_strlit("numpad_subtract");
    reveal_strlit("page_down");
    reveal_strlit("page_up");
    reveal_strlit("pause");
    reveal_strlit("print_screen");
    reveal_strlit("return");
    reveal_strlit("return_key");
    reveal_strlit("right_alt");
    reveal_strlit("right_arrow");
    reveal_strlit("right_cmd");
    reveal_strlit("right_command");
    reveal_strlit("right_control");
    reveal_strlit("right_ctrl");
    reveal_strlit("right_option");
    reveal_strlit("right_shift");
    reveal_strlit("scroll_lock");
    reveal_strlit("section");
    reveal_strlit("space");
    reveal_strlit("tab");
    reveal_strlit("up_arrow");
    let t = key_table();
    let n = "equal"@;
    assert(t.skip(0) =~= t);
    lemma_lookup_passes(t, 0, n, 0);
    lemma_lookup_passes(t, 1, n, 0);
    lemma_lookup_passes(t, 2, n, 0);
    lemma_lookup_passes(t, 3, n, 0);
    lemma_lookup_passes(t, 4, n, 0);
    lemma_lookup_passes(t, 5, n, 0);
    lemma_lookup_passes(t, 6, n, 0);
    lemma_lookup_passes(t, 7, n, 0);
    lemma_lookup_passes(t, 8, n, 0);
    lemma_lookup_passes(t, 9, n, 0);
    lemma_lookup_passes(t, 10, n, 0);
    lemma_lookup_passes(t, 11, n, 0);
    lemma_lookup_passes(t, 12, n, 0);
    lemma_lookup_passes(t, 13, n, 0);
    lemma_lookup_passes(t, 14, n, 0);
    lemma_lookup_passes(t, 15, n, 0);
    lemma_lookup_passes(t, 16, n, 0);
    lemma_lookup_passes(t, 17, n, 0);
    lemma_lookup_passes(t, 18, n, 0);
    lemma_lookup_passes(t, 19, n, 0);
    lemma_lookup_passes(t, 20, n, 0);
    lemma_lookup_passes(t, 21, n, 0);
    lemma_lookup_passes(t, 22, n, 0);
    lemma_lookup_passes(t, 23, n, 0);
    lemma_lookup_passes(t, 24, n, 0);
    lemma_lookup_passes(t, 25, n, 0);
    lemma_lookup_passes(t, 26, n, 0);
    lemma_lookup_passes(t, 27, n, 0);
    lemma_lookup_passes(t, 28, n, 0);
    lemma_lookup_passes(t, 29, n, 0);
    lemma_lookup_passes(t, 30, n, 0);
    lemma_lookup_passes(t, 31, n, 0);
    lemma_lookup_passes(t, 32, n, 0);
    lemma_lookup_passes(t, 33, n, 0);
    lemma_lookup_passes(t, 34, n, 0);
    lemma_lookup_passes(t, 35, n, 0);
    lemma_lookup_passes(t, 36, n, 0);
    lemma_lookup_passes(t, 37, n, 0);
    lemma_lookup_passes(t, 38, n, 0);
    lemma_lookup_passes(t, 39, n, 0);
    lemma_lookup_passes(t, 40, n, 0);
    lemma_lookup_passes(t, 41, n, 0);
    lemma_lookup_passes(t, 42, n, 0);
    lemma_lookup_passes(t, 43, n, 0);
    lemma_lookup_passes(t, 44, n, 0);
    lemma_lookup_passes(t, 45, n, 0);
    lemma_lookup_passes(t, 46, n, 0);
    lemma_lookup_passes(t, 47, n, 0);
    lemma_lookup_passes(t, 48, n, 0);
    lemma_lookup_passes(t, 49, n, 0);
    lemma_lookup_passes(t, 50, n, 0);
    lemma_lookup_passes(t, 51, n, 0);
    lemma_lookup_passes(t, 52, n, 0);
    lemma_lookup_passes(t, 53, n, 0);
    lemma_lookup_passes(t, 54, n, 0);
    lemma_lookup_passes(t, 55, n, 0);
    lemma_lookup_passes(t, 56, n, 0);
    lemma_lookup_passes(t, 57, n, 0);
    lemma_lookup_passes(t, 58, n, 0);
    lemma_lookup_passes(t, 59, n, 0);
    lemma_lookup_passes(t, 60, n, 0);
    lemma_lookup_passes(t, 61, n, 0);
    lemma_lookup_passes(t, 62, n, 0);
    lemma_lookup_passes(t, 63, n, 0);
    lemma_lookup_passes(t, 64, n, 0);
    lemma_lookup_passes(t, 65, n, 1);
    lemma_lookup_passes(t, 66, n, 0);
    lemma_lookup_passes(t, 67, n, 0);
    lemma_lookup_passes(t, 68, n, 0);
    lemma_lookup_passes(t, 69, n, 0);
    lemma_lookup_passes(t, 70, n, 0);
    lemma_lookup_passes(t, 71, n, 0);
    lemma_lookup_passes(t, 72, n, 0);
    lemma_lookup_passes(t, 73, n, 0);
    lemma_lookup_passes(t, 74, n, 0);
    lemma_lookup_passes(t, 75, n, 0);
    lemma_lookup_passes(t, 76, n, 0);
    lemma_lookup_passes(t, 77, n, 0);
    lemma_lookup_passes(t, 78, n, 0);
    lemma_lookup_passes(t, 79, n, 0);
    lemma_lookup_passes(t, 80, n, 0);
    lemma_lookup_passes(t, 81, n, 0);
    lemma_lookup_finds(t, 82, n);
}

proof fn lemma_resolves_83()
    ensures
        resolve_key_spec("left_bracket"@) == Some(KEY_LEFTBRACE),
{
    reveal_strlit("caps_lock");
    reveal_strlit("delete");
    reveal_strlit("down_arrow");
    reveal_strlit("end");
    reveal_strlit("enter");
    reveal_strlit("equal");
    reveal_strlit("escape");
    reveal_strlit("f1");
    reveal_strlit("f10");
    reveal_strlit("f11");
    reveal_strlit("f12");
    reveal_strlit("f13");
    reveal_strlit("f14");
    reveal_strlit("f15");
    reveal_strlit("f16");
    reveal_strlit("f17");
    reveal_strlit("f18");
    reveal_strlit("f19");
    reveal_strlit("f2");
    reveal_strlit("f20");
    reveal_strlit("f3");
    reveal_strlit("f4");
    reveal_strlit("f5");
    reveal_strlit("f6");
    reveal_strlit("f7");
    reveal_strlit("f8");
    reveal_strlit("f9");
    reveal_strlit("fn");
    reveal_strlit("fn_key");
    reveal_strlit("forward_delete");
    reveal_strlit("grave");
    reveal_strlit("home");
    reveal_strlit("insert");
    reveal_strlit("left_alt");
    reveal_strlit("left_arrow");
    reveal_strlit("left_bracket");
    reveal_strlit("left_cmd");
    reveal_strlit("left_command");
    reveal_strlit("left_control");
    reveal_strlit("left_ctrl");
    reveal_strlit("left_option");
    reveal_strlit("left_shift");
    reveal_strlit("minus");
    reveal_strlit("num_lock");
    reveal_strlit("numpad_0");
    reveal_strlit("numpad_1");
    reveal_strlit("numpad_2");
    reveal_strlit("numpad_3");
    reveal_strlit("numpad_4");
    reveal_strlit("numpad_5");
    reveal_strlit("numpad_6");
    reveal_strlit("numpad_7");
    reveal_strlit("numpad_8");
    reveal_strlit("numpad_9");
    reveal_strlit("numpad_add");
    reveal_strlit("numpad_clear");
    reveal_strlit("numpad_decimal");
    reveal_strlit("numpad_divide");
    reveal_strlit("numpad_dot");
    reveal_strlit("numpad_enter");
    reveal_strlit("numpad_equals");
    reveal_strlit("numpad_minus");
    reveal_strlit("numpad_multiply");
    reveal_strlit("numpad_plus");
    reveal_strlit("numpad_subtract");
    reveal_strlit("page_down");
    reveal_strlit("page_up");
    reveal_strlit("pause");
    reveal_strlit("print_screen");
    reveal_strlit("return");
    reveal_strlit("return_key");
    reveal_strlit("right_alt");
    reveal_strlit("right_arrow");
    reveal_strlit("right_cmd");
    reveal_strlit("right_command");
    reveal_strlit("right_control");
    reveal_strlit("right_ctrl");
    reveal_strlit("right_option");
    reveal_strlit("right_shift");
    reveal_strlit("scroll_lock");
    reveal_strlit("section");
    reveal_strlit("space");
    reveal_strlit("tab");
    reveal_strlit("up_arrow");
    let t = key_table();
    let n = "left_bracket"@;
    assert(t.skip(0) =~= t);
    lemma_lookup_passes(t, 0, n, 0);
    lemma_lookup_passes(t, 1, n, 0);
    lemma_lookup_passes(t, 2, n, 0);
    lemma_lookup_passes(t, 3, n, 0);
    lemma_lookup_passes(t, 4, n, 0);
    lemma_lookup_passes(t, 5, n, 0);
    lemma_lookup_passes(t, 6, n, 0);
    lemma_lookup_passes(t, 7, n, 0);
    lemma_lookup_passes(t, 8, n, 0);
    lemma_lookup_passes(t, 9, n, 0);
    lemma_lookup_passes(t, 10, n, 0);
    lemma_lookup_passes(t, 11, n, 0);
    lemma_lookup_passes(t, 12, n, 0);
    lemma_lookup_passes(t, 13, n, 0);
    lemma_lookup_passes(t, 14, n, 0);
    lemma_lookup_passes(t, 15, n, 0);
    lemma_lookup_passes(t, 16, n, 0);
    lemma_lookup_passes(t, 17, n, 0);
    lemma_lookup_passes(t, 18, n, 0);
    lemma_lookup_passes(t, 19, n, 0);
    lemma_lookup_passes(t, 20, n, 0);
    lemma_lookup_passes(t, 21, n, 0);
    lemma_lookup_passes(t, 22, n, 0);
    lemma_lookup_passes(t, 23, n, 0);
    lemma_lookup_passes(t, 24, n, 0);
    lemma_lookup_passes(t, 25, n, 0);
    lemma_lookup_passes(t, 26, n, 0);
    lemma_lookup_passes(t, 27, n, 5);
    lemma_lookup_passes(t, 28, n, 0);
    lemma_lookup_passes(t, 29, n, 0);
    lemma_lookup_passes(t, 30, n, 0);
    lemma_lookup_passes(t, 31, n, 0);
    lemma_lookup_passes(t, 32, n, 0);
    lemma_lookup_passes(t, 33, n, 5);
    lemma_lookup_passes(t, 34, n, 0);
    lemma_lookup_passes(t, 35, n, 0);
    lemma_lookup_passes(t, 36, n, 0);
    lemma_lookup_passes(t, 37, n, 0);
    lemma_lookup_passes(t, 38, n, 0);
    lemma_lookup_passes(t, 39, n, 0);
    lemma_lookup_passes(t, 40, n, 0);
    lemma_lookup_passes(t, 41, n, 0);
    lemma_lookup_passes(t, 42, n, 0);
    lemma_lookup_passes(t, 43, n, 0);
    lemma_lookup_passes(t, 44, n, 0);
    lemma_lookup_passes(t, 45, n, 0);
    lemma_lookup_passes(t, 46, n, 0);
    lemma_lookup_passes(t, 47, n, 0);
    lemma_lookup_passes(t, 48, n, 0);
    lemma_lookup_passes(t, 49, n, 0);
    lemma_lookup_passes(t, 50, n, 0);
    lemma_lookup_passes(t, 51, n, 0);
    lemma_lookup_passes(t, 52, n, 0);
    lemma_lookup_passes(t, 53, n, 0);
    lemma_lookup_passes(t, 54, n, 0);
    lemma_lookup_passes(t, 55, n, 0);
    lemma_lookup_passes(t, 56, n, 0);
    lemma_lookup_passes(t, 57, n, 0);
    lemma_lookup_passes(t, 58, n, 0);
    lemma_lookup_passes(t, 59, n, 0);
    lemma_lookup_passes(t, 60, n, 0);
    lemma_lookup_passes(t, 61, n, 0);
    lemma_lookup_passes(t, 62, n, 0);
    lemma_lookup_passes(t, 63, n, 0);
    lemma_lookup_passes(t, 64, n, 0);
    lemma_lookup_passes(t, 65, n, 0);
    lemma_lookup_passes(t, 66, n, 0);
    lemma_lookup_passes(t, 67, n, 0);
    lemma_lookup_passes(t, 68, n, 0);
    lemma_lookup_passes(t, 69, n, 0);
    lemma_lookup_passes(t, 70, n, 0);
    lemma_lookup_passes(t, 71, n, 0);
    lemma_lookup_passes(t, 72, n, 0);
    lemma_lookup_passes(t, 73, n, 0);
    lemma_lookup_passes(t, 74, n, 0);
    lemma_lookup_passes(t, 75, n, 0);
    lemma_lookup_passes(t, 76, n, 0);
    lemma_lookup_passes(t, 77, n, 0);
    lemma_lookup_passes(t, 78, n, 0);
    lemma_lookup_passes(t, 79, n, 0);
    lemma_lookup_passes(t, 80, n, 0);
    lemma_lookup_passes(t, 81, n, 0);
    lemma_lookup_passes(t, 82, n, 0);
    lemma_lookup_finds(t, 83, n);
}

proof fn lemma_resolves_84()
    ensures
        resolve_key_spec("right_bracket"@) == Some(KEY_RIGHTBRACE),
{
    reveal_strlit("caps_lock");
    reveal_strlit("delete");
    reveal_strlit("down_arrow");
    reveal_strlit("end");
    reveal_strlit("enter");
    reveal_strlit("equal");
    reveal_strlit("escape");
    reveal_strlit("f1");
    reveal_strlit("f10");
    reveal_strlit("f11");
    reveal_strlit("f12");
    reveal_strlit("f13");
    reveal_strlit("f14");
    reveal_strlit("f15");
    reveal_strlit("f16");
    reveal_strlit("f17");
    reveal_strlit("f18");
    reveal_strlit("f19");
    reveal_strlit("f2");
    reveal_strlit("f20");
    reveal_strlit("f3");
    reveal_strlit("f4");
    reveal_strlit("f5");
    reveal_strlit("f6");
    reveal_strlit("f7");
    reveal_strlit("f8");
    reveal_strlit("f9");
    reveal_strlit("fn");
    reveal_strlit("fn_key");
    reveal_strlit("forward_delete");
    reveal_strlit("grave");
    reveal_strlit("home");
    reveal_strlit("insert");
    reveal_strlit("left_alt");
    reveal_strlit("left_arrow");
    reveal_strlit("left_bracket");
    reveal_strlit("left_cmd");
    reveal_strlit("left_command");
    reveal_strlit("left_control");
    reveal_strlit("left_ctrl");
    reveal_strlit("left_option");
    reveal_strlit("left_shift");
    reveal_strlit("minus");
    reveal_strlit("num_lock");
    reveal_strlit("numpad_0");
    reveal_strlit("numpad_1");
    reveal_strlit("numpad_2");
    reveal_strlit("numpad_3");
    reveal_strlit("numpad_4");
    reveal_strlit("numpad_5");
    reveal_strlit("numpad_6");
    reveal_strlit("numpad_7");
    reveal_strlit("numpad_8");
    reveal_strlit("numpad_9");
    reveal_strlit("numpad_add");
    reveal_strlit("numpad_clear");
    reveal_strlit("numpad_decimal");
    reveal_strlit("numpad_divide");
    reveal_strlit("numpad_dot");
    reveal_strlit("numpad_enter");
    reveal_strlit("numpad_equals");
    reveal_strlit("numpad_minus");
    reveal_strlit("numpad_multiply");
    reveal_strlit("numpad_plus");
    reveal_strlit("numpad_subtract");
    reveal_strlit("page_down");
    reveal_strlit("page_up");
    reveal_strlit("pause");
    reveal_strlit("print_screen");
    reveal_strlit("return");
    reveal_strlit("return_key");
    reveal_strlit("right_alt");
    reveal_strlit("right_arrow");
    reveal_strlit("right_bracket");
    reveal_strlit("right_cmd");
    reveal_strlit("right_command");
    reveal_strlit("right_control");
    reveal_strlit("right_ctrl");
    reveal_strlit("right_option");
    reveal_strlit("right_shift");
    reveal_strlit("scroll_lock");
    reveal_strlit("section");
    reveal_strlit("space");
    reveal_strlit("tab");
    reveal_strlit("up_arrow");
    let t = key_table();
    let n = "right_bracket"@;
    assert(t.skip(0) =~= t);
    lemma_lookup_passes(t, 0, n, 0);
    lemma_lookup_passes(t, 1, n, 0);
    lemma_lookup_passes(t, 2, n, 0);
    lemma_lookup_passes(t, 3, n, 0);
    lemma_lookup_passes(t, 4, n, 0);
    lemma_lookup_passes(t, 5, n, 0);
    lemma_lookup_passes(t, 6, n, 0);
    lemma_lookup_passes(t, 7, n, 0);
    lemma_lookup_passes(t, 8, n, 0);
    lemma_lookup_passes(t, 9, n, 0);
    lemma_lookup_passes(t, 10, n, 0);
    lemma_lookup_passes(t, 11, n, 0);
    lemma_lookup_passes(t, 12, n, 0);
    lemma_lookup_passes(t, 13, n, 0);
    lemma_lookup_passes(t, 14, n, 0);
    lemma_lookup_passes(t, 15, n, 0);
    lemma_lookup_passes(t, 16, n, 0);
    lemma_lookup_passes(t, 17, n, 0);
    lemma_lookup_passes(t, 18, n, 0);
    lemma_lookup_passes(t, 19, n, 0);
    lemma_lookup_passes(t, 20, n, 0);
    lemma_lookup_passes(t, 21, n, 0);
    lemma_lookup_passes(t, 22, n, 0);
    lemma_lookup_passes(t, 23, n, 0);
    lemma_lookup_passes(t, 24, n, 0);
    lemma_lookup_passes(t, 25, n, 6);
    lemma_lookup_passes(t, 26, n, 0);
    lemma_lookup_passes(t, 27, n, 0);
    lemma_lookup_passes(t, 28, n, 0);
    lemma_lookup_passes(t, 29, n, 0);
    lemma_lookup_passes(t, 30, n, 0);
    lemma_lookup_passes(t, 31, n, 6);
    lemma_lookup_passes(t, 32, n, 0);
    lemma_lookup_passes(t, 33, n, 0);
    lemma_lookup_passes(t, 34, n, 0);
    lemma_lookup_passes(t, 35, n, 0);
    lemma_lookup_passes(t, 36, n, 0);
    lemma_lookup_passes(t, 37, n, 0);
    lemma_lookup_passes(t, 38, n, 0);
    lemma_lookup_passes(t, 39, n, 0);
    lemma_lookup_passes(t, 40, n, 0);
    lemma_lookup_passes(t, 41, n, 0);
    lemma_lookup_passes(t, 42, n, 0);
    lemma_lookup_passes(t, 43, n, 0);
    lemma_lookup_passes(t, 44, n, 0);
    lemma_lookup_passes(t, 45, n, 0);
    lemma_lookup_passes(t, 46, n, 0);
    lemma_lookup_passes(t, 47, n, 0);
    lemma_lookup_passes(t, 48, n, 0);
    lemma_lookup_passes(t, 49, n, 0);
    lemma_lookup_passes(t, 50, n, 0);
    lemma_lookup_passes(t, 51, n, 0);
    lemma_lookup_passes(t, 52, n, 0);
    lemma_lookup_passes(t, 53, n, 0);
    lemma_lookup_passes(t, 54, n, 0);
    lemma_lookup_passes(t, 55, n, 0);
    lemma_lookup_passes(t, 56, n, 0);
    lemma_lookup_passes(t, 57, n, 0);
    lemma_lookup_passes(t, 58, n, 0);
    lemma_lookup_passes(t, 59, n, 0);
    lemma_lookup_passes(t, 60, n, 0);
    lemma_lookup_passes(t, 61, n, 0);
    lemma_lookup_passes(t, 62, n, 0);
    lemma_lookup_passes(t, 63, n, 0);
    lemma_lookup_passes(t, 64, n, 0);
    lemma_lookup_passes(t, 65, n, 0);
    lemma_lookup_passes(t, 66, n, 0);
    lemma_lookup_passes(t, 67, n, 0);
    lemma_lookup_passes(t, 68, n, 0);
    lemma_lookup_passes(t, 69, n, 0);
    lemma_lookup_passes(t, 70, n, 0);
    lemma_lookup_passes(t, 71, n, 0);
    lemma_lookup_passes(t, 72, n, 0);
    lemma_lookup_passes(t, 73, n, 0);
    lemma_lookup_passes(t, 74, n, 0);
    lemma_lookup_passes(t, 75, n, 0);
    lemma_lookup_passes(t, 76, n, 0);
    lemma_lookup_passes(t, 77, n, 0);
    lemma_lookup_passes(t, 78, n, 0);
    lemma_lookup_passes(t, 79, n, 0);
    lemma_lookup_passes(t, 80, n, 0);
    lemma_lookup_passes(t, 81, n, 0);
    lemma_lookup_passes(t, 82, n, 0);
    lemma_lookup_passes(t, 83, n, 0);
    lemma_lookup_finds(t, 84, n);
}

proof fn lemma_resolves_85()
    ensures
        resolve_key_spec("backslash"@) == Some(KEY_BACKSLASH),
{
    reveal_strlit("backslash");
    reveal_strlit("caps_lock");
    reveal_strlit("delete");
    reveal_strlit("down_arrow");
    reveal_strlit("end");
    reveal_strlit("enter");
    reveal_strlit("equal");
    reveal_strlit("escape");
    reveal_strlit("f1");
    reveal_strlit("f10");
    reveal_strlit("f11");
    reveal_strlit("f12");
    reveal_strlit("f13");
    reveal_strlit("f14");
    reveal_strlit("f15");
    reveal_strlit("f16");
    reveal_strlit("f17");
    reveal_strlit("f18");
    reveal_strlit("f19");
    reveal_strlit("f2");
    reveal_strlit("f20");
    reveal_strlit("f3");
    reveal_strlit("f4");
    reveal_strlit("f5");
    reveal_strlit("f6");
    reveal_strlit("f7");
    reveal_strlit("f8");
    reveal_strlit("f9");
    reveal_strlit("fn");
    reveal_strlit("fn_key");
    reveal_strlit("forward_delete");
    reveal_strlit("grave");
    reveal_strlit("home");
    reveal_strlit("insert");
    reveal_strlit("left_alt");
    reveal_strlit("left_arrow");
    reveal_strlit("left_bracket");
    reveal_strlit("left_cmd");
    reveal_strlit("left_command");
    reveal_strlit("left_control");
    reveal_strlit("left_ctrl");
    reveal_strlit("left_option");
    reveal_strlit("left_shift");
    reveal_strlit("minus");
    reveal_strlit("num_lock");
    reveal_strlit("numpad_0");
    reveal_strlit("numpad_1");
    reveal_strlit("numpad_2");
    reveal_strlit("numpad_3");
    reveal_strlit("numpad_4");
    reveal_strlit("numpad_5");
    reveal_strlit("numpad_6");
    reveal_strlit("numpad_7");
    reveal_strlit("numpad_8");
    reveal_strlit("numpad_9");
    reveal_strlit("numpad_add");
    reveal_strlit("numpad_clear");
    reveal_strlit("numpad_decimal");
    reveal_strlit("numpad_divide");
    reveal_strlit("numpad_dot");
    reveal_strlit("numpad_enter");
    reveal_strlit("numpad_equals");
    reveal_strlit("numpad_minus");
    reveal_strlit("numpad_multiply");
    reveal_strlit("numpad_plus");
    reveal_strlit("numpad_subtract");
    reveal_strlit("page_down");
    reveal_strlit("page_up");
    reveal_strlit("pause");
    reveal_strlit("print_screen");
    reveal_strlit("return");
    reveal_strlit("return_key");
    reveal_strlit("right_alt");
    reveal_strlit("right_arrow");
    reveal_strlit("right_bracket");
    reveal_strlit("right_cmd");
    reveal_strlit("right_command");
    reveal_strlit("right_control");
    reveal_strlit("right_ctrl");
    reveal_strlit("right_option");
    reveal_strlit("right_shift");
    reveal_strlit("scroll_lock");
    reveal_strlit("section");
    reveal_strlit("space");
    reveal_strlit("tab");
    reveal_strlit("up_arrow");
    let t = key_table();
    let n = "backslash"@;
    assert(t.skip(0) =~= t);
    lemma_lookup_passes(t, 0, n, 0);
    lemma_lookup_passes(t, 1, n, 0);
    lemma_lookup_passes(t, 2, n, 0);
    lemma_lookup_passes(t, 3, n, 0);
    lemma_lookup_passes(t, 4, n, 0);
    lemma_lookup_passes(t, 5, n, 0);
    lemma_lookup_passes(t, 6, n, 0);
    lemma_lookup_passes(t, 7, n, 0);
    lemma_lookup_passes(t, 8, n, 0);
    lemma_lookup_passes(t, 9, n, 0);
    lemma_lookup_passes(t, 10, n, 0);
    lemma_lookup_passes(t, 11, n, 0);
    lemma_lookup_passes(t, 12, n, 0);
    lemma_lookup_passes(t, 13, n, 0);
    lemma_lookup_passes(t, 14, n, 0);
    lemma_lookup_passes(t, 15, n, 0);
    lemma_lookup_passes(t, 16, n, 0);
    lemma_lookup_passes(t, 17, n, 0);
    lemma_lookup_passes(t, 18, n, 0);
    lemma_lookup_passes(t, 19, n, 0);
    lemma_lookup_passes(t, 20, n, 0);
    lemma_lookup_passes(t, 21, n, 0);
    lemma_lookup_passes(t, 22, n, 0);
    lemma_lookup_passes(t, 23, n, 0);
    lemma_lookup_passes(t, 24, n, 0);
    lemma_lookup_passes(t, 25, n, 0);
    lemma_lookup_passes(t, 26, n, 0);
    lemma_lookup_passes(t, 27, n, 0);
    lemma_lookup_passes(t, 28, n, 0);
    lemma_lookup_passes(t, 29, n, 0);
    lemma_lookup_passes(t, 30, n, 0);
    lemma_lookup_passes(t, 31, n, 0);
    lemma_lookup_passes(t, 32, n, 0);
    lemma_lookup_passes(t, 33, n, 0);
    lemma_lookup_passes(t, 34, n, 0);
    lemma_lookup_passes(t, 35, n, 0);
    lemma_lookup_passes(t, 36, n, 0);
    lemma_lookup_passes(t, 37, n, 0);
    lemma_lookup_passes(t, 38, n, 0);
    lemma_lookup_passes(t, 39, n, 0);
    lemma_lookup_passes(t, 40, n, 0);
    lemma_lookup_passes(t, 41, n, 0);
    lemma_lookup_passes(t, 42, n, 0);
    lemma_lookup_passes(t, 43, n, 0);
    lemma_lookup_passes(t, 44, n, 0);
    lemma_lookup_passes(t, 45, n, 0);
    lemma_lookup_passes(t, 46, n, 0);
    lemma_lookup_passes(t, 47, n, 0);
    lemma_lookup_passes(t, 48, n, 0);
    lemma_lookup_passes(t, 49, n, 0);
    lemma_lookup_passes(t, 50, n, 0);
    lemma_lookup_passes(t, 51, n, 0);
    lemma_lookup_passes(t, 52, n, 0);
    lemma_lookup_passes(t, 53, n, 0);
    lemma_lookup_passes(t, 54, n, 0);
    lemma_lookup_passes(t, 55, n, 0);
    lemma_lookup_passes(t, 56, n, 0);
    lemma_lookup_passes(t, 57, n, 0);
    lemma_lookup_passes(t, 58, n, 0);
    lemma_lookup_passes(t, 59, n, 0);
    lemma_lookup_passes(t, 60, n, 0);
    lemma_lookup_passes(t, 61, n, 0);
    lemma_lookup_passes(t, 62, n, 0);
    lemma_lookup_passes(t, 63, n, 0);
    lemma_lookup_passes(t, 64, n, 0);
    lemma_lookup_passes(t, 65, n, 0);
    lemma_lookup_passes(t, 66, n, 0);
    lemma_lookup_passes(t, 67, n, 0);
    lemma_lookup_passes(t, 68, n, 0);
    lemma_lookup_passes(t, 69, n, 0);
    lemma_lookup_passes(t, 70, n, 0);
    lemma_lookup_passes(t, 71, n, 0);
    lemma_lookup_passes(t, 72, n, 0);
    lemma_lookup_passes(t, 73, n, 0);
    lemma_lookup_passes(t, 74, n, 0);
    lemma_lookup_passes(t, 75, n, 0);
    lemma_lookup_passes(t, 76, n, 0);
    lemma_lookup_passes(t, 77, n, 0);
    lemma_lookup_passes(t, 78, n, 0);
    lemma_lookup_passes(t, 79, n, 0);
    lemma_lookup_passes(t, 80, n, 0);
    lemma_lookup_passes(t, 81, n, 0);
    lemma_lookup_passes(t, 82, n, 0);
    lemma_lookup_passes(t, 83, n, 0);
    lemma_lookup_passes(t, 84, n, 0);
    lemma_lookup_finds(t, 85, n);
}

proof fn lemma_resolves_86()
    ensures
        resolve_key_spec("semicolon"@) == Some(KEY_SEMICOLON),
{
    reveal_strlit("backslash");
    reveal_strlit("caps_lock");
    reveal_strlit("delete");
    reveal_strlit("down_arrow");
    reveal_strlit("end");
    reveal_strlit("enter");
    reveal_strlit("equal");
    reveal_strlit("escape");
    reveal_strlit("f1");
    reveal_strlit("f10");
    reveal_strlit("f11");
    reveal_strlit("f12");
    reveal_strlit("f13");
    reveal_strlit("f14");
    reveal_strlit("f15");
    reveal_strlit("f16");
    reveal_strlit("f17");
    reveal_strlit("f18");
    reveal_strlit("f19");
    reveal_strlit("f2");
    reveal_strlit("f20");
    reveal_strlit("f3");
    reveal_strlit("f4");
    reveal_strlit("f5");
    reveal_strlit("f6");
    reveal_strlit("f7");
    reveal_strlit("f8");
    reveal_strlit("f9");
    reveal_strlit("fn");
    reveal_strlit("fn_key");
    reveal_strlit("forward_delete");
    reveal_strlit("grave");
    reveal_strlit("home");
    reveal_strlit("insert");
    reveal_strlit("left_alt");
    reveal_strlit("left_arrow");
    reveal_strlit("left_bracket");
    reveal_strlit("left_cmd");
    reveal_strlit("left_command");
    reveal_strlit("left_control");
    reveal_strlit("left_ctrl");
    reveal_strlit("left_option");
    reveal_strlit("left_shift");
    reveal_strlit("minus");
    reveal_strlit("num_lock");
    reveal_strlit("numpad_0");
    reveal_strlit("numpad_1");
    reveal_strlit("numpad_2");
    reveal_strlit("numpad_3");
    reveal_strlit("numpad_4");
    reveal_strlit("numpad_5");
    reveal_strlit("numpad_6");
    reveal_strlit("numpad_7");
    reveal_strlit("numpad_8");
    reveal_strlit("numpad_9");
    reveal_strlit("numpad_add");
    reveal_strlit("numpad_clear");
    reveal_strlit("numpad_decimal");
    reveal_strlit("numpad_divide");
    reveal_strlit("numpad_dot");
    reveal_strlit("numpad_enter");
    reveal_strlit("numpad_equals");
    reveal_strlit("numpad_minus");
    reveal_strlit("numpad_multiply");
    reveal_strlit("numpad_plus");
    reveal_strlit("numpad_subtract");
    reveal_strlit("page_down");
    reveal_strlit("page_up");
    reveal_strlit("pause");
    reveal_strlit("print_screen");
    reveal_strlit("return");
    reveal_strlit("return_key");
    reveal_strlit("right_alt");
    reveal_strlit("right_arrow");
    reveal_strlit("right_bracket");
    reveal_strlit("right_cmd");
    reveal_strlit("right_command");
    reveal_strlit("right_control");
    reveal_strlit("right_ctrl");
    reveal_strlit("right_option");
    reveal_strlit("right_shift");
    reveal_strlit("scroll_lock");
    reveal_strlit("section");
    reveal_strlit("semicolon");
    reveal_strlit("space");
    reveal_strlit("tab");
    reveal_strlit("up_arrow");
    let t = key_table();
    let n = "semicolon"@;
    assert(t.skip(0) =~= t);
    lemma_lookup_passes(t, 0, n, 0);
    lemma_lookup_passes(t, 1, n, 0);
    lemma_lookup_passes(t, 2, n, 0);
    lemma_lookup_passes(t, 3, n, 0);
    lemma_lookup_passes(t, 4, n, 0);
    lemma_lookup_passes(t, 5, n, 0);
    lemma_lookup_passes(t, 6, n, 0);
    lemma_lookup_passes(t, 7, n, 0);
    lemma_lookup_passes(t, 8, n, 0);
    lemma_lookup_passes(t, 9, n, 0);
    lemma_lookup_passes(t, 10, n, 0);
    lemma_lookup_passes(t, 11, n, 0);
    lemma_lookup_passes(t, 12, n, 0);
    lemma_lookup_passes(t, 13, n, 0);
    lemma_lookup_passes(t, 14, n, 0);
    lemma_lookup_passes(t, 15, n, 0);
    lemma_lookup_passes(t, 16, n, 0);
    lemma_lookup_passes(t, 17, n, 0);
    lemma_lookup_passes(t, 18, n, 0);
    lemma_lookup_passes(t, 19, n, 0);
    lemma_lookup_passes(t, 20, n, 0);
    lemma_lookup_passes(t, 21, n, 0);
    lemma_lookup_passes(t, 22, n, 0);
    lemma_lookup_passes(t, 23, n, 0);
    lemma_lookup_passes(t, 24, n, 0);
    lemma_lookup_passes(t, 25, n, 0);
    lemma_lookup_passes(t, 26, n, 0);
    lemma_lookup_passes(t, 27, n, 0);
    lemma_lookup_passes(t, 28, n, 0);
    lemma_lookup_passes(t, 29, n, 0);
    lemma_lookup_passes(t, 30, n, 0);
    lemma_lookup_passes(t, 31, n, 0);
    lemma_lookup_passes(t, 32, n, 0);
    lemma_lookup_passes(t, 33, n, 0);
    lemma_lookup_passes(t, 34, n, 0);
    lemma_lookup_passes(t, 35, n, 0);
    lemma_lookup_passes(t, 36, n, 0);
    lemma_lookup_passes(t, 37, n, 0);
    lemma_lookup_passes(t, 38, n, 0);
    lemma_lookup_passes(t, 39, n, 0);
    lemma_lookup_passes(t, 40, n, 0);
    lemma_lookup_passes(t, 41, n, 0);
    lemma_lookup_passes(t, 42, n, 0);
    lemma_lookup_passes(t, 43, n, 0);
    lemma_lookup_passes(t, 44, n, 0);
    lemma_lookup_passes(t, 45, n, 0);
    lemma_lookup_passes(t, 46, n, 0);
    lemma_lookup_passes(t, 47, n, 0);
    lemma_lookup_passes(t, 48, n, 0);
    lemma_lookup_passes(t, 49, n, 0);
    lemma_lookup_passes(t, 50, n, 0);
    lemma_lookup_passes(t, 51, n, 0);
    lemma_lookup_passes(t, 52, n, 0);
    lemma_lookup_passes(t, 53, n, 0);
    lemma_lookup_passes(t, 54, n, 0);
    lemma_lookup_passes(t, 55, n, 0);
    lemma_lookup_passes(t, 56, n, 0);
    lemma_lookup_passes(t, 57, n, 0);
    lemma_lookup_passes(t, 58, n, 0);
    lemma_lookup_passes(t, 59, n, 0);
    lemma_lookup_passes(t, 60, n, 0);
    lemma_lookup_passes(t, 61, n, 0);
    lemma_lookup_passes(t, 62, n, 0);
    lemma_lookup_passes(t, 63, n, 0);
    lemma_lookup_passes(t, 64, n, 0);
    lemma_lookup_passes(t, 65, n, 0);
    lemma_lookup_passes(t, 66, n, 0);
    lemma_lookup_passes(t, 67, n, 0);
    lemma_lookup_passes(t, 68, n, 0);
    lemma_lookup_passes(t, 69, n, 0);
    lemma_lookup_passes(t, 70, n, 0);
    lemma_lookup_passes(t, 71, n, 0);
    lemma_lookup_passes(t, 72, n, 0);
    lemma_lookup_passes(t, 73, n, 0);
    lemma_lookup_passes(t, 74, n, 0);
    lemma_lookup_passes(t, 75, n, 0);
    lemma_lookup_passes(t, 76, n, 0);
    lemma_lookup_passes(t, 77, n, 0);
    lemma_lookup_passes(t, 78, n, 0);
    lemma_lookup_passes(t, 79, n, 0);
    lemma_lookup_passes(t, 80, n, 0);
    lemma_lookup_passes(t, 81, n, 0);
    lemma_lookup_passes(t, 82, n, 0);
    lemma_lookup_passes(t, 83, n, 0);
    lemma_lookup_passes(t, 84, n, 0);
    lemma_lookup_passes(t, 85, n, 0);
    lemma_lookup_finds(t, 86, n);
}

proof fn lemma_resolves_87()
    ensures
        resolve_key_spec("quote"@) == Some(KEY_APOSTROPHE),
{
    reveal_strlit("backslash");
    reveal_strlit("caps_lock");
    reveal_strlit("delete");
    reveal_strlit("down_arrow");
    reveal_strlit("end");
    reveal_strlit("enter");
    reveal_strlit("equal");
    reveal_strlit("escape");
    reveal_strlit("f1");
    reveal_strlit("f10");
    reveal_strlit("f11");
    reveal_strlit("f12");
    reveal_strlit("f13");
    reveal_strlit("f14");
    reveal_strlit("f15");
    reveal_strlit("f16");
    reveal_strlit("f17");
    reveal_strlit("f18");
    reveal_strlit("f19");
    reveal_strlit("f2");
    reveal_strlit("f20");
    reveal_strlit("f3");
    reveal_strlit("f4");
    reveal_strlit("f5");
    reveal_strlit("f6");
    reveal_strlit("f7");
    reveal_strlit("f8");
    reveal_strlit("f9");
    reveal_strlit("fn");
    reveal_strlit("fn_key");
    reveal_strlit("forward_delete");
    reveal_strlit("grave");
    reveal_strlit("home");
    reveal_strlit("insert");
    reveal_strlit("left_alt");
    reveal_strlit("left_arrow");
    reveal_strlit("left_bracket");
    reveal_strlit("left_cmd");
    reveal_strlit("left_command");
    reveal_strlit("left_control");
    reveal_strlit("left_ctrl");
    reveal_strlit("left_option");
    reveal_strlit("left_shift");
    reveal_strlit("minus");
    reveal_strlit("num_lock");
    reveal_strlit("numpad_0");
    reveal_strlit("numpad_1");
    reveal_strlit("numpad_2");
    reveal_strlit("numpad_3");
    reveal_strlit("numpad_4");
    reveal_strlit("numpad_5");
    reveal_strlit("numpad_6");
    reveal_strlit("numpad_7");
    reveal_strlit("numpad_8");
    reveal_strlit("numpad_9");
    reveal_strlit("numpad_add");
    reveal_strlit("numpad_clear");
    reveal_strlit("numpad_decimal");
    reveal_strlit("numpad_divide");
    reveal_strlit("numpad_dot");
    reveal_strlit("numpad_enter");
    reveal_strlit("numpad_equals");
    reveal_strlit("numpad_minus");
    reveal_strlit("numpad_multiply");
    reveal_strlit("numpad_plus");
    reveal_strlit("numpad_subtract");
    reveal_strlit("page_down");
    reveal_strlit("page_up");
    reveal_strlit("pause");
    reveal_strlit("print_screen");
    reveal_strlit("quote");
    reveal_strlit("return");
    reveal_strlit("return_key");
    reveal_strlit("right_alt");
    reveal_strlit("right_arrow");
    reveal_strlit("right_bracket");
    reveal_strlit("right_cmd");
    reveal_strlit("right_command");
    reveal_strlit("right_control");
    reveal_strlit("right_ctrl");
    reveal_strlit("right_option");
    reveal_strlit("right_shift");
    reveal_strlit("scroll_lock");
    reveal_strlit("section");
    reveal_strlit("semicolon");
    reveal_strlit("space");
    reveal_strlit("tab");
    reveal_strlit("up_arrow");
    let t = key_table();
    let n = "quote"@;
    assert(t.skip(0) =~= t);
    lemma_lookup_passes(t, 0, n, 0);
    lemma_lookup_passes(t, 1, n, 0);
    lemma_lookup_passes(t, 2, n, 0);
    lemma_lookup_passes(t, 3, n, 0);
    lemma_lookup_passes(t, 4, n, 0);
    lemma_lookup_passes(t, 5, n, 0);
    lemma_lookup_passes(t, 6, n, 0);
    lemma_lookup_passes(t, 7, n, 0);
    lemma_lookup_passes(t, 8, n, 0);
    lemma_lookup_passes(t, 9, n, 0);
    lemma_lookup_passes(t, 10, n, 0);
    lemma_lookup_passes(t, 11, n, 0);
    lemma_lookup_passes(t, 12, n, 0);
    lemma_lookup_passes(t, 13, n, 0);
    lemma_lookup_passes(t, 14, n, 0);
    lemma_lookup_passes(t, 15, n, 0);
    lemma_lookup_passes(t, 16, n, 0);
    lemma_lookup_passes(t, 17, n, 0);
    lemma_lookup_passes(t, 18, n, 0);
    lemma_lookup_passes(t, 19, n, 0);
    lemma_lookup_passes(t, 20, n, 0);
    lemma_lookup_passes(t, 21, n, 0);
    lemma_lookup_passes(t, 22, n, 0);
    lemma_lookup_passes(t, 23, n, 0);
    lemma_lookup_passes(t, 24, n, 0);
    lemma_lookup_passes(t, 25, n, 0);
    lemma_lookup_passes(t, 26, n, 0);
    lemma_lookup_passes(t, 27, n, 0);
    lemma_lookup_passes(t, 28, n, 0);
    lemma_lookup_passes(t, 29, n, 0);
    lemma_lookup_passes(t, 30, n, 0);
    lemma_lookup_passes(t, 31, n, 0);
    lemma_lookup_passes(t, 32, n, 0);
    lemma_lookup_passes(t, 33, n, 0);
    lemma_lookup_passes(t, 34, n, 0);
    lemma_lookup_passes(t, 35, n, 0);
    lemma_lookup_passes(t, 36, n, 0);
    lemma_lookup_passes(t, 37, n, 0);
    lemma_lookup_passes(t, 38, n, 0);
    lemma_lookup_passes(t, 39, n, 0);
    lemma_lookup_passes(t, 40, n, 0);
    lemma_lookup_passes(t, 41, n, 0);
    lemma_lookup_passes(t, 42, n, 0);
    lemma_lookup_passes(t, 43, n, 0);
    lemma_lookup_passes(t, 44, n, 0);
    lemma_lookup_passes(t, 45, n, 0);
    lemma_lookup_passes(t, 46, n, 0);
    lemma_lookup_passes(t, 47, n, 0);
    lemma_lookup_passes(t, 48, n, 0);
    lemma_lookup_passes(t, 49, n, 0);
    lemma_lookup_passes(t, 50, n, 0);
    lemma_lookup_passes(t, 51, n, 0);
    lemma_lookup_passes(t, 52, n, 0);
    lemma_lookup_passes(t, 53, n, 0);
    lemma_lookup_passes(t, 54, n, 0);
    lemma_lookup_passes(t, 55, n, 0);
    lemma_lookup_passes(t, 56, n, 0);
    lemma_lookup_passes(t, 57, n, 0);
    lemma_lookup_passes(t, 58, n, 0);
    lemma_lookup_passes(t, 59, n, 0);
    lemma_lookup_passes(t, 60, n, 0);
    lemma_lookup_passes(t, 61, n, 0);
    lemma_lookup_passes(t, 62, n, 0);
    lemma_lookup_passes(t, 63, n, 0);
    lemma_lookup_passes(t, 64, n, 0);
    lemma_lookup_passes(t, 65, n, 0);
    lemma_lookup_passes(t, 66, n, 0);
    lemma_lookup_passes(t, 67, n, 0);
    lemma_lookup_passes(t, 68, n, 0);
    lemma_lookup_passes(t, 69, n, 0);
    lemma_lookup_passes(t, 70, n, 0);
    lemma_lookup_passes(t, 71, n, 0);
    lemma_lookup_passes(t, 72, n, 0);
    lemma_lookup_passes(t, 73, n, 0);
    lemma_lookup_passes(t, 74, n, 0);
    lemma_lookup_passes(t, 75, n, 0);
    lemma_lookup_passes(t, 76, n, 0);
    lemma_lookup_passes(t, 77, n, 0);
    lemma_lookup_passes(t, 78, n, 0);
    lemma_lookup_passes(t, 79, n, 0);
    lemma_lookup_passes(t, 80, n, 0);
    lemma_lookup_passes(t, 81, n, 0);
    lemma_lookup_passes(t, 82, n, 0);
    lemma_lookup_passes(t, 83, n, 0);
    lemma_lookup_passes(t, 84, n, 0);
    lemma_lookup_passes(t, 85, n, 0);
    lemma_lookup_passes(t, 86, n, 0);
    lemma_lookup_finds(t, 87, n);
}

proof fn lemma_resolves_88()
    ensures
        resolve_key_spec("comma"@) == Some(KEY_COMMA),
{
    reveal_strlit("backslash");
    reveal_strlit("caps_lock");
    reveal_strlit("comma");
    reveal_strlit("delete");
    reveal_strlit("down_arrow");
    reveal_strlit("end");
    reveal_strlit("enter");
    reveal_strlit("equal");
    reveal_strlit("escape");
    reveal_strlit("f1");
    reveal_strlit("f10");
    reveal_strlit("f11");
    reveal_strlit("f12");
    reveal_strlit("f13");
    reveal_strlit("f14");
    reveal_strlit("f15");
    reveal_strlit("f16");
    reveal_strlit("f17");
    reveal_strlit("f18");
    reveal_strlit("f19");
    reveal_strlit("f2");
    reveal_strlit("f20");
    reveal_strlit("f3");
    reveal_strlit("f4");
    reveal_strlit("f5");
    reveal_strlit("f6");
    reveal_strlit("f7");
    reveal_strlit("f8");
    reveal_strlit("f9");
    reveal_strlit("fn");
    reveal_strlit("fn_key");
    reveal_strlit("forward_delete");
    reveal_strlit("grave");
    reveal_strlit("home");
    reveal_strlit("insert");
    reveal_strlit("left_alt");
    reveal_strlit("left_arrow");
    reveal_strlit("left_bracket");
    reveal_strlit("left_cmd");
    reveal_strlit("left_command");
    reveal_strlit("left_control");
    reveal_strlit("left_ctrl");
    reveal_strlit("left_option");
    reveal_strlit("left_shift");
    reveal_strlit("minus");
    reveal_strlit("num_lock");
    reveal_strlit("numpad_0");
    reveal_strlit("numpad_1");
    reveal_strlit("numpad_2");
    reveal_strlit("numpad_3");
    reveal_strlit("numpad_4");
    reveal_strlit("numpad_5");
    reveal_strlit("numpad_6");
    reveal_strlit("numpad_7");
    reveal_strlit("numpad_8");
    reveal_strlit("numpad_9");
    reveal_strlit("numpad_add");
    reveal_strlit("numpad_clear");
    reveal_strlit("numpad_decimal");
    reveal_strlit("numpad_divide");
    reveal_strlit("numpad_dot");
    reveal_strlit("numpad_enter");
    reveal_strlit("numpad_equals");
    reveal_strlit("numpad_minus");
    reveal_strlit("numpad_multiply");
    reveal_strlit("numpad_plus");
    reveal_strlit("numpad_subtract");
    reveal_strlit("page_down");
    reveal_strlit("page_up");
    reveal_strlit("pause");
    reveal_strlit("print_screen");
    reveal_strlit("quote");
    reveal_strlit("return");
    reveal_strlit("return_key");
    reveal_strlit("right_alt");
    reveal_strlit("right_arrow");
    reveal_strlit("right_bracket");
    reveal_strlit("right_cmd");
    reveal_strlit("right_command");
    reveal_strlit("right_control");
    reveal_strlit("right_ctrl");
    reveal_strlit("right_option");
    reveal_strlit("right_shift");
    reveal_strlit("scroll_lock");
    reveal_strlit("section");
    reveal_strlit("semicolon");
    reveal_strlit("space");
    reveal_strlit("tab");
    reveal_strlit("up_arrow");
    let t = key_table();
    let n = "comma"@;
    assert(t.skip(0) =~= t);
    lemma_lookup_passes(t, 0, n, 0);
    lemma_lookup_passes(t, 1, n, 0);
    lemma_lookup_passes(t, 2, n, 0);
    lemma_lookup_passes(t, 3, n, 0);
    lemma_lookup_passes(t, 4, n, 0);
    lemma_lookup_passes(t, 5, n, 0);
    lemma_lookup_passes(t, 6, n, 0);
    lemma_lookup_passes(t, 7, n, 0);
    lemma_lookup_passes(t, 8, n, 0);
    lemma_lookup_passes(t, 9, n, 0);
    lemma_lookup_passes(t, 10, n, 0);
    lemma_lookup_passes(t, 11, n, 0);
    lemma_lookup_passes(t, 12, n, 0);
    lemma_lookup_passes(t, 13, n, 0);
    lemma_lookup_passes(t, 14, n, 0);
    lemma_lookup_passes(t, 15, n, 0);
    lemma_lookup_passes(t, 16, n, 0);
    lemma_lookup_passes(t, 17, n, 0);
    lemma_lookup_passes(t, 18, n, 0);
    lemma_lookup_passes(t, 19, n, 0);
    lemma_lookup_passes(t, 20, n, 0);
    lemma_lookup_passes(t, 21, n, 0);
    lemma_lookup_passes(t, 22, n, 0);
    lemma_lookup_passes(t, 23, n, 0);
    lemma_lookup_passes(t, 24, n, 0);
    lemma_lookup_passes(t, 25, n, 0);
    lemma_lookup_passes(t, 26, n, 0);
    lemma_lookup_passes(t, 27, n, 0);
    lemma_lookup_passes(t, 28, n, 0);
    lemma_lookup_passes(t, 29, n, 0);
    lemma_lookup_passes(t, 30, n, 0);
    lemma_lookup_passes(t, 31, n, 0);
    lemma_lookup_passes(t, 32, n, 0);
    lemma_lookup_passes(t, 33, n, 0);
    lemma_lookup_passes(t, 34, n, 0);
    lemma_lookup_passes(t, 35, n, 0);
    lemma_lookup_passes(t, 36, n, 0);
    lemma_lookup_passes(t, 37, n, 0);
    lemma_lookup_passes(t, 38, n, 0);
    lemma_lookup_passes(t, 39, n, 0);
    lemma_lookup_passes(t, 40, n, 0);
    lemma_lookup_passes(t, 41, n, 0);
    lemma_lookup_passes(t, 42, n, 0);
    lemma_lookup_passes(t, 43, n, 0);
    lemma_lookup_passes(t, 44, n, 0);
    lemma_lookup_passes(t, 45, n, 0);
    lemma_lookup_passes(t, 46, n, 0);
    lemma_lookup_passes(t, 47, n, 0);
    lemma_lookup_passes(t, 48, n, 0);
    lemma_lookup_passes(t, 49, n, 0);
    lemma_lookup_passes(t, 50, n, 0);
    lemma_lookup_passes(t, 51, n, 0);
    lemma_lookup_passes(t, 52, n, 0);
    lemma_lookup_passes(t, 53, n, 0);
    lemma_lookup_passes(t, 54, n, 0);
    lemma_lookup_passes(t, 55, n, 0);
    lemma_lookup_passes(t, 56, n, 0);
    lemma_lookup_passes(t, 57, n, 0);
    lemma_lookup_passes(t, 58, n, 0);
    lemma_lookup_passes(t, 59, n, 0);
    lemma_lookup_passes(t, 60, n, 0);
    lemma_lookup_passes(t, 61, n, 0);
    lemma_lookup_passes(t, 62, n, 0);
    lemma_lookup_passes(t, 63, n, 0);
    lemma_lookup_passes(t, 64, n, 0);
    lemma_lookup_passes(t, 65, n, 0);
    lemma_lookup_passes(t, 66, n, 0);
    lemma_lookup_passes(t, 67, n, 0);
    lemma_lookup_passes(t, 68, n, 0);
    lemma_lookup_passes(t, 69, n, 0);
    lemma_lookup_passes(t, 70, n, 0);
    lemma_lookup_passes(t, 71, n, 0);
    lemma_lookup_passes(t, 72, n, 0);
    lemma_lookup_passes(t, 73, n, 0);
    lemma_lookup_passes(t, 74, n, 0);
    lemma_lookup_passes(t, 75, n, 0);
    lemma_lookup_passes(t, 76, n, 0);
    lemma_lookup_passes(t, 77, n, 0);
    lemma_lookup_passes(t, 78, n, 0);
    lemma_lookup_passes(t, 79, n, 0);
    lemma_lookup_passes(t, 80, n, 0);
    lemma_lookup_passes(t, 81, n, 0);
    lemma_lookup_passes(t, 82, n, 0);
    lemma_lookup_passes(t, 83, n, 0);
    lemma_lookup_passes(t, 84, n, 0);
    lemma_lookup_passes(t, 85, n, 0);
    lemma_lookup_passes(t, 86, n, 0);
    lemma_lookup_passes(t, 87, n, 0);
    lemma_lookup_finds(t, 88, n);
}

proof fn lemma_resolves_89()
    ensures
        resolve_key_spec("period"@) == Some(KEY_DOT),
{
    reveal_strlit("backslash");
    reveal_strlit("caps_lock");
    reveal_strlit("comma");
    reveal_strlit("delete");
    reveal_strlit("down_arrow");
    reveal_strlit("end");
    reveal_strlit("enter");
    reveal_strlit("equal");
    reveal_strlit("escape");
    reveal_strlit("f1");
    reveal_strlit("f10");
    reveal_strlit("f11");
    reveal_strlit("f12");
    reveal_strlit("f13");
    reveal_strlit("f14");
    reveal_strlit("f15");
    reveal_strlit("f16");
    reveal_strlit("f17");
    reveal_strlit("f18");
    reveal_strlit("f19");
    reveal_strlit("f2");
    reveal_strlit("f20");
    reveal_strlit("f3");
    reveal_strlit("f4");
    reveal_strlit("f5");
    reveal_strlit("f6");
    reveal_strlit("f7");
    reveal_strlit("f8");
    reveal_strlit("f9");
    reveal_strlit("fn");
    reveal_strlit("fn_key");
    reveal_strlit("forward_delete");
    reveal_strlit("grave");
    reveal_strlit("home");
    reveal_strlit("insert");
    reveal_strlit("left_alt");
    reveal_strlit("left_arrow");
    reveal_strlit("left_bracket");
    reveal_strlit("left_cmd");
    reveal_strlit("left_command");
    reveal_strlit("left_control");
    reveal_strlit("left_ctrl");
    reveal_strlit("left_option");
    reveal_strlit("left_shift");
    reveal_strlit("minus");
    reveal_strlit("num_lock");
    reveal_strlit("numpad_0");
    reveal_strlit("numpad_1");
    reveal_strlit("numpad_2");
    reveal_strlit("numpad_3");
    reveal_strlit("numpad_4");
    reveal_strlit("numpad_5");
    reveal_strlit("numpad_6");
    reveal_strlit("numpad_7");
    reveal_strlit("numpad_8");
    reveal_strlit("numpad_9");
    reveal_strlit("numpad_add");
    reveal_strlit("numpad_clear");
    reveal_strlit("numpad_decimal");
    reveal_strlit("numpad_divide");
    reveal_strlit("numpad_dot");
    reveal_strlit("numpad_enter");
    reveal_strlit("numpad_equals");
    reveal_strlit("numpad_minus");
    reveal_strlit("numpad_multiply");
    reveal_strlit("numpad_plus");
    reveal_strlit("numpad_subtract");
    reveal_strlit("page_down");
    reveal_strlit("page_up");
    reveal_strlit("pause");
    reveal_strlit("period");
    reveal_strlit("print_screen");
    reveal_strlit("quote");
    reveal_strlit("return");
    reveal_strlit("return_key");
    reveal_strlit("right_alt");
    reveal_strlit("right_arrow");
    reveal_strlit("right_bracket");
    reveal_strlit("right_cmd");
    reveal_strlit("right_command");
    reveal_strlit("right_control");
    reveal_strlit("right_ctrl");
    reveal_strlit("right_option");
    reveal_strlit("right_shift");
    reveal_strlit("scroll_lock");
    reveal_strlit("section");
    reveal_strlit("semicolon");
    reveal_strlit("space");
    reveal_strlit("tab");
    reveal_strlit("up_arrow");
    let t = key_table();
    let n = "period"@;
    assert(t.skip(0) =~= t);
    lemma_lookup_passes(t, 0, n, 0);
    lemma_lookup_passes(t, 1, n, 0);
    lemma_lookup_passes(t, 2, n, 0);
    lemma_lookup_passes(t, 3, n, 0);
    lemma_lookup_passes(t, 4, n, 0);
    lemma_lookup_passes(t, 5, n, 0);
    lemma_lookup_passes(t, 6, n, 0);
    lemma_lookup_passes(t, 7, n, 0);
    lemma_lookup_passes(t, 8, n, 0);
    lemma_lookup_passes(t, 9, n, 0);
    lemma_lookup_passes(t, 10, n, 0);
    lemma_lookup_passes(t, 11, n, 0);
    lemma_lookup_passes(t, 12, n, 0);
    lemma_lookup_passes(t, 13, n, 0);
    lemma_lookup_passes(t, 14, n, 0);
    lemma_lookup_passes(t, 15, n, 0);
    lemma_lookup_passes(t, 16, n, 0);
    lemma_lookup_passes(t, 17, n, 0);
    lemma_lookup_passes(t, 18, n, 0);
    lemma_lookup_passes(t, 19, n, 0);
    lemma_lookup_passes(t, 20, n, 0);
    lemma_lookup_passes(t, 21, n, 0);
    lemma_lookup_passes(t, 22, n, 0);
    lemma_lookup_passes(t, 23, n, 0);
    lemma_lookup_passes(t, 24, n, 0);
    lemma_lookup_passes(t, 25, n, 0);
    lemma_lookup_passes(t, 26, n, 0);
    lemma_lookup_passes(t, 27, n, 0);
    lemma_lookup_passes(t, 28, n, 0);
    lemma_lookup_passes(t, 29, n, 0);
    lemma_lookup_passes(t, 30, n, 0);
    lemma_lookup_passes(t, 31, n, 0);
    lemma_lookup_passes(t, 32, n, 0);
    lemma_lookup_passes(t, 33, n, 0);
    lemma_lookup_passes(t, 34, n, 0);
    lemma_lookup_passes(t, 35, n, 0);
    lemma_lookup_passes(t, 36, n, 0);
    lemma_lookup_passes(t, 37, n, 0);
    lemma_lookup_passes(t, 38, n, 0);
    lemma_lookup_passes(t, 39, n, 0);
    lemma_lookup_passes(t, 40, n, 0);
    lemma_lookup_passes(t, 41, n, 0);
    lemma_lookup_passes(t, 42, n, 0);
    lemma_lookup_passes(t, 43, n, 0);
    lemma_lookup_passes(t, 44, n, 0);
    lemma_lookup_passes(t, 45, n, 0);
    lemma_lookup_passes(t, 46, n, 0);
    lemma_lookup_passes(t, 47, n, 0);
    lemma_lookup_passes(t, 48, n, 0);
    lemma_lookup_passes(t, 49, n, 0);
    lemma_lookup_passes(t, 50, n, 0);
    lemma_lookup_passes(t, 51, n, 0);
    lemma_lookup_passes(t, 52, n, 0);
    lemma_lookup_passes(t, 53, n, 0);
    lemma_lookup_passes(t, 54, n, 0);
    lemma_lookup_passes(t, 55, n, 0);
    lemma_lookup_passes(t, 56, n, 0);
    lemma_lookup_passes(t, 57, n, 0);
    lemma_lookup_passes(t, 58, n, 0);
    lemma_lookup_passes(t, 59, n, 0);
    lemma_lookup_passes(t, 60, n, 0);
    lemma_lookup_passes(t, 61, n, 0);
    lemma_lookup_passes(t, 62, n, 0);
    lemma_lookup_passes(t, 63, n, 0);
    lemma_lookup_passes(t, 64, n, 0);
    lemma_lookup_passes(t, 65, n, 0);
    lemma_lookup_passes(t, 66, n, 0);
    lemma_lookup_passes(t, 67, n, 0);
    lemma_lookup_passes(t, 68, n, 0);
    lemma_lookup_passes(t, 69, n, 0);
    lemma_lookup_passes(t, 70, n, 0);
    lemma_lookup_passes(t, 71, n, 0);
    lemma_lookup_passes(t, 72, n, 0);
    lemma_lookup_passes(t, 73, n, 0);
    lemma_lookup_passes(t, 74, n, 0);
    lemma_lookup_passes(t, 75, n, 0);
    lemma_lookup_passes(t, 76, n, 0);
    lemma_lookup_passes(t, 77, n, 0);
    lemma_lookup_passes(t, 78, n, 0);
    lemma_lookup_passes(t, 79, n, 0);
    lemma_lookup_passes(t, 80, n, 0);
    lemma_lookup_passes(t, 81, n, 0);
    lemma_lookup_passes(t, 82, n, 0);
    lemma_lookup_passes(t, 83, n, 0);
    lemma_lookup_passes(t, 84, n, 0);
    lemma_lookup_passes(t, 85, n, 0);
    lemma_lookup_passes(t, 86, n, 0);
    lemma_lookup_passes(t, 87, n, 0);
    lemma_lookup_passes(t, 88, n, 0);
    lemma_lookup_finds(t, 89, n);
}

proof fn lemma_resolves_90()
    ensures
        resolve_key_spec("slash"@) == Some(KEY_SLASH),
{
    reveal_strlit("backslash");
    reveal_strlit("caps_lock");
    reveal_strlit("comma");
    reveal_strlit("delete");
    reveal_strlit("down_arrow");
    reveal_strlit("end");
    reveal_strlit("enter");
    reveal_strlit("equal");
    reveal_strlit("escape");
    reveal_strlit("f1");
    reveal_strlit("f10");
    reveal_strlit("f11");
    reveal_strlit("f12");
    reveal_strlit("f13");
    reveal_strlit("f14");
    reveal_strlit("f15");
    reveal_strlit("f16");
    reveal_strlit("f17");
    reveal_strlit("f18");
    reveal_strlit("f19");
    reveal_strlit("f2");
    reveal_strlit("f20");
    reveal_strlit("f3");
    reveal_strlit("f4");
    reveal_strlit("f5");
    reveal_strlit("f6");
    reveal_strlit("f7");
    reveal_strlit("f8");
    reveal_strlit("f9");
    reveal_strlit("fn");
    reveal_strlit("fn_key");
    reveal_strlit("forward_delete");
    reveal_strlit("grave");
    reveal_strlit("home");
    reveal_strlit("insert");
    reveal_strlit("left_alt");
    reveal_strlit("left_arrow");
    reveal_strlit("left_bracket");
    reveal_strlit("left_cmd");
    reveal_strlit("left_command");
    reveal_strlit("left_control");
    reveal_strlit("left_ctrl");
    reveal_strlit("left_option");
    reveal_strlit("left_shift");
    reveal_strlit("minus");
    reveal_strlit("num_lock");
    reveal_strlit("numpad_0");
    reveal_strlit("numpad_1");
    reveal_strlit("numpad_2");
    reveal_strlit("numpad_3");
    reveal_strlit("numpad_4");
    reveal_strlit("numpad_5");
    reveal_strlit("numpad_6");
    reveal_strlit("numpad_7");
    reveal_strlit("numpad_8");
    reveal_strlit("numpad_9");
    reveal_strlit("numpad_add");
    reveal_strlit("numpad_clear");
    reveal_strlit("numpad_decimal");
    reveal_strlit("numpad_divide");
    reveal_strlit("numpad_dot");
    reveal_strlit("numpad_enter");
    reveal_strlit("numpad_equals");
    reveal_strlit("numpad_minus");
    reveal_strlit("numpad_multiply");
    reveal_strlit("numpad_plus");
    reveal_strlit("numpad_subtract");
    reveal_strlit("page_down");
    reveal_strlit("page_up");
    reveal_strlit("pause");
    reveal_strlit("period");
    reveal_strlit("print_screen");
    reveal_strlit("quote");
    reveal_strlit("return");
    reveal_strlit("return_key");
    reveal_strlit("right_alt");
    reveal_strlit("right_arrow");
    reveal_strlit("right_bracket");
    reveal_strlit("right_cmd");
    reveal_strlit("right_command");
    reveal_strlit("right_control");
    reveal_strlit("right_ctrl");
    reveal_strlit("right_option");
    reveal_strlit("right_shift");
    reveal_strlit("scroll_lock");
    reveal_strlit("section");
    reveal_strlit("semicolon");
    reveal_strlit("slash");
    reveal_strlit("space");
    reveal_strlit("tab");
    reveal_strlit("up_arrow");
    let t = key_table();
    let n = "slash"@;
    assert(t.skip(0) =~= t);
    lemma_lookup_passes(t, 0, n, 0);
    lemma_lookup_passes(t, 1, n, 0);
    lemma_lookup_passes(t, 2, n, 0);
    lemma_lookup_passes(t, 3, n, 0);
    lemma_lookup_passes(t, 4, n, 0);
    lemma_lookup_passes(t, 5, n, 0);
    lemma_lookup_passes(t, 6, n, 0);
    lemma_lookup_passes(t, 7, n, 0);
    lemma_lookup_passes(t, 8, n, 0);
    lemma_lookup_passes(t, 9, n, 0);
    lemma_lookup_passes(t, 10, n, 0);
    lemma_lookup_passes(t, 11, n, 0);
    lemma_lookup_passes(t, 12, n, 0);
    lemma_lookup_passes(t, 13, n, 0);
    lemma_lookup_passes(t, 14, n, 0);
    lemma_lookup_passes(t, 15, n, 0);
    lemma_lookup_passes(t, 16, n, 0);
    lemma_lookup_passes(t, 17, n, 0);
    lemma_lookup_passes(t, 18, n, 0);
    lemma_lookup_passes(t, 19, n, 0);
    lemma_lookup_passes(t, 20, n, 0);
    lemma_lookup_passes(t, 21, n, 0);
    lemma_lookup_passes(t, 22, n, 0);
    lemma_lookup_passes(t, 23, n, 0);
    lemma_lookup_passes(t, 24, n, 0);
    lemma_lookup_passes(t, 25, n, 0);
    lemma_lookup_passes(t, 26, n, 0);
    lemma_lookup_passes(t, 27, n, 0);
    lemma_lookup_passes(t, 28, n, 0);
    lemma_lookup_passes(t, 29, n, 0);
    lemma_lookup_passes(t, 30, n, 0);
    lemma_lookup_passes(t, 31, n, 0);
    lemma_lookup_passes(t, 32, n, 0);
    lemma_lookup_passes(t, 33, n, 0);
    lemma_lookup_passes(t, 34, n, 0);
    lemma_lookup_passes(t, 35, n, 0);
    lemma_lookup_passes(t, 36, n, 0);
    lemma_lookup_passes(t, 37, n, 0);
    lemma_lookup_passes(t, 38, n, 0);
    lemma_lookup_passes(t, 39, n, 0);
    lemma_lookup_passes(t, 40, n, 0);
    lemma_lookup_passes(t, 41, n, 0);
    lemma_lookup_passes(t, 42, n, 0);
    lemma_lookup_passes(t, 43, n, 0);
    lemma_lookup_passes(t, 44, n, 0);
    lemma_lookup_passes(t, 45, n, 0);
    lemma_lookup_passes(t, 46, n, 0);
    lemma_lookup_passes(t, 47, n, 0);
    lemma_lookup_passes(t, 48, n, 0);
    lemma_lookup_passes(t, 49, n, 0);
    lemma_lookup_passes(t, 50, n, 0);
    lemma_lookup_passes(t, 51, n, 0);
    lemma_lookup_passes(t, 52, n, 0);
    lemma_lookup_passes(t, 53, n, 0);
    lemma_lookup_passes(t, 54, n, 0);
    lemma_lookup_passes(t, 55, n, 0);
    lemma_lookup_passes(t, 56, n, 0);
    lemma_lookup_passes(t, 57, n, 0);
    lemma_lookup_passes(t, 58, n, 1);
    lemma_lookup_passes(t, 59, n, 0);
    lemma_lookup_passes(t, 60, n, 0);
    lemma_lookup_passes(t, 61, n, 0);
    lemma_lookup_passes(t, 62, n, 0);
    lemma_lookup_passes(t, 63, n, 0);
    lemma_lookup_passes(t, 64, n, 0);
    lemma_lookup_passes(t, 65, n, 0);
    lemma_lookup_passes(t, 66, n, 0);
    lemma_lookup_passes(t, 67, n, 0);
    lemma_lookup_passes(t, 68, n, 0);
    lemma_lookup_passes(t, 69, n, 0);
    lemma_lookup_passes(t, 70, n, 0);
    lemma_lookup_passes(t, 71, n, 0);
    lemma_lookup_passes(t, 72, n, 0);
    lemma_lookup_passes(t, 73, n, 0);
    lemma_lookup_passes(t, 74, n, 0);
    lemma_lookup_passes(t, 75, n, 0);
    lemma_lookup_passes(t, 76, n, 0);
    lemma_lookup_passes(t, 77, n, 0);
    lemma_lookup_passes(t, 78, n, 0);
    lemma_lookup_passes(t, 79, n, 0);
    lemma_lookup_passes(t, 80, n, 0);
    lemma_lookup_passes(t, 81, n, 0);
    lemma_lookup_passes(t, 82, n, 0);
    lemma_lookup_passes(t, 83, n, 0);
    lemma_lookup_passes(t, 84, n, 0);
    lemma_lookup_passes(t, 85, n, 0);
    lemma_lookup_passes(t, 86, n, 0);
    lemma_lookup_passes(t, 87, n, 0);
    lemma_lookup_passes(t, 88, n, 0);
    lemma_lookup_passes(t, 89, n, 0);
    lemma_lookup_finds(t, 90, n);
}

proof fn lemma_key_0(a: int)
    requires
        0 <= a < named_keys()[0].1.len(),
    ensures
        resolve_key_spec(named_keys()[0].1[a]) == Some(named_keys()[0].0),
{
    assert(named_keys()[0].1.len() == 1);
    assert(named_keys()[0].0 == KEY_KP0);
    if a == 0 {
        assert(named_keys()[0].1[0] == "numpad_0"@);
        lemma_resolves_0();
    }
}

proof fn lemma_key_1(a: int)
    requires
        0 <= a < named_keys()[1].1.len(),
    ensures
        resolve_key_spec(named_keys()[1].1[a]) == Some(named_keys()[1].0),
{
    assert(named_keys()[1].1.len() == 1);
    assert(named_keys()[1].0 == KEY_KP1);
    if a == 0 {
        assert(named_keys()[1].1[0] == "numpad_1"@);
        lemma_resolves_1();
    }
}

proof fn lemma_key_2(a: int)
    requires
        0 <= a < named_keys()[2].1.len(),
    ensures
        resolve_key_spec(named_keys()[2].1[a]) == Some(named_keys()[2].0),
{
    assert(named_keys()[2].1.len() == 1);
    assert(named_keys()[2].0 == KEY_KP2);
    if a == 0 {
        assert(named_keys()[2].1[0] == "numpad_2"@);
        lemma_resolves_2();
    }
}

proof fn lemma_key_3(a: int)
    requires
        0 <= a < named_keys()[3].1.len(),
    ensures
        resolve_key_spec(named_keys()[3].1[a]) == Some(named_keys()[3].0),
{
    assert(named_keys()[3].1.len() == 1);
    assert(named_keys()[3].0 == KEY_KP3);
    if a == 0 {
        assert(named_keys()[3].1[0] == "numpad_3"@);
        lemma_resolves_3();
    }
}

proof fn lemma_key_4(a: int)
    requires
        0 <= a < named_keys()[4].1.len(),
    ensures
        resolve_key_spec(named_keys()[4].1[a]) == Some(named_keys()[4].0),
{
    assert(named_keys()[4].1.len() == 1);
    assert(named_keys()[4].0 == KEY_KP4);
    if a == 0 {
        assert(named_keys()[4].1[0] == "numpad_4"@);
        lemma_resolves_4();
    }
}

proof fn lemma_key_5(a: int)
    requires
        0 <= a < named_keys()[5].1.len(),
    ensures
        resolve_key_spec(named_keys()[5].1[a]) == Some(named_keys()[5].0),
{
    assert(named_keys()[5].1.len() == 1);
    assert(named_keys()[5].0 == KEY_KP5);
    if a == 0 {
        assert(named_keys()[5].1[0] == "numpad_5"@);
        lemma_resolves_5();
    }
}

proof fn lemma_key_6(a: int)
    requires
        0 <= a < named_keys()[6].1.len(),
    ensures
        resolve_key_spec(named_keys()[6].1[a]) == Some(named_keys()[6].0),
{
    assert(named_keys()[6].1.len() == 1);
    assert(named_keys()[6].0 == KEY_KP6);
    if a == 0 {
        assert(named_keys()[6].1[0] == "numpad_6"@);
        lemma_resolves_6();
    }
}

proof fn lemma_key_7(a: int)
    requires
        0 <= a < named_keys()[7].1.len(),
    ensures
        resolve_key_spec(named_keys()[7].1[a]) == Some(named_keys()[7].0),
{
    assert(named_keys()[7].1.len() == 1);
    assert(named_keys()[7].0 == KEY_KP7);
    if a == 0 {
        assert(named_keys()[7].1[0] == "numpad_7"@);
        lemma_resolves_7();
    }
}

proof fn lemma_key_8(a: int)
    requires
        0 <= a < named_keys()[8].1.len(),
    ensures
        resolve_key_spec(named_keys()[8].1[a]) == Some(named_keys()[8].0),
{
    assert(named_keys()[8].1.len() == 1);
    assert(named_keys()[8].0 == KEY_KP8);
    if a == 0 {
        assert(named_keys()[8].1[0] == "numpad_8"@);
        lemma_resolves_8();
    }
}

proof fn lemma_key_9(a: int)
    requires
        0 <= a < named_keys()[9].1.len(),
    ensures
        resolve_key_spec(named_keys()[9].1[a]) == Some(named_keys()[9].0),
{
    assert(named_keys()[9].1.len() == 1);
    assert(named_keys()[9].0 == KEY_KP9);
    if a == 0 {
        assert(named_keys()[9].1[0] == "numpad_9"@);
        lemma_resolves_9();
    }
}

proof fn lemma_key_10(a: int)
    requires
        0 <= a < named_keys()[10].1.len(),
    ensures
        resolve_key_spec(named_keys()[10].1[a]) == Some(named_keys()[10].0),
{
    assert(named_keys()[10].1.len() == 1);
    assert(named_keys()[10].0 == KEY_KPENTER);
    if a == 0 {
        assert(named_keys()[10].1[0] == "numpad_enter"@);
        lemma_resolves_10();
    }
}

proof fn lemma_key_11(a: int)
    requires
        0 <= a < named_keys()[11].1.len(),
    ensures
        resolve_key_spec(named_keys()[11].1[a]) == Some(named_keys()[11].0),
{
    assert(named_keys()[11].1.len() == 2);
    assert(named_keys()[11].0 == KEY_KPDOT);
    if a == 0 {
        assert(named_keys()[11].1[0] == "numpad_decimal"@);
        lemma_resolves_11();
    } else if a == 1 {
        assert(named_keys()[11].1[1] == "numpad_dot"@);
        lemma_resolves_12();
    }
}

proof fn lemma_key_12(a: int)
    requires
        0 <= a < named_keys()[12].1.len(),
    ensures
        resolve_key_spec(named_keys()[12].1[a]) == Some(named_keys()[12].0),
{
    assert(named_keys()[12].1.len() == 2);
    assert(named_keys()[12].0 == KEY_KPPLUS);
    if a == 0 {
        assert(named_keys()[12].1[0] == "numpad_plus"@);
        lemma_resolves_13();
    } else if a == 1 {
        assert(named_keys()[12].1[1] == "numpad_add"@);
        lemma_resolves_14();
    }
}

proof fn lemma_key_13(a: int)
    requires
        0 <= a < named_keys()[13].1.len(),
    ensures
        resolve_key_spec(named_keys()[13].1[a]) == Some(named_keys()[13].0),
{
    assert(named_keys()[13].1.len() == 2);
    assert(named_keys()[13].0 == KEY_KPMINUS);
    if a == 0 {
        assert(named_keys()[13].1[0] == "numpad_minus"@);
        lemma_resolves_15();
    } else if a == 1 {
        assert(named_keys()[13].1[1] == "numpad_subtract"@);
        lemma_resolves_16();
    }
}

proof fn lemma_key_14(a: int)
    requires
        0 <= a < named_keys()[14].1.len(),
    ensures
        resolve_key_spec(named_keys()[14].1[a]) == Some(named_keys()[14].0),
{
    assert(named_keys()[14].1.len() == 1);
    assert(named_keys()[14].0 == KEY_KPASTERISK);
    if a == 0 {
        assert(named_keys()[14].1[0] == "numpad_multiply"@);
        lemma_resolves_17();
    }
}

proof fn lemma_key_15(a: int)
    requires
        0 <= a < named_keys()[15].1.len(),
    ensures
        resolve_key_spec(named_keys()[15].1[a]) == Some(named_keys()[15].0),
{
    assert(named_keys()[15].1.len() == 1);
    assert(named_keys()[15].0 == KEY_KPSLASH);
    if a == 0 {
        assert(named_keys()[15].1[0] == "numpad_divide"@);
        lemma_resolves_18();
    }
}

proof fn lemma_key_16(a: int)
    requires
        0 <= a < named_keys()[16].1.len(),
    ensures
        resolve_key_spec(named_keys()[16].1[a]) == Some(named_keys()[16].0),
{
    assert(named_keys()[16].1.len() == 2);
    assert(named_keys()[16].0 == KEY_NUMLOCK);
    if a == 0 {
        assert(named_keys()[16].1[0] == "numpad_clear"@);
        lemma_resolves_19();
    } else if a == 1 {
        assert(named_keys()[16].1[1] == "num_lock"@);
        lemma_resolves_78();
    }
}

proof fn lemma_key_17(a: int)
    requires
        0 <= a < named_keys()[17].1.len(),
    ensures
        resolve_key_spec(named_keys()[17].1[a]) == Some(named_keys()[17].0),
{
    assert(named_keys()[17].1.len() == 1);
    assert(named_keys()[17].0 == KEY_KPEQUAL);
    if a == 0 {
        assert(named_keys()[17].1[0] == "numpad_equals"@);
        lemma_resolves_20();
    }
}

proof fn lemma_key_18(a: int)
    requires
        0 <= a < named_keys()[18].1.len(),
    ensures
        resolve_key_spec(named_keys()[18].1[a]) == Some(named_keys()[18].0),
{
    assert(named_keys()[18].1.len() == 2);
    assert(named_keys()[18].0 == KEY_RIGHTALT);
    if a == 0 {
        assert(named_keys()[18].1[0] == "right_option"@);
        lemma_resolves_21();
    } else if a == 1 {
        assert(named_keys()[18].1[1] == "right_alt"@);
        lemma_resolves_22();
    }
}

proof fn lemma_key_19(a: int)
    requires
        0 <= a < named_keys()[19].1.len(),
    ensures
        resolve_key_spec(named_keys()[19].1[a]) == Some(named_keys()[19].0),
{
    assert(named_keys()[19].1.len() == 2);
    assert(named_keys()[19].0 == KEY_LEFTALT);
    if a == 0 {
        assert(named_keys()[19].1[0] == "left_option"@);
        lemma_resolves_23();
    } else if a == 1 {
        assert(named_keys()[19].1[1] == "left_alt"@);
        lemma_resolves_24();
    }
}

proof fn lemma_key_20(a: int)
    requires
        0 <= a < named_keys()[20].1.len(),
    ensures
        resolve_key_spec(named_keys()[20].1[a]) == Some(named_keys()[20].0),
{
    assert(named_keys()[20].1.len() == 2);
    assert(named_keys()[20].0 == KEY_RIGHTMETA);
    if a == 0 {
        assert(named_keys()[20].1[0] == "right_command"@);
        lemma_resolves_25();
    } else if a == 1 {
        assert(named_keys()[20].1[1] == "right_cmd"@);
        lemma_resolves_26();
    }
}

proof fn lemma_key_21(a: int)
    requires
        0 <= a < named_keys()[21].1.len(),
    ensures
        resolve_key_spec(named_keys()[21].1[a]) == Some(named_keys()[21].0),
{
    assert(named_keys()[21].1.len() == 2);
    assert(named_keys()[21].0 == KEY_LEFTMETA);
    if a == 0 {
        assert(named_keys()[21].1[0] == "left_command"@);
        lemma_resolves_27();
    } else if a == 1 {
        assert(named_keys()[21].1[1] == "left_cmd"@);
        lemma_resolves_28();
    }
}

proof fn lemma_key_22(a: int)
    requires
        0 <= a < named_keys()[22].1.len(),
    ensures
        resolve_key_spec(named_keys()[22].1[a]) == Some(named_keys()[22].0),
{
    assert(named_keys()[22].1.len() == 1);
    assert(named_keys()[22].0 == KEY_RIGHTSHIFT);
    if a == 0 {
        assert(named_keys()[22].1[0] == "right_shift"@);
        lemma_resolves_29();
    }
}

proof fn lemma_key_23(a: int)
    requires
        0 <= a < named_keys()[23].1.len(),
    ensures
        resolve_key_spec(named_keys()[23].1[a]) == Some(named_keys()[23].0),
{
    assert(named_keys()[23].1.len() == 1);
    assert(named_keys()[23].0 == KEY_LEFTSHIFT);
    if a == 0 {
        assert(named_keys()[23].1[0] == "left_shift"@);
        lemma_resolves_30();
    }
}

proof fn lemma_key_24(a: int)
    requires
        0 <= a < named_keys()[24].1.len(),
    ensures
        resolve_key_spec(named_keys()[24].1[a]) == Some(named_keys()[24].0),
{
    assert(named_keys()[24].1.len() == 2);
    assert(named_keys()[24].0 == KEY_RIGHTCTRL);
    if a == 0 {
        assert(named_keys()[24].1[0] == "right_control"@);
        lemma_resolves_31();
    } else if a == 1 {
        assert(named_keys()[24].1[1] == "right_ctrl"@);
        lemma_resolves_32();
    }
}

proof fn lemma_key_25(a: int)
    requires
        0 <= a < named_keys()[25].1.len(),
    ensures
        resolve_key_spec(named_keys()[25].1[a]) == Some(named_keys()[25].0),
{
    assert(named_keys()[25].1.len() == 2);
    assert(named_keys()[25].0 == KEY_LEFTCTRL);
    if a == 0 {
        assert(named_keys()[25].1[0] == "left_control"@);
        lemma_resolves_33();
    } else if a == 1 {
        assert(named_keys()[25].1[1] == "left_ctrl"@);
        lemma_resolves_34();
    }
}

proof fn lemma_key_26(a: int)
    requires
        0 <= a < named_keys()[26].1.len(),
    ensures
        resolve_key_spec(named_keys()[26].1[a]) == Some(named_keys()[26].0),
{
    assert(named_keys()[26].1.len() == 2);
    assert(named_keys()[26].0 == KEY_FN);
    if a == 0 {
        assert(named_keys()[26].1[0] == "fn_key"@);
        lemma_resolves_35();
    } else if a == 1 {
        assert(named_keys()[26].1[1] == "fn"@);
        lemma_resolves_36();
    }
}

proof fn lemma_key_27(a: int)
    requires
        0 <= a < named_keys()[27].1.len(),
    ensures
        resolve_key_spec(named_keys()[27].1[a]) == Some(named_keys()[27].0),
{
    assert(named_keys()[27].1.len() == 1);
    assert(named_keys()[27].0 == KEY_CAPSLOCK);
    if a == 0 {
        assert(named_keys()[27].1[0] == "caps_lock"@);
        lemma_resolves_37();
    }
}

proof fn lemma_key_28(a: int)
    requires
        0 <= a < named_keys()[28].1.len(),
    ensures
        resolve_key_spec(named_keys()[28].1[a]) == Some(named_keys()[28].0),
{
    assert(named_keys()[28].1.len() == 1);
    assert(named_keys()[28].0 == KEY_F1);
    if a == 0 {
        assert(named_keys()[28].1[0] == "f1"@);
        lemma_resolves_38();
    }
}

proof fn lemma_key_29(a: int)
    requires
        0 <= a < named_keys()[29].1.len(),
    ensures
        resolve_key_spec(named_keys()[29].1[a]) == Some(named_keys()[29].0),
{
    assert(named_keys()[29].1.len() == 1);
    assert(named_keys()[29].0 == KEY_F2);
    if a == 0 {
        assert(named_keys()[29].1[0] == "f2"@);
        lemma_resolves_39();
    }
}

proof fn lemma_key_30(a: int)
    requires
        0 <= a < named_keys()[30].1.len(),
    ensures
        resolve_key_spec(named_keys()[30].1[a]) == Some(named_keys()[30].0),
{
    assert(named_keys()[30].1.len() == 1);
    assert(named_keys()[30].0 == KEY_F3);
    if a == 0 {
        assert(named_keys()[30].1[0] == "f3"@);
        lemma_resolves_40();
    }
}

proof fn lemma_key_31(a: int)
    requires
        0 <= a < named_keys()[31].1.len(),
    ensures
        resolve_key_spec(named_keys()[31].1[a]) == Some(named_keys()[31].0),
{
    assert(named_keys()[31].1.len() == 1);
    assert(named_keys()[31].0 == KEY_F4);
    if a == 0 {
        assert(named_keys()[31].1[0] == "f4"@);
        lemma_resolves_41();
    }
}

proof fn lemma_key_32(a: int)
    requires
        0 <= a < named_keys()[32].1.len(),
    ensures
        resolve_key_spec(named_keys()[32].1[a]) == Some(named_keys()[32].0),
{
    assert(named_keys()[32].1.len() == 1);
    assert(named_keys()[32].0 == KEY_F5);
    if a == 0 {
        assert(named_keys()[32].1[0] == "f5"@);
        lemma_resolves_42();
    }
}

proof fn lemma_key_33(a: int)
    requires
        0 <= a < named_keys()[33].1.len(),
    ensures
        resolve_key_spec(named_keys()[33].1[a]) == Some(named_keys()[33].0),
{
    assert(named_keys()[33].1.len() == 1);
    assert(named_keys()[33].0 == KEY_F6);
    if a == 0 {
        assert(named_keys()[33].1[0] == "f6"@);
        lemma_resolves_43();
    }
}

proof fn lemma_key_34(a: int)
    requires
        0 <= a < named_keys()[34].1.len(),
    ensures
        resolve_key_spec(named_keys()[34].1[a]) == Some(named_keys()[34].0),
{
    assert(named_keys()[34].1.len() == 1);
    assert(named_keys()[34].0 == KEY_F7);
    if a == 0 {
        assert(named_keys()[34].1[0] == "f7"@);
        lemma_resolves_44();
    }
}

proof fn lemma_key_35(a: int)
    requires
        0 <= a < named_keys()[35].1.len(),
    ensures
        resolve_key_spec(named_keys()[35].1[a]) == Some(named_keys()[35].0),
{
    assert(named_keys()[35].1.len() == 1);
    assert(named_keys()[35].0 == KEY_F8);
    if a == 0 {
        assert(named_keys()[35].1[0] == "f8"@);
        lemma_resolves_45();
    }
}

proof fn lemma_key_36(a: int)
    requires
        0 <= a < named_keys()[36].1.len(),
    ensures
        resolve_key_spec(named_keys()[36].1[a]) == Some(named_keys()[36].0),
{
    assert(named_keys()[36].1.len() == 1);
    assert(named_keys()[36].0 == KEY_F9);
    if a == 0 {
        assert(named_keys()[36].1[0] == "f9"@);
        lemma_resolves_46();
    }
}

proof fn lemma_key_37(a: int)
    requires
        0 <= a < named_keys()[37].1.len(),
    ensures
        resolve_key_spec(named_keys()[37].1[a]) == Some(named_keys()[37].0),
{
    assert(named_keys()[37].1.len() == 1);
    assert(named_keys()[37].0 == KEY_F10);
    if a == 0 {
        assert(named_keys()[37].1[0] == "f10"@);
        lemma_resolves_47();
    }
}

proof fn lemma_key_38(a: int)
    requires
        0 <= a < named_keys()[38].1.len(),
    ensures
        resolve_key_spec(named_keys()[38].1[a]) == Some(named_keys()[38].0),
{
    assert(named_keys()[38].1.len() == 1);
    assert(named_keys()[38].0 == KEY_F11);
    if a == 0 {
        assert(named_keys()[38].1[0] == "f11"@);
        lemma_resolves_48();
    }
}

proof fn lemma_key_39(a: int)
    requires
        0 <= a < named_keys()[39].1.len(),
    ensures
        resolve_key_spec(named_keys()[39].1[a]) == Some(named_keys()[39].0),
{
    assert(named_keys()[39].1.len() == 1);
    assert(named_keys()[39].0 == KEY_F12);
    if a == 0 {
        assert(named_keys()[39].1[0] == "f12"@);
        lemma_resolves_49();
    }
}

proof fn lemma_key_40(a: int)
    requires
        0 <= a < named_keys()[40].1.len(),
    ensures
        resolve_key_spec(named_keys()[40].1[a]) == Some(named_keys()[40].0),
{
    assert(named_keys()[40].1.len() == 1);
    assert(named_keys()[40].0 == KEY_F13);
    if a == 0 {
        assert(named_keys()[40].1[0] == "f13"@);
        lemma_resolves_50();
    }
}

proof fn lemma_key_41(a: int)
    requires
        0 <= a < named_keys()[41].1.len(),
    ensures
        resolve_key_spec(named_keys()[41].1[a]) == Some(named_keys()[41].0),
{
    assert(named_keys()[41].1.len() == 1);
    assert(named_keys()[41].0 == KEY_F14);
    if a == 0 {
        assert(named_keys()[41].1[0] == "f14"@);
        lemma_resolves_51();
    }
}

proof fn lemma_key_42(a: int)
    requires
        0 <= a < named_keys()[42].1.len(),
    ensures
        resolve_key_spec(named_keys()[42].1[a]) == Some(named_keys()[42].0),
{
    assert(named_keys()[42].1.len() == 1);
    assert(named_keys()[42].0 == KEY_F15);
    if a == 0 {
        assert(named_keys()[42].1[0] == "f15"@);
        lemma_resolves_52();
    }
}

proof fn lemma_key_43(a: int)
    requires
        0 <= a < named_keys()[43].1.len(),
    ensures
        resolve_key_spec(named_keys()[43].1[a]) == Some(named_keys()[43].0),
{
    assert(named_keys()[43].1.len() == 1);
    assert(named_keys()[43].0 == KEY_F16);
    if a == 0 {
        assert(named_keys()[43].1[0] == "f16"@);
        lemma_resolves_53();
    }
}

proof fn lemma_key_44(a: int)
    requires
        0 <= a < named_keys()[44].1.len(),
    ensures
        resolve_key_spec(named_keys()[44].1[a]) == Some(named_keys()[44].0),
{
    assert(named_keys()[44].1.len() == 1);
    assert(named_keys()[44].0 == KEY_F17);
    if a == 0 {
        assert(named_keys()[44].1[0] == "f17"@);
        lemma_resolves_54();
    }
}

proof fn lemma_key_45(a: int)
    requires
        0 <= a < named_keys()[45].1.len(),
    ensures
        resolve_key_spec(named_keys()[45].1[a]) == Some(named_keys()[45].0),
{
    assert(named_keys()[45].1.len() == 1);
    assert(named_keys()[45].0 == KEY_F18);
    if a == 0 {
        assert(named_keys()[45].1[0] == "f18"@);
        lemma_resolves_55();
    }
}

proof fn lemma_key_46(a: int)
    requires
        0 <= a < named_keys()[46].1.len(),
    ensures
        resolve_key_spec(named_keys()[46].1[a]) == Some(named_keys()[46].0),
{
    assert(named_keys()[46].1.len() == 1);
    assert(named_keys()[46].0 == KEY_F19);
    if a == 0 {
        assert(named_keys()[46].1[0] == "f19"@);
        lemma_resolves_56();
    }
}

proof fn lemma_key_47(a: int)
    requires
        0 <= a < named_keys()[47].1.len(),
    ensures
        resolve_key_spec(named_keys()[47].1[a]) == Some(named_keys()[47].0),
{
    assert(named_keys()[47].1.len() == 1);
    assert(named_keys()[47].0 == KEY_F20);
    if a == 0 {
        assert(named_keys()[47].1[0] == "f20"@);
        lemma_resolves_57();
    }
}

proof fn lemma_key_48(a: int)
    requires
        0 <= a < named_keys()[48].1.len(),
    ensures
        resolve_key_spec(named_keys()[48].1[a]) == Some(named_keys()[48].0),
{
    assert(named_keys()[48].1.len() == 1);
    assert(named_keys()[48].0 == KEY_SPACE);
    if a == 0 {
        assert(named_keys()[48].1[0] == "space"@);
        lemma_resolves_58();
    }
}

proof fn lemma_key_49(a: int)
    requires
        0 <= a < named_keys()[49].1.len(),
    ensures
        resolve_key_spec(named_keys()[49].1[a]) == Some(named_keys()[49].0),
{
    assert(named_keys()[49].1.len() == 1);
    assert(named_keys()[49].0 == KEY_TAB);
    if a == 0 {
        assert(named_keys()[49].1[0] == "tab"@);
        lemma_resolves_59();
    }
}

proof fn lemma_key_50(a: int)
    requires
        0 <= a < named_keys()[50].1.len(),
    ensures
        resolve_key_spec(named_keys()[50].1[a]) == Some(named_keys()[50].0),
{
    assert(named_keys()[50].1.len() == 1);
    assert(named_keys()[50].0 == KEY_ESC);
    if a == 0 {
        assert(named_keys()[50].1[0] == "escape"@);
        lemma_resolves_60();
    }
}

proof fn lemma_key_51(a: int)
    requires
        0 <= a < named_keys()[51].1.len(),
    ensures
        resolve_key_spec(named_keys()[51].1[a]) == Some(named_keys()[51].0),
{
    assert(named_keys()[51].1.len() == 1);
    assert(named_keys()[51].0 == KEY_BACKSPACE);
    if a == 0 {
        assert(named_keys()[51].1[0] == "delete"@);
        lemma_resolves_61();
    }
}

proof fn lemma_key_52(a: int)
    requires
        0 <= a < named_keys()[52].1.len(),
    ensures
        resolve_key_spec(named_keys()[52].1[a]) == Some(named_keys()[52].0),
{
    assert(named_keys()[52].1.len() == 1);
    assert(named_keys()[52].0 == KEY_DELETE);
    if a == 0 {
        assert(named_keys()[52].1[0] == "forward_delete"@);
        lemma_resolves_62();
    }
}

proof fn lemma_key_53(a: int)
    requires
        0 <= a < named_keys()[53].1.len(),
    ensures
        resolve_key_spec(named_keys()[53].1[a]) == Some(named_keys()[53].0),
{
    assert(named_keys()[53].1.len() == 3);
    assert(named_keys()[53].0 == KEY_ENTER);
    if a == 0 {
        assert(named_keys()[53].1[0] == "return_key"@);
        lemma_resolves_63();
    } else if a == 1 {
        assert(named_keys()[53].1[1] == "return"@);
        lemma_resolves_64();
    } else if a == 2 {
        assert(named_keys()[53].1[2] == "enter"@);
        lemma_resolves_65();
    }
}

proof fn lemma_key_54(a: int)
    requires
        0 <= a < named_keys()[54].1.len(),
    ensures
        resolve_key_spec(named_keys()[54].1[a]) == Some(named_keys()[54].0),
{
    assert(named_keys()[54].1.len() == 1);
    assert(named_keys()[54].0 == KEY_HOME);
    if a == 0 {
        assert(named_keys()[54].1[0] == "home"@);
        lemma_resolves_66();
    }
}

proof fn lemma_key_55(a: int)
    requires
        0 <= a < named_keys()[55].1.len(),
    ensures
        resolve_key_spec(named_keys()[55].1[a]) == Some(named_keys()[55].0),
{
    assert(named_keys()[55].1.len() == 1);
    assert(named_keys()[55].0 == KEY_END);
    if a == 0 {
        assert(named_keys()[55].1[0] == "end"@);
        lemma_resolves_67();
    }
}

proof fn lemma_key_56(a: int)
    requires
        0 <= a < named_keys()[56].1.len(),
    ensures
        resolve_key_spec(named_keys()[56].1[a]) == Some(named_keys()[56].0),
{
    assert(named_keys()[56].1.len() == 1);
    assert(named_keys()[56].0 == KEY_PAGEUP);
    if a == 0 {
        assert(named_keys()[56].1[0] == "page_up"@);
        lemma_resolves_68();
    }
}

proof fn lemma_key_57(a: int)
    requires
        0 <= a < named_keys()[57].1.len(),
    ensures
        resolve_key_spec(named_keys()[57].1[a]) == Some(named_keys()[57].0),
{
    assert(named_keys()[57].1.len() == 1);
    assert(named_keys()[57].0 == KEY_PAGEDOWN);
    if a == 0 {
        assert(named_keys()[57].1[0] == "page_down"@);
        lemma_resolves_69();
    }
}

proof fn lemma_key_58(a: int)
    requires
        0 <= a < named_keys()[58].1.len(),
    ensures
        resolve_key_spec(named_keys()[58].1[a]) == Some(named_keys()[58].0),
{
    assert(named_keys()[58].1.len() == 1);
    assert(named_keys()[58].0 == KEY_UP);
    if a == 0 {
        assert(named_keys()[58].1[0] == "up_arrow"@);
        lemma_resolves_70();
    }
}

proof fn lemma_key_59(a: int)
    requires
        0 <= a < named_keys()[59].1.len(),
    ensures
        resolve_key_spec(named_keys()[59].1[a]) == Some(named_keys()[59].0),
{
    assert(named_keys()[59].1.len() == 1);
    assert(named_keys()[59].0 == KEY_DOWN);
    if a == 0 {
        assert(named_keys()[59].1[0] == "down_arrow"@);
        lemma_resolves_71();
    }
}

proof fn lemma_key_60(a: int)
    requires
        0 <= a < named_keys()[60].1.len(),
    ensures
        resolve_key_spec(named_keys()[60].1[a]) == Some(named_keys()[60].0),
{
    assert(named_keys()[60].1.len() == 1);
    assert(named_keys()[60].0 == KEY_LEFT);
    if a == 0 {
        assert(named_keys()[60].1[0] == "left_arrow"@);
        lemma_resolves_72();
    }
}

proof fn lemma_key_61(a: int)
    requires
        0 <= a < named_keys()[61].1.len(),
    ensures
        resolve_key_spec(named_keys()[61].1[a]) == Some(named_keys()[61].0),
{
    assert(named_keys()[61].1.len() == 1);
    assert(named_keys()[61].0 == KEY_RIGHT);
    if a == 0 {
        assert(named_keys()[61].1[0] == "right_arrow"@);
        lemma_resolves_73();
    }
}

proof fn lemma_key_62(a: int)
    requires
        0 <= a < named_keys()[62].1.len(),
    ensures
        resolve_key_spec(named_keys()[62].1[a]) == Some(named_keys()[62].0),
{
    assert(named_keys()[62].1.len() == 1);
    assert(named_keys()[62].0 == KEY_INSERT);
    if a == 0 {
        assert(named_keys()[62].1[0] == "insert"@);
        lemma_resolves_74();
    }
}

proof fn lemma_key_63(a: int)
    requires
        0 <= a < named_keys()[63].1.len(),
    ensures
        resolve_key_spec(named_keys()[63].1[a]) == Some(named_keys()[63].0),
{
    assert(named_keys()[63].1.len() == 1);
    assert(named_keys()[63].0 == KEY_SYSRQ);
    if a == 0 {
        assert(named_keys()[63].1[0] == "print_screen"@);
        lemma_resolves_75();
    }
}

proof fn lemma_key_64(a: int)
    requires
        0 <= a < named_keys()[64].1.len(),
    ensures
        resolve_key_spec(named_keys()[64].1[a]) == Some(named_keys()[64].0),
{
    assert(named_keys()[64].1.len() == 1);
    assert(named_keys()[64].0 == KEY_SCROLLLOCK);
    if a == 0 {
        assert(named_keys()[64].1[0] == "scroll_lock"@);
        lemma_resolves_76();
    }
}

proof fn lemma_key_65(a: int)
    requires
        0 <= a < named_keys()[65].1.len(),
    ensures
        resolve_key_spec(named_keys()[65].1[a]) == Some(named_keys()[65].0),
{
    assert(named_keys()[65].1.len() == 1);
    assert(named_keys()[65].0 == KEY_PAUSE);
    if a == 0 {
        assert(named_keys()[65].1[0] == "pause"@);
        lemma_resolves_77();
    }
}

proof fn lemma_key_66(a: int)
    requires
        0 <= a < named_keys()[66].1.len(),
    ensures
        resolve_key_spec(named_keys()[66].1[a]) == Some(named_keys()[66].0),
{
    assert(named_keys()[66].1.len() == 1);
    assert(named_keys()[66].0 == KEY_102ND);
    if a == 0 {
        assert(named_keys()[66].1[0] == "section"@);
        lemma_resolves_79();
    }
}

proof fn lemma_key_67(a: int)
    requires
        0 <= a < named_keys()[67].1.len(),
    ensures
        resolve_key_spec(named_keys()[67].1[a]) == Some(named_keys()[67].0),
{
    assert(named_keys()[67].1.len() == 1);
    assert(named_keys()[67].0 == KEY_GRAVE);
    if a == 0 {
        assert(named_keys()[67].1[0] == "grave"@);
        lemma_resolves_80();
    }
}

proof fn lemma_key_68(a: int)
    requires
        0 <= a < named_keys()[68].1.len(),
    ensures
        resolve_key_spec(named_keys()[68].1[a]) == Some(named_keys()[68].0),
{
    assert(named_keys()[68].1.len() == 1);
    assert(named_keys()[68].0 == KEY_MINUS);
    if a == 0 {
        assert(named_keys()[68].1[0] == "minus"@);
        lemma_resolves_81();
    }
}

proof fn lemma_key_69(a: int)
    requires
        0 <= a < named_keys()[69].1.len(),
    ensures
        resolve_key_spec(named_keys()[69].1[a]) == Some(named_keys()[69].0),
{
    assert(named_keys()[69].1.len() == 1);
    assert(named_keys()[69].0 == KEY_EQUAL);
    if a == 0 {
        assert(named_keys()[69].1[0] == "equal"@);
        lemma_resolves_82();
    }
}

proof fn lemma_key_70(a: int)
    requires
        0 <= a < named_keys()[70].1.len(),
    ensures
        resolve_key_spec(named_keys()[70].1[a]) == Some(named_keys()[70].0),
{
    assert(named_keys()[70].1.len() == 1);
    assert(named_keys()[70].0 == KEY_LEFTBRACE);
    if a == 0 {
        assert(named_keys()[70].1[0] == "left_bracket"@);
        lemma_resolves_83();
    }
}

proof fn lemma_key_71(a: int)
    requires
        0 <= a < named_keys()[71].1.len(),
    ensures
        resolve_key_spec(named_keys()[71].1[a]) == Some(named_keys()[71].0),
{
    assert(named_keys()[71].1.len() == 1);
    assert(named_keys()[71].0 == KEY_RIGHTBRACE);
    if a == 0 {
        assert(named_keys()[71].1[0] == "right_bracket"@);
        lemma_resolves_84();
    }
}

proof fn lemma_key_72(a: int)
    requires
        0 <= a < named_keys()[72].1.len(),
    ensures
        resolve_key_spec(named_keys()[72].1[a]) == Some(named_keys()[72].0),
{
    assert(named_keys()[72].1.len() == 1);
    assert(named_keys()[72].0 == KEY_BACKSLASH);
    if a == 0 {
        assert(named_keys()[72].1[0] == "backslash"@);
        lemma_resolves_85();
    }
}

proof fn lemma_key_73(a: int)
    requires
        0 <= a < named_keys()[73].1.len(),
    ensures
        resolve_key_spec(named_keys()[73].1[a]) == Some(named_keys()[73].0),
{
    assert(named_keys()[73].1.len() == 1);
    assert(named_keys()[73].0 == KEY_SEMICOLON);
    if a == 0 {
        assert(named_keys()[73].1[0] == "semicolon"@);
        lemma_resolves_86();
    }
}

proof fn lemma_key_74(a: int)
    requires
        0 <= a < named_keys()[74].1.len(),
    ensures
        resolve_key_spec(named_keys()[74].1[a]) == Some(named_keys()[74].0),
{
    assert(named_keys()[74].1.len() == 1);
    assert(named_keys()[74].0 == KEY_APOSTROPHE);
    if a == 0 {
        assert(named_keys()[74].1[0] == "quote"@);
        lemma_resolves_87();
    }
}

proof fn lemma_key_75(a: int)
    requires
        0 <= a < named_keys()[75].1.len(),
    ensures
        resolve_key_spec(named_keys()[75].1[a]) == Some(named_keys()[75].0),
{
    assert(named_keys()[75].1.len() == 1);
    assert(named_keys()[75].0 == KEY_COMMA);
    if a == 0 {
        assert(named_keys()[75].1[0] == "comma"@);
        lemma_resolves_88();
    }
}

proof fn lemma_key_76(a: int)
    requires
        0 <= a < named_keys()[76].1.len(),
    ensures
        resolve_key_spec(named_keys()[76].1[a]) == Some(named_keys()[76].0),
{
    assert(named_keys()[76].1.len() == 1);
    assert(named_keys()[76].0 == KEY_DOT);
    if a == 0 {
        assert(named_keys()[76].1[0] == "period"@);
        lemma_resolves_89();
    }
}

proof fn lemma_key_77(a: int)
    requires
        0 <= a < named_keys()[77].1.len(),
    ensures
        resolve_key_spec(named_keys()[77].1[a]) == Some(named_keys()[77].0),
{
    assert(named_keys()[77].1.len() == 1);
    assert(named_keys()[77].0 == KEY_SLASH);
    if a == 0 {
        assert(named_keys()[77].1[0] == "slash"@);
        lemma_resolves_90();
    }
}

/// Every key name resolves to the Linux input code of the key it names
/// (`right_command` and `right_cmd` to `KEY_RIGHTMETA`, 126), and all the
/// names of one key resolve to the same code.
pub proof fn law_key_names_resolve_to_their_keys(g: int, a: int, b: int)
    requires
        0 <= g < named_keys().len(),
        0 <= a < named_keys()[g].1.len(),
        0 <= b < named_keys()[g].1.len(),
    ensures
        resolve_key_spec(named_keys()[g].1[a]) == Some(named_keys()[g].0),
        resolve_key_spec(named_keys()[g].1[a]) == resolve_key_spec(named_keys()[g].1[b]),
{
    assert(named_keys().len() == 78);
    if g == 0 {
        lemma_key_0(a);
        lemma_key_0(b);
    } else if g == 1 {
        lemma_key_1(a);
        lemma_key_1(b);
    } else if g == 2 {
        lemma_key_2(a);
        lemma_key_2(b);
    } else if g == 3 {
        lemma_key_3(a);
        lemma_key_3(b);
    } else if g == 4 {
        lemma_key_4(a);
        lemma_key_4(b);
    } else if g == 5 {
        lemma_key_5(a);
        lemma_key_5(b);
    } else if g == 6 {
        lemma_key_6(a);
        lemma_key_6(b);
    } else if g == 7 {
        lemma_key_7(a);
        lemma_key_7(b);
    } else if g == 8 {
        lemma_key_8(a);
        lemma_key_8(b);
    } else if g == 9 {
        lemma_key_9(a);
        lemma_key_9(b);
    } else if g == 10 {
        lemma_key_10(a);
        lemma_key_10(b);
    } else if g == 11 {
        lemma_key_11(a);
        lemma_key_11(b);
    } else if g == 12 {
        lemma_key_12(a);
        lemma_key_12(b);
    } else if g == 13 {
        lemma_key_13(a);
        lemma_key_13(b);
    } else if g == 14 {
        lemma_key_14(a);
        lemma_key_14(b);
    } else if g == 15 {
        lemma_key_15(a);
        lemma_key_15(b);
    } else if g == 16 {
        lemma_key_16(a);
        lemma_key_16(b);
    } else if g == 17 {
        lemma_key_17(a);
        lemma_key_17(b);
    } else if g == 18 {
        lemma_key_18(a);
        lemma_key_18(b);
    } else if g == 19 {
        lemma_key_19(a);
        lemma_key_19(b);
    } else if g == 20 {
        lemma_key_20(a);
        lemma_key_20(b);
    } else if g == 21 {
        lemma_key_21(a);
        lemma_key_21(b);
    } else if g == 22 {
        lemma_key_22(a);
        lemma_key_22(b);
    } else if g == 23 {
        lemma_key_23(a);
        lemma_key_23(b);
    } else if g == 24 {
        lemma_key_24(a);
        lemma_key_24(b);
    } else if g == 25 {
        lemma_key_25(a);
        lemma_key_25(b);
    } else if g == 26 {
        lemma_key_26(a);
        lemma_key_26(b);
    } else if g == 27 {
        lemma_key_27(a);
        lemma_key_27(b);
    } else if g == 28 {
        lemma_key_28(a);
        lemma_key_28(b);
    } else if g == 29 {
        lemma_key_29(a);
        lemma_key_29(b);
    } else if g == 30 {
        lemma_key_30(a);
        lemma_key_30(b);
    } else if g == 31 {
        lemma_key_31(a);
        lemma_key_31(b);
    } else if g == 32 {
        lemma_key_32(a);
        lemma_key_32(b);
    } else if g == 33 {
        lemma_key_33(a);
        lemma_key_33(b);
    } else if g == 34 {
        lemma_key_34(a);
        lemma_key_34(b);
    } else if g == 35 {
        lemma_key_35(a);
        lemma_key_35(b);
    } else if g == 36 {
        lemma_key_36(a);
        lemma_key_36(b);
    } else if g == 37 {
        lemma_key_37(a);
        lemma_key_37(b);
    } else if g == 38 {
        lemma_key_38(a);
        lemma_key_38(b);
    } else if g == 39 {
        lemma_key_39(a);
        lemma_key_39(b);
    } else if g == 40 {
        lemma_key_40(a);
        lemma_key_40(b);
    } else if g == 41 {
        lemma_key_41(a);
        lemma_key_41(b);
    } else if g == 42 {
        lemma_key_42(a);
        lemma_key_42(b);
    } else if g == 43 {
        lemma_key_43(a);
        lemma_key_43(b);
    } else if g == 44 {
        lemma_key_44(a);
        lemma_key_44(b);
    } else if g == 45 {
        lemma_key_45(a);
        lemma_key_45(b);
    } else if g == 46 {
        lemma_key_46(a);
        lemma_key_46(b);
    } else if g == 47 {
        lemma_key_47(a);
        lemma_key_47(b);
    } else if g == 48 {
        lemma_key_48(a);
        lemma_key_48(b);
    } else if g == 49 {
        lemma_key_49(a);
        lemma_key_49(b);
    } else if g == 50 {
        lemma_key_50(a);
        lemma_key_50(b);
    } else if g == 51 {
        lemma_key_51(a);
        lemma_key_51(b);
    } else if g == 52 {
        lemma_key_52(a);
        lemma_key_52(b);
    } else if g == 53 {
        lemma_key_53(a);
        lemma_key_53(b);
    } else if g == 54 {
        lemma_key_54(a);
        lemma_key_54(b);
    } else if g == 55 {
        lemma_key_55(a);
        lemma_key_55(b);
    } else if g == 56 {
        lemma_key_56(a);
        lemma_key_56(b);
    } else if g == 57 {
        lemma_key_57(a);
        lemma_key_57(b);
    } else if g == 58 {
        lemma_key_58(a);
        lemma_key_58(b);
    } else if g == 59 {
        lemma_key_59(a);
        lemma_key_59(b);
    } else if g == 60 {
        lemma_key_60(a);
        lemma_key_60(b);
    } else if g == 61 {
        lemma_key_61(a);
        lemma_key_61(b);
    } else if g == 62 {
        lemma_key_62(a);
        lemma_key_62(b);
    } else if g == 63 {
        lemma_key_63(a);
        lemma_key_63(b);
    } else if g == 64 {
        lemma_key_64(a);
        lemma_key_64(b);
    } else if g == 65 {
        lemma_key_65(a);
        lemma_key_65(b);
    } else if g == 66 {
        lemma_key_66(a);
        lemma_key_66(b);
    } else if g == 67 {
        lemma_key_67(a);
        lemma_key_67(b);
    } else if g == 68 {
        lemma_key_68(a);
        lemma_key_68(b);
    } else if g == 69 {
        lemma_key_69(a);
        lemma_key_69(b);
    } else if g == 70 {
        lemma_key_70(a);
        lemma_key_70(b);
    } else if g == 71 {
        lemma_key_71(a);
        lemma_key_71(b);
    } else if g == 72 {
        lemma_key_72(a);
        lemma_key_72(b);
    } else if g == 73 {
        lemma_key_73(a);
        lemma_key_73(b);
    } else if g == 74 {
        lemma_key_74(a);
        lemma_key_74(b);
    } else if g == 75 {
        lemma_key_75(a);
        lemma_key_75(b);
    } else if g == 76 {
        lemma_key_76(a);
        lemma_key_76(b);
    } else if g == 77 {
        lemma_key_77(a);
        lemma_key_77(b);
    }
}

/// The key table holds nothing else: each of its entries pairs one of the
/// names of a key with that key's code.
pub proof fn law_key_table_entries_are_named_keys(i: int)
    requires
        0 <= i < key_table().len(),
    ensures
        exists|g: int, a: int|
            0 <= g < named_keys().len() && 0 <= a < named_keys()[g].1.len()
                && #[trigger] named_keys()[g].1[a] == key_table()[i].0 && named_keys()[g].0
                == key_table()[i].1,
{
    assert(key_table().len() == 91);
    if i == 0 {
        assert(named_keys()[0].1[0] == key_table()[0].0 && named_keys()[0].0 == key_table()[0].1);
    } else if i == 1 {
        assert(named_keys()[1].1[0] == key_table()[1].0 && named_keys()[1].0 == key_table()[1].1);
    } else if i == 2 {
        assert(named_keys()[2].1[0] == key_table()[2].0 && named_keys()[2].0 == key_table()[2].1);
    } else if i == 3 {
        assert(named_keys()[3].1[0] == key_table()[3].0 && named_keys()[3].0 == key_table()[3].1);
    } else if i == 4 {
        assert(named_keys()[4].1[0] == key_table()[4].0 && named_keys()[4].0 == key_table()[4].1);
    } else if i == 5 {
        assert(named_keys()[5].1[0] == key_table()[5].0 && named_keys()[5].0 == key_table()[5].1);
    } else if i == 6 {
        assert(named_keys()[6].1[0] == key_table()[6].0 && named_keys()[6].0 == key_table()[6].1);
    } else if i == 7 {
        assert(named_keys()[7].1[0] == key_table()[7].0 && named_keys()[7].0 == key_table()[7].1);
    } else if i == 8 {
        assert(named_keys()[8].1[0] == key_table()[8].0 && named_keys()[8].0 == key_table()[8].1);
    } else if i == 9 {
        assert(named_keys()[9].1[0] == key_table()[9].0 && named_keys()[9].0 == key_table()[9].1);
    } else if i == 10 {
        assert(named_keys()[10].1[0] == key_table()[10].0 && named_keys()[10].0 == key_table()[10].1);
    } else if i == 11 {
        assert(named_keys()[11].1[0] == key_table()[11].0 && named_keys()[11].0 == key_table()[11].1);
    } else if i == 12 {
        assert(named_keys()[11].1[1] == key_table()[12].0 && named_keys()[11].0 == key_table()[12].1);
    } else if i == 13 {
        assert(named_keys()[12].1[0] == key_table()[13].0 && named_keys()[12].0 == key_table()[13].1);
    } else if i == 14 {
        assert(named_keys()[12].1[1] == key_table()[14].0 && named_keys()[12].0 == key_table()[14].1);
    } else if i == 15 {
        assert(named_keys()[13].1[0] == key_table()[15].0 && named_keys()[13].0 == key_table()[15].1);
    } else if i == 16 {
        assert(named_keys()[13].1[1] == key_table()[16].0 && named_keys()[13].0 == key_table()[16].1);
    } else if i == 17 {
        assert(named_keys()[14].1[0] == key_table()[17].0 && named_keys()[14].0 == key_table()[17].1);
    } else if i == 18 {
        assert(named_keys()[15].1[0] == key_table()[18].0 && named_keys()[15].0 == key_table()[18].1);
    } else if i == 19 {
        assert(named_keys()[16].1[0] == key_table()[19].0 && named_keys()[16].0 == key_table()[19].1);
    } else if i == 20 {
        assert(named_keys()[17].1[0] == key_table()[20].0 && named_keys()[17].0 == key_table()[20].1);
    } else if i == 21 {
        assert(named_keys()[18].1[0] == key_table()[21].0 && named_keys()[18].0 == key_table()[21].1);
    } else if i == 22 {
        assert(named_keys()[18].1[1] == key_table()[22].0 && named_keys()[18].0 == key_table()[22].1);
    } else if i == 23 {
        assert(named_keys()[19].1[0] == key_table()[23].0 && named_keys()[19].0 == key_table()[23].1);
    } else if i == 24 {
        assert(named_keys()[19].1[1] == key_table()[24].0 && named_keys()[19].0 == key_table()[24].1);
    } else if i == 25 {
        assert(named_keys()[20].1[0] == key_table()[25].0 && named_keys()[20].0 == key_table()[25].1);
    } else if i == 26 {
        assert(named_keys()[20].1[1] == key_table()[26].0 && named_keys()[20].0 == key_table()[26].1);
    } else if i == 27 {
        assert(named_keys()[21].1[0] == key_table()[27].0 && named_keys()[21].0 == key_table()[27].1);
    } else if i == 28 {
        assert(named_keys()[21].1[1] == key_table()[28].0 && named_keys()[21].0 == key_table()[28].1);
    } else if i == 29 {
        assert(named_keys()[22].1[0] == key_table()[29].0 && named_keys()[22].0 == key_table()[29].1);
    } else if i == 30 {
        assert(named_keys()[23].1[0] == key_table()[30].0 && named_keys()[23].0 == key_table()[30].1);
    } else if i == 31 {
        assert(named_keys()[24].1[0] == key_table()[31].0 && named_keys()[24].0 == key_table()[31].1);
    } else if i == 32 {
        assert(named_keys()[24].1[1] == key_table()[32].0 && named_keys()[24].0 == key_table()[32].1);
    } else if i == 33 {
        assert(named_keys()[25].1[0] == key_table()[33].0 && named_keys()[25].0 == key_table()[33].1);
    } else if i == 34 {
        assert(named_keys()[25].1[1] == key_table()[34].0 && named_keys()[25].0 == key_table()[34].1);
    } else if i == 35 {
        assert(named_keys()[26].1[0] == key_table()[35].0 && named_keys()[26].0 == key_table()[35].1);
    } else if i == 36 {
        assert(named_keys()[26].1[1] == key_table()[36].0 && named_keys()[26].0 == key_table()[36].1);
    } else if i == 37 {
        assert(named_keys()[27].1[0] == key_table()[37].0 && named_keys()[27].0 == key_table()[37].1);
    } else if i == 38 {
        assert(named_keys()[28].1[0] == key_table()[38].0 && named_keys()[28].0 == key_table()[38].1);
    } else if i == 39 {
        assert(named_keys()[29].1[0] == key_table()[39].0 && named_keys()[29].0 == key_table()[39].1);
    } else if i == 40 {
        assert(named_keys()[30].1[0] == key_table()[40].0 && named_keys()[30].0 == key_table()[40].1);
    } else if i == 41 {
        assert(named_keys()[31].1[0] == key_table()[41].0 && named_keys()[31].0 == key_table()[41].1);
    } else if i == 42 {
        assert(named_keys()[32].1[0] == key_table()[42].0 && named_keys()[32].0 == key_table()[42].1);
    } else if i == 43 {
        assert(named_keys()[33].1[0] == key_table()[43].0 && named_keys()[33].0 == key_table()[43].1);
    } else if i == 44 {
        assert(named_keys()[34].1[0] == key_table()[44].0 && named_keys()[34].0 == key_table()[44].1);
    } else if i == 45 {
        assert(named_keys()[35].1[0] == key_table()[45].0 && named_keys()[35].0 == key_table()[45].1);
    } else if i == 46 {
        assert(named_keys()[36].1[0] == key_table()[46].0 && named_keys()[36].0 == key_table()[46].1);
    } else if i == 47 {
        assert(named_keys()[37].1[0] == key_table()[47].0 && named_keys()[37].0 == key_table()[47].1);
    } else if i == 48 {
        assert(named_keys()[38].1[0] == key_table()[48].0 && named_keys()[38].0 == key_table()[48].1);
    } else if i == 49 {
        assert(named_keys()[39].1[0] == key_table()[49].0 && named_keys()[39].0 == key_table()[49].1);
    } else if i == 50 {
        assert(named_keys()[40].1[0] == key_table()[50].0 && named_keys()[40].0 == key_table()[50].1);
    } else if i == 51 {
        assert(named_keys()[41].1[0] == key_table()[51].0 && named_keys()[41].0 == key_table()[51].1);
    } else if i == 52 {
        assert(named_keys()[42].1[0] == key_table()[52].0 && named_keys()[42].0 == key_table()[52].1);
    } else if i == 53 {
        assert(named_keys()[43].1[0] == key_table()[53].0 && named_keys()[43].0 == key_table()[53].1);
    } else if i == 54 {
        assert(named_keys()[44].1[0] == key_table()[54].0 && named_keys()[44].0 == key_table()[54].1);
    } else if i == 55 {
        assert(named_keys()[45].1[0] == key_table()[55].0 && named_keys()[45].0 == key_table()[55].1);
    } else if i == 56 {
        assert(named_keys()[46].1[0] == key_table()[56].0 && named_keys()[46].0 == key_table()[56].1);
    } else if i == 57 {
        assert(named_keys()[47].1[0] == key_table()[57].0 && named_keys()[47].0 == key_table()[57].1);
    } else if i == 58 {
        assert(named_keys()[48].1[0] == key_table()[58].0 && named_keys()[48].0 == key_table()[58].1);
    } else if i == 59 {
        assert(named_keys()[49].1[0] == key_table()[59].0 && named_keys()[49].0 == key_table()[59].1);
    } else if i == 60 {
        assert(named_keys()[50].1[0] == key_table()[60].0 && named_keys()[50].0 == key_table()[60].1);
    } else if i == 61 {
        assert(named_keys()[51].1[0] == key_table()[61].0 && named_keys()[51].0 == key_table()[61].1);
    } else if i == 62 {
        assert(named_keys()[52].1[0] == key_table()[62].0 && named_keys()[52].0 == key_table()[62].1);
    } else if i == 63 {
        assert(named_keys()[53].1[0] == key_table()[63].0 && named_keys()[53].0 == key_table()[63].1);
    } else if i == 64 {
        assert(named_keys()[53].1[1] == key_table()[64].0 && named_keys()[53].0 == key_table()[64].1);
    } else if i == 65 {
        assert(named_keys()[53].1[2] == key_table()[65].0 && named_keys()[53].0 == key_table()[65].1);
    } else if i == 66 {
        assert(named_keys()[54].1[0] == key_table()[66].0 && named_keys()[54].0 == key_table()[66].1);
    } else if i == 67 {
        assert(named_keys()[55].1[0] == key_table()[67].0 && named_keys()[55].0 == key_table()[67].1);
    } else if i == 68 {
        assert(named_keys()[56].1[0] == key_table()[68].0 && named_keys()[56].0 == key_table()[68].1);
    } else if i == 69 {
        assert(named_keys()[57].1[0] == key_table()[69].0 && named_keys()[57].0 == key_table()[69].1);
    } else if i == 70 {
        assert(named_keys()[58].1[0] == key_table()[70].0 && named_keys()[58].0 == key_table()[70].1);
    } else if i == 71 {
        assert(named_keys()[59].1[0] == key_table()[71].0 && named_keys()[59].0 == key_table()[71].1);
    } else if i == 72 {
        assert(named_keys()[60].1[0] == key_table()[72].0 && named_keys()[60].0 == key_table()[72].1);
    } else if i == 73 {
        assert(named_keys()[61].1[0] == key_table()[73].0 && named_keys()[61].0 == key_table()[73].1);
    } else if i == 74 {
        assert(named_keys()[62].1[0] == key_table()[74].0 && named_keys()[62].0 == key_table()[74].1);
    } else if i == 75 {
        assert(named_keys()[63].1[0] == key_table()[75].0 && named_keys()[63].0 == key_table()[75].1);
    } else if i == 76 {
        assert(named_keys()[64].1[0] == key_table()[76].0 && named_keys()[64].0 == key_table()[76].1);
    } else if i == 77 {
        assert(named_keys()[65].1[0] == key_table()[77].0 && named_keys()[65].0 == key_table()[77].1);
    } else if i == 78 {
        assert(named_keys()[16].1[1] == key_table()[78].0 && named_keys()[16].0 == key_table()[78].1);
    } else if i == 79 {
        assert(named_keys()[66].1[0] == key_table()[79].0 && named_keys()[66].0 == key_table()[79].1);
    } else if i == 80 {
        assert(named_keys()[67].1[0] == key_table()[80].0 && named_keys()[67].0 == key_table()[80].1);
    } else if i == 81 {
        assert(named_keys()[68].1[0] == key_table()[81].0 && named_keys()[68].0 == key_table()[81].1);
    } else if i == 82 {
        assert(named_keys()[69].1[0] == key_table()[82].0 && named_keys()[69].0 == key_table()[82].1);
    } else if i == 83 {
        assert(named_keys()[70].1[0] == key_table()[83].0 && named_keys()[70].0 == key_table()[83].1);
    } else if i == 84 {
        assert(named_keys()[71].1[0] == key_table()[84].0 && named_keys()[71].0 == key_table()[84].1);
    } else if i == 85 {
        assert(named_keys()[72].1[0] == key_table()[85].0 && named_keys()[72].0 == key_table()[85].1);
    } else if i == 86 {
        assert(named_keys()[73].1[0] == key_table()[86].0 && named_keys()[73].0 == key_table()[86].1);
    } else if i == 87 {
        assert(named_keys()[74].1[0] == key_table()[87].0 && named_keys()[74].0 == key_table()[87].1);
    } else if i == 88 {
        assert(named_keys()[75].1[0] == key_table()[88].0 && named_keys()[75].0 == key_table()[88].1);
    } else if i == 89 {
        assert(named_keys()[76].1[0] == key_table()[89].0 && named_keys()[76].0 == key_table()[89].1);
    } else if i == 90 {
        assert(named_keys()[77].1[0] == key_table()[90].0 && named_keys()[77].0 == key_table()[90].1);
    }
}

} // verus!
