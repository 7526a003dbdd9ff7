//! What a key press in the terminal, or on the global hotkey's device,
//! means for the recording.
use crate::state::InputEvent;
use crate::text::decimal;
use crate::text::decimal_string;
use crate::text::join;
use crate::text::push_str;
use vstd::prelude::*;

verus! {

broadcast use vstd::string::group_string_axioms;

/// Presses of the toggle key closer together than this many milliseconds
/// count once.
pub const TOGGLE_DEBOUNCE_MS: u64 = 200;

/// What a key typed in the terminal does.
#[derive(Clone, Copy, Debug, PartialEq, Eq, Structural)]
pub enum KeyAction {
    /// Stop listening and quit.
    Quit,
    /// Toggle recording.
    Toggle,
    /// Nothing.
    Ignore,
}

/// The action of key `c` (with Ctrl held or not) when the toggle key is
/// `toggle_key` and the last toggle was `ms_since_toggle` milliseconds ago:
/// Ctrl+C and `q` quit; the toggle key toggles unless it was just pressed.
pub open spec fn key_action_of(c: char, ctrl: bool, toggle_key: char, ms_since_toggle: u64) -> KeyAction {
    if c == 'c' && ctrl {
        KeyAction::Quit
    } else if c == 'q' {
        KeyAction::Quit
    } else if c == toggle_key && ms_since_toggle >= TOGGLE_DEBOUNCE_MS {
        KeyAction::Toggle
    } else {
        KeyAction::Ignore
    }
}

/// Decides what a key typed in the terminal does.
pub fn key_action(c: char, ctrl: bool, toggle_key: char, ms_since_toggle: u64) -> (a: KeyAction)
    ensures
        a == key_action_of(c, ctrl, toggle_key, ms_since_toggle),
{
    if c == 'c' && ctrl {
        KeyAction::Quit
    } else if c == 'q' {
        KeyAction::Quit
    } else if c == toggle_key && ms_since_toggle >= TOGGLE_DEBOUNCE_MS {
        KeyAction::Toggle
    } else {
        KeyAction::Ignore
    }
}

/// The hotkey's state after a key event with kernel value `value` (1 press,
/// 0 release, 2 auto-repeat), and the input events it sends: a press sends
/// key-down once until the release; a release sends key-up and then a toggle;
/// a repeat sends nothing.
pub open spec fn hotkey_step(pressed: bool, value: i32) -> (bool, Seq<InputEvent>) {
    if value == 1 {
        if pressed {
            (true, seq![])
        } else {
            (true, seq![InputEvent::KeyDown])
        }
    } else if value == 0 {
        (false, seq![InputEvent::KeyUp, InputEvent::Toggle])
    } else {
        (pressed, seq![])
    }
}

/// Handles one event of the hotkey, given whether it is held down; returns
/// whether it is held afterwards and the input events to send, in order.
pub fn hotkey_event(pressed: bool, value: i32) -> (r: (bool, Vec<InputEvent>))
    ensures
        (r.0, r.1@) == hotkey_step(pressed, value),
{
    let mut events: Vec<InputEvent> = Vec::new();
    if value == 1 {
        if !pressed {
            events.push(InputEvent::KeyDown);
        }
        assert(events@ =~= hotkey_step(pressed, value).1);
        (true, events)
    } else if value == 0 {
        events.push(InputEvent::KeyUp);
        events.push(InputEvent::Toggle);
        assert(events@ =~= hotkey_step(pressed, value).1);
        (false, events)
    } else {
        assert(events@ =~= hotkey_step(pressed, value).1);
        (pressed, events)
    }
}

/// However a held key auto-repeats, it sends exactly one key-down: a press
/// while held sends nothing, and a repeat neither sends nor changes anything.
pub proof fn law_hotkey_single_key_down(pressed: bool)
    ensures
        hotkey_step(true, 1).1.len() == 0,
        hotkey_step(pressed, 2) == (pressed, Seq::<InputEvent>::empty()),
        hotkey_step(hotkey_step(pressed, 1).0, 1).1.len() == 0,
        hotkey_step(hotkey_step(pressed, 1).0, 0).0 == false,
{
}

/// Why no input device offers the hotkey: no device can be opened at all
/// (`accessible` is zero); some can (`accessible` of `device_nodes` event
/// devices) but none is a keyboard; or the `keyboards` found (by these
/// names) lack key `key`.
pub open spec fn no_devices_text(
    accessible: nat,
    device_nodes: nat,
    keyboards: nat,
    names: Seq<Seq<char>>,
    key: Seq<char>,
) -> Seq<char> {
    if accessible == 0 {
        "No input devices accessible. Global hotkey requires read access to /dev/input/.\n  Fix: sudo usermod -a -G input $USER  (then log out and back in)"@
    } else if keyboards == 0 {
        "Cannot access keyboard input devices ("@ + decimal(accessible) + " of "@ + decimal(
            device_nodes,
        )
            + " /dev/input/event* devices accessible, but none are keyboards).\n  Fix: sudo usermod -a -G input $USER  (then log out and back in)\n  Or run with --no-global for terminal-only input."@
    } else {
        "Found "@ + decimal(keyboards) + " keyboard(s) ("@ + join(names, ", "@)
            + ") but none report support for key "@ + key
            + ".\n  Try a different key with --hotkey, or use --no-global for terminal-only input."@
    }
}

fn join_names(names: &Vec<String>) -> (s: String)
    ensures
        s@ == join(names.deep_view(), ", "@),
{
    let mut s = String::new();
    let mut i: usize = 0;
    while i < names.len()
        invariant
            i <= names.len(),
            s@ == join(names.deep_view().take(i as int), ", "@),
        decreases names.len() - i,
    {
        let ghost before = names.deep_view().take(i as int);
        let ghost after = names.deep_view().take(i + 1);
        assert(after.drop_last() =~= before);
        assert(after.last() == names@[i as int]@);
        if i > 0 {
            push_str(&mut s, ", ");
        } else {
            assert(before =~= seq![]);
            assert(s@ =~= seq![]);
        }
        push_str(&mut s, names[i].as_str());
        i = i + 1;
    }
    assert(names.deep_view().take(names.len() as int) =~= names.deep_view());
    s
}

/// The error explaining why no input device offers the hotkey.
pub fn no_devices_message(
    accessible: usize,
    device_nodes: usize,
    keyboards: usize,
    names: &Vec<String>,
    key: &str,
) -> (s: String)
    ensures
        s@ == no_devices_text(
            accessible as nat,
            device_nodes as nat,
            keyboards as nat,
            names.deep_view(),
            key@,
        ),
{
    if accessible == 0 {
        return "No input devices accessible. Global hotkey requires read access to /dev/input/.\n  Fix: sudo usermod -a -G input $USER  (then log out and back in)".to_owned();
    }
    if keyboards == 0 {
        let mut s = "Cannot access keyboard input devices (".to_owned();
        push_str(&mut s, decimal_string(accessible as u64).as_str());
        push_str(&mut s, " of ");
        push_str(&mut s, decimal_string(device_nodes as u64).as_str());
        push_str(
            &mut s,
            " /dev/input/event* devices accessible, but none are keyboards).\n  Fix: sudo usermod -a -G input $USER  (then log out and back in)\n  Or run with --no-global for terminal-only input.",
        );
        return s;
    }
    let mut s = "Found ".to_owned();
    push_str(&mut s, decimal_string(keyboards as u64).as_str());
    push_str(&mut s, " keyboard(s) (");
    push_str(&mut s, join_names(names).as_str());
    push_str(&mut s, ") but none report support for key ");
    push_str(&mut s, key);
    push_str(
        &mut s,
        ".\n  Try a different key with --hotkey, or use --no-global for terminal-only input.",
    );
    s
}

} // verus!
