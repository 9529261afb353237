//! The global Ctrl+Shift+R hotkey that starts recording a question.

use vstd::prelude::*;

verus! {

/// The keys the hotkey listener tells apart.
#[derive(Clone, Copy, Debug, PartialEq, Eq, Structural)]
pub enum Key {
    ControlLeft,
    ControlRight,
    ShiftLeft,
    ShiftRight,
    KeyR,
    Other,
}

/// An input event seen by the listener.
#[derive(Clone, Copy, Debug, PartialEq, Eq, Structural)]
pub enum KeyEvent {
    KeyPress(Key),
    KeyRelease(Key),
    /// Mouse movement, wheel and other events that are not key presses.
    Other,
}

/// Which modifiers are held down, as far as the events seen so far tell.
#[derive(Clone, Copy, Debug, PartialEq, Eq, Structural)]
pub struct HotkeyState {
    pub ctrl_pressed: bool,
    pub shift_pressed: bool,
}

pub open spec fn is_ctrl(k: Key) -> bool {
    k == Key::ControlLeft || k == Key::ControlRight
}

pub open spec fn is_shift(k: Key) -> bool {
    k == Key::ShiftLeft || k == Key::ShiftRight
}

/// The state after `e`, and whether `e` fires the hotkey: pressing R while
/// both Ctrl and Shift are held.
pub open spec fn hotkey_step(s: HotkeyState, e: KeyEvent) -> (HotkeyState, bool) {
    match e {
        KeyEvent::KeyPress(k) => if is_ctrl(k) {
            (HotkeyState { ctrl_pressed: true, ..s }, false)
        } else if is_shift(k) {
            (HotkeyState { shift_pressed: true, ..s }, false)
        } else if k == Key::KeyR {
            (s, s.ctrl_pressed && s.shift_pressed)
        } else {
            (s, false)
        },
        KeyEvent::KeyRelease(k) => if is_ctrl(k) {
            (HotkeyState { ctrl_pressed: false, ..s }, false)
        } else if is_shift(k) {
            (HotkeyState { shift_pressed: false, ..s }, false)
        } else {
            (s, false)
        },
        KeyEvent::Other => (s, false),
    }
}

/// The state after the events `es`, seen in order from `s`.
pub open spec fn after_events(s: HotkeyState, es: Seq<KeyEvent>) -> HotkeyState
    decreases es.len(),
{
    if es.len() == 0 {
        s
    } else {
        hotkey_step(after_events(s, es.drop_last()), es.last()).0
    }
}

/// Whether the last press or release of a key that `is_mod` picks out, in
/// `es`, was a press; `None` where there is none.
pub open spec fn last_modifier_event(es: Seq<KeyEvent>, is_mod: spec_fn(Key) -> bool) -> Option<bool>
    decreases es.len(),
{
    if es.len() == 0 {
        None
    } else {
        match es.last() {
            KeyEvent::KeyPress(k) if is_mod(k) => Some(true),
            KeyEvent::KeyRelease(k) if is_mod(k) => Some(false),
            _ => last_modifier_event(es.drop_last(), is_mod),
        }
    }
}

impl HotkeyState {
    /// No modifier held.
    pub fn new() -> (s: Self)
        ensures
            !s.ctrl_pressed && !s.shift_pressed,
    {
        HotkeyState { ctrl_pressed: false, shift_pressed: false }
    }

    /// Takes in one event; returns whether it fires the hotkey.
    pub fn on_event(&mut self, e: KeyEvent) -> (fire: bool)
        ensures
            (*final(self), fire) == hotkey_step(*old(self), e),
    {
        match e {
            KeyEvent::KeyPress(k) => {
                if k == Key::ControlLeft || k == Key::ControlRight {
                    self.ctrl_pressed = true;
                    false
                } else if k == Key::ShiftLeft || k == Key::ShiftRight {
                    self.shift_pressed = true;
                    false
                } else if k == Key::KeyR {
                    self.ctrl_pressed && self.shift_pressed
                } else {
                    false
                }
            },
            KeyEvent::KeyRelease(k) => {
                if k == Key::ControlLeft || k == Key::ControlRight {
                    self.ctrl_pressed = false;
                } else if k == Key::ShiftLeft || k == Key::ShiftRight {
                    self.shift_pressed = false;
                }
                false
            },
            KeyEvent::Other => false,
        }
    }
}

/// From a state with no modifier held, each modifier counts as held exactly
/// when the last press or release of either of its keys was a press.
pub proof fn lemma_modifiers_follow_last_event(es: Seq<KeyEvent>)
    ensures
        after_events(HotkeyState { ctrl_pressed: false, shift_pressed: false }, es).ctrl_pressed
            == (last_modifier_event(es, |k: Key| is_ctrl(k)) == Some(true)),
        after_events(HotkeyState { ctrl_pressed: false, shift_pressed: false }, es).shift_pressed
            == (last_modifier_event(es, |k: Key| is_shift(k)) == Some(true)),
    decreases es.len(),
{
    if es.len() > 0 {
        lemma_modifiers_follow_last_event(es.drop_last());
    }
}

/// The hotkey fires on an event exactly when it is a press of R while both
/// Ctrl and Shift are held; no event fires it otherwise.
pub proof fn lemma_fires_only_on_ctrl_shift_r(s: HotkeyState, e: KeyEvent)
    ensures
        hotkey_step(s, e).1 <==> (e == KeyEvent::KeyPress(Key::KeyR) && s.ctrl_pressed
            && s.shift_pressed),
{
}

} // verus!
