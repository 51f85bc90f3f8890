//! The input bridge's own key handling: switching virtual terminals.
//!
//! Control, Alt and one of the keys F1 to F10 switch to the virtual terminal
//! of that number. Such a key press is not handed on; every other key is.

use vstd::prelude::*;

verus! {

/// Key code of F1.
pub const KEY_F1: u32 = 59;

/// Key code of F10.
pub const KEY_F10: u32 = 68;

/// Key code of the left Control key.
pub const KEY_LEFTCTRL: u32 = 29;

/// Key code of the left Alt key.
pub const KEY_LEFTALT: u32 = 56;

/// Whether a key went down or up.
#[derive(Clone, Copy, Debug, PartialEq, Eq, Structural)]
pub enum KeyState {
    /// The key was released.
    Released,
    /// The key was pressed.
    Pressed,
}

/// What is done with a key event.
#[derive(Clone, Copy, Debug, PartialEq, Eq, Structural)]
pub enum KeyOutcome {
    /// The session is asked to switch to the virtual terminal; the event is
    /// not handed on.
    ChangeVt { vt: i32 },
    /// The event is handed on to the compositor.
    Forward,
}

/// Remembers which modifier keys are held down.
#[derive(Clone, Copy, Debug, PartialEq, Eq, Structural)]
pub struct VtSwitcher {
    /// Whether the left Control key is down.
    pub ctrl_pressed: bool,
    /// Whether the left Alt key is down.
    pub alt_pressed: bool,
}

impl VtSwitcher {
    /// The modifiers after a key event: the left Control and the left Alt key
    /// follow their own events, and no other key changes them.
    pub open spec fn after(self, key_code: u32, state: KeyState) -> VtSwitcher {
        VtSwitcher {
            ctrl_pressed: if key_code == KEY_LEFTCTRL {
                state == KeyState::Pressed
            } else {
                self.ctrl_pressed
            },
            alt_pressed: if key_code == KEY_LEFTALT {
                state == KeyState::Pressed
            } else {
                self.alt_pressed
            },
        }
    }

    /// What is done with a key event: a press of F1 to F10 while Control and
    /// Alt are down switches to the terminal of that number.
    pub open spec fn outcome(self, key_code: u32, state: KeyState) -> KeyOutcome {
        if KEY_F1 <= key_code <= KEY_F10 && state == KeyState::Pressed && self.ctrl_pressed
            && self.alt_pressed {
            KeyOutcome::ChangeVt { vt: (key_code - KEY_F1 + 1) as i32 }
        } else {
            KeyOutcome::Forward
        }
    }

    /// A switcher with no modifier down.
    pub fn new() -> (r: VtSwitcher)
        ensures
            r == (VtSwitcher { ctrl_pressed: false, alt_pressed: false }),
    {
        VtSwitcher { ctrl_pressed: false, alt_pressed: false }
    }

    /// Handles a key event. The modifiers are brought up to date first, then
    /// the event is judged with them.
    pub fn on_key(&mut self, key_code: u32, state: KeyState) -> (r: KeyOutcome)
        ensures
            *final(self) == old(self).after(key_code, state),
            r == old(self).after(key_code, state).outcome(key_code, state),
    {
        let pressed = match state {
            KeyState::Released => false,
            KeyState::Pressed => true,
        };
        if key_code == KEY_LEFTCTRL {
            self.ctrl_pressed = pressed;
        } else if key_code == KEY_LEFTALT {
            self.alt_pressed = pressed;
        }
        if KEY_F1 <= key_code && key_code <= KEY_F10 && pressed && self.ctrl_pressed
            && self.alt_pressed {
            let vt: u32 = key_code - KEY_F1 + 1;
            KeyOutcome::ChangeVt { vt: vt as i32 }
        } else {
            KeyOutcome::Forward
        }
    }
}

} // verus!
