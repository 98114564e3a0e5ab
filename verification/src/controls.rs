//! Input from keyboard and gamepad: which buttons are held, which were
//! just let go, and what each button is called on the device last used.
//!
//! Each button is read as two values: whether the gamepad holds it and
//! whether the keyboard holds it.

use vstd::prelude::*;
use crate::strings::{replace_all, same_text, spec_replace};

verus! {

/// The state kept between frames.
pub struct Controls {
    pub active_gamepad: Option<usize>,
    pub enter_down: bool,
    pub z_down: bool,
    pub x_down: bool,
    pub up_down: bool,
    pub down_down: bool,
    pub esc_down: bool,
    /// Whether the gamepad, rather than the keyboard, was used last.
    pub last_used_controller: bool,
}

/// A button was just let go: it was held before and is not now.
pub open spec fn released(was_down: bool, pad: bool, key: bool) -> bool {
    was_down && !(pad || key)
}

/// What a button is called on the device used last.
pub open spec fn spec_key_string(controller: bool, key: Seq<char>) -> Seq<char> {
    if controller {
        if key == "space"@ { "A"@ }
        else if key == "shift"@ { "X"@ }
        else if key == "z"@ { "B"@ }
        else if key == "x"@ { "Y"@ }
        else if key == "enter"@ { "Start"@ }
        else if key == "esc"@ { "Select"@ }
        else { "NO KEY"@ }
    } else {
        if key == "space"@ { "Space"@ }
        else if key == "shift"@ { "Shift"@ }
        else if key == "z"@ { "Z"@ }
        else if key == "x"@ { "X"@ }
        else if key == "enter"@ { "Enter"@ }
        else if key == "esc"@ { "Escape"@ }
        else { "NO KEY"@ }
    }
}

impl Controls {
    /// Nothing held, no gamepad yet, the keyboard used last.
    pub fn new() -> (r: Self)
        ensures
            r.active_gamepad is None,
            !r.enter_down && !r.z_down && !r.x_down && !r.up_down && !r.down_down && !r.esc_down,
            !r.last_used_controller,
    {
        Controls {
            active_gamepad: None,
            enter_down: false,
            z_down: false,
            x_down: false,
            up_down: false,
            down_down: false,
            esc_down: false,
            last_used_controller: false,
        }
    }

    /// Takes in a frame's devices: `last_pad_event` is the gamepad of the
    /// last gamepad event of the frame, `any_key_pressed` whether a key was
    /// pressed. A key press makes the keyboard the device used last.
    pub fn update(&mut self, last_pad_event: Option<usize>, any_key_pressed: bool)
        ensures
            final(self).active_gamepad == (match last_pad_event {
                Some(id) => Some(id),
                None => old(self).active_gamepad,
            }),
            final(self).last_used_controller == (if any_key_pressed {
                false
            } else if last_pad_event is Some {
                true
            } else {
                old(self).last_used_controller
            }),
            final(self).enter_down == old(self).enter_down,
            final(self).z_down == old(self).z_down,
            final(self).x_down == old(self).x_down,
            final(self).up_down == old(self).up_down,
            final(self).down_down == old(self).down_down,
            final(self).esc_down == old(self).esc_down,
    {
        if let Some(id) = last_pad_event {
            self.active_gamepad = Some(id);
            self.last_used_controller = true;
        }
        if any_key_pressed {
            self.last_used_controller = false;
        }
    }

    /// Left is held.
    pub fn controls_left(&self, pad: bool, key: bool) -> (r: bool)
        ensures
            r == (pad || key),
    {
        pad || key
    }

    /// Right is held.
    pub fn controls_right(&self, pad: bool, key: bool) -> (r: bool)
        ensures
            r == (pad || key),
    {
        pad || key
    }

    /// Up is held.
    pub fn controls_up(&self, pad: bool, key: bool) -> (r: bool)
        ensures
            r == (pad || key),
    {
        pad || key
    }

    /// Down is held.
    pub fn controls_down(&self, pad: bool, key: bool) -> (r: bool)
        ensures
            r == (pad || key),
    {
        pad || key
    }

    /// The first action button (jump) is held.
    pub fn controls_primary(&mut self, pad: bool, key: bool) -> (r: bool)
        ensures
            r == (pad || key),
            *final(self) == *old(self),
    {
        pad || key
    }

    /// The second action button (run) is held.
    pub fn controls_secondary(&mut self, pad: bool, key: bool) -> (r: bool)
        ensures
            r == (pad || key),
            *final(self) == *old(self),
    {
        pad || key
    }

    /// Up was just let go.
    pub fn controls_up_release(&mut self, pad: bool, key: bool) -> (r: bool)
        ensures
            r == released(old(self).up_down, pad, key),
            final(self).up_down == (pad || key),
            final(self).down_down == old(self).down_down,
            final(self).z_down == old(self).z_down,
            final(self).x_down == old(self).x_down,
            final(self).enter_down == old(self).enter_down,
            final(self).esc_down == old(self).esc_down,
            final(self).active_gamepad == old(self).active_gamepad,
            final(self).last_used_controller == old(self).last_used_controller,
    {
        let pressed = pad || key;
        let just_released = self.up_down && !pressed;
        self.up_down = pressed;
        just_released
    }

    /// Down was just let go.
    pub fn controls_down_release(&mut self, pad: bool, key: bool) -> (r: bool)
        ensures
            r == released(old(self).down_down, pad, key),
            final(self).down_down == (pad || key),
            final(self).up_down == old(self).up_down,
            final(self).z_down == old(self).z_down,
            final(self).x_down == old(self).x_down,
            final(self).enter_down == old(self).enter_down,
            final(self).esc_down == old(self).esc_down,
            final(self).active_gamepad == old(self).active_gamepad,
            final(self).last_used_controller == old(self).last_used_controller,
    {
        let pressed = pad || key;
        let just_released = self.down_down && !pressed;
        self.down_down = pressed;
        just_released
    }

    /// The third action button (interact) was just let go.
    pub fn controls_tertirary_release(&mut self, pad: bool, key: bool) -> (r: bool)
        ensures
            r == released(old(self).z_down, pad, key),
            final(self).z_down == (pad || key),
            final(self).up_down == old(self).up_down,
            final(self).down_down == old(self).down_down,
            final(self).x_down == old(self).x_down,
            final(self).enter_down == old(self).enter_down,
            final(self).esc_down == old(self).esc_down,
            final(self).active_gamepad == old(self).active_gamepad,
            final(self).last_used_controller == old(self).last_used_controller,
    {
        let pressed = pad || key;
        let just_released = self.z_down && !pressed;
        self.z_down = pressed;
        just_released
    }

    /// The fourth action button was just let go.
    pub fn controls_quaternary_release(&mut self, pad: bool, key: bool) -> (r: bool)
        ensures
            r == released(old(self).x_down, pad, key),
            final(self).x_down == (pad || key),
            final(self).up_down == old(self).up_down,
            final(self).down_down == old(self).down_down,
            final(self).z_down == old(self).z_down,
            final(self).enter_down == old(self).enter_down,
            final(self).esc_down == old(self).esc_down,
            final(self).active_gamepad == old(self).active_gamepad,
            final(self).last_used_controller == old(self).last_used_controller,
    {
        let pressed = pad || key;
        let just_released = self.x_down && !pressed;
        self.x_down = pressed;
        just_released
    }

    /// Enter (start) was just let go.
    pub fn controls_enter_release(&mut self, pad: bool, key: bool) -> (r: bool)
        ensures
            r == released(old(self).enter_down, pad, key),
            final(self).enter_down == (pad || key),
            final(self).up_down == old(self).up_down,
            final(self).down_down == old(self).down_down,
            final(self).z_down == old(self).z_down,
            final(self).x_down == old(self).x_down,
            final(self).esc_down == old(self).esc_down,
            final(self).active_gamepad == old(self).active_gamepad,
            final(self).last_used_controller == old(self).last_used_controller,
    {
        let pressed = pad || key;
        let just_released = self.enter_down && !pressed;
        self.enter_down = pressed;
        just_released
    }

    /// Escape (select) was just let go.
    pub fn controls_esc_release(&mut self, pad: bool, key: bool) -> (r: bool)
        ensures
            r == released(old(self).esc_down, pad, key),
            final(self).esc_down == (pad || key),
            final(self).up_down == old(self).up_down,
            final(self).down_down == old(self).down_down,
            final(self).z_down == old(self).z_down,
            final(self).x_down == old(self).x_down,
            final(self).enter_down == old(self).enter_down,
            final(self).active_gamepad == old(self).active_gamepad,
            final(self).last_used_controller == old(self).last_used_controller,
    {
        let pressed = pad || key;
        let just_released = self.esc_down && !pressed;
        self.esc_down = pressed;
        just_released
    }

    /// What the button `key` (`space`, `shift`, `z`, `x`, `enter` or `esc`)
    /// is called on the device used last.
    pub fn key_string(&self, key: &str) -> (r: String)
        ensures
            r@ == spec_key_string(self.last_used_controller, key@),
    {
        let name = if self.last_used_controller {
            if same_text(key, "space") {
                "A"
            } else if same_text(key, "shift") {
                "X"
            } else if same_text(key, "z") {
                "B"
            } else if same_text(key, "x") {
                "Y"
            } else if same_text(key, "enter") {
                "Start"
            } else if same_text(key, "esc") {
                "Select"
            } else {
                "NO KEY"
            }
        } else {
            if same_text(key, "space") {
                "Space"
            } else if same_text(key, "shift") {
                "Shift"
            } else if same_text(key, "z") {
                "Z"
            } else if same_text(key, "x") {
                "X"
            } else if same_text(key, "enter") {
                "Enter"
            } else if same_text(key, "esc") {
                "Escape"
            } else {
                "NO KEY"
            }
        };
        String::from_str(name)
    }
}

impl Controls {
    /// An object's hint with `KEY` standing for the interact button, named
    /// as on the device used last.
    pub fn hint_text(&self, hud_text: &str) -> (r: String)
        ensures
            r@ == spec_replace(hud_text@, "KEY"@, spec_key_string(self.last_used_controller, "z"@)),
    {
        let key = self.key_string("z");
        proof {
            reveal_strlit("KEY");
        }
        replace_all(hud_text, "KEY", key.as_str())
    }
}

/// A release is seen once: right after it, the same reading reports no
/// release, and a button is never reported let go while it is held.
pub proof fn law_release_once(was_down: bool, pad: bool, key: bool)
    ensures
        !released(pad || key, pad, key),
        (pad || key) ==> !released(was_down, pad, key),
{
}

} // verus!
