use vstd::prelude::*;

verus! {

/// Linux input-event key codes of the left and right physical keys of the
/// four logical modifiers (the values evdev's `Key` constants carry).
pub const KEY_LEFT_CTRL: u16 = 29;
pub const KEY_RIGHT_CTRL: u16 = 97;
pub const KEY_LEFT_SHIFT: u16 = 42;
pub const KEY_RIGHT_SHIFT: u16 = 54;
pub const KEY_LEFT_ALT: u16 = 56;
pub const KEY_RIGHT_ALT: u16 = 100;
pub const KEY_LEFT_META: u16 = 125;
pub const KEY_RIGHT_META: u16 = 126;

pub open spec fn is_ctrl_code(code: u16) -> bool {
    code == KEY_LEFT_CTRL || code == KEY_RIGHT_CTRL
}

pub open spec fn is_alt_code(code: u16) -> bool {
    code == KEY_LEFT_ALT || code == KEY_RIGHT_ALT
}

pub open spec fn is_shift_code(code: u16) -> bool {
    code == KEY_LEFT_SHIFT || code == KEY_RIGHT_SHIFT
}

pub open spec fn is_meta_code(code: u16) -> bool {
    code == KEY_LEFT_META || code == KEY_RIGHT_META
}

/// Held-modifier state: one flag per physical modifier key, fed by raw key
/// events in arrival order.  A logical modifier counts as held while either
/// of its two physical keys is down, so releasing one of two held variants
/// leaves the modifier held.
#[derive(Clone, Copy, Debug, PartialEq, Eq, Structural)]
pub struct ModifierStates {
    pub left_ctrl: bool,
    pub right_ctrl: bool,
    pub left_alt: bool,
    pub right_alt: bool,
    pub left_shift: bool,
    pub right_shift: bool,
    pub left_meta: bool,
    pub right_meta: bool,
}

/// What one raw key event does to the state: the one physical key whose
/// code matches takes the pressed value; every other key is kept.
pub open spec fn spec_update(s: ModifierStates, code: u16, pressed: bool) -> ModifierStates {
    ModifierStates {
        left_ctrl: if code == KEY_LEFT_CTRL { pressed } else { s.left_ctrl },
        right_ctrl: if code == KEY_RIGHT_CTRL { pressed } else { s.right_ctrl },
        left_alt: if code == KEY_LEFT_ALT { pressed } else { s.left_alt },
        right_alt: if code == KEY_RIGHT_ALT { pressed } else { s.right_alt },
        left_shift: if code == KEY_LEFT_SHIFT { pressed } else { s.left_shift },
        right_shift: if code == KEY_RIGHT_SHIFT { pressed } else { s.right_shift },
        left_meta: if code == KEY_LEFT_META { pressed } else { s.left_meta },
        right_meta: if code == KEY_RIGHT_META { pressed } else { s.right_meta },
    }
}

impl ModifierStates {
    pub open spec fn ctrl(self) -> bool {
        self.left_ctrl || self.right_ctrl
    }

    pub open spec fn alt(self) -> bool {
        self.left_alt || self.right_alt
    }

    pub open spec fn shift(self) -> bool {
        self.left_shift || self.right_shift
    }

    pub open spec fn meta(self) -> bool {
        self.left_meta || self.right_meta
    }

    /// No physical modifier key is down.
    pub open spec fn none_held(self) -> bool {
        !self.left_ctrl && !self.right_ctrl && !self.left_alt && !self.right_alt
            && !self.left_shift && !self.right_shift && !self.left_meta && !self.right_meta
    }

    /// A fresh state: no modifier key is held.
    pub fn new() -> (r: Self)
        ensures
            r.none_held(),
    {
        ModifierStates {
            left_ctrl: false,
            right_ctrl: false,
            left_alt: false,
            right_alt: false,
            left_shift: false,
            right_shift: false,
            left_meta: false,
            right_meta: false,
        }
    }

    /// Feed one raw key event, given as its key code and whether it was a
    /// press; events whose code matches no modifier key leave the state as
    /// is.
    pub fn update(&mut self, code: u16, pressed: bool)
        ensures
            *final(self) == spec_update(*old(self), code, pressed),
    {
        self.update_ctrl(code, pressed);
        self.update_alt(code, pressed);
        self.update_shift(code, pressed);
        self.update_meta(code, pressed);
    }

    /// Whether any of the four modifiers is currently held.
    pub fn mod_pressed(&self) -> (r: bool)
        ensures
            r == (self.ctrl() || self.alt() || self.shift() || self.meta()),
    {
        self.ctrl_pressed() || self.alt_pressed() || self.shift_pressed() || self.meta_pressed()
    }

    pub fn ctrl_pressed(&self) -> (r: bool)
        ensures
            r == self.ctrl(),
    {
        self.left_ctrl || self.right_ctrl
    }

    pub fn alt_pressed(&self) -> (r: bool)
        ensures
            r == self.alt(),
    {
        self.left_alt || self.right_alt
    }

    pub fn shift_pressed(&self) -> (r: bool)
        ensures
            r == self.shift(),
    {
        self.left_shift || self.right_shift
    }

    pub fn meta_pressed(&self) -> (r: bool)
        ensures
            r == self.meta(),
    {
        self.left_meta || self.right_meta
    }

    fn update_ctrl(&mut self, code: u16, pressed: bool)
        ensures
            *final(self) == (ModifierStates {
                left_ctrl: if code == KEY_LEFT_CTRL { pressed } else { old(self).left_ctrl },
                right_ctrl: if code == KEY_RIGHT_CTRL { pressed } else { old(self).right_ctrl },
                ..*old(self)
            }),
    {
        if code == KEY_LEFT_CTRL {
            self.left_ctrl = pressed;
        }
        if code == KEY_RIGHT_CTRL {
            self.right_ctrl = pressed;
        }
    }

    fn update_alt(&mut self, code: u16, pressed: bool)
        ensures
            *final(self) == (ModifierStates {
                left_alt: if code == KEY_LEFT_ALT { pressed } else { old(self).left_alt },
                right_alt: if code == KEY_RIGHT_ALT { pressed } else { old(self).right_alt },
                ..*old(self)
            }),
    {
        if code == KEY_LEFT_ALT {
            self.left_alt = pressed;
        }
        if code == KEY_RIGHT_ALT {
            self.right_alt = pressed;
        }
    }

    fn update_shift(&mut self, code: u16, pressed: bool)
        ensures
            *final(self) == (ModifierStates {
                left_shift: if code == KEY_LEFT_SHIFT { pressed } else { old(self).left_shift },
                right_shift: if code == KEY_RIGHT_SHIFT { pressed } else { old(self).right_shift },
                ..*old(self)
            }),
    {
        if code == KEY_LEFT_SHIFT {
            self.left_shift = pressed;
        }
        if code == KEY_RIGHT_SHIFT {
            self.right_shift = pressed;
        }
    }

    fn update_meta(&mut self, code: u16, pressed: bool)
        ensures
            *final(self) == (ModifierStates {
                left_meta: if code == KEY_LEFT_META { pressed } else { old(self).left_meta },
                right_meta: if code == KEY_RIGHT_META { pressed } else { old(self).right_meta },
                ..*old(self)
            }),
    {
        if code == KEY_LEFT_META {
            self.left_meta = pressed;
        }
        if code == KEY_RIGHT_META {
            self.right_meta = pressed;
        }
    }
}

/// Law: a press and then a release of the same key code leaves the state
/// exactly as a single release of that key would — the key is down no
/// longer and nothing else changed — so from a state in which that
/// modifier was not held at all, its flag is back to false.
pub proof fn lemma_press_then_release_clears(s: ModifierStates, code: u16)
    ensures
        spec_update(spec_update(s, code, true), code, false) == spec_update(s, code, false),
        is_ctrl_code(code) && !s.ctrl() ==> !spec_update(
            spec_update(s, code, true),
            code,
            false,
        ).ctrl(),
        is_alt_code(code) && !s.alt() ==> !spec_update(
            spec_update(s, code, true),
            code,
            false,
        ).alt(),
        is_shift_code(code) && !s.shift() ==> !spec_update(
            spec_update(s, code, true),
            code,
            false,
        ).shift(),
        is_meta_code(code) && !s.meta() ==> !spec_update(
            spec_update(s, code, true),
            code,
            false,
        ).meta(),
{
}

/// Law: pressing both physical keys of one modifier and then releasing
/// only one of them leaves the modifier held.
pub proof fn lemma_one_release_keeps_modifier_held(s: ModifierStates, a: u16, b: u16)
    requires
        a != b,
    ensures
        is_ctrl_code(a) && is_ctrl_code(b) ==> spec_update(
            spec_update(spec_update(s, a, true), b, true),
            a,
            false,
        ).ctrl(),
        is_alt_code(a) && is_alt_code(b) ==> spec_update(
            spec_update(spec_update(s, a, true), b, true),
            a,
            false,
        ).alt(),
        is_shift_code(a) && is_shift_code(b) ==> spec_update(
            spec_update(spec_update(s, a, true), b, true),
            a,
            false,
        ).shift(),
        is_meta_code(a) && is_meta_code(b) ==> spec_update(
            spec_update(spec_update(s, a, true), b, true),
            a,
            false,
        ).meta(),
{
}

} // verus!
