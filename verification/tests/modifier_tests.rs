use easymacros::modifiers::{
    ModifierStates, KEY_LEFT_ALT, KEY_LEFT_CTRL, KEY_LEFT_META, KEY_LEFT_SHIFT, KEY_RIGHT_CTRL,
    KEY_RIGHT_SHIFT,
};

#[test]
fn fresh_state_holds_nothing() {
    let m = ModifierStates::new();
    assert!(!m.mod_pressed());
    assert!(!m.ctrl_pressed() && !m.alt_pressed() && !m.shift_pressed() && !m.meta_pressed());
}

#[test]
fn press_then_release_clears_the_flag() {
    let mut m = ModifierStates::new();
    m.update(KEY_LEFT_CTRL, true);
    assert!(m.ctrl_pressed());
    assert!(m.mod_pressed());
    m.update(KEY_LEFT_CTRL, false);
    assert!(!m.ctrl_pressed());
    assert!(!m.mod_pressed());
}

#[test]
fn each_modifier_sets_its_own_flag() {
    let mut m = ModifierStates::new();
    m.update(KEY_LEFT_ALT, true);
    assert!(m.alt_pressed() && !m.ctrl_pressed() && !m.shift_pressed() && !m.meta_pressed());
    m.update(KEY_RIGHT_SHIFT, true);
    assert!(m.alt_pressed() && m.shift_pressed());
    m.update(KEY_LEFT_META, true);
    assert!(m.meta_pressed());
    m.update(KEY_LEFT_ALT, false);
    assert!(!m.alt_pressed() && m.shift_pressed() && m.meta_pressed());
}

#[test]
fn unrelated_codes_change_nothing() {
    let mut m = ModifierStates::new();
    m.update(KEY_LEFT_SHIFT, true);
    m.update(30, true);
    m.update(30, false);
    assert!(m.shift_pressed() && !m.ctrl_pressed() && !m.alt_pressed() && !m.meta_pressed());
}

#[test]
fn releasing_one_of_two_held_variants_keeps_the_flag() {
    let mut m = ModifierStates::new();
    m.update(KEY_LEFT_CTRL, true);
    m.update(KEY_RIGHT_CTRL, true);
    assert!(m.ctrl_pressed());
    m.update(KEY_LEFT_CTRL, false);
    assert!(m.ctrl_pressed());
    m.update(KEY_RIGHT_CTRL, false);
    assert!(!m.ctrl_pressed());
}

#[test]
fn shift_variants_are_tracked_separately() {
    let mut m = ModifierStates::new();
    m.update(KEY_LEFT_SHIFT, true);
    m.update(KEY_RIGHT_SHIFT, true);
    m.update(KEY_RIGHT_SHIFT, false);
    assert!(m.shift_pressed());
    m.update(KEY_LEFT_SHIFT, false);
    assert!(!m.shift_pressed());
    assert!(!m.mod_pressed());
}
