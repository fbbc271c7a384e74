use lapsus::key_monitor::{
    are_modifiers_held, clean_modifier_flags, combo_display_name, is_combo_held,
    is_modifier_keycode, keycode_name, modifier_flag_for_keycode, FLAG_ALT, FLAG_CMD, FLAG_CTRL,
    FLAG_FN, FLAG_SHIFT, MODIFIER_MASK,
};

const ALPHA_SHIFT: u64 = 0x0001_0000;
const NUM_PAD: u64 = 0x0020_0000;
const NON_COALESCED: u64 = 0x0000_0100;

#[test]
fn flag_values_match_core_graphics() {
    assert_eq!(FLAG_SHIFT, 0x0002_0000);
    assert_eq!(FLAG_CTRL, 0x0004_0000);
    assert_eq!(FLAG_ALT, 0x0008_0000);
    assert_eq!(FLAG_CMD, 0x0010_0000);
    assert_eq!(FLAG_FN, 0x0080_0000);
    assert_eq!(MODIFIER_MASK, 0x009E_0000);
}

#[test]
fn no_required_modifiers_are_always_held() {
    assert!(are_modifiers_held(0, 0));
    assert!(are_modifiers_held(u64::MAX, 0));
    assert!(are_modifiers_held(FLAG_CMD, 0));
}

#[test]
fn all_required_modifiers_must_be_held() {
    assert!(are_modifiers_held(FLAG_CMD | FLAG_SHIFT, FLAG_CMD));
    assert!(are_modifiers_held(FLAG_CMD | FLAG_SHIFT, FLAG_CMD | FLAG_SHIFT));
    assert!(!are_modifiers_held(FLAG_CMD, FLAG_CMD | FLAG_SHIFT));
    assert!(!are_modifiers_held(0, FLAG_CTRL));
    assert!(are_modifiers_held(FLAG_CTRL | ALPHA_SHIFT | NON_COALESCED, FLAG_CTRL));
}

#[test]
fn modifier_only_combo_needs_only_modifiers() {
    assert!(is_combo_held(None, FLAG_CTRL, FLAG_CTRL, false));
    assert!(is_combo_held(None, FLAG_CTRL, FLAG_CTRL, true));
    assert!(!is_combo_held(None, FLAG_CTRL, FLAG_ALT, true));
    assert!(is_combo_held(None, 0, 0, false));
}

#[test]
fn combo_with_key_needs_the_key_down() {
    assert!(is_combo_held(Some(0), FLAG_CMD, FLAG_CMD, true));
    assert!(!is_combo_held(Some(0), FLAG_CMD, FLAG_CMD, false));
    assert!(!is_combo_held(Some(0), FLAG_CMD, 0, true));
    assert!(is_combo_held(Some(49), 0, 0, true));
    assert!(!is_combo_held(Some(49), 0, 0, false));
}

#[test]
fn clean_keeps_only_the_five_modifiers() {
    assert_eq!(clean_modifier_flags(0), 0);
    assert_eq!(clean_modifier_flags(u64::MAX), 0x009E_0000);
    assert_eq!(clean_modifier_flags(FLAG_CMD | ALPHA_SHIFT | NUM_PAD | NON_COALESCED), FLAG_CMD);
    assert_eq!(
        clean_modifier_flags(FLAG_SHIFT | FLAG_CTRL | FLAG_ALT | FLAG_CMD | FLAG_FN),
        FLAG_SHIFT | FLAG_CTRL | FLAG_ALT | FLAG_CMD | FLAG_FN
    );
    assert_eq!(clean_modifier_flags(ALPHA_SHIFT | NUM_PAD), 0);
}

#[test]
fn clean_is_idempotent() {
    for raw in [0u64, u64::MAX, FLAG_CMD | NUM_PAD, 0x1234_5678_9ABC_DEF0] {
        let once = clean_modifier_flags(raw);
        assert_eq!(clean_modifier_flags(once), once);
    }
}

#[test]
fn modifier_keycodes_are_54_to_63() {
    assert!(!is_modifier_keycode(0));
    assert!(!is_modifier_keycode(53));
    for keycode in 54u16..=63 {
        assert!(is_modifier_keycode(keycode));
    }
    assert!(!is_modifier_keycode(64));
    assert!(!is_modifier_keycode(u16::MAX));
}

#[test]
fn keycode_names() {
    assert_eq!(keycode_name(0), "A");
    assert_eq!(keycode_name(9), "V");
    assert_eq!(keycode_name(10), "Unknown");
    assert_eq!(keycode_name(22), "6");
    assert_eq!(keycode_name(23), "5");
    assert_eq!(keycode_name(36), "Return");
    assert_eq!(keycode_name(42), "\\");
    assert_eq!(keycode_name(49), "Space");
    assert_eq!(keycode_name(52), "Unknown");
    assert_eq!(keycode_name(53), "Escape");
    assert_eq!(keycode_name(54), "Right Cmd");
    assert_eq!(keycode_name(57), "Caps Lock");
    assert_eq!(keycode_name(63), "Fn");
    assert_eq!(keycode_name(64), "Unknown");
    assert_eq!(keycode_name(96), "F5");
    assert_eq!(keycode_name(122), "F1");
    assert_eq!(keycode_name(126), "Up");
    assert_eq!(keycode_name(127), "Unknown");
    assert_eq!(keycode_name(u16::MAX), "Unknown");
}

#[test]
fn every_modifier_key_has_a_name() {
    for keycode in 54u16..=63 {
        assert_ne!(keycode_name(keycode), "Unknown");
    }
}

#[test]
fn combo_display_examples() {
    assert_eq!(combo_display_name(Some(0), FLAG_CMD), "Cmd+A");
    assert_eq!(combo_display_name(None, FLAG_CTRL | FLAG_SHIFT), "Ctrl+Shift");
    assert_eq!(combo_display_name(Some(0), 0), "A");
    assert_eq!(combo_display_name(None, FLAG_FN), "Fn");
}

#[test]
fn combo_display_order() {
    let all = FLAG_SHIFT | FLAG_CTRL | FLAG_ALT | FLAG_CMD | FLAG_FN;
    assert_eq!(combo_display_name(Some(49), all), "Ctrl+Option+Shift+Cmd+Fn+Space");
    assert_eq!(combo_display_name(None, FLAG_CMD | FLAG_ALT), "Option+Cmd");
}

#[test]
fn empty_combo_says_click_to_set() {
    assert_eq!(combo_display_name(None, 0), "Click to set");
    assert_eq!(combo_display_name(None, ALPHA_SHIFT | NUM_PAD), "Click to set");
}

#[test]
fn combo_display_ignores_other_flags() {
    let raw = FLAG_CMD | ALPHA_SHIFT | NON_COALESCED;
    assert_eq!(combo_display_name(Some(12), raw), combo_display_name(Some(12), clean_modifier_flags(raw)));
    assert_eq!(combo_display_name(Some(12), raw), "Cmd+Q");
}

#[test]
fn combo_with_unknown_key() {
    assert_eq!(combo_display_name(Some(10), FLAG_SHIFT), "Shift+Unknown");
}

#[test]
fn modifier_flags_of_keys() {
    assert_eq!(modifier_flag_for_keycode(56), Some(FLAG_SHIFT));
    assert_eq!(modifier_flag_for_keycode(60), Some(FLAG_SHIFT));
    assert_eq!(modifier_flag_for_keycode(59), Some(FLAG_CTRL));
    assert_eq!(modifier_flag_for_keycode(62), Some(FLAG_CTRL));
    assert_eq!(modifier_flag_for_keycode(58), Some(FLAG_ALT));
    assert_eq!(modifier_flag_for_keycode(61), Some(FLAG_ALT));
    assert_eq!(modifier_flag_for_keycode(55), Some(FLAG_CMD));
    assert_eq!(modifier_flag_for_keycode(54), Some(FLAG_CMD));
    assert_eq!(modifier_flag_for_keycode(63), Some(FLAG_FN));
    assert_eq!(modifier_flag_for_keycode(57), None);
    assert_eq!(modifier_flag_for_keycode(0), None);
    assert_eq!(modifier_flag_for_keycode(64), None);
}

#[test]
fn keys_with_a_flag_are_modifier_keys() {
    for keycode in 0u16..=200 {
        if let Some(flag) = modifier_flag_for_keycode(keycode) {
            assert!(is_modifier_keycode(keycode));
            assert_eq!(clean_modifier_flags(flag), flag);
        }
    }
}
