use rust_autoclicker::keys::{
    capture_hotkey, get_hotkey_display_text, get_key_name, hotkey_held_after, is_key_press, key_is_down,
    modifier_checks, modifiers_from, HotkeyCombo, MOD_ALT, MOD_CONTROL, MOD_SHIFT, VK_F2,
    WM_KEYDOWN,
};

#[test]
fn digit_and_letter_names() {
    assert_eq!(get_key_name(0x30), "0");
    assert_eq!(get_key_name(0x39), "9");
    assert_eq!(get_key_name(0x41), "A");
    assert_eq!(get_key_name(0x5a), "Z");
}

#[test]
fn function_key_names() {
    assert_eq!(get_key_name(0x70), "F1");
    assert_eq!(get_key_name(0x71), "F2");
    assert_eq!(get_key_name(0x87), "F24");
}

#[test]
fn special_key_names() {
    assert_eq!(get_key_name(0x20), "Space");
    assert_eq!(get_key_name(0x0d), "Enter");
    assert_eq!(get_key_name(0x21), "Page Up");
    assert_eq!(get_key_name(0xdc), "\\");
    assert_eq!(get_key_name(0xdf), "\u{a8}");
    assert_eq!(get_key_name(0xb3), "Play/Pause");
    assert_eq!(get_key_name(0x60), "Num 0");
    assert_eq!(get_key_name(0x6f), "Num /");
}

#[test]
fn unnamed_keys() {
    assert_eq!(get_key_name(0x6c), "Key ?");
    assert_eq!(get_key_name(0x00), "Key ?");
    assert_eq!(get_key_name(0xffff), "Key ?");
}

#[test]
fn default_hotkey_is_f2() {
    let c = HotkeyCombo::none();
    assert_eq!(c.vk, VK_F2);
    assert_eq!(c.modifiers, 0);
    assert_eq!(get_hotkey_display_text(c), "F2");
}

#[test]
fn display_text_lists_modifiers_in_order() {
    let c = HotkeyCombo::new(0x41, MOD_ALT | MOD_SHIFT | MOD_CONTROL);
    assert_eq!(get_hotkey_display_text(c), "Shift+Ctrl+Alt+A");
    let c = HotkeyCombo::new(0x70, MOD_CONTROL);
    assert_eq!(get_hotkey_display_text(c), "Ctrl+F1");
}

#[test]
fn modifier_flags_round_trip() {
    assert_eq!(modifiers_from(true, false, true), MOD_SHIFT | MOD_ALT);
    assert_eq!(modifiers_from(false, false, false), 0);
    assert_eq!(modifier_checks(modifiers_from(true, false, true)), (true, false, true));
    assert_eq!(modifier_checks(7), (true, true, true));
}

#[test]
fn key_state_high_bit_means_down() {
    assert!(key_is_down(i16::MIN));
    assert!(key_is_down(-127));
    assert!(!key_is_down(1));
    assert!(!key_is_down(0));
}

#[test]
fn modifier_keys_are_not_captured() {
    assert_eq!(capture_hotkey(0x10, true, false, false), None);
    assert_eq!(capture_hotkey(0x11, false, true, false), None);
    assert_eq!(capture_hotkey(0x12, false, false, true), None);
}

#[test]
fn key_press_is_captured_with_held_modifiers() {
    let c = capture_hotkey(0x75, true, true, false).unwrap();
    assert_eq!(c.vk, 0x75);
    assert_eq!(c.modifiers, MOD_SHIFT | MOD_CONTROL);
}

#[test]
fn tracker_sets_held_on_press_and_clears_on_release() {
    let hk = HotkeyCombo::new(0x71, MOD_CONTROL);
    assert_eq!(hotkey_held_after(0, true, WM_KEYDOWN, 0x71, hk, false, true, false), Some(true));
    assert_eq!(hotkey_held_after(0, true, 0x0101, 0x71, hk, false, true, false), Some(false));
    assert_eq!(hotkey_held_after(0, true, 0x0105, 0x71, hk, true, true, true), Some(false));
}

#[test]
fn release_clears_held_even_after_the_modifier_was_let_go() {
    let hk = HotkeyCombo::new(0x71, MOD_SHIFT);
    assert_eq!(hotkey_held_after(0, true, 0x0101, 0x71, hk, false, false, false), Some(false));
}

#[test]
fn alt_hotkey_press_arrives_as_a_system_key_and_holds() {
    let hk = HotkeyCombo::new(0x42, MOD_ALT);
    assert_eq!(hotkey_held_after(0, true, 0x0104, 0x42, hk, false, false, true), Some(true));
    assert_eq!(hotkey_held_after(0, true, 0x0105, 0x42, hk, false, false, false), Some(false));
    assert!(is_key_press(0x0104));
    assert!(is_key_press(0x0100));
    assert!(!is_key_press(0x0101));
}

#[test]
fn tracker_ignores_messages_that_neither_press_nor_release() {
    let hk = HotkeyCombo::new(0x71, MOD_CONTROL);
    assert_eq!(hotkey_held_after(0, true, 0x0102, 0x71, hk, false, true, false), None);
}

#[test]
fn sided_modifier_keys_are_captured_like_other_keys() {
    let c = capture_hotkey(0xA0, false, true, false).unwrap();
    assert_eq!(c, HotkeyCombo::new(0xA0, MOD_CONTROL));
    assert!(capture_hotkey(0xA5, false, false, false).is_some());
}

#[test]
fn tracker_ignores_other_events() {
    let hk = HotkeyCombo::new(0x71, MOD_CONTROL);
    assert_eq!(hotkey_held_after(0, true, WM_KEYDOWN, 0x71, hk, false, false, false), None);
    assert_eq!(hotkey_held_after(0, true, WM_KEYDOWN, 0x72, hk, false, true, false), None);
    assert_eq!(hotkey_held_after(0, false, WM_KEYDOWN, 0x71, hk, false, true, false), None);
    assert_eq!(hotkey_held_after(-1, true, WM_KEYDOWN, 0x71, hk, false, true, false), None);
}

#[test]
fn captured_hotkey_is_tracked_when_pressed_with_its_modifiers() {
    let c = capture_hotkey(0x42, false, true, true).unwrap();
    assert_eq!(get_hotkey_display_text(c), "Ctrl+Alt+B");
    assert_eq!(hotkey_held_after(0, true, WM_KEYDOWN, 0x42, c, false, true, true), Some(true));
    assert_eq!(hotkey_held_after(0, true, WM_KEYDOWN, 0x42, c, true, true, true), Some(true));
}
