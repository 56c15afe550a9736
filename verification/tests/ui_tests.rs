use rust_autoclicker::controls::{
    IDC_BTN_HOTKEY, IDC_BTN_PICK_LOC, IDC_BTN_START, IDC_BTN_STOP, IDC_EDIT_X, IDC_EDIT_Y,
    IDC_RADIO_POS_CURRENT, IDC_RADIO_POS_PICK, IDC_RADIO_REPEAT_HOLD, IDC_RADIO_REPEAT_TIMES,
};
use rust_autoclicker::keys::HotkeyCombo;
use rust_autoclicker::settings::SettingUpdate;
use rust_autoclicker::ui::{
    admin_warning_needed, command_id, dialog_position, hotkey_action, is_checked_state,
    main_command, pick_location_updates, rgb, start_button_text, stop_button_after_toggle,
    stop_button_text, tooltip_position, tooltip_text, window_title, HotkeyAction, MainCommand,
    Rect,
};

#[test]
fn window_titles() {
    assert_eq!(window_title(false, false), "Stopped - (OP)timized Auto Clicker 2.1.1");
    assert_eq!(
        window_title(true, true),
        "Running... - (OP)timized Auto Clicker 2.1.1 (Default Mode)"
    );
}

#[test]
fn button_captions_show_the_hotkey() {
    assert_eq!(start_button_text(HotkeyCombo::none()), "Start (F2)");
    assert_eq!(stop_button_text(HotkeyCombo::new(0x41, 2)), "Stop (Ctrl+A)");
}

#[test]
fn tooltip() {
    assert_eq!(tooltip_text(10, -3), "X: 10 Y: -3");
    assert_eq!(tooltip_position(100, 200), Some((115, 215)));
    assert_eq!(tooltip_position(i32::MAX, 0), None);
}

#[test]
fn dialogs_are_centered() {
    let main = Rect { left: 100, top: 100, right: 600, bottom: 580 };
    let dlg = Rect { left: 0, top: 0, right: 300, bottom: 210 };
    assert_eq!(dialog_position(main, dlg), Some((200, 235)));
    let odd = Rect { left: -5, top: 0, right: 0, bottom: 3 };
    assert_eq!(dialog_position(odd, Rect { left: 0, top: 0, right: 1, bottom: 1 }), Some((-3, 1)));
    let huge = Rect { left: i32::MIN, top: 0, right: i32::MAX, bottom: 0 };
    assert_eq!(dialog_position(huge, dlg), None);
}

#[test]
fn colors() {
    assert_eq!(rgb(255, 255, 225), 0x00e1ffff);
    assert_eq!(rgb(1, 2, 3), 0x00030201);
}

#[test]
fn checked_state() {
    assert!(is_checked_state(1));
    assert!(!is_checked_state(0));
    assert!(!is_checked_state(2));
}

#[test]
fn command_ids_are_the_low_word() {
    assert_eq!(command_id(0x0001_0075), 0x75);
    assert_eq!(command_id(117), 117);
}

#[test]
fn start_and_stop_buttons() {
    assert_eq!(main_command(IDC_BTN_START, false, false), MainCommand::ToggleStartStop);
    assert_eq!(main_command(IDC_BTN_START, true, false), MainCommand::Nothing);
    assert_eq!(main_command(IDC_BTN_STOP, true, false), MainCommand::ToggleStartStop);
    assert_eq!(main_command(IDC_BTN_STOP, true, true), MainCommand::Nothing);
    assert_eq!(main_command(IDC_BTN_STOP, false, false), MainCommand::Nothing);
}

#[test]
fn other_commands() {
    assert_eq!(main_command(IDC_BTN_HOTKEY, false, false), MainCommand::OpenHotkeyDialog);
    assert_eq!(main_command(IDC_BTN_PICK_LOC, false, false), MainCommand::StartPickLocation);
    assert_eq!(
        main_command(IDC_RADIO_POS_PICK, false, false),
        MainCommand::EnablePickButton { enabled: true }
    );
    assert_eq!(
        main_command(IDC_RADIO_REPEAT_HOLD, true, false),
        MainCommand::EnableStopButton { enabled: false }
    );
    assert_eq!(
        main_command(IDC_RADIO_REPEAT_TIMES, true, false),
        MainCommand::EnableStopButton { enabled: true }
    );
    assert_eq!(main_command(IDC_RADIO_REPEAT_TIMES, false, false), MainCommand::Nothing);
    assert_eq!(main_command(999, true, true), MainCommand::Nothing);
}

#[test]
fn hotkey_messages() {
    assert_eq!(hotkey_action(1, false, false), HotkeyAction::Toggle);
    assert_eq!(hotkey_action(1, false, true), HotkeyAction::Toggle);
    assert_eq!(hotkey_action(1, true, false), HotkeyAction::HoldAndStart);
    assert_eq!(hotkey_action(1, true, true), HotkeyAction::Hold);
    assert_eq!(hotkey_action(2, false, false), HotkeyAction::Nothing);
}

#[test]
fn stop_button_follows_repeat_mode() {
    assert_eq!(stop_button_after_toggle(true, false), Some(true));
    assert_eq!(stop_button_after_toggle(false, false), Some(false));
    assert_eq!(stop_button_after_toggle(true, true), None);
}

#[test]
fn admin_warning() {
    assert!(admin_warning_needed(false, true, 0));
    assert!(!admin_warning_needed(true, true, 0));
    assert!(!admin_warning_needed(false, false, 0));
    assert!(!admin_warning_needed(false, true, 1));
}

#[test]
fn picking_a_location() {
    assert_eq!(
        pick_location_updates(300, 400),
        vec![
            SettingUpdate::SetEditInt { control: IDC_EDIT_X, value: 300 },
            SettingUpdate::SetEditInt { control: IDC_EDIT_Y, value: 400 },
            SettingUpdate::SetCheck { control: IDC_RADIO_POS_CURRENT, checked: false },
            SettingUpdate::SetCheck { control: IDC_RADIO_POS_PICK, checked: true },
            SettingUpdate::EnableControl { control: IDC_BTN_PICK_LOC, enabled: true },
        ]
    );
}
