use rust_autoclicker::controls::{
    IDC_BTN_PICK_LOC, IDC_CHECK_RANDOM, IDC_COMBO_CLICK_TYPE, IDC_COMBO_MOUSE_BTN, IDC_EDIT_HOURS,
    IDC_EDIT_MILLIS, IDC_EDIT_MINS, IDC_EDIT_RANDOM, IDC_EDIT_REPEAT_COUNT, IDC_EDIT_REPEAT_TIME,
    IDC_EDIT_SECS, IDC_EDIT_X, IDC_EDIT_Y, IDC_RADIO_POS_CURRENT, IDC_RADIO_POS_PICK,
    IDC_RADIO_REPEAT_HOLD, IDC_RADIO_REPEAT_TIME, IDC_RADIO_REPEAT_TIMES, IDC_RADIO_REPEAT_UNTIL,
};
use rust_autoclicker::settings::{
    check_radio_button, fixed2_edit_text, int_edit_text, parse_settings, serialize_settings,
    SettingUpdate, Settings,
};

fn defaults() -> Settings {
    Settings {
        interval_h: 0,
        interval_m: 0,
        interval_s: 0,
        interval_ms: 100,
        random_check: false,
        random_val: 40,
        mouse_btn: 0,
        click_type: 0,
        repeat_check: false,
        repeat_count: 1,
        repeat_time_check: false,
        repeat_time: "5".to_string(),
        repeat_hold_check: false,
        pos_fixed: false,
        pos_x: 0,
        pos_y: 0,
        hotkey_vk: 113,
        hotkey_mods: 0,
        suppress_admin_popup: false,
        safety_disable_enabled: true,
    }
}

const DEFAULT_TEXT: &str = "IntervalH=0\nIntervalM=0\nIntervalS=0\nIntervalMs=100\nRandomCheck=0\nRandomVal=40\nMouseBtn=0\nClickType=0\nRepeatCheck=0\nRepeatCount=1\nRepeatTimeCheck=0\nRepeatTime=5\nRepeatHoldCheck=0\nPosFixed=0\nPosX=0\nPosY=0\nHotkeyVk=113\nHotkeyMods=0\nSuppressAdminPopup=0\nSafetyDisableEnabled=1\n";

#[test]
fn default_settings_text() {
    assert_eq!(serialize_settings(&defaults()), DEFAULT_TEXT);
}

#[test]
fn every_value_is_written() {
    let mut s = defaults();
    s.interval_h = 1;
    s.interval_m = -2;
    s.random_check = true;
    s.mouse_btn = -1;
    s.click_type = 1;
    s.repeat_time = "2.5".to_string();
    s.pos_fixed = true;
    s.pos_x = 640;
    s.pos_y = 480;
    s.hotkey_vk = 0x41;
    s.hotkey_mods = 6;
    s.suppress_admin_popup = true;
    s.safety_disable_enabled = false;
    let text = serialize_settings(&s);
    assert!(text.starts_with("IntervalH=1\nIntervalM=-2\n"));
    assert!(text.contains("\nRandomCheck=1\n"));
    assert!(text.contains("\nMouseBtn=-1\nClickType=1\n"));
    assert!(text.contains("\nRepeatTime=2.5\n"));
    assert!(text.contains("\nPosFixed=1\nPosX=640\nPosY=480\nHotkeyVk=65\nHotkeyMods=6\n"));
    assert!(text.ends_with("SuppressAdminPopup=1\nSafetyDisableEnabled=0\n"));
}

fn default_updates() -> Vec<SettingUpdate> {
    vec![
        SettingUpdate::SetEditInt { control: IDC_EDIT_HOURS, value: 0 },
        SettingUpdate::SetEditInt { control: IDC_EDIT_MINS, value: 0 },
        SettingUpdate::SetEditInt { control: IDC_EDIT_SECS, value: 0 },
        SettingUpdate::SetEditInt { control: IDC_EDIT_MILLIS, value: 100 },
        SettingUpdate::SetCheck { control: IDC_CHECK_RANDOM, checked: false },
        SettingUpdate::SetEditInt { control: IDC_EDIT_RANDOM, value: 40 },
        SettingUpdate::SetComboSelection { control: IDC_COMBO_MOUSE_BTN, index: 0 },
        SettingUpdate::SetComboSelection { control: IDC_COMBO_CLICK_TYPE, index: 0 },
        SettingUpdate::SetCheck { control: IDC_RADIO_REPEAT_TIMES, checked: false },
        SettingUpdate::SetCheck { control: IDC_RADIO_REPEAT_TIME, checked: false },
        SettingUpdate::SetCheck { control: IDC_RADIO_REPEAT_HOLD, checked: false },
        SettingUpdate::SetCheck { control: IDC_RADIO_REPEAT_UNTIL, checked: true },
        SettingUpdate::SetEditInt { control: IDC_EDIT_REPEAT_COUNT, value: 1 },
        SettingUpdate::SetEditFixed2 { control: IDC_EDIT_REPEAT_TIME, hundredths: 500 },
        SettingUpdate::SetCheck { control: IDC_RADIO_POS_CURRENT, checked: true },
        SettingUpdate::SetCheck { control: IDC_RADIO_POS_PICK, checked: false },
        SettingUpdate::EnableControl { control: IDC_BTN_PICK_LOC, enabled: false },
        SettingUpdate::SetEditInt { control: IDC_EDIT_X, value: 0 },
        SettingUpdate::SetEditInt { control: IDC_EDIT_Y, value: 0 },
        SettingUpdate::SetHotkeyVk { vk: 113 },
        SettingUpdate::SetHotkeyModifiers { modifiers: 0 },
        SettingUpdate::SetSuppressAdminPopup { suppress: false },
        SettingUpdate::SetSafetyDisable { enabled: true },
    ]
}

#[test]
fn loading_the_default_text() {
    assert_eq!(parse_settings(DEFAULT_TEXT), default_updates());
}

#[test]
fn round_trip_restores_values() {
    let mut s = defaults();
    s.pos_fixed = true;
    s.pos_x = 12;
    s.mouse_btn = 2;
    s.repeat_check = true;
    s.hotkey_mods = 5;
    let u = parse_settings(&serialize_settings(&s));
    assert!(u.contains(&SettingUpdate::SetCheck { control: IDC_RADIO_POS_PICK, checked: true }));
    assert!(u.contains(&SettingUpdate::EnableControl { control: IDC_BTN_PICK_LOC, enabled: true }));
    assert!(u.contains(&SettingUpdate::SetEditInt { control: IDC_EDIT_X, value: 12 }));
    assert!(u.contains(&SettingUpdate::SetComboSelection { control: IDC_COMBO_MOUSE_BTN, index: 2 }));
    assert!(u.contains(&SettingUpdate::SetCheck { control: IDC_RADIO_REPEAT_TIMES, checked: true }));
    assert!(u.contains(&SettingUpdate::SetCheck { control: IDC_RADIO_REPEAT_UNTIL, checked: false }));
    assert!(u.contains(&SettingUpdate::SetHotkeyModifiers { modifiers: 5 }));
}

fn repeat_mode(check: i32) -> Vec<SettingUpdate> {
    vec![
        SettingUpdate::SetCheck { control: IDC_RADIO_REPEAT_TIMES, checked: check == IDC_RADIO_REPEAT_TIMES },
        SettingUpdate::SetCheck { control: IDC_RADIO_REPEAT_TIME, checked: check == IDC_RADIO_REPEAT_TIME },
        SettingUpdate::SetCheck { control: IDC_RADIO_REPEAT_HOLD, checked: check == IDC_RADIO_REPEAT_HOLD },
        SettingUpdate::SetCheck { control: IDC_RADIO_REPEAT_UNTIL, checked: check == IDC_RADIO_REPEAT_UNTIL },
    ]
}

#[test]
fn repeat_for_and_repeat_while_held_are_restored() {
    assert_eq!(parse_settings("RepeatTimeCheck=1\n"), repeat_mode(IDC_RADIO_REPEAT_TIME));
    assert_eq!(parse_settings("RepeatHoldCheck=1\n"), repeat_mode(IDC_RADIO_REPEAT_HOLD));
    assert_eq!(parse_settings("RepeatTimeCheck=0\nRepeatHoldCheck=0\n"), vec![]);
    let mut s = defaults();
    s.repeat_hold_check = true;
    let u = parse_settings(&serialize_settings(&s));
    let last_hold = u.iter().rposition(|x| *x == SettingUpdate::SetCheck { control: IDC_RADIO_REPEAT_HOLD, checked: true });
    let last_until = u.iter().rposition(|x| matches!(x, SettingUpdate::SetCheck { control: IDC_RADIO_REPEAT_UNTIL, .. }));
    assert!(last_hold.is_some());
    assert_eq!(u[last_until.unwrap()], SettingUpdate::SetCheck { control: IDC_RADIO_REPEAT_UNTIL, checked: false });
    assert!(last_until.unwrap() > last_hold.unwrap());
}

#[test]
fn repeat_count_mode_is_restored() {
    assert_eq!(parse_settings("RepeatCheck=1\n"), repeat_mode(IDC_RADIO_REPEAT_TIMES));
    assert_eq!(parse_settings("RepeatCheck=0\n"), repeat_mode(IDC_RADIO_REPEAT_UNTIL));
}

fn repeat_time(text: &str) -> Vec<SettingUpdate> {
    parse_settings(&format!("RepeatTime={}\n", text))
}

fn hundredths(h: i64) -> Vec<SettingUpdate> {
    vec![SettingUpdate::SetEditFixed2 { control: IDC_EDIT_REPEAT_TIME, hundredths: h }]
}

#[test]
fn fractional_repeat_time_is_restored() {
    assert_eq!(repeat_time("2.5"), hundredths(250));
    assert_eq!(repeat_time(&format!("{}", 2.5f64)), hundredths(250));
    assert_eq!(repeat_time(&format!("{}", 0.05f64)), hundredths(5));
    assert_eq!(repeat_time(&format!("{}", 12.75f64)), hundredths(1275));
    assert_eq!(repeat_time("5"), hundredths(500));
    assert_eq!(repeat_time("-0.5"), hundredths(-50));
    assert_eq!(repeat_time("1.239"), hundredths(123));
    assert_eq!(repeat_time("5."), hundredths(500));
}

#[test]
fn malformed_repeat_time_loads_as_zero() {
    assert_eq!(repeat_time("abc"), hundredths(0));
    assert_eq!(repeat_time("1.2x"), hundredths(0));
    assert_eq!(repeat_time(".5"), hundredths(0));
    assert_eq!(repeat_time("1.2.3"), hundredths(0));
}

#[test]
fn lines_are_split_like_str_lines() {
    let u = parse_settings("IntervalH=3\r\nPosX=4\r\nPosY=5\r");
    assert_eq!(
        u,
        vec![
            SettingUpdate::SetEditInt { control: IDC_EDIT_HOURS, value: 3 },
            SettingUpdate::SetEditInt { control: IDC_EDIT_X, value: 4 },
            SettingUpdate::SetEditInt { control: IDC_EDIT_Y, value: 0 },
        ]
    );
}

#[test]
fn unknown_and_malformed_lines_are_skipped() {
    let u = parse_settings("Nonsense=1\nno equals sign\n\nIntervalS=abc\n=5\nIntervalM==3\n");
    assert_eq!(
        u,
        vec![
            SettingUpdate::SetEditInt { control: IDC_EDIT_SECS, value: 0 },
            SettingUpdate::SetEditInt { control: IDC_EDIT_MINS, value: 0 },
        ]
    );
}

#[test]
fn later_lines_come_later() {
    let u = parse_settings("PosX=1\nPosX=2");
    assert_eq!(
        u,
        vec![
            SettingUpdate::SetEditInt { control: IDC_EDIT_X, value: 1 },
            SettingUpdate::SetEditInt { control: IDC_EDIT_X, value: 2 },
        ]
    );
}

#[test]
fn hotkey_values_are_cut_to_their_width() {
    let u = parse_settings("HotkeyVk=65601\nHotkeyMods=-1\nMouseBtn=-1\n");
    assert_eq!(
        u,
        vec![
            SettingUpdate::SetHotkeyVk { vk: 65 },
            SettingUpdate::SetHotkeyModifiers { modifiers: u32::MAX },
            SettingUpdate::SetComboSelection { control: IDC_COMBO_MOUSE_BTN, index: usize::MAX },
        ]
    );
}

#[test]
fn radio_group_ticks_one_button() {
    assert_eq!(
        check_radio_button(109, 110, 110),
        vec![
            SettingUpdate::SetCheck { control: 109, checked: false },
            SettingUpdate::SetCheck { control: 110, checked: true },
        ]
    );
    assert_eq!(check_radio_button(121, 110, 121), vec![]);
}

#[test]
fn radio_group_may_end_at_the_largest_identifier() {
    assert_eq!(
        check_radio_button(i32::MAX - 1, i32::MAX, i32::MAX),
        vec![
            SettingUpdate::SetCheck { control: i32::MAX - 1, checked: false },
            SettingUpdate::SetCheck { control: i32::MAX, checked: true },
        ]
    );
}

#[test]
fn edit_texts() {
    assert_eq!(int_edit_text(-15), "-15");
    assert_eq!(fixed2_edit_text(500), "5.00");
    assert_eq!(fixed2_edit_text(-300), "-3.00");
    assert_eq!(fixed2_edit_text(250), format!("{:.2}", 2.5f64));
    assert_eq!(fixed2_edit_text(5), "0.05");
    assert_eq!(fixed2_edit_text(-50), format!("{:.2}", -0.5f64));
    assert_eq!(fixed2_edit_text(i64::MIN), "-92233720368547758.08");
}
