//! Identifiers of the window's controls.
use vstd::prelude::*;

verus! {

pub const IDC_EDIT_HOURS: i32 = 101;
pub const IDC_EDIT_MINS: i32 = 102;
pub const IDC_EDIT_SECS: i32 = 103;
pub const IDC_EDIT_MILLIS: i32 = 104;
pub const IDC_CHECK_RANDOM: i32 = 105;
pub const IDC_EDIT_RANDOM: i32 = 106;
pub const IDC_COMBO_MOUSE_BTN: i32 = 107;
pub const IDC_COMBO_CLICK_TYPE: i32 = 108;
pub const IDC_RADIO_REPEAT_TIMES: i32 = 109;
pub const IDC_RADIO_REPEAT_UNTIL: i32 = 110;
pub const IDC_EDIT_REPEAT_COUNT: i32 = 111;
pub const IDC_RADIO_POS_CURRENT: i32 = 112;
pub const IDC_RADIO_POS_PICK: i32 = 113;
pub const IDC_BTN_PICK_LOC: i32 = 114;
pub const IDC_EDIT_X: i32 = 115;
pub const IDC_EDIT_Y: i32 = 116;
pub const IDC_BTN_START: i32 = 117;
pub const IDC_BTN_STOP: i32 = 118;
pub const IDC_BTN_HOTKEY: i32 = 119;
pub const IDC_BTN_SETTINGS: i32 = 120;
pub const IDC_RADIO_REPEAT_TIME: i32 = 121;
pub const IDC_EDIT_REPEAT_TIME: i32 = 122;
pub const IDC_RADIO_REPEAT_HOLD: i32 = 123;

pub const IDC_HK_BTN_SET: i32 = 201;
pub const IDC_HK_BTN_DISPLAY: i32 = 202;
pub const IDC_HK_BTN_OK: i32 = 203;
pub const IDC_HK_BTN_CANCEL: i32 = 204;
pub const IDC_HK_CHECK_SHIFT: i32 = 205;
pub const IDC_HK_CHECK_CTRL: i32 = 206;
pub const IDC_HK_CHECK_ALT: i32 = 207;

pub const IDC_SETTINGS_CHECK_SUPPRESS: i32 = 301;
pub const IDC_SETTINGS_BTN_OK: i32 = 302;
pub const IDC_SETTINGS_BTN_CANCEL: i32 = 303;
pub const IDC_SETTINGS_CHECK_SAFETY_DISABLE: i32 = 304;

} // verus!
