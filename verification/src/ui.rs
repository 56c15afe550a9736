//! The decisions and texts of the window: titles, button captions, what a
//! command or the hotkey does, where dialogs and the tooltip go.
use vstd::prelude::*;
use vstd::string::StringExecFns;
use crate::controls::{
    IDC_BTN_HOTKEY, IDC_BTN_PICK_LOC, IDC_BTN_SETTINGS, IDC_BTN_START, IDC_BTN_STOP,
    IDC_EDIT_X, IDC_EDIT_Y, IDC_RADIO_POS_CURRENT, IDC_RADIO_POS_PICK, IDC_RADIO_REPEAT_HOLD,
    IDC_RADIO_REPEAT_TIME, IDC_RADIO_REPEAT_TIMES, IDC_RADIO_REPEAT_UNTIL,
};
use crate::decimal::{decimal_text, format_i64};
use crate::keys::{HotkeyCombo, get_hotkey_display_text, hotkey_text};
use crate::settings::{SettingUpdate, check_radio_button, radio_updates};

verus! {

/// The identifier of the global hotkey registration.
pub const ID_HOTKEY_GLOBAL: i32 = 1;

/// The state of a checked button, as `BM_GETCHECK` reports it.
pub const BST_CHECKED: u32 = 1;

/// The title of the main window: whether clicking runs, the program's name
/// and version, and a mark when it runs with the default settings.
pub open spec fn window_title_text(running: bool, default_mode: bool) -> Seq<char> {
    (if running {
        "Running... - (OP)timized Auto Clicker 2.1.1"@
    } else {
        "Stopped - (OP)timized Auto Clicker 2.1.1"@
    }) + (if default_mode {
        " (Default Mode)"@
    } else {
        Seq::empty()
    })
}

/// The title of the main window.
pub fn window_title(running: bool, default_mode: bool) -> (t: String)
    ensures
        t@ == window_title_text(running, default_mode),
{
    let mut t = if running {
        String::from_str("Running... - (OP)timized Auto Clicker 2.1.1")
    } else {
        String::from_str("Stopped - (OP)timized Auto Clicker 2.1.1")
    };
    if default_mode {
        t.append(" (Default Mode)");
    }
    proof {
        assert(t@ =~= window_title_text(running, default_mode));
    }
    t
}

/// The caption of the start button for the hotkey `combo`.
pub fn start_button_text(combo: HotkeyCombo) -> (t: String)
    ensures
        t@ == "Start ("@ + hotkey_text(combo) + ")"@,
{
    let mut t = String::from_str("Start (");
    let shown = get_hotkey_display_text(combo);
    t.append(shown.as_str());
    t.append(")");
    t
}

/// The caption of the stop button for the hotkey `combo`.
pub fn stop_button_text(combo: HotkeyCombo) -> (t: String)
    ensures
        t@ == "Stop ("@ + hotkey_text(combo) + ")"@,
{
    let mut t = String::from_str("Stop (");
    let shown = get_hotkey_display_text(combo);
    t.append(shown.as_str());
    t.append(")");
    t
}

/// The text of the coordinates tooltip.
pub fn tooltip_text(x: i32, y: i32) -> (t: String)
    ensures
        t@ == "X: "@ + decimal_text(x as int) + " Y: "@ + decimal_text(y as int),
{
    let mut t = String::from_str("X: ");
    let xs = format_i64(x as i64);
    t.append(xs.as_str());
    t.append(" Y: ");
    let ys = format_i64(y as i64);
    t.append(ys.as_str());
    t
}

/// Where the coordinates tooltip goes for a cursor at `(x, y)`: 15 pixels
/// right of and below it; `None` where that leaves the range of `i32`.
pub fn tooltip_position(x: i32, y: i32) -> (p: Option<(i32, i32)>)
    ensures
        p == (if x + 15 <= i32::MAX && y + 15 <= i32::MAX {
            Some(((x + 15) as i32, (y + 15) as i32))
        } else {
            None
        }),
{
    if x <= i32::MAX - 15 && y <= i32::MAX - 15 {
        Some((x + 15, y + 15))
    } else {
        None
    }
}

/// A window rectangle.
#[derive(Clone, Copy, Debug)]
pub struct Rect {
    pub left: i32,
    pub top: i32,
    pub right: i32,
    pub bottom: i32,
}

/// `a - b` with `i32` arithmetic, if it does not overflow.
pub open spec fn sub32(a: int, b: int) -> Option<int> {
    if i32::MIN <= a - b <= i32::MAX {
        Some(a - b)
    } else {
        None
    }
}

/// The coordinate that centers a span `[dlo, dhi)` in the span
/// `[lo, hi)`: `lo + (hi - lo) / 2 - (dhi - dlo) / 2` with `i32` arithmetic,
/// halves rounded toward zero; `None` where a step overflows.
pub open spec fn centered(lo: i32, hi: i32, dlo: i32, dhi: i32) -> Option<int> {
    match (sub32(hi as int, lo as int), sub32(dhi as int, dlo as int)) {
        (Some(w), Some(dw)) => {
            let half = if w >= 0 {
                w / 2
            } else {
                -((-w) / 2)
            };
            let dhalf = if dw >= 0 {
                dw / 2
            } else {
                -((-dw) / 2)
            };
            if i32::MIN <= lo + half <= i32::MAX && i32::MIN <= lo + half - dhalf <= i32::MAX {
                Some(lo + half - dhalf)
            } else {
                None
            }
        },
        _ => None,
    }
}

fn center_coordinate(lo: i32, hi: i32, dlo: i32, dhi: i32) -> (c: Option<i32>)
    ensures
        c matches Some(v) ==> centered(lo, hi, dlo, dhi) == Some(v as int),
        c is None ==> centered(lo, hi, dlo, dhi) is None,
{
    let w = hi as i64 - lo as i64;
    let dw = dhi as i64 - dlo as i64;
    if w < i32::MIN as i64 || w > i32::MAX as i64 || dw < i32::MIN as i64 || dw > i32::MAX as i64 {
        return None;
    }
    let w = w as i32;
    let dw = dw as i32;
    let a = lo as i64 + (w / 2) as i64;
    if a < i32::MIN as i64 || a > i32::MAX as i64 {
        return None;
    }
    let b = a - (dw / 2) as i64;
    if b < i32::MIN as i64 || b > i32::MAX as i64 {
        return None;
    }
    Some(b as i32)
}

/// Where a dialog whose window is `dlg` goes to stand centered on the main
/// window `main`; `None` where the arithmetic overflows.
pub fn dialog_position(main: Rect, dlg: Rect) -> (p: Option<(i32, i32)>)
    ensures
        p matches Some((x, y)) ==> centered(main.left, main.right, dlg.left, dlg.right) == Some(
            x as int,
        ) && centered(main.top, main.bottom, dlg.top, dlg.bottom) == Some(y as int),
        p is None ==> centered(main.left, main.right, dlg.left, dlg.right) is None || centered(
            main.top,
            main.bottom,
            dlg.top,
            dlg.bottom,
        ) is None,
{
    let x = center_coordinate(main.left, main.right, dlg.left, dlg.right);
    let y = center_coordinate(main.top, main.bottom, dlg.top, dlg.bottom);
    match (x, y) {
        (Some(x), Some(y)) => Some((x, y)),
        _ => None,
    }
}

/// The color value of red, green and blue components.
pub fn rgb(r: u8, g: u8, b: u8) -> (c: u32)
    ensures
        c == r + g * 0x100 + b * 0x1_0000,
{
    let c = (r as u32) | ((g as u32) << 8u32) | ((b as u32) << 16u32);
    assert(c == r + g * 0x100 + b * 0x1_0000) by (bit_vector)
        requires
            c == (r as u32) | ((g as u32) << 8u32) | ((b as u32) << 16u32),
    ;
    c
}

/// Whether a button state as `BM_GETCHECK` reports it means checked.
pub fn is_checked_state(state: isize) -> (b: bool)
    ensures
        b == (state as u32 == BST_CHECKED),
{
    state as u32 == BST_CHECKED
}

/// The control identifier in the low word of a command message's `wparam`.
pub fn command_id(wparam: usize) -> (id: i32)
    ensures
        id == wparam % 0x1_0000,
{
    let low = wparam & 0xffff;
    assert(low == wparam % 0x1_0000) by (bit_vector)
        requires
            low == wparam & 0xffff,
    ;
    low as i32
}

/// What a command of the main window asks for.
#[derive(Clone, Copy, PartialEq, Eq, Structural, Debug)]
pub enum MainCommand {
    Nothing,
    /// Start clicking if stopped, stop if running.
    ToggleStartStop,
    OpenHotkeyDialog,
    OpenSettingsDialog,
    StartPickLocation,
    /// Enable or disable the pick-location button.
    EnablePickButton { enabled: bool },
    /// Enable or disable the stop button.
    EnableStopButton { enabled: bool },
}

/// What the command of control `id` does, given whether clicking runs and
/// whether repeat-while-held is selected: start only when stopped, stop
/// only when running and not in repeat-while-held mode (there the hotkey's
/// release stops it), and the stop button follows the selected repeat mode.
pub open spec fn main_command_spec(id: i32, running: bool, repeat_hold: bool) -> MainCommand {
    if id == IDC_BTN_START {
        if !running {
            MainCommand::ToggleStartStop
        } else {
            MainCommand::Nothing
        }
    } else if id == IDC_BTN_STOP {
        if running && !repeat_hold {
            MainCommand::ToggleStartStop
        } else {
            MainCommand::Nothing
        }
    } else if id == IDC_BTN_HOTKEY {
        MainCommand::OpenHotkeyDialog
    } else if id == IDC_BTN_SETTINGS {
        MainCommand::OpenSettingsDialog
    } else if id == IDC_BTN_PICK_LOC {
        MainCommand::StartPickLocation
    } else if id == IDC_RADIO_POS_PICK {
        MainCommand::EnablePickButton { enabled: true }
    } else if id == IDC_RADIO_POS_CURRENT {
        MainCommand::EnablePickButton { enabled: false }
    } else if id == IDC_RADIO_REPEAT_HOLD {
        MainCommand::EnableStopButton { enabled: false }
    } else if id == IDC_RADIO_REPEAT_UNTIL || id == IDC_RADIO_REPEAT_TIMES || id
        == IDC_RADIO_REPEAT_TIME {
        if running {
            MainCommand::EnableStopButton { enabled: true }
        } else {
            MainCommand::Nothing
        }
    } else {
        MainCommand::Nothing
    }
}

/// What the command of control `id` of the main window does.
pub fn main_command(id: i32, running: bool, repeat_hold: bool) -> (c: MainCommand)
    ensures
        c == main_command_spec(id, running, repeat_hold),
{
    if id == IDC_BTN_START {
        if !running {
            MainCommand::ToggleStartStop
        } else {
            MainCommand::Nothing
        }
    } else if id == IDC_BTN_STOP {
        if running && !repeat_hold {
            MainCommand::ToggleStartStop
        } else {
            MainCommand::Nothing
        }
    } else if id == IDC_BTN_HOTKEY {
        MainCommand::OpenHotkeyDialog
    } else if id == IDC_BTN_SETTINGS {
        MainCommand::OpenSettingsDialog
    } else if id == IDC_BTN_PICK_LOC {
        MainCommand::StartPickLocation
    } else if id == IDC_RADIO_POS_PICK {
        MainCommand::EnablePickButton { enabled: true }
    } else if id == IDC_RADIO_POS_CURRENT {
        MainCommand::EnablePickButton { enabled: false }
    } else if id == IDC_RADIO_REPEAT_HOLD {
        MainCommand::EnableStopButton { enabled: false }
    } else if id == IDC_RADIO_REPEAT_UNTIL || id == IDC_RADIO_REPEAT_TIMES || id
        == IDC_RADIO_REPEAT_TIME {
        if running {
            MainCommand::EnableStopButton { enabled: true }
        } else {
            MainCommand::Nothing
        }
    } else {
        MainCommand::Nothing
    }
}

/// What each button and radio button of the main window does, whatever
/// the state: Start (117) starts only a stopped run, Stop (118) stops only
/// a running run outside repeat-while-held mode, Hotkey (119) and Settings
/// (120) open their dialogs, Pick Location (114) starts picking, the
/// position radio buttons (113, 112) enable or disable the pick button, and
/// the repeat-mode radio buttons set the stop button: "Repeat while held"
/// (123) disables it, the others (110, 109, 121) enable it while running.
/// Any other control does nothing.
pub proof fn lemma_main_command_table(id: i32, running: bool, repeat_hold: bool)
    ensures
        main_command_spec(117, running, repeat_hold) == (if running {
            MainCommand::Nothing
        } else {
            MainCommand::ToggleStartStop
        }),
        main_command_spec(118, running, repeat_hold) == (if running && !repeat_hold {
            MainCommand::ToggleStartStop
        } else {
            MainCommand::Nothing
        }),
        main_command_spec(119, running, repeat_hold) == MainCommand::OpenHotkeyDialog,
        main_command_spec(120, running, repeat_hold) == MainCommand::OpenSettingsDialog,
        main_command_spec(114, running, repeat_hold) == MainCommand::StartPickLocation,
        main_command_spec(113, running, repeat_hold) == (MainCommand::EnablePickButton {
            enabled: true,
        }),
        main_command_spec(112, running, repeat_hold) == (MainCommand::EnablePickButton {
            enabled: false,
        }),
        main_command_spec(123, running, repeat_hold) == (MainCommand::EnableStopButton {
            enabled: false,
        }),
        (id == 110 || id == 109 || id == 121) ==> main_command_spec(id, running, repeat_hold) == (
        if running {
            MainCommand::EnableStopButton { enabled: true }
        } else {
            MainCommand::Nothing
        }),
        !(id == 109 || id == 110 || id == 112 || id == 113 || id == 114 || (117 <= id <= 121)
            || id == 123) ==> main_command_spec(id, running, repeat_hold) == MainCommand::Nothing,
{
}

/// What the global hotkey does.
#[derive(Clone, Copy, PartialEq, Eq, Structural, Debug)]
pub enum HotkeyAction {
    Nothing,
    /// Mark the hotkey as held, and start clicking.
    HoldAndStart,
    /// Mark the hotkey as held; clicking already runs.
    Hold,
    /// Start clicking if stopped, stop if running.
    Toggle,
}

/// What a hotkey message with identifier `id` does: in repeat-while-held
/// mode it marks the key as held and starts clicking if stopped; otherwise
/// it toggles clicking.
pub open spec fn hotkey_action_spec(id: i32, repeat_hold: bool, running: bool) -> HotkeyAction {
    if id != ID_HOTKEY_GLOBAL {
        HotkeyAction::Nothing
    } else if repeat_hold {
        if running {
            HotkeyAction::Hold
        } else {
            HotkeyAction::HoldAndStart
        }
    } else {
        HotkeyAction::Toggle
    }
}

/// What a hotkey message with identifier `id` does.
pub fn hotkey_action(id: i32, repeat_hold: bool, running: bool) -> (a: HotkeyAction)
    ensures
        a == hotkey_action_spec(id, repeat_hold, running),
{
    if id != ID_HOTKEY_GLOBAL {
        HotkeyAction::Nothing
    } else if repeat_hold {
        if running {
            HotkeyAction::Hold
        } else {
            HotkeyAction::HoldAndStart
        }
    } else {
        HotkeyAction::Toggle
    }
}

/// What the global hotkey (identifier 1) does: in repeat-while-held mode
/// it marks the hotkey held, and starts a stopped run; otherwise it starts
/// a stopped run and stops a running one. Any other identifier does nothing.
pub proof fn lemma_hotkey_action_table(id: i32, repeat_hold: bool, running: bool)
    ensures
        hotkey_action_spec(1, true, false) == HotkeyAction::HoldAndStart,
        hotkey_action_spec(1, true, true) == HotkeyAction::Hold,
        hotkey_action_spec(1, false, running) == HotkeyAction::Toggle,
        id != 1 ==> hotkey_action_spec(id, repeat_hold, running) == HotkeyAction::Nothing,
{
}

/// Whether the stop button is enabled after starting (`starting`) or
/// stopping clicking: on start it is enabled unless repeat-while-held is
/// selected; on stop it is disabled unless repeat-while-held is selected,
/// where it is left as it is (`None`).
pub fn stop_button_after_toggle(starting: bool, repeat_hold: bool) -> (e: Option<bool>)
    ensures
        e == (if repeat_hold {
            None
        } else {
            Some(starting)
        }),
{
    if repeat_hold {
        None
    } else {
        Some(starting)
    }
}

/// Whether the administrator warning is shown at startup: it is shown
/// unless suppressed, when the elevation of the process could be read and
/// says that it does not run elevated.
pub fn admin_warning_needed(suppressed: bool, elevation_read: bool, elevated: u32) -> (b: bool)
    ensures
        b == (!suppressed && elevation_read && elevated == 0),
{
    !suppressed && elevation_read && elevated == 0
}

/// The form changes when a location is picked at `(x, y)`: the coordinates
/// go into the X and Y boxes, the pick-location radio button is ticked (and
/// current-location cleared), and the pick-location button is enabled.
pub open spec fn pick_location_updates_spec(x: i32, y: i32) -> Seq<SettingUpdate> {
    seq![
        SettingUpdate::SetEditInt { control: IDC_EDIT_X, value: x },
        SettingUpdate::SetEditInt { control: IDC_EDIT_Y, value: y },
    ] + radio_updates(IDC_RADIO_POS_CURRENT, IDC_RADIO_POS_PICK, IDC_RADIO_POS_PICK) + seq![
        SettingUpdate::EnableControl { control: IDC_BTN_PICK_LOC, enabled: true },
    ]
}

/// The form changes when a location is picked at `(x, y)`.
pub fn pick_location_updates(x: i32, y: i32) -> (u: Vec<SettingUpdate>)
    ensures
        u@ == pick_location_updates_spec(x, y),
{
    let mut u: Vec<SettingUpdate> = Vec::new();
    u.push(SettingUpdate::SetEditInt { control: IDC_EDIT_X, value: x });
    u.push(SettingUpdate::SetEditInt { control: IDC_EDIT_Y, value: y });
    let radios = check_radio_button(IDC_RADIO_POS_CURRENT, IDC_RADIO_POS_PICK, IDC_RADIO_POS_PICK);
    let mut k: usize = 0;
    let ghost start = u@;
    while k < radios.len()
        invariant
            k <= radios.len(),
            u@ == start + radios@.take(k as int),
        decreases radios.len() - k,
    {
        u.push(radios[k]);
        k = k + 1;
        assert(radios@.take(k as int) =~= radios@.take(k - 1).push(radios@[k - 1]));
    }
    u.push(SettingUpdate::EnableControl { control: IDC_BTN_PICK_LOC, enabled: true });
    assert(radios@.take(k as int) =~= radios@);
    assert(u@ =~= pick_location_updates_spec(x, y));
    u
}

} // verus!
