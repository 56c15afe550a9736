//! Names of virtual keys and the text that shows a hotkey, and the
//! decisions of the keyboard hooks that capture and track the hotkey.
use vstd::prelude::*;
use vstd::string::StringExecFns;
use crate::decimal::{decimal_text, digits_of};

verus! {

/// Virtual-key code of the first function key, F1.
pub const VK_F1: u16 = 0x70;
/// Virtual-key code of F2, the default hotkey.
pub const VK_F2: u16 = 0x71;
/// Virtual-key code of the last function key, F24.
pub const VK_F24: u16 = 0x87;
/// Virtual-key code of Shift.
pub const VK_SHIFT: u16 = 0x10;
/// Virtual-key code of Ctrl.
pub const VK_CONTROL: u16 = 0x11;
/// Virtual-key code of Alt.
pub const VK_MENU: u16 = 0x12;

/// Hotkey modifier flag for Alt.
pub const MOD_ALT: u32 = 1;
/// Hotkey modifier flag for Ctrl.
pub const MOD_CONTROL: u32 = 2;
/// Hotkey modifier flag for Shift.
pub const MOD_SHIFT: u32 = 4;

/// The window message of a key press.
pub const WM_KEYDOWN: u32 = 0x0100;
/// The window message of a key release.
pub const WM_KEYUP: u32 = 0x0101;
/// The window message of a key press while Alt is held (or of F10).
pub const WM_SYSKEYDOWN: u32 = 0x0104;
/// The window message of a key release while Alt is held (or of F10).
pub const WM_SYSKEYUP: u32 = 0x0105;

/// The name of a digit key, `0x30..=0x39`.
pub open spec fn digit_key_name(code: u16) -> Seq<char> {
    match code {
        48 => "0"@,
        49 => "1"@,
        50 => "2"@,
        51 => "3"@,
        52 => "4"@,
        53 => "5"@,
        54 => "6"@,
        55 => "7"@,
        56 => "8"@,
        57 => "9"@,
        _ => "?"@,
    }
}

/// The name of a letter key, `0x41..=0x5A`.
pub open spec fn letter_key_name(code: u16) -> Seq<char> {
    match code {
        65 => "A"@,
        66 => "B"@,
        67 => "C"@,
        68 => "D"@,
        69 => "E"@,
        70 => "F"@,
        71 => "G"@,
        72 => "H"@,
        73 => "I"@,
        74 => "J"@,
        75 => "K"@,
        76 => "L"@,
        77 => "M"@,
        78 => "N"@,
        79 => "O"@,
        80 => "P"@,
        81 => "Q"@,
        82 => "R"@,
        83 => "S"@,
        84 => "T"@,
        85 => "U"@,
        86 => "V"@,
        87 => "W"@,
        88 => "X"@,
        89 => "Y"@,
        90 => "Z"@,
        _ => "?"@,
    }
}

/// The name of the function key `F(index + 1)`.
pub open spec fn function_key_name(index: u16) -> Seq<char> {
    match index {
        0 => "F1"@,
        1 => "F2"@,
        2 => "F3"@,
        3 => "F4"@,
        4 => "F5"@,
        5 => "F6"@,
        6 => "F7"@,
        7 => "F8"@,
        8 => "F9"@,
        9 => "F10"@,
        10 => "F11"@,
        11 => "F12"@,
        12 => "F13"@,
        13 => "F14"@,
        14 => "F15"@,
        15 => "F16"@,
        16 => "F17"@,
        17 => "F18"@,
        18 => "F19"@,
        19 => "F20"@,
        20 => "F21"@,
        21 => "F22"@,
        22 => "F23"@,
        23 => "F24"@,
        _ => "Key ?"@,
    }
}

/// The names of the other keys that have one; `"Key ?"` for the rest.
pub open spec fn special_key_name(code: u16) -> Seq<char> {
    match code {
        32 => "Space"@,
        13 => "Enter"@,
        27 => "Esc"@,
        8 => "Backspace"@,
        9 => "Tab"@,
        16 => "Shift"@,
        17 => "Ctrl"@,
        18 => "Alt"@,
        45 => "Insert"@,
        46 => "Delete"@,
        36 => "Home"@,
        35 => "End"@,
        33 => "Page Up"@,
        34 => "Page Down"@,
        37 => "Left"@,
        39 => "Right"@,
        38 => "Up"@,
        40 => "Down"@,
        186 => ";"@,
        187 => "+"@,
        188 => ","@,
        189 => "-"@,
        190 => "."@,
        191 => "/"@,
        192 => "`"@,
        219 => "["@,
        220 => "\\"@,
        221 => "]"@,
        222 => "'"@,
        226 => "<"@,
        223 => "\u{a8}"@,
        20 => "Caps Lock"@,
        144 => "Num Lock"@,
        145 => "Scroll Lock"@,
        93 => "Menu"@,
        95 => "Sleep"@,
        91 => "Win Left"@,
        92 => "Win Right"@,
        166 => "Browser Back"@,
        167 => "Browser Forward"@,
        168 => "Browser Refresh"@,
        169 => "Browser Stop"@,
        170 => "Browser Search"@,
        171 => "Browser Favorites"@,
        172 => "Browser Home"@,
        173 => "Volume Mute"@,
        174 => "Volume Down"@,
        175 => "Volume Up"@,
        176 => "Next Track"@,
        177 => "Prev Track"@,
        178 => "Media Stop"@,
        179 => "Play/Pause"@,
        180 => "Launch Mail"@,
        181 => "Launch Media"@,
        182 => "Launch App 1"@,
        183 => "Launch App 2"@,
        96 => "Num 0"@,
        97 => "Num 1"@,
        98 => "Num 2"@,
        99 => "Num 3"@,
        100 => "Num 4"@,
        101 => "Num 5"@,
        102 => "Num 6"@,
        103 => "Num 7"@,
        104 => "Num 8"@,
        105 => "Num 9"@,
        106 => "Num *"@,
        107 => "Num +"@,
        109 => "Num -"@,
        110 => "Num ."@,
        111 => "Num /"@,
        _ => "Key ?"@,
    }
}

/// The name shown for a virtual-key code.
pub open spec fn key_name(code: u16) -> Seq<char> {
    if 0x30 <= code <= 0x39 {
        digit_key_name(code)
    } else if 0x41 <= code <= 0x5a {
        letter_key_name(code)
    } else if VK_F1 <= code <= VK_F24 {
        function_key_name((code - VK_F1) as u16)
    } else {
        special_key_name(code)
    }
}

/// The name of each key is the name of its Windows virtual-key code: a
/// digit or letter key is named by its character, `F1`..`F24` by `F` and
/// the number, and the other named keys as listed; any other code is
/// `"Key ?"`.
pub proof fn lemma_key_name_table(code: u16)
    ensures
        0x30 <= code <= 0x39 ==> key_name(code) == seq![code as char],
        0x41 <= code <= 0x5a ==> key_name(code) == seq![code as char],
        0x70 <= code <= 0x87 ==> key_name(code) == seq!['F'] + decimal_text(code - 0x6f),
        !(0x30 <= code <= 0x39 || 0x41 <= code <= 0x5a || 0x70 <= code <= 0x87 || code == 0x20 || code == 0x0D || code == 0x1B || code == 0x08 || code == 0x09 || code == 0x10 || code == 0x11 || code == 0x12 || code == 0x2D || code == 0x2E || code == 0x24 || code == 0x23 || code == 0x21 || code == 0x22 || code == 0x25 || code == 0x27 || code == 0x26 || code == 0x28 || code == 0xBA || code == 0xBB || code == 0xBC || code == 0xBD || code == 0xBE || code == 0xBF || code == 0xC0 || code == 0xDB || code == 0xDC || code == 0xDD || code == 0xDE || code == 0xE2 || code == 0xDF || code == 0x14 || code == 0x90 || code == 0x91 || code == 0x5D || code == 0x5F || code == 0x5B || code == 0x5C || code == 0xA6 || code == 0xA7 || code == 0xA8 || code == 0xA9 || code == 0xAA || code == 0xAB || code == 0xAC || code == 0xAD || code == 0xAE || code == 0xAF || code == 0xB0 || code == 0xB1 || code == 0xB2 || code == 0xB3 || code == 0xB4 || code == 0xB5 || code == 0xB6 || code == 0xB7 || code == 0x60 || code == 0x61 || code == 0x62 || code == 0x63 || code == 0x64 || code == 0x65 || code == 0x66 || code == 0x67 || code == 0x68 || code == 0x69 || code == 0x6A || code == 0x6B || code == 0x6D || code == 0x6E || code == 0x6F)
            ==> key_name(code) == "Key ?"@,
        key_name(0x20) == "Space"@,
        key_name(0x0D) == "Enter"@,
        key_name(0x1B) == "Esc"@,
        key_name(0x08) == "Backspace"@,
        key_name(0x09) == "Tab"@,
        key_name(0x10) == "Shift"@,
        key_name(0x11) == "Ctrl"@,
        key_name(0x12) == "Alt"@,
        key_name(0x2D) == "Insert"@,
        key_name(0x2E) == "Delete"@,
        key_name(0x24) == "Home"@,
        key_name(0x23) == "End"@,
        key_name(0x21) == "Page Up"@,
        key_name(0x22) == "Page Down"@,
        key_name(0x25) == "Left"@,
        key_name(0x27) == "Right"@,
        key_name(0x26) == "Up"@,
        key_name(0x28) == "Down"@,
        key_name(0xBA) == ";"@,
        key_name(0xBB) == "+"@,
        key_name(0xBC) == ","@,
        key_name(0xBD) == "-"@,
        key_name(0xBE) == "."@,
        key_name(0xBF) == "/"@,
        key_name(0xC0) == "`"@,
        key_name(0xDB) == "["@,
        key_name(0xDC) == "\\"@,
        key_name(0xDD) == "]"@,
        key_name(0xDE) == "'"@,
        key_name(0xE2) == "<"@,
        key_name(0xDF) == "\u{a8}"@,
        key_name(0x14) == "Caps Lock"@,
        key_name(0x90) == "Num Lock"@,
        key_name(0x91) == "Scroll Lock"@,
        key_name(0x5D) == "Menu"@,
        key_name(0x5F) == "Sleep"@,
        key_name(0x5B) == "Win Left"@,
        key_name(0x5C) == "Win Right"@,
        key_name(0xA6) == "Browser Back"@,
        key_name(0xA7) == "Browser Forward"@,
        key_name(0xA8) == "Browser Refresh"@,
        key_name(0xA9) == "Browser Stop"@,
        key_name(0xAA) == "Browser Search"@,
        key_name(0xAB) == "Browser Favorites"@,
        key_name(0xAC) == "Browser Home"@,
        key_name(0xAD) == "Volume Mute"@,
        key_name(0xAE) == "Volume Down"@,
        key_name(0xAF) == "Volume Up"@,
        key_name(0xB0) == "Next Track"@,
        key_name(0xB1) == "Prev Track"@,
        key_name(0xB2) == "Media Stop"@,
        key_name(0xB3) == "Play/Pause"@,
        key_name(0xB4) == "Launch Mail"@,
        key_name(0xB5) == "Launch Media"@,
        key_name(0xB6) == "Launch App 1"@,
        key_name(0xB7) == "Launch App 2"@,
        key_name(0x60) == "Num 0"@,
        key_name(0x61) == "Num 1"@,
        key_name(0x62) == "Num 2"@,
        key_name(0x63) == "Num 3"@,
        key_name(0x64) == "Num 4"@,
        key_name(0x65) == "Num 5"@,
        key_name(0x66) == "Num 6"@,
        key_name(0x67) == "Num 7"@,
        key_name(0x68) == "Num 8"@,
        key_name(0x69) == "Num 9"@,
        key_name(0x6A) == "Num *"@,
        key_name(0x6B) == "Num +"@,
        key_name(0x6D) == "Num -"@,
        key_name(0x6E) == "Num ."@,
        key_name(0x6F) == "Num /"@,
{
    reveal_strlit("0");
    reveal_strlit("1");
    reveal_strlit("2");
    reveal_strlit("3");
    reveal_strlit("4");
    reveal_strlit("5");
    reveal_strlit("6");
    reveal_strlit("7");
    reveal_strlit("8");
    reveal_strlit("9");
    reveal_strlit("A");
    reveal_strlit("B");
    reveal_strlit("C");
    reveal_strlit("D");
    reveal_strlit("E");
    reveal_strlit("F");
    reveal_strlit("G");
    reveal_strlit("H");
    reveal_strlit("I");
    reveal_strlit("J");
    reveal_strlit("K");
    reveal_strlit("L");
    reveal_strlit("M");
    reveal_strlit("N");
    reveal_strlit("O");
    reveal_strlit("P");
    reveal_strlit("Q");
    reveal_strlit("R");
    reveal_strlit("S");
    reveal_strlit("T");
    reveal_strlit("U");
    reveal_strlit("V");
    reveal_strlit("W");
    reveal_strlit("X");
    reveal_strlit("Y");
    reveal_strlit("Z");
    reveal_strlit("F1");
    reveal_strlit("F2");
    reveal_strlit("F3");
    reveal_strlit("F4");
    reveal_strlit("F5");
    reveal_strlit("F6");
    reveal_strlit("F7");
    reveal_strlit("F8");
    reveal_strlit("F9");
    reveal_strlit("F10");
    reveal_strlit("F11");
    reveal_strlit("F12");
    reveal_strlit("F13");
    reveal_strlit("F14");
    reveal_strlit("F15");
    reveal_strlit("F16");
    reveal_strlit("F17");
    reveal_strlit("F18");
    reveal_strlit("F19");
    reveal_strlit("F20");
    reveal_strlit("F21");
    reveal_strlit("F22");
    reveal_strlit("F23");
    reveal_strlit("F24");
    reveal_with_fuel(digits_of, 3);
}

/// The name shown for the virtual-key code `code`.
pub fn get_key_name(code: u16) -> (name: &'static str)
    ensures
        name@ == key_name(code),
{
    if code >= 0x30 && code <= 0x39 {
        return match code {
            48 => "0",
            49 => "1",
            50 => "2",
            51 => "3",
            52 => "4",
            53 => "5",
            54 => "6",
            55 => "7",
            56 => "8",
            57 => "9",
            _ => "?",
        };
    }
    if code >= 0x41 && code <= 0x5a {
        return match code {
            65 => "A",
            66 => "B",
            67 => "C",
            68 => "D",
            69 => "E",
            70 => "F",
            71 => "G",
            72 => "H",
            73 => "I",
            74 => "J",
            75 => "K",
            76 => "L",
            77 => "M",
            78 => "N",
            79 => "O",
            80 => "P",
            81 => "Q",
            82 => "R",
            83 => "S",
            84 => "T",
            85 => "U",
            86 => "V",
            87 => "W",
            88 => "X",
            89 => "Y",
            90 => "Z",
            _ => "?",
        };
    }
    if code >= VK_F1 && code <= VK_F24 {
        return match code - VK_F1 {
            0 => "F1",
            1 => "F2",
            2 => "F3",
            3 => "F4",
            4 => "F5",
            5 => "F6",
            6 => "F7",
            7 => "F8",
            8 => "F9",
            9 => "F10",
            10 => "F11",
            11 => "F12",
            12 => "F13",
            13 => "F14",
            14 => "F15",
            15 => "F16",
            16 => "F17",
            17 => "F18",
            18 => "F19",
            19 => "F20",
            20 => "F21",
            21 => "F22",
            22 => "F23",
            23 => "F24",
            _ => "Key ?",
        };
    }
    match code {
        32 => "Space",
        13 => "Enter",
        27 => "Esc",
        8 => "Backspace",
        9 => "Tab",
        16 => "Shift",
        17 => "Ctrl",
        18 => "Alt",
        45 => "Insert",
        46 => "Delete",
        36 => "Home",
        35 => "End",
        33 => "Page Up",
        34 => "Page Down",
        37 => "Left",
        39 => "Right",
        38 => "Up",
        40 => "Down",
        186 => ";",
        187 => "+",
        188 => ",",
        189 => "-",
        190 => ".",
        191 => "/",
        192 => "`",
        219 => "[",
        220 => "\\",
        221 => "]",
        222 => "'",
        226 => "<",
        223 => "\u{a8}",
        20 => "Caps Lock",
        144 => "Num Lock",
        145 => "Scroll Lock",
        93 => "Menu",
        95 => "Sleep",
        91 => "Win Left",
        92 => "Win Right",
        166 => "Browser Back",
        167 => "Browser Forward",
        168 => "Browser Refresh",
        169 => "Browser Stop",
        170 => "Browser Search",
        171 => "Browser Favorites",
        172 => "Browser Home",
        173 => "Volume Mute",
        174 => "Volume Down",
        175 => "Volume Up",
        176 => "Next Track",
        177 => "Prev Track",
        178 => "Media Stop",
        179 => "Play/Pause",
        180 => "Launch Mail",
        181 => "Launch Media",
        182 => "Launch App 1",
        183 => "Launch App 2",
        96 => "Num 0",
        97 => "Num 1",
        98 => "Num 2",
        99 => "Num 3",
        100 => "Num 4",
        101 => "Num 5",
        102 => "Num 6",
        103 => "Num 7",
        104 => "Num 8",
        105 => "Num 9",
        106 => "Num *",
        107 => "Num +",
        109 => "Num -",
        110 => "Num .",
        111 => "Num /",
        _ => "Key ?",
    }
}

/// A hotkey: a virtual key with modifier flags.
#[derive(Clone, Copy, PartialEq, Eq, Structural, Debug)]
pub struct HotkeyCombo {
    pub vk: u16,
    pub modifiers: u32,
}

impl HotkeyCombo {
    /// The hotkey `vk` with the modifier flags `modifiers`.
    pub fn new(vk: u16, modifiers: u32) -> (c: HotkeyCombo)
        ensures
            c.vk == vk,
            c.modifiers == modifiers,
    {
        HotkeyCombo { vk, modifiers }
    }

    /// The default hotkey: F2 with no modifier.
    pub fn none() -> (c: HotkeyCombo)
        ensures
            c.vk == VK_F2,
            c.modifiers == 0,
    {
        HotkeyCombo { vk: VK_F2, modifiers: 0 }
    }
}

/// Whether the modifier flags hold Shift, Ctrl and Alt.
pub open spec fn has_shift(modifiers: u32) -> bool {
    modifiers & MOD_SHIFT != 0
}

pub open spec fn has_ctrl(modifiers: u32) -> bool {
    modifiers & MOD_CONTROL != 0
}

pub open spec fn has_alt(modifiers: u32) -> bool {
    modifiers & MOD_ALT != 0
}

/// The text that shows a hotkey: its modifiers, each followed by `+`, in the
/// order Shift, Ctrl, Alt, then the key's name.
pub open spec fn hotkey_text(combo: HotkeyCombo) -> Seq<char> {
    (if has_shift(combo.modifiers) { "Shift+"@ } else { Seq::empty() }) + (if has_ctrl(
        combo.modifiers,
    ) {
        "Ctrl+"@
    } else {
        Seq::empty()
    }) + (if has_alt(combo.modifiers) { "Alt+"@ } else { Seq::empty() }) + key_name(combo.vk)
}

/// The text that shows the hotkey `combo`, such as `Shift+Ctrl+F2`.
pub fn get_hotkey_display_text(combo: HotkeyCombo) -> (text: String)
    ensures
        text@ == hotkey_text(combo),
{
    let mut text = String::new();
    if combo.modifiers & MOD_SHIFT != 0 {
        text.append("Shift+");
    }
    if combo.modifiers & MOD_CONTROL != 0 {
        text.append("Ctrl+");
    }
    if combo.modifiers & MOD_ALT != 0 {
        text.append("Alt+");
    }
    text.append(get_key_name(combo.vk));
    proof {
        assert(text@ =~= hotkey_text(combo));
    }
    text
}

/// The modifier flags that the ticked modifiers give.
pub open spec fn modifier_flags(shift: bool, ctrl: bool, alt: bool) -> u32 {
    (if shift { MOD_SHIFT } else { 0 }) | (if ctrl { MOD_CONTROL } else { 0 }) | (if alt {
        MOD_ALT
    } else {
        0
    })
}

/// The modifier flags for Shift, Ctrl and Alt as ticked (or held).
pub fn modifiers_from(shift: bool, ctrl: bool, alt: bool) -> (m: u32)
    ensures
        m == modifier_flags(shift, ctrl, alt),
{
    let s: u32 = if shift {
        MOD_SHIFT
    } else {
        0
    };
    let c: u32 = if ctrl {
        MOD_CONTROL
    } else {
        0
    };
    let a: u32 = if alt {
        MOD_ALT
    } else {
        0
    };
    let m = s | c | a;
    m
}

/// Whether the modifier flags hold Shift, Ctrl and Alt, in that order (the
/// state of the dialog's three check boxes).
pub fn modifier_checks(modifiers: u32) -> (checks: (bool, bool, bool))
    ensures
        checks == (has_shift(modifiers), has_ctrl(modifiers), has_alt(modifiers)),
{
    (modifiers & MOD_SHIFT != 0, modifiers & MOD_CONTROL != 0, modifiers & MOD_ALT != 0)
}

/// The modifier check boxes read back what they were set from: the flags
/// built from three ticks hold exactly those ticks.
pub proof fn lemma_modifier_flags_round_trip(shift: bool, ctrl: bool, alt: bool)
    ensures
        has_shift(modifier_flags(shift, ctrl, alt)) == shift,
        has_ctrl(modifier_flags(shift, ctrl, alt)) == ctrl,
        has_alt(modifier_flags(shift, ctrl, alt)) == alt,
{
    let s: u32 = if shift { 4 } else { 0 };
    let c: u32 = if ctrl { 2 } else { 0 };
    let a: u32 = if alt { 1 } else { 0 };
    assert(((s | c | a) & 4u32 != 0) == (s == 4u32) && ((s | c | a) & 2u32 != 0) == (c == 2u32)
        && ((s | c | a) & 1u32 != 0) == (a == 1u32)) by (bit_vector)
        requires
            s == 0u32 || s == 4u32,
            c == 0u32 || c == 2u32,
            a == 0u32 || a == 1u32,
    ;
}

/// Whether a key state as `GetKeyState` reports it says the key is down
/// (its high bit is set).
pub fn key_is_down(state: i16) -> (down: bool)
    ensures
        down == (state < 0),
{
    let high = (state & (0x8000u16 as i16)) != 0;
    proof {
        assert(((state & (0x8000u16 as i16)) != 0) == (state < 0)) by (bit_vector);
    }
    high
}

/// A key that only modifies others (Shift, Ctrl, Alt).
pub open spec fn is_modifier_key(vk: u16) -> bool {
    vk == VK_SHIFT || vk == VK_CONTROL || vk == VK_MENU
}

/// A keyboard message that presses a key (with or without Alt held).
pub open spec fn is_press(msg: u32) -> bool {
    msg == WM_KEYDOWN || msg == WM_SYSKEYDOWN
}

/// A keyboard message that releases a key (with or without Alt held).
pub open spec fn is_release(msg: u32) -> bool {
    msg == WM_KEYUP || msg == WM_SYSKEYUP
}

/// Whether a keyboard message presses a key.
pub fn is_key_press(msg: u32) -> (b: bool)
    ensures
        b == is_press(msg),
{
    msg == WM_KEYDOWN || msg == WM_SYSKEYDOWN
}

/// The hotkey that a key press captures while the dialog listens: the key
/// with the modifiers held; none for Shift, Ctrl or Alt themselves.
pub open spec fn captured(vk: u16, shift: bool, ctrl: bool, alt: bool) -> Option<HotkeyCombo> {
    if is_modifier_key(vk) {
        None
    } else {
        Some(HotkeyCombo { vk, modifiers: modifier_flags(shift, ctrl, alt) })
    }
}

/// The hotkey captured from a key press with the given modifiers held.
pub fn capture_hotkey(vk: u16, shift: bool, ctrl: bool, alt: bool) -> (c: Option<HotkeyCombo>)
    ensures
        c == captured(vk, shift, ctrl, alt),
{
    let modifiers = modifiers_from(shift, ctrl, alt);
    if vk != VK_SHIFT && vk != VK_CONTROL && vk != VK_MENU {
        Some(HotkeyCombo::new(vk, modifiers))
    } else {
        None
    }
}

/// Every modifier that the hotkey asks for is held (others may be held too).
pub open spec fn modifiers_held(modifiers: u32, shift: bool, ctrl: bool, alt: bool) -> bool {
    &&& has_shift(modifiers) ==> shift
    &&& has_ctrl(modifiers) ==> ctrl
    &&& has_alt(modifiers) ==> alt
}

/// What the hotkey tracker makes of a keyboard event while a run goes on:
/// a press of the hotkey's key with its modifiers held marks the hotkey
/// held; a release of the hotkey's key clears it, whatever modifiers are
/// still down; any other event leaves it.
pub open spec fn held_after(
    n_code: i32,
    running: bool,
    msg: u32,
    vk: u16,
    hotkey: HotkeyCombo,
    shift: bool,
    ctrl: bool,
    alt: bool,
) -> Option<bool> {
    if n_code >= 0 && running && vk == hotkey.vk {
        if is_press(msg) && modifiers_held(hotkey.modifiers, shift, ctrl, alt) {
            Some(true)
        } else if is_release(msg) {
            Some(false)
        } else {
            None
        }
    } else {
        None
    }
}

/// The new held state of the hotkey after a keyboard event, if it changes.
pub fn hotkey_held_after(
    n_code: i32,
    running: bool,
    msg: u32,
    vk: u16,
    hotkey: HotkeyCombo,
    shift: bool,
    ctrl: bool,
    alt: bool,
) -> (held: Option<bool>)
    ensures
        held == held_after(n_code, running, msg, vk, hotkey, shift, ctrl, alt),
{
    if n_code >= 0 && running && vk == hotkey.vk {
        if msg == WM_KEYUP || msg == WM_SYSKEYUP {
            return Some(false);
        }
        if !is_key_press(msg) {
            return None;
        }
        let mut modifiers_match = true;
        if hotkey.modifiers & MOD_SHIFT != 0 && !shift {
            modifiers_match = false;
        }
        if hotkey.modifiers & MOD_CONTROL != 0 && !ctrl {
            modifiers_match = false;
        }
        if hotkey.modifiers & MOD_ALT != 0 && !alt {
            modifiers_match = false;
        }
        if modifiers_match {
            return Some(true);
        }
    }
    None
}

/// A hotkey captured from a key press is tracked: when that key goes down
/// again with the same modifiers held, the tracker marks the hotkey held,
/// and when it is let go, whatever modifiers are still down, the tracker
/// clears the held state.
pub proof fn lemma_captured_hotkey_is_tracked(
    vk: u16,
    shift: bool,
    ctrl: bool,
    alt: bool,
    msg: u32,
    shift_now: bool,
    ctrl_now: bool,
    alt_now: bool,
)
    requires
        !is_modifier_key(vk),
    ensures
        is_press(msg) ==> held_after(0, true, msg, vk, captured(vk, shift, ctrl, alt)->0, shift, ctrl, alt)
            == Some(true),
        is_release(msg) ==> held_after(0, true, msg, vk, captured(vk, shift, ctrl, alt)->0, shift_now, ctrl_now, alt_now)
            == Some(false),
{
    lemma_modifier_flags_round_trip(shift, ctrl, alt);
}

} // verus!
