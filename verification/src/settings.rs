//! The settings file: `Key=value` lines written from the form's state and
//! read back into updates of the form.
use vstd::prelude::*;
use vstd::string::StringExecFns;
use crate::controls::{
    IDC_BTN_PICK_LOC, IDC_CHECK_RANDOM, IDC_COMBO_CLICK_TYPE, IDC_COMBO_MOUSE_BTN, IDC_EDIT_HOURS,
    IDC_EDIT_MILLIS, IDC_EDIT_MINS, IDC_EDIT_RANDOM, IDC_EDIT_REPEAT_COUNT, IDC_EDIT_REPEAT_TIME,
    IDC_EDIT_SECS, IDC_EDIT_X, IDC_EDIT_Y, IDC_RADIO_POS_CURRENT, IDC_RADIO_POS_PICK,
    IDC_RADIO_REPEAT_HOLD, IDC_RADIO_REPEAT_TIME, IDC_RADIO_REPEAT_TIMES, IDC_RADIO_REPEAT_UNTIL,
};
use crate::decimal::{
    all_digits, digit_char, digit_value, digits_of, chars_of, lemma_digit_char_value,
    lemma_digits_of_reads_back, decimal_text, edit_int, lemma_edit_int_of_decimal_text, format_i64, is_digit, lemma_decimal_text_shape, lemma_parse_decimal_text,
    parse_i32_chars, parse_i32_spec,
};

verus! {

/// The values that the settings file keeps.
pub struct Settings {
    pub interval_h: i32,
    pub interval_m: i32,
    pub interval_s: i32,
    pub interval_ms: i32,
    pub random_check: bool,
    pub random_val: i32,
    /// The selection of the mouse-button combo box.
    pub mouse_btn: isize,
    /// The selection of the click-type combo box.
    pub click_type: isize,
    pub repeat_check: bool,
    pub repeat_count: i32,
    pub repeat_time_check: bool,
    /// The repeat time in seconds, as the text that the number prints as.
    pub repeat_time: String,
    pub repeat_hold_check: bool,
    pub pos_fixed: bool,
    pub pos_x: i32,
    pub pos_y: i32,
    pub hotkey_vk: u16,
    pub hotkey_mods: u32,
    pub suppress_admin_popup: bool,
    pub safety_disable_enabled: bool,
}

/// `1` for a ticked box, `0` otherwise.
pub open spec fn flag_value(b: bool) -> int {
    if b {
        1
    } else {
        0
    }
}

/// Line `i` of the settings file for `s`, `0 <= i < 20`: the key of a
/// value, `=`, and the value in decimal (`1` or `0` for a tick).
pub open spec fn settings_line(s: Settings, i: int) -> Seq<char> {
    if i == 0 {
        "IntervalH="@ + decimal_text(s.interval_h as int)
    } else if i == 1 {
        "IntervalM="@ + decimal_text(s.interval_m as int)
    } else if i == 2 {
        "IntervalS="@ + decimal_text(s.interval_s as int)
    } else if i == 3 {
        "IntervalMs="@ + decimal_text(s.interval_ms as int)
    } else if i == 4 {
        "RandomCheck="@ + decimal_text(flag_value(s.random_check))
    } else if i == 5 {
        "RandomVal="@ + decimal_text(s.random_val as int)
    } else if i == 6 {
        "MouseBtn="@ + decimal_text(s.mouse_btn as int)
    } else if i == 7 {
        "ClickType="@ + decimal_text(s.click_type as int)
    } else if i == 8 {
        "RepeatCheck="@ + decimal_text(flag_value(s.repeat_check))
    } else if i == 9 {
        "RepeatCount="@ + decimal_text(s.repeat_count as int)
    } else if i == 10 {
        "RepeatTimeCheck="@ + decimal_text(flag_value(s.repeat_time_check))
    } else if i == 11 {
        "RepeatTime="@ + s.repeat_time@
    } else if i == 12 {
        "RepeatHoldCheck="@ + decimal_text(flag_value(s.repeat_hold_check))
    } else if i == 13 {
        "PosFixed="@ + decimal_text(flag_value(s.pos_fixed))
    } else if i == 14 {
        "PosX="@ + decimal_text(s.pos_x as int)
    } else if i == 15 {
        "PosY="@ + decimal_text(s.pos_y as int)
    } else if i == 16 {
        "HotkeyVk="@ + decimal_text(s.hotkey_vk as int)
    } else if i == 17 {
        "HotkeyMods="@ + decimal_text(s.hotkey_mods as int)
    } else if i == 18 {
        "SuppressAdminPopup="@ + decimal_text(flag_value(s.suppress_admin_popup))
    } else {
        "SafetyDisableEnabled="@ + decimal_text(flag_value(s.safety_disable_enabled))
    }
}

/// The lines of the settings file for `s`, in order.
pub open spec fn settings_lines(s: Settings) -> Seq<Seq<char>> {
    Seq::new(20, |i: int| settings_line(s, i))
}

/// The lines `ls`, each followed by a newline.
#[verifier::opaque]
pub open spec fn joined_lines(ls: Seq<Seq<char>>) -> Seq<char>
    decreases ls.len(),
{
    if ls.len() == 0 {
        seq![]
    } else {
        joined_lines(ls.drop_last()) + ls.last() + seq!['\n']
    }
}

/// The text of the settings file for `s`.
pub open spec fn settings_text(s: Settings) -> Seq<char> {
    joined_lines(settings_lines(s))
}

proof fn lemma_joined_next(ls: Seq<Seq<char>>, k: int)
    requires
        0 <= k < ls.len(),
    ensures
        joined_lines(ls.take(k + 1)) == joined_lines(ls.take(k)) + ls[k] + seq!['\n'],
{
    reveal(joined_lines);
    assert(ls.take(k + 1).drop_last() =~= ls.take(k));
}

proof fn lemma_joined_empty(ls: Seq<Seq<char>>)
    ensures
        joined_lines(ls.take(0)) == Seq::<char>::empty(),
{
    reveal(joined_lines);
    assert(ls.take(0) =~= Seq::<Seq<char>>::empty());
}

/// Appends `key`, the decimal text of `value` and a newline.
fn push_number_line(out: &mut String, key: &str, value: i64)
    ensures
        final(out)@ == old(out)@ + key@ + decimal_text(value as int) + "\n"@,
{
    out.append(key);
    let text = format_i64(value);
    out.append(text.as_str());
    out.append("\n");
}

/// Appends `key`, `1` or `0` and a newline.
fn push_flag_line(out: &mut String, key: &str, value: bool)
    ensures
        final(out)@ == old(out)@ + key@ + decimal_text(flag_value(value)) + "\n"@,
{
    push_number_line(out, key, if value {
        1
    } else {
        0
    });
}

/// Appends line `i` of the settings file for `s` and its newline.
fn push_setting_line(out: &mut String, s: &Settings, i: usize)
    requires
        i < 20,
    ensures
        final(out)@ == old(out)@ + settings_line(*s, i as int) + seq!['\n'],
{
    proof {
        reveal_strlit("\n");
    }
    if i == 0 {
        push_number_line(out, "IntervalH=", s.interval_h as i64);
    } else if i == 1 {
        push_number_line(out, "IntervalM=", s.interval_m as i64);
    } else if i == 2 {
        push_number_line(out, "IntervalS=", s.interval_s as i64);
    } else if i == 3 {
        push_number_line(out, "IntervalMs=", s.interval_ms as i64);
    } else if i == 4 {
        push_flag_line(out, "RandomCheck=", s.random_check);
    } else if i == 5 {
        push_number_line(out, "RandomVal=", s.random_val as i64);
    } else if i == 6 {
        push_number_line(out, "MouseBtn=", s.mouse_btn as i64);
    } else if i == 7 {
        push_number_line(out, "ClickType=", s.click_type as i64);
    } else if i == 8 {
        push_flag_line(out, "RepeatCheck=", s.repeat_check);
    } else if i == 9 {
        push_number_line(out, "RepeatCount=", s.repeat_count as i64);
    } else if i == 10 {
        push_flag_line(out, "RepeatTimeCheck=", s.repeat_time_check);
    } else if i == 11 {
        out.append("RepeatTime=");
        out.append(s.repeat_time.as_str());
        out.append("\n");
    } else if i == 12 {
        push_flag_line(out, "RepeatHoldCheck=", s.repeat_hold_check);
    } else if i == 13 {
        push_flag_line(out, "PosFixed=", s.pos_fixed);
    } else if i == 14 {
        push_number_line(out, "PosX=", s.pos_x as i64);
    } else if i == 15 {
        push_number_line(out, "PosY=", s.pos_y as i64);
    } else if i == 16 {
        push_number_line(out, "HotkeyVk=", s.hotkey_vk as i64);
    } else if i == 17 {
        push_number_line(out, "HotkeyMods=", s.hotkey_mods as i64);
    } else if i == 18 {
        push_flag_line(out, "SuppressAdminPopup=", s.suppress_admin_popup);
    } else {
        push_flag_line(out, "SafetyDisableEnabled=", s.safety_disable_enabled);
    }
}

/// The text of the settings file for `s`.
pub fn serialize_settings(s: &Settings) -> (text: String)
    ensures
        text@ == settings_text(*s),
{
    let ghost ls = settings_lines(*s);
    let mut out = String::new();
    proof {
        lemma_joined_empty(ls);
    }
    let mut i: usize = 0;
    while i < 20
        invariant
            i <= 20,
            ls == settings_lines(*s),
            out@ == joined_lines(ls.take(i as int)),
        decreases 20 - i,
    {
        push_setting_line(&mut out, s, i);
        proof {
            lemma_joined_next(ls, i as int);
        }
        i = i + 1;
    }
    assert(ls.take(20) =~= ls);
    out
}

/// A change to the form that a line of the settings file asks for.
#[derive(Clone, Copy, PartialEq, Eq, Structural, Debug)]
pub enum SettingUpdate {
    /// Write `value` into an edit box as an integer.
    SetEditInt { control: i32, value: i32 },
    /// Write `hundredths / 100` into an edit box with two decimals.
    SetEditFixed2 { control: i32, hundredths: i64 },
    /// Tick or clear a check box or radio button.
    SetCheck { control: i32, checked: bool },
    /// Select an entry of a combo box.
    SetComboSelection { control: i32, index: usize },
    /// Enable or disable a control.
    EnableControl { control: i32, enabled: bool },
    SetHotkeyVk { vk: u16 },
    SetHotkeyModifiers { modifiers: u32 },
    SetSuppressAdminPopup { suppress: bool },
    SetSafetyDisable { enabled: bool },
}

/// The radio buttons `first..=last` set so that only `check` is ticked
/// (none at all when `first > last`).
pub open spec fn radio_updates(first: i32, last: i32, check: i32) -> Seq<SettingUpdate> {
    Seq::new(
        if last >= first {
            (last - first + 1) as nat
        } else {
            0
        },
        |k: int| SettingUpdate::SetCheck { control: (first + k) as i32, checked: first + k == check },
    )
}

/// The check-box updates that tick `check` among `first..=last` and clear
/// the others.
pub fn check_radio_button(first: i32, last: i32, check: i32) -> (u: Vec<SettingUpdate>)
    ensures
        u@ == radio_updates(first, last, check),
{
    let mut u: Vec<SettingUpdate> = Vec::new();
    if first > last {
        assert(u@ =~= radio_updates(first, last, check));
        return u;
    }
    let mut id: i64 = first as i64;
    while id <= last as i64
        invariant
            first <= id <= last + 1,
            u@ =~= radio_updates(first, last, check).take(id - first),
        decreases last + 1 - id,
    {
        let c = id as i32;
        u.push(SettingUpdate::SetCheck { control: c, checked: c == check });
        id = id + 1;
    }
    assert(u@ =~= radio_updates(first, last, check));
    u
}

/// The repeat-mode radio buttons ("Repeat", "Repeat for", "Repeat while
/// held", "Repeat until stopped") set so that only `check` is ticked. The
/// four buttons form one group but do not have consecutive identifiers.
pub open spec fn repeat_mode_updates(check: i32) -> Seq<SettingUpdate> {
    seq![
        SettingUpdate::SetCheck { control: IDC_RADIO_REPEAT_TIMES, checked: check == IDC_RADIO_REPEAT_TIMES },
        SettingUpdate::SetCheck { control: IDC_RADIO_REPEAT_TIME, checked: check == IDC_RADIO_REPEAT_TIME },
        SettingUpdate::SetCheck { control: IDC_RADIO_REPEAT_HOLD, checked: check == IDC_RADIO_REPEAT_HOLD },
        SettingUpdate::SetCheck { control: IDC_RADIO_REPEAT_UNTIL, checked: check == IDC_RADIO_REPEAT_UNTIL },
    ]
}

/// The check-box updates that tick `check` among the repeat-mode radio
/// buttons and clear the other three.
pub fn select_repeat_mode(check: i32) -> (u: Vec<SettingUpdate>)
    ensures
        u@ == repeat_mode_updates(check),
{
    let u = vec![
        SettingUpdate::SetCheck { control: IDC_RADIO_REPEAT_TIMES, checked: check == IDC_RADIO_REPEAT_TIMES },
        SettingUpdate::SetCheck { control: IDC_RADIO_REPEAT_TIME, checked: check == IDC_RADIO_REPEAT_TIME },
        SettingUpdate::SetCheck { control: IDC_RADIO_REPEAT_HOLD, checked: check == IDC_RADIO_REPEAT_HOLD },
        SettingUpdate::SetCheck { control: IDC_RADIO_REPEAT_UNTIL, checked: check == IDC_RADIO_REPEAT_UNTIL },
    ];
    assert(u@ =~= repeat_mode_updates(check));
    u
}

/// The updates that the key `key` with the value `val` asks for; none for a
/// key that is not known.
pub open spec fn key_updates(key: Seq<char>, val: i32, hundredths: i64) -> Seq<SettingUpdate> {
    if key == "IntervalH"@ {
        seq![SettingUpdate::SetEditInt { control: IDC_EDIT_HOURS, value: val }]
    } else if key == "IntervalM"@ {
        seq![SettingUpdate::SetEditInt { control: IDC_EDIT_MINS, value: val }]
    } else if key == "IntervalS"@ {
        seq![SettingUpdate::SetEditInt { control: IDC_EDIT_SECS, value: val }]
    } else if key == "IntervalMs"@ {
        seq![SettingUpdate::SetEditInt { control: IDC_EDIT_MILLIS, value: val }]
    } else if key == "RandomCheck"@ {
        seq![SettingUpdate::SetCheck { control: IDC_CHECK_RANDOM, checked: val != 0 }]
    } else if key == "RandomVal"@ {
        seq![SettingUpdate::SetEditInt { control: IDC_EDIT_RANDOM, value: val }]
    } else if key == "MouseBtn"@ {
        seq![SettingUpdate::SetComboSelection { control: IDC_COMBO_MOUSE_BTN, index: val as usize }]
    } else if key == "ClickType"@ {
        seq![SettingUpdate::SetComboSelection { control: IDC_COMBO_CLICK_TYPE, index: val as usize }]
    } else if key == "RepeatCheck"@ {
        repeat_mode_updates(if val != 0 { IDC_RADIO_REPEAT_TIMES } else { IDC_RADIO_REPEAT_UNTIL })
    } else if key == "RepeatCount"@ {
        seq![SettingUpdate::SetEditInt { control: IDC_EDIT_REPEAT_COUNT, value: val }]
    } else if key == "RepeatTimeCheck"@ {
        if val != 0 {
            repeat_mode_updates(IDC_RADIO_REPEAT_TIME)
        } else {
            seq![]
        }
    } else if key == "RepeatTime"@ {
        seq![SettingUpdate::SetEditFixed2 { control: IDC_EDIT_REPEAT_TIME, hundredths }]
    } else if key == "RepeatHoldCheck"@ {
        if val != 0 {
            repeat_mode_updates(IDC_RADIO_REPEAT_HOLD)
        } else {
            seq![]
        }
    } else if key == "PosFixed"@ {
        radio_updates(
            IDC_RADIO_POS_CURRENT,
            IDC_RADIO_POS_PICK,
            if val != 0 { IDC_RADIO_POS_PICK } else { IDC_RADIO_POS_CURRENT },
        ).push(SettingUpdate::EnableControl { control: IDC_BTN_PICK_LOC, enabled: val != 0 })
    } else if key == "PosX"@ {
        seq![SettingUpdate::SetEditInt { control: IDC_EDIT_X, value: val }]
    } else if key == "PosY"@ {
        seq![SettingUpdate::SetEditInt { control: IDC_EDIT_Y, value: val }]
    } else if key == "HotkeyVk"@ {
        seq![SettingUpdate::SetHotkeyVk { vk: val as u16 }]
    } else if key == "HotkeyMods"@ {
        seq![SettingUpdate::SetHotkeyModifiers { modifiers: val as u32 }]
    } else if key == "SuppressAdminPopup"@ {
        seq![SettingUpdate::SetSuppressAdminPopup { suppress: val != 0 }]
    } else if key == "SafetyDisableEnabled"@ {
        seq![SettingUpdate::SetSafetyDisable { enabled: val != 0 }]
    } else {
        seq![]
    }
}

/// The index of the first `c` in `s`, or -1.
pub open spec fn index_of_char(s: Seq<char>, c: char) -> int
    decreases s.len(),
{
    if s.len() == 0 {
        -1
    } else if s[0] == c {
        0
    } else {
        let r = index_of_char(s.drop_first(), c);
        if r < 0 {
            -1
        } else {
            r + 1
        }
    }
}

/// The `i32` that `text` spells, or 0 where it spells none.
pub open spec fn value_or_zero(text: Seq<char>) -> i32 {
    match parse_i32_spec(text) {
        Some(v) => v,
        None => 0,
    }
}

/// The updates of one line: the text before the first `=` is the key, the
/// text after it the value, read as an `i32` (0 where that fails); a line
/// without `=` asks for nothing.
pub open spec fn line_updates(line: Seq<char>) -> Seq<SettingUpdate> {
    let i = index_of_char(line, '=');
    if i < 0 {
        seq![]
    } else {
        key_updates(
            line.take(i),
            value_or_zero(line.skip(i + 1)),
            hundredths_or_zero(line.skip(i + 1)) as i64,
        )
    }
}

/// A line without the carriage return that ends it, if any.
pub open spec fn strip_cr(line: Seq<char>) -> Seq<char> {
    if line.len() > 0 && line.last() == '\r' {
        line.drop_last()
    } else {
        line
    }
}

/// The lines of the rest `s` of a text whose current line so far is `cur`,
/// as `str::lines` splits them: at each newline, less a carriage return
/// just before it; a last line without newline is kept whole.
pub open spec fn lines_from(s: Seq<char>, cur: Seq<char>) -> Seq<Seq<char>>
    decreases s.len(),
{
    if s.len() == 0 {
        if cur.len() == 0 {
            seq![]
        } else {
            seq![cur]
        }
    } else if s[0] == '\n' {
        seq![strip_cr(cur)] + lines_from(s.drop_first(), seq![])
    } else {
        lines_from(s.drop_first(), cur.push(s[0]))
    }
}

/// The lines of `s`, as `str::lines` gives them.
pub open spec fn text_lines(s: Seq<char>) -> Seq<Seq<char>> {
    lines_from(s, seq![])
}

/// The updates of a sequence of lines, in order.
pub open spec fn updates_of_lines(lines: Seq<Seq<char>>) -> Seq<SettingUpdate>
    decreases lines.len(),
{
    if lines.len() == 0 {
        seq![]
    } else {
        line_updates(lines[0]) + updates_of_lines(lines.drop_first())
    }
}

/// The updates that loading the settings text `text` makes, in order.
pub open spec fn settings_updates(text: Seq<char>) -> Seq<SettingUpdate> {
    updates_of_lines(text_lines(text))
}

/// Whether `v[start..end]` spells `lit`.
fn segment_is(v: &Vec<char>, start: usize, end: usize, lit: &str) -> (b: bool)
    requires
        start <= end <= v.len(),
    ensures
        b == (v@.subrange(start as int, end as int) == lit@),
{
    let n = lit.unicode_len();
    if end - start != n {
        return false;
    }
    let mut k: usize = 0;
    while k < n
        invariant
            start <= end <= v.len(),
            end - start == n == lit@.len(),
            k <= n,
            forall|j: int| 0 <= j < k ==> v@[start + j] == lit@[j],
        decreases n - k,
    {
        if v[start + k] != lit.get_char(k) {
            assert(v@.subrange(start as int, end as int)[k as int] != lit@[k as int]);
            return false;
        }
        k = k + 1;
    }
    assert(v@.subrange(start as int, end as int) =~= lit@);
    true
}

/// The updates that the key `v[start..end]` with the value `val` asks for.
fn key_updates_exec(v: &Vec<char>, start: usize, end: usize, val: i32, hundredths: i64) -> (u: Vec<
    SettingUpdate,
>)
    requires
        start <= end <= v.len(),
    ensures
        u@ == key_updates(v@.subrange(start as int, end as int), val, hundredths),
{
    if segment_is(v, start, end, "IntervalH") {
        vec![SettingUpdate::SetEditInt { control: IDC_EDIT_HOURS, value: val }]
    } else if segment_is(v, start, end, "IntervalM") {
        vec![SettingUpdate::SetEditInt { control: IDC_EDIT_MINS, value: val }]
    } else if segment_is(v, start, end, "IntervalS") {
        vec![SettingUpdate::SetEditInt { control: IDC_EDIT_SECS, value: val }]
    } else if segment_is(v, start, end, "IntervalMs") {
        vec![SettingUpdate::SetEditInt { control: IDC_EDIT_MILLIS, value: val }]
    } else if segment_is(v, start, end, "RandomCheck") {
        vec![SettingUpdate::SetCheck { control: IDC_CHECK_RANDOM, checked: val != 0 }]
    } else if segment_is(v, start, end, "RandomVal") {
        vec![SettingUpdate::SetEditInt { control: IDC_EDIT_RANDOM, value: val }]
    } else if segment_is(v, start, end, "MouseBtn") {
        vec![SettingUpdate::SetComboSelection { control: IDC_COMBO_MOUSE_BTN, index: val as usize }]
    } else if segment_is(v, start, end, "ClickType") {
        vec![SettingUpdate::SetComboSelection { control: IDC_COMBO_CLICK_TYPE, index: val as usize }]
    } else if segment_is(v, start, end, "RepeatCheck") {
        select_repeat_mode(
            if val != 0 {
                IDC_RADIO_REPEAT_TIMES
            } else {
                IDC_RADIO_REPEAT_UNTIL
            },
        )
    } else if segment_is(v, start, end, "RepeatCount") {
        vec![SettingUpdate::SetEditInt { control: IDC_EDIT_REPEAT_COUNT, value: val }]
    } else if segment_is(v, start, end, "RepeatTimeCheck") {
        if val != 0 {
            select_repeat_mode(IDC_RADIO_REPEAT_TIME)
        } else {
            Vec::new()
        }
    } else if segment_is(v, start, end, "RepeatTime") {
        vec![SettingUpdate::SetEditFixed2 { control: IDC_EDIT_REPEAT_TIME, hundredths }]
    } else if segment_is(v, start, end, "RepeatHoldCheck") {
        if val != 0 {
            select_repeat_mode(IDC_RADIO_REPEAT_HOLD)
        } else {
            Vec::new()
        }
    } else if segment_is(v, start, end, "PosFixed") {
        {
            let mut u = check_radio_button(
                IDC_RADIO_POS_CURRENT,
                IDC_RADIO_POS_PICK,
                if val != 0 {
                    IDC_RADIO_POS_PICK
                } else {
                    IDC_RADIO_POS_CURRENT
                },
            );
            u.push(SettingUpdate::EnableControl { control: IDC_BTN_PICK_LOC, enabled: val != 0 });
            u
        }
    } else if segment_is(v, start, end, "PosX") {
        vec![SettingUpdate::SetEditInt { control: IDC_EDIT_X, value: val }]
    } else if segment_is(v, start, end, "PosY") {
        vec![SettingUpdate::SetEditInt { control: IDC_EDIT_Y, value: val }]
    } else if segment_is(v, start, end, "HotkeyVk") {
        vec![SettingUpdate::SetHotkeyVk { vk: val as u16 }]
    } else if segment_is(v, start, end, "HotkeyMods") {
        vec![SettingUpdate::SetHotkeyModifiers { modifiers: val as u32 }]
    } else if segment_is(v, start, end, "SuppressAdminPopup") {
        vec![SettingUpdate::SetSuppressAdminPopup { suppress: val != 0 }]
    } else if segment_is(v, start, end, "SafetyDisableEnabled") {
        vec![SettingUpdate::SetSafetyDisable { enabled: val != 0 }]
    } else {
        Vec::new()
    }
}

proof fn lemma_index_of_char(s: Seq<char>, c: char)
    ensures
        index_of_char(s, c) == -1 <==> (forall|k: int| 0 <= k < s.len() ==> s[k] != c),
        index_of_char(s, c) >= 0 ==> {
            &&& index_of_char(s, c) < s.len()
            &&& s[index_of_char(s, c)] == c
            &&& forall|k: int| 0 <= k < index_of_char(s, c) ==> s[k] != c
        },
        index_of_char(s, c) >= -1,
    decreases s.len(),
{
    if s.len() > 0 && s[0] != c {
        lemma_index_of_char(s.drop_first(), c);
        assert forall|k: int| 0 <= k < s.len() && s[k] == c implies index_of_char(s, c) >= 0 by {
            assert(s.drop_first()[k - 1] == s[k]);
        }
        if index_of_char(s, c) >= 0 {
            assert forall|k: int| 0 <= k < index_of_char(s, c) implies s[k] != c by {
                if k > 0 {
                    assert(s.drop_first()[k - 1] == s[k]);
                }
            }
        }
    }
}

/// The position of the first `c` in `v[start..end]`.
fn find_char(v: &Vec<char>, start: usize, end: usize, c: char) -> (r: Option<usize>)
    requires
        start <= end <= v.len(),
    ensures
        r matches Some(i) ==> start <= i < end && index_of_char(
            v@.subrange(start as int, end as int),
            c,
        ) == i - start,
        r is None ==> index_of_char(v@.subrange(start as int, end as int), c) == -1,
{
    let mut k = start;
    while k < end
        invariant
            start <= k <= end <= v.len(),
            forall|j: int| start <= j < k ==> v@[j] != c,
        decreases end - k,
    {
        if v[k] == c {
            let ghost sub = v@.subrange(start as int, end as int);
            proof {
                lemma_index_of_char(sub, c);
                let r = index_of_char(sub, c);
                assert(sub[k - start] == c);
                if r >= 0 && r < k - start {
                    assert(sub[r] == v@[start + r]);
                }
            }
            return Some(k);
        }
        k = k + 1;
    }
    proof {
        let sub = v@.subrange(start as int, end as int);
        lemma_index_of_char(sub, c);
        assert forall|j: int| 0 <= j < sub.len() implies sub[j] != c by {
            assert(sub[j] == v@[start + j]);
        }
    }
    None
}

/// Appends the updates of the line `v[start..end]` (less a final carriage
/// return when `strip` is set) to `updates`.
fn push_line_updates(
    v: &Vec<char>,
    start: usize,
    end: usize,
    strip: bool,
    updates: &mut Vec<SettingUpdate>,
)
    requires
        start <= end <= v.len(),
    ensures
        final(updates)@ == old(updates)@ + line_updates(
            if strip {
                strip_cr(v@.subrange(start as int, end as int))
            } else {
                v@.subrange(start as int, end as int)
            },
        ),
{
    let mut e = end;
    if strip && e > start && v[e - 1] == '\r' {
        e = e - 1;
    }
    let ghost line = v@.subrange(start as int, e as int);
    assert(line =~= (if strip {
        strip_cr(v@.subrange(start as int, end as int))
    } else {
        v@.subrange(start as int, end as int)
    }));
    match find_char(v, start, e, '=') {
        None => {
            assert(updates@ + line_updates(line) =~= updates@);
        },
        Some(i) => {
            let val = match parse_i32_chars(v, i + 1, e) {
                Some(x) => x,
                None => 0,
            };
            assert(line.take(i - start) =~= v@.subrange(start as int, i as int));
            assert(line.skip(i - start + 1) =~= v@.subrange(i + 1, e as int));
            let hundredths: i64 = match parse_hundredths_chars(v, i + 1, e) {
                Some(h) => h,
                None => 0,
            };
            let extra = key_updates_exec(v, start, i, val, hundredths);
            let mut k: usize = 0;
            let ghost before = updates@;
            while k < extra.len()
                invariant
                    k <= extra.len(),
                    updates@ == before + extra@.take(k as int),
                decreases extra.len() - k,
            {
                updates.push(extra[k]);
                k = k + 1;
                assert(extra@.take(k as int) =~= extra@.take(k - 1).push(extra@[k - 1]));
            }
            assert(extra@.take(k as int) =~= extra@);
        },
    }
}

/// The updates of the form that loading the settings text `contents` makes,
/// in the order of its lines.
pub fn parse_settings(contents: &str) -> (updates: Vec<SettingUpdate>)
    ensures
        updates@ == settings_updates(contents@),
{
    let chars = chars_of(contents);
    let n = chars.len();
    let ghost all = chars@;
    let mut updates: Vec<SettingUpdate> = Vec::new();
    let mut ls: usize = 0;
    let mut i: usize = 0;
    assert(all.skip(0) =~= all);
    assert(all.subrange(0, 0) =~= Seq::<char>::empty());
    while i < n
        invariant
            n == all.len(),
            all == chars@,
            ls <= i <= n,
            settings_updates(all) == updates@ + updates_of_lines(
                lines_from(all.skip(i as int), all.subrange(ls as int, i as int)),
            ),
        decreases n - i,
    {
        let ghost rest = all.skip(i as int);
        let ghost cur = all.subrange(ls as int, i as int);
        assert(rest.drop_first() =~= all.skip(i + 1));
        assert(rest[0] == all[i as int]);
        if chars[i] == '\n' {
            let ghost later = lines_from(all.skip(i + 1), seq![]);
            assert((seq![strip_cr(cur)] + later).drop_first() =~= later);
            assert((seq![strip_cr(cur)] + later)[0] == strip_cr(cur));
            push_line_updates(&chars, ls, i, true, &mut updates);
            ls = i + 1;
            assert(all.subrange(ls as int, ls as int) =~= Seq::<char>::empty());
        } else {
            assert(cur.push(all[i as int]) =~= all.subrange(ls as int, i + 1));
        }
        i = i + 1;
    }
    let ghost cur = all.subrange(ls as int, n as int);
    assert(all.skip(n as int) =~= Seq::<char>::empty());
    if ls < n {
        assert((seq![cur]).drop_first() =~= Seq::<Seq<char>>::empty());
        assert(seq![cur][0] == cur);
        assert(updates_of_lines(Seq::<Seq<char>>::empty()) =~= Seq::<SettingUpdate>::empty());
        assert(updates_of_lines(seq![cur]) =~= line_updates(cur));
        push_line_updates(&chars, ls, n, false, &mut updates);
    } else {
        assert(cur.len() == 0);
        assert(updates@ + updates_of_lines(Seq::<Seq<char>>::empty()) =~= updates@);
    }
    assert(chars@ == contents@);
    updates
}

/// The text written into an edit box by a `SetEditInt` update.
pub fn int_edit_text(value: i32) -> (text: String)
    ensures
        text@ == decimal_text(value as int),
{
    format_i64(value as i64)
}

/// The hundredths that the digits after a decimal point give: the first
/// two digits count, later ones are cut off.
pub open spec fn frac_hundredths(f: Seq<char>) -> int {
    if f.len() == 0 {
        0
    } else if f.len() == 1 {
        digit_value(f[0]) * 10
    } else {
        digit_value(f[0]) * 10 + digit_value(f[1])
    }
}

/// The number of hundredths that the text `s` of a repeat time spells: a
/// whole part as `str::parse::<i32>` reads it, then optionally a point and
/// digits, of which the first two count; `None` for any other text.
pub open spec fn parse_hundredths(s: Seq<char>) -> Option<int> {
    let p = index_of_char(s, '.');
    let whole = if p < 0 {
        s
    } else {
        s.take(p)
    };
    let frac = if p < 0 {
        Seq::<char>::empty()
    } else {
        s.skip(p + 1)
    };
    if !all_digits(frac) {
        None
    } else {
        match parse_i32_spec(whole) {
            None => None,
            Some(w) => {
                let mag = (if w < 0 {
                    -w
                } else {
                    w as int
                }) * 100 + frac_hundredths(frac);
                Some(
                    if whole[0] == '-' {
                        -mag
                    } else {
                        mag
                    },
                )
            },
        }
    }
}

/// The hundredths that the text `s` spells, or 0 where it spells none.
pub open spec fn hundredths_or_zero(s: Seq<char>) -> int {
    match parse_hundredths(s) {
        Some(h) => h,
        None => 0,
    }
}

/// The text written into an edit box by a `SetEditFixed2` update: `h`
/// hundredths as a number with two decimals, as `{:.2}` writes it.
pub open spec fn fixed2_text(h: int) -> Seq<char> {
    let m = if h < 0 {
        -h
    } else {
        h
    };
    (if h < 0 {
        seq!['-']
    } else {
        Seq::<char>::empty()
    }) + digits_of((m / 100) as nat) + seq!['.', digit_char((m % 100) / 10), digit_char(m % 10)]
}

/// The text `sign digits`, then `.` and the digits `f` where `f` is given.
spec fn point_number(neg: bool, n: nat, f: Option<Seq<char>>) -> Seq<char> {
    let whole = (if neg {
        seq!['-']
    } else {
        Seq::<char>::empty()
    }) + digits_of(n);
    match f {
        None => whole,
        Some(f) => whole + seq!['.'] + f,
    }
}

proof fn lemma_parse_point_number(neg: bool, n: nat, f: Option<Seq<char>>)
    requires
        if neg {
            n <= 0x8000_0000
        } else {
            n <= 0x7fff_ffff
        },
        f matches Some(d) ==> d.len() <= 2 && all_digits(d),
    ensures
        parse_hundredths(point_number(neg, n, f)) == Some(
            ({
                let mag = n * 100 + (match f {
                    None => 0,
                    Some(d) => frac_hundredths(d),
                });
                if neg {
                    -mag
                } else {
                    mag
                }
            }),
        ),
{
    lemma_digits_of_reads_back(n);
    let digits = digits_of(n);
    let whole = (if neg {
        seq!['-']
    } else {
        Seq::<char>::empty()
    }) + digits;
    let text = point_number(neg, n, f);
    assert forall|k: int| 0 <= k < whole.len() implies whole[k] != '.' by {
        if neg && k == 0 {
        } else {
            let j = if neg { k - 1 } else { k };
            assert(whole[k] == digits[j]);
            assert(is_digit(digits[j]));
        }
    }
    lemma_index_of_char(text, '.');
    let p = index_of_char(text, '.');
    match f {
        None => {
            assert(text == whole);
            assert(p == -1);
        },
        Some(d) => {
            assert(text[whole.len() as int] == '.');
            assert forall|k: int| 0 <= k < whole.len() implies text[k] != '.' by {
                assert(text[k] == whole[k]);
            }
            if p >= 0 && p < whole.len() {
                assert(text[p] == whole[p]);
            }
            assert(p == whole.len());
            assert(text.take(p) =~= whole);
            assert(text.skip(p + 1) =~= d);
        },
    }
    if neg {
        assert(whole.drop_first() =~= digits);
        assert(whole[0] == '-');
    } else {
        assert(whole =~= digits);
        assert(is_digit(digits[0]));
    }
}

/// A repeat time written with two decimals reads back as the same number
/// of hundredths: what loading puts into the edit box is what the box
/// gives when the settings are saved again.
#[verifier::spinoff_prover]
#[verifier::rlimit(40)]
pub proof fn lemma_fixed2_text_reads_back(h: int)
    requires
        -0x7fff_ffff * 100 - 99 <= h <= 0x7fff_ffff * 100 + 99,
    ensures
        parse_hundredths(fixed2_text(h)) == Some(h),
{
    let m = if h < 0 {
        -h
    } else {
        h
    };
    let d = seq![digit_char((m % 100) / 10), digit_char(m % 10)];
    lemma_digit_char_value((m % 100) / 10);
    lemma_digit_char_value(m % 10);
    assert(all_digits(d));
    assert(fixed2_text(h) =~= point_number(h < 0, (m / 100) as nat, Some(d)));
    lemma_parse_point_number(h < 0, (m / 100) as nat, Some(d));
    assert(m % 100 == ((m % 100) / 10) * 10 + m % 10);
    assert(frac_hundredths(d) == m % 100);
    assert(m == (m / 100) * 100 + m % 100);
}

/// A repeat time saved as a whole number, or with one or two decimals (as
/// a number of seconds with at most two decimals prints), reads back as
/// that many hundredths of a second.
pub proof fn lemma_repeat_time_reads_back(q: i32, f: Option<Seq<char>>)
    requires
        f matches Some(d) ==> 1 <= d.len() <= 2 && all_digits(d),
    ensures
        parse_hundredths(
            match f {
                None => decimal_text(q as int),
                Some(d) => decimal_text(q as int) + seq!['.'] + d,
            },
        ) == Some(
            ({
                let mag = (if q < 0 {
                    -q
                } else {
                    q as int
                }) * 100 + (match f {
                    None => 0,
                    Some(d) => frac_hundredths(d),
                });
                if q < 0 {
                    -mag
                } else {
                    mag
                }
            }),
        ),
{
    let n: nat = (if q < 0 {
        -q
    } else {
        q as int
    }) as nat;
    assert(decimal_text(q as int) =~= (if q < 0 {
        seq!['-']
    } else {
        Seq::<char>::empty()
    }) + digits_of(n));
    lemma_parse_point_number(q < 0, n, f);
}

/// The text written into an edit box by a `SetEditFixed2` update.
pub fn fixed2_edit_text(h: i64) -> (text: String)
    ensures
        text@ == fixed2_text(h as int),
{
    let m: u64 = if h < 0 {
        (-(h + 1)) as u64 + 1
    } else {
        h as u64
    };
    let mut text = String::new();
    if h < 0 {
        text.append("-");
    }
    let whole = format_i64((m / 100) as i64);
    text.append(whole.as_str());
    text.append(".");
    let tens = digit_text(((m % 100) / 10) as u32);
    text.append(tens.as_str());
    let ones = digit_text((m % 10) as u32);
    text.append(ones.as_str());
    proof {
        reveal_strlit("-");
        reveal_strlit(".");
        assert(text@ =~= fixed2_text(h as int));
    }
    text
}

/// The one-character text of the digit `d`.
fn digit_text(d: u32) -> (t: String)
    requires
        d < 10,
    ensures
        t@ == seq![digit_char(d as int)],
{
    let t = format_i64(d as i64);
    proof {
        reveal_with_fuel(digits_of, 2);
    }
    t
}

/// Reads the hundredths spelled by `v[start..end]`.
fn parse_hundredths_chars(v: &Vec<char>, start: usize, end: usize) -> (r: Option<i64>)
    requires
        start <= end <= v.len(),
    ensures
        r matches Some(h) ==> parse_hundredths(v@.subrange(start as int, end as int)) == Some(
            h as int,
        ),
        r is None ==> parse_hundredths(v@.subrange(start as int, end as int)) is None,
{
    let ghost sub = v@.subrange(start as int, end as int);
    proof {
        lemma_index_of_char(sub, '.');
    }
    let (wend, fstart) = match find_char(v, start, end, '.') {
        Some(i) => (i, i + 1),
        None => (end, end),
    };
    let ghost whole = v@.subrange(start as int, wend as int);
    let ghost frac = v@.subrange(fstart as int, end as int);
    proof {
        let p = index_of_char(sub, '.');
        if p < 0 {
            assert(whole =~= sub);
            assert(frac =~= Seq::<char>::empty());
        } else {
            assert(whole =~= sub.take(p));
            assert(frac =~= sub.skip(p + 1));
        }
    }
    let mut k = fstart;
    while k < end
        invariant
            start <= wend <= fstart <= k <= end <= v.len(),
            frac == v@.subrange(fstart as int, end as int),
            sub == v@.subrange(start as int, end as int),
            frac == (if index_of_char(sub, '.') < 0 {
                Seq::<char>::empty()
            } else {
                sub.skip(index_of_char(sub, '.') + 1)
            }),
            forall|j: int| fstart <= j < k ==> is_digit(#[trigger] v@[j]),
        decreases end - k,
    {
        if !(v[k] >= '0' && v[k] <= '9') {
            assert(frac[k - fstart] == v@[k as int]);
            assert(!is_digit(frac[k - fstart]));
            assert(!all_digits(frac));
            return None;
        }
        k = k + 1;
    }
    assert forall|j: int| 0 <= j < frac.len() implies is_digit(#[trigger] frac[j]) by {
        assert(frac[j] == v@[fstart + j]);
    }
    match parse_i32_chars(v, start, wend) {
        None => None,
        Some(w) => {
            let fl = end - fstart;
            let fh: i64 = if fl == 0 {
                0
            } else if fl == 1 {
                ((v[fstart] as u32) as i64 - 48) * 10
            } else {
                ((v[fstart] as u32) as i64 - 48) * 10 + ((v[fstart + 1] as u32) as i64 - 48)
            };
            proof {
                if fl >= 1 {
                    assert(frac[0] == v@[fstart as int]);
                }
                if fl >= 2 {
                    assert(frac[1] == v@[fstart + 1]);
                }
                assert(fh == frac_hundredths(frac));
            }
            let aw: i64 = if w < 0 {
                -(w as i64)
            } else {
                w as i64
            };
            let mag: i64 = aw * 100 + fh;
            assert(whole.len() > 0);
            assert(whole[0] == v@[start as int]);
            if v[start] == '-' {
                Some(-mag)
            } else {
                Some(mag)
            }
        },
    }
}

/// The state of the form that the settings file touches.
pub struct FormModel {
    /// The text of each edit box.
    pub edits: Map<i32, Seq<char>>,
    /// The tick of each check box and radio button.
    pub checks: Map<i32, bool>,
    /// The selection of each combo box.
    pub combos: Map<i32, usize>,
    /// Whether each control is enabled.
    pub enabled: Map<i32, bool>,
    pub hotkey_vk: u16,
    pub hotkey_mods: u32,
    pub suppress_admin_popup: bool,
    pub safety_disable_enabled: bool,
}

/// The form after one update.
pub open spec fn apply_update(f: FormModel, u: SettingUpdate) -> FormModel {
    match u {
        SettingUpdate::SetEditInt { control, value } => FormModel {
            edits: f.edits.insert(control, decimal_text(value as int)),
            ..f
        },
        SettingUpdate::SetEditFixed2 { control, hundredths } => FormModel {
            edits: f.edits.insert(control, fixed2_text(hundredths as int)),
            ..f
        },
        SettingUpdate::SetCheck { control, checked } => FormModel {
            checks: f.checks.insert(control, checked),
            ..f
        },
        SettingUpdate::SetComboSelection { control, index } => FormModel {
            combos: f.combos.insert(control, index),
            ..f
        },
        SettingUpdate::EnableControl { control, enabled } => FormModel {
            enabled: f.enabled.insert(control, enabled),
            ..f
        },
        SettingUpdate::SetHotkeyVk { vk } => FormModel { hotkey_vk: vk, ..f },
        SettingUpdate::SetHotkeyModifiers { modifiers } => FormModel { hotkey_mods: modifiers, ..f },
        SettingUpdate::SetSuppressAdminPopup { suppress } => FormModel {
            suppress_admin_popup: suppress,
            ..f
        },
        SettingUpdate::SetSafetyDisable { enabled } => FormModel {
            safety_disable_enabled: enabled,
            ..f
        },
    }
}

/// The form after a sequence of updates, applied in order.
pub open spec fn apply_updates(f: FormModel, us: Seq<SettingUpdate>) -> FormModel
    decreases us.len(),
{
    if us.len() == 0 {
        f
    } else {
        apply_updates(apply_update(f, us[0]), us.drop_first())
    }
}

proof fn lemma_apply_updates_concat(f: FormModel, a: Seq<SettingUpdate>, b: Seq<SettingUpdate>)
    ensures
        apply_updates(f, a + b) == apply_updates(apply_updates(f, a), b),
    decreases a.len(),
{
    if a.len() > 0 {
        assert((a + b).drop_first() =~= a.drop_first() + b);
        assert((a + b)[0] == a[0]);
        lemma_apply_updates_concat(apply_update(f, a[0]), a.drop_first(), b);
    } else {
        assert(a + b =~= b);
    }
}

proof fn lemma_updates_of_lines_concat(a: Seq<Seq<char>>, b: Seq<Seq<char>>)
    ensures
        updates_of_lines(a + b) == updates_of_lines(a) + updates_of_lines(b),
    decreases a.len(),
{
    if a.len() > 0 {
        assert((a + b).drop_first() =~= a.drop_first() + b);
        assert((a + b)[0] == a[0]);
        lemma_updates_of_lines_concat(a.drop_first(), b);
        assert(updates_of_lines(a + b) =~= updates_of_lines(a) + updates_of_lines(b));
    } else {
        assert(a + b =~= b);
        assert(updates_of_lines(a + b) =~= updates_of_lines(a) + updates_of_lines(b));
    }
}

/// A text that ends with a newline splits into its own lines followed by
/// the lines of what comes after it.
proof fn lemma_lines_from_concat(t: Seq<char>, x: Seq<char>, cur: Seq<char>)
    requires
        t.len() > 0,
        t.last() == '\n',
    ensures
        lines_from(t + x, cur) == lines_from(t, cur) + lines_from(x, seq![]),
    decreases t.len(),
{
    let tx = t + x;
    assert(tx.drop_first() =~= t.drop_first() + x);
    assert(tx[0] == t[0]);
    if t[0] == '\n' {
        if t.len() == 1 {
            assert(t.drop_first() =~= Seq::<char>::empty());
            assert(t.drop_first() + x =~= x);
            assert(lines_from(t.drop_first(), seq![]) =~= Seq::<Seq<char>>::empty());
            assert(lines_from(t, cur) =~= seq![strip_cr(cur)]);
        } else {
            lemma_lines_from_concat(t.drop_first(), x, seq![]);
        }
        assert(lines_from(t + x, cur) =~= lines_from(t, cur) + lines_from(x, seq![]));
    } else {
        lemma_lines_from_concat(t.drop_first(), x, cur.push(t[0]));
    }
}

/// A line without newline, followed by a newline, is one line.
proof fn lemma_lines_of_line(l: Seq<char>, cur: Seq<char>)
    requires
        forall|k: int| 0 <= k < l.len() ==> l[k] != '\n',
    ensures
        lines_from(l + seq!['\n'], cur) == seq![strip_cr(cur + l)],
    decreases l.len(),
{
    let t = l + seq!['\n'];
    if l.len() == 0 {
        assert(t =~= seq!['\n']);
        assert(t.drop_first() =~= Seq::<char>::empty());
        assert(t[0] == '\n');
        assert(lines_from(t.drop_first(), seq![]) =~= Seq::<Seq<char>>::empty());
        assert(cur + l =~= cur);
        assert(lines_from(t, cur) =~= seq![strip_cr(cur)]);
    } else {
        assert(t.drop_first() =~= l.drop_first() + seq!['\n']);
        assert(t[0] == l[0]);
        assert(l[0] != '\n');
        lemma_lines_of_line(l.drop_first(), cur.push(l[0]));
        assert(cur.push(l[0]) + l.drop_first() =~= cur + l);
    }
}

/// Adding a line to a text that is empty or ends with a newline adds one
/// line to its lines.
proof fn lemma_lines_snoc(t: Seq<char>, l: Seq<char>)
    requires
        t.len() == 0 || t.last() == '\n',
        forall|k: int| 0 <= k < l.len() ==> l[k] != '\n',
    ensures
        text_lines(t + l + seq!['\n']) == text_lines(t) + seq![strip_cr(l)],
{
    lemma_lines_of_line(l, seq![]);
    assert(Seq::<char>::empty() + l =~= l);
    if t.len() == 0 {
        assert(t + l + seq!['\n'] =~= l + seq!['\n']);
        assert(text_lines(t) =~= Seq::<Seq<char>>::empty());
        assert(text_lines(t) + seq![strip_cr(l)] =~= seq![strip_cr(l)]);
    } else {
        assert(t + l + seq!['\n'] =~= t + (l + seq!['\n']));
        lemma_lines_from_concat(t, l + seq!['\n'], seq![]);
    }
}

proof fn lemma_index_of_key(key: Seq<char>, v: Seq<char>)
    requires
        forall|k: int| 0 <= k < key.len() ==> key[k] != '=',
    ensures
        index_of_char(key.push('=') + v, '=') == key.len(),
{
    let l = key.push('=') + v;
    lemma_index_of_char(l, '=');
    let r = index_of_char(l, '=');
    assert(l[key.len() as int] == '=');
    if r >= 0 && r < key.len() {
        assert(l[r] == key[r]);
    }
}

proof fn lemma_line_updates(key: Seq<char>, v: Seq<char>)
    requires
        forall|k: int| 0 <= k < key.len() ==> key[k] != '=',
    ensures
        line_updates(key.push('=') + v) == key_updates(
            key,
            value_or_zero(v),
            hundredths_or_zero(v) as i64,
        ),
{
    lemma_index_of_key(key, v);
    let l = key.push('=') + v;
    assert(l.take(key.len() as int) =~= key);
    assert(l.skip(key.len() + 1 as int) =~= v);
}

/// A line that neither holds a newline nor ends with a carriage return.
spec fn plain_line(l: Seq<char>) -> bool {
    &&& forall|k: int| 0 <= k < l.len() ==> l[k] != '\n'
    &&& (l.len() == 0 || l.last() != '\r')
}

proof fn lemma_apply_next_line(f: FormModel, ls: Seq<Seq<char>>, k: int)
    requires
        0 <= k < ls.len(),
    ensures
        apply_updates(f, updates_of_lines(ls.take(k + 1))) == apply_updates(
            apply_updates(f, updates_of_lines(ls.take(k))),
            line_updates(ls[k]),
        ),
{
    assert(ls.take(k + 1) =~= ls.take(k) + seq![ls[k]]);
    lemma_updates_of_lines_concat(ls.take(k), seq![ls[k]]);
    assert(seq![ls[k]].drop_first() =~= Seq::<Seq<char>>::empty());
    assert(seq![ls[k]][0] == ls[k]);
    assert(updates_of_lines(Seq::<Seq<char>>::empty()) =~= Seq::<SettingUpdate>::empty());
    assert(updates_of_lines(seq![ls[k]]) =~= line_updates(ls[k]));
    lemma_apply_updates_concat(f, updates_of_lines(ls.take(k)), line_updates(ls[k]));
}

proof fn lemma_key_interval_h(val: i32, v: Seq<char>)
    requires
        val == value_or_zero(v),
    ensures
        line_updates("IntervalH="@ + v) == seq![SettingUpdate::SetEditInt { control: IDC_EDIT_HOURS, value: val }],
{
    reveal_strlit("IntervalH");
    reveal_strlit("IntervalM");
    reveal_strlit("IntervalS");
    reveal_strlit("IntervalMs");
    reveal_strlit("RandomCheck");
    reveal_strlit("RandomVal");
    reveal_strlit("MouseBtn");
    reveal_strlit("ClickType");
    reveal_strlit("RepeatCheck");
    reveal_strlit("RepeatCount");
    reveal_strlit("RepeatTimeCheck");
    reveal_strlit("RepeatTime");
    reveal_strlit("RepeatHoldCheck");
    reveal_strlit("PosFixed");
    reveal_strlit("PosX");
    reveal_strlit("PosY");
    reveal_strlit("HotkeyVk");
    reveal_strlit("HotkeyMods");
    reveal_strlit("SuppressAdminPopup");
    reveal_strlit("SafetyDisableEnabled");
    reveal_strlit("IntervalH=");
    assert("IntervalH="@ =~= "IntervalH"@.push('='));
    lemma_line_updates("IntervalH"@, v);
    assert(key_updates("IntervalH"@, val, hundredths_or_zero(v) as i64) =~= seq![SettingUpdate::SetEditInt { control: IDC_EDIT_HOURS, value: val }]);
}

proof fn lemma_key_interval_m(val: i32, v: Seq<char>)
    requires
        val == value_or_zero(v),
    ensures
        line_updates("IntervalM="@ + v) == seq![SettingUpdate::SetEditInt { control: IDC_EDIT_MINS, value: val }],
{
    reveal_strlit("IntervalH");
    reveal_strlit("IntervalM");
    reveal_strlit("IntervalS");
    reveal_strlit("IntervalMs");
    reveal_strlit("RandomCheck");
    reveal_strlit("RandomVal");
    reveal_strlit("MouseBtn");
    reveal_strlit("ClickType");
    reveal_strlit("RepeatCheck");
    reveal_strlit("RepeatCount");
    reveal_strlit("RepeatTimeCheck");
    reveal_strlit("RepeatTime");
    reveal_strlit("RepeatHoldCheck");
    reveal_strlit("PosFixed");
    reveal_strlit("PosX");
    reveal_strlit("PosY");
    reveal_strlit("HotkeyVk");
    reveal_strlit("HotkeyMods");
    reveal_strlit("SuppressAdminPopup");
    reveal_strlit("SafetyDisableEnabled");
    reveal_strlit("IntervalM=");
    assert("IntervalM="@ =~= "IntervalM"@.push('='));
    lemma_line_updates("IntervalM"@, v);
    assert("IntervalM"@[8] != "IntervalH"@[8]);
    assert(key_updates("IntervalM"@, val, hundredths_or_zero(v) as i64) =~= seq![SettingUpdate::SetEditInt { control: IDC_EDIT_MINS, value: val }]);
}

proof fn lemma_key_interval_s(val: i32, v: Seq<char>)
    requires
        val == value_or_zero(v),
    ensures
        line_updates("IntervalS="@ + v) == seq![SettingUpdate::SetEditInt { control: IDC_EDIT_SECS, value: val }],
{
    reveal_strlit("IntervalH");
    reveal_strlit("IntervalM");
    reveal_strlit("IntervalS");
    reveal_strlit("IntervalMs");
    reveal_strlit("RandomCheck");
    reveal_strlit("RandomVal");
    reveal_strlit("MouseBtn");
    reveal_strlit("ClickType");
    reveal_strlit("RepeatCheck");
    reveal_strlit("RepeatCount");
    reveal_strlit("RepeatTimeCheck");
    reveal_strlit("RepeatTime");
    reveal_strlit("RepeatHoldCheck");
    reveal_strlit("PosFixed");
    reveal_strlit("PosX");
    reveal_strlit("PosY");
    reveal_strlit("HotkeyVk");
    reveal_strlit("HotkeyMods");
    reveal_strlit("SuppressAdminPopup");
    reveal_strlit("SafetyDisableEnabled");
    reveal_strlit("IntervalS=");
    assert("IntervalS="@ =~= "IntervalS"@.push('='));
    lemma_line_updates("IntervalS"@, v);
    assert("IntervalS"@[8] != "IntervalH"@[8]);
    assert("IntervalS"@[8] != "IntervalM"@[8]);
    assert(key_updates("IntervalS"@, val, hundredths_or_zero(v) as i64) =~= seq![SettingUpdate::SetEditInt { control: IDC_EDIT_SECS, value: val }]);
}

proof fn lemma_key_interval_ms(val: i32, v: Seq<char>)
    requires
        val == value_or_zero(v),
    ensures
        line_updates("IntervalMs="@ + v) == seq![SettingUpdate::SetEditInt { control: IDC_EDIT_MILLIS, value: val }],
{
    reveal_strlit("IntervalH");
    reveal_strlit("IntervalM");
    reveal_strlit("IntervalS");
    reveal_strlit("IntervalMs");
    reveal_strlit("RandomCheck");
    reveal_strlit("RandomVal");
    reveal_strlit("MouseBtn");
    reveal_strlit("ClickType");
    reveal_strlit("RepeatCheck");
    reveal_strlit("RepeatCount");
    reveal_strlit("RepeatTimeCheck");
    reveal_strlit("RepeatTime");
    reveal_strlit("RepeatHoldCheck");
    reveal_strlit("PosFixed");
    reveal_strlit("PosX");
    reveal_strlit("PosY");
    reveal_strlit("HotkeyVk");
    reveal_strlit("HotkeyMods");
    reveal_strlit("SuppressAdminPopup");
    reveal_strlit("SafetyDisableEnabled");
    reveal_strlit("IntervalMs=");
    assert("IntervalMs="@ =~= "IntervalMs"@.push('='));
    lemma_line_updates("IntervalMs"@, v);
    assert(key_updates("IntervalMs"@, val, hundredths_or_zero(v) as i64) =~= seq![SettingUpdate::SetEditInt { control: IDC_EDIT_MILLIS, value: val }]);
}

proof fn lemma_key_random_check(val: i32, v: Seq<char>)
    requires
        val == value_or_zero(v),
    ensures
        line_updates("RandomCheck="@ + v) == seq![SettingUpdate::SetCheck { control: IDC_CHECK_RANDOM, checked: val != 0 }],
{
    reveal_strlit("IntervalH");
    reveal_strlit("IntervalM");
    reveal_strlit("IntervalS");
    reveal_strlit("IntervalMs");
    reveal_strlit("RandomCheck");
    reveal_strlit("RandomVal");
    reveal_strlit("MouseBtn");
    reveal_strlit("ClickType");
    reveal_strlit("RepeatCheck");
    reveal_strlit("RepeatCount");
    reveal_strlit("RepeatTimeCheck");
    reveal_strlit("RepeatTime");
    reveal_strlit("RepeatHoldCheck");
    reveal_strlit("PosFixed");
    reveal_strlit("PosX");
    reveal_strlit("PosY");
    reveal_strlit("HotkeyVk");
    reveal_strlit("HotkeyMods");
    reveal_strlit("SuppressAdminPopup");
    reveal_strlit("SafetyDisableEnabled");
    reveal_strlit("RandomCheck=");
    assert("RandomCheck="@ =~= "RandomCheck"@.push('='));
    lemma_line_updates("RandomCheck"@, v);
    assert(key_updates("RandomCheck"@, val, hundredths_or_zero(v) as i64) =~= seq![SettingUpdate::SetCheck { control: IDC_CHECK_RANDOM, checked: val != 0 }]);
}

proof fn lemma_key_random_val(val: i32, v: Seq<char>)
    requires
        val == value_or_zero(v),
    ensures
        line_updates("RandomVal="@ + v) == seq![SettingUpdate::SetEditInt { control: IDC_EDIT_RANDOM, value: val }],
{
    reveal_strlit("IntervalH");
    reveal_strlit("IntervalM");
    reveal_strlit("IntervalS");
    reveal_strlit("IntervalMs");
    reveal_strlit("RandomCheck");
    reveal_strlit("RandomVal");
    reveal_strlit("MouseBtn");
    reveal_strlit("ClickType");
    reveal_strlit("RepeatCheck");
    reveal_strlit("RepeatCount");
    reveal_strlit("RepeatTimeCheck");
    reveal_strlit("RepeatTime");
    reveal_strlit("RepeatHoldCheck");
    reveal_strlit("PosFixed");
    reveal_strlit("PosX");
    reveal_strlit("PosY");
    reveal_strlit("HotkeyVk");
    reveal_strlit("HotkeyMods");
    reveal_strlit("SuppressAdminPopup");
    reveal_strlit("SafetyDisableEnabled");
    reveal_strlit("RandomVal=");
    assert("RandomVal="@ =~= "RandomVal"@.push('='));
    lemma_line_updates("RandomVal"@, v);
    assert("RandomVal"@[0] != "IntervalH"@[0]);
    assert("RandomVal"@[0] != "IntervalM"@[0]);
    assert("RandomVal"@[0] != "IntervalS"@[0]);
    assert(key_updates("RandomVal"@, val, hundredths_or_zero(v) as i64) =~= seq![SettingUpdate::SetEditInt { control: IDC_EDIT_RANDOM, value: val }]);
}

proof fn lemma_key_mouse_btn(val: i32, v: Seq<char>)
    requires
        val == value_or_zero(v),
    ensures
        line_updates("MouseBtn="@ + v) == seq![SettingUpdate::SetComboSelection { control: IDC_COMBO_MOUSE_BTN, index: val as usize }],
{
    reveal_strlit("IntervalH");
    reveal_strlit("IntervalM");
    reveal_strlit("IntervalS");
    reveal_strlit("IntervalMs");
    reveal_strlit("RandomCheck");
    reveal_strlit("RandomVal");
    reveal_strlit("MouseBtn");
    reveal_strlit("ClickType");
    reveal_strlit("RepeatCheck");
    reveal_strlit("RepeatCount");
    reveal_strlit("RepeatTimeCheck");
    reveal_strlit("RepeatTime");
    reveal_strlit("RepeatHoldCheck");
    reveal_strlit("PosFixed");
    reveal_strlit("PosX");
    reveal_strlit("PosY");
    reveal_strlit("HotkeyVk");
    reveal_strlit("HotkeyMods");
    reveal_strlit("SuppressAdminPopup");
    reveal_strlit("SafetyDisableEnabled");
    reveal_strlit("MouseBtn=");
    assert("MouseBtn="@ =~= "MouseBtn"@.push('='));
    lemma_line_updates("MouseBtn"@, v);
    assert(key_updates("MouseBtn"@, val, hundredths_or_zero(v) as i64) =~= seq![SettingUpdate::SetComboSelection { control: IDC_COMBO_MOUSE_BTN, index: val as usize }]);
}

proof fn lemma_key_click_type(val: i32, v: Seq<char>)
    requires
        val == value_or_zero(v),
    ensures
        line_updates("ClickType="@ + v) == seq![SettingUpdate::SetComboSelection { control: IDC_COMBO_CLICK_TYPE, index: val as usize }],
{
    reveal_strlit("IntervalH");
    reveal_strlit("IntervalM");
    reveal_strlit("IntervalS");
    reveal_strlit("IntervalMs");
    reveal_strlit("RandomCheck");
    reveal_strlit("RandomVal");
    reveal_strlit("MouseBtn");
    reveal_strlit("ClickType");
    reveal_strlit("RepeatCheck");
    reveal_strlit("RepeatCount");
    reveal_strlit("RepeatTimeCheck");
    reveal_strlit("RepeatTime");
    reveal_strlit("RepeatHoldCheck");
    reveal_strlit("PosFixed");
    reveal_strlit("PosX");
    reveal_strlit("PosY");
    reveal_strlit("HotkeyVk");
    reveal_strlit("HotkeyMods");
    reveal_strlit("SuppressAdminPopup");
    reveal_strlit("SafetyDisableEnabled");
    reveal_strlit("ClickType=");
    assert("ClickType="@ =~= "ClickType"@.push('='));
    lemma_line_updates("ClickType"@, v);
    assert("ClickType"@[0] != "IntervalH"@[0]);
    assert("ClickType"@[0] != "IntervalM"@[0]);
    assert("ClickType"@[0] != "IntervalS"@[0]);
    assert("ClickType"@[0] != "RandomVal"@[0]);
    assert(key_updates("ClickType"@, val, hundredths_or_zero(v) as i64) =~= seq![SettingUpdate::SetComboSelection { control: IDC_COMBO_CLICK_TYPE, index: val as usize }]);
}

proof fn lemma_key_repeat_check(val: i32, v: Seq<char>)
    requires
        val == value_or_zero(v),
    ensures
        line_updates("RepeatCheck="@ + v) == repeat_mode_updates(
            if val != 0 { IDC_RADIO_REPEAT_TIMES } else { IDC_RADIO_REPEAT_UNTIL },
        ),
{
    reveal_strlit("IntervalH");
    reveal_strlit("IntervalM");
    reveal_strlit("IntervalS");
    reveal_strlit("IntervalMs");
    reveal_strlit("RandomCheck");
    reveal_strlit("RandomVal");
    reveal_strlit("MouseBtn");
    reveal_strlit("ClickType");
    reveal_strlit("RepeatCheck");
    reveal_strlit("RepeatCount");
    reveal_strlit("RepeatTimeCheck");
    reveal_strlit("RepeatTime");
    reveal_strlit("RepeatHoldCheck");
    reveal_strlit("PosFixed");
    reveal_strlit("PosX");
    reveal_strlit("PosY");
    reveal_strlit("HotkeyVk");
    reveal_strlit("HotkeyMods");
    reveal_strlit("SuppressAdminPopup");
    reveal_strlit("SafetyDisableEnabled");
    reveal_strlit("RepeatCheck=");
    assert("RepeatCheck="@ =~= "RepeatCheck"@.push('='));
    lemma_line_updates("RepeatCheck"@, v);
    assert("RepeatCheck"@[1] != "RandomCheck"@[1]);
    assert(key_updates("RepeatCheck"@, val, hundredths_or_zero(v) as i64) =~= repeat_mode_updates(
        if val != 0 { IDC_RADIO_REPEAT_TIMES } else { IDC_RADIO_REPEAT_UNTIL },
    ));
}

proof fn lemma_key_repeat_count(val: i32, v: Seq<char>)
    requires
        val == value_or_zero(v),
    ensures
        line_updates("RepeatCount="@ + v) == seq![SettingUpdate::SetEditInt { control: IDC_EDIT_REPEAT_COUNT, value: val }],
{
    reveal_strlit("IntervalH");
    reveal_strlit("IntervalM");
    reveal_strlit("IntervalS");
    reveal_strlit("IntervalMs");
    reveal_strlit("RandomCheck");
    reveal_strlit("RandomVal");
    reveal_strlit("MouseBtn");
    reveal_strlit("ClickType");
    reveal_strlit("RepeatCheck");
    reveal_strlit("RepeatCount");
    reveal_strlit("RepeatTimeCheck");
    reveal_strlit("RepeatTime");
    reveal_strlit("RepeatHoldCheck");
    reveal_strlit("PosFixed");
    reveal_strlit("PosX");
    reveal_strlit("PosY");
    reveal_strlit("HotkeyVk");
    reveal_strlit("HotkeyMods");
    reveal_strlit("SuppressAdminPopup");
    reveal_strlit("SafetyDisableEnabled");
    reveal_strlit("RepeatCount=");
    assert("RepeatCount="@ =~= "RepeatCount"@.push('='));
    lemma_line_updates("RepeatCount"@, v);
    assert("RepeatCount"@[1] != "RandomCheck"@[1]);
    assert("RepeatCount"@[7] != "RepeatCheck"@[7]);
    assert(key_updates("RepeatCount"@, val, hundredths_or_zero(v) as i64) =~= seq![SettingUpdate::SetEditInt { control: IDC_EDIT_REPEAT_COUNT, value: val }]);
}

proof fn lemma_key_repeat_time_check(val: i32, v: Seq<char>)
    requires
        val == value_or_zero(v),
    ensures
        line_updates("RepeatTimeCheck="@ + v) == (if val != 0 {
            repeat_mode_updates(IDC_RADIO_REPEAT_TIME)
        } else {
            Seq::<SettingUpdate>::empty()
        }),
{
    reveal_strlit("IntervalH");
    reveal_strlit("IntervalM");
    reveal_strlit("IntervalS");
    reveal_strlit("IntervalMs");
    reveal_strlit("RandomCheck");
    reveal_strlit("RandomVal");
    reveal_strlit("MouseBtn");
    reveal_strlit("ClickType");
    reveal_strlit("RepeatCheck");
    reveal_strlit("RepeatCount");
    reveal_strlit("RepeatTimeCheck");
    reveal_strlit("RepeatTime");
    reveal_strlit("RepeatHoldCheck");
    reveal_strlit("PosFixed");
    reveal_strlit("PosX");
    reveal_strlit("PosY");
    reveal_strlit("HotkeyVk");
    reveal_strlit("HotkeyMods");
    reveal_strlit("SuppressAdminPopup");
    reveal_strlit("SafetyDisableEnabled");
    reveal_strlit("RepeatTimeCheck=");
    assert("RepeatTimeCheck="@ =~= "RepeatTimeCheck"@.push('='));
    lemma_line_updates("RepeatTimeCheck"@, v);
    assert(key_updates("RepeatTimeCheck"@, val, hundredths_or_zero(v) as i64) =~= (if val != 0 {
        repeat_mode_updates(IDC_RADIO_REPEAT_TIME)
    } else {
        Seq::<SettingUpdate>::empty()
    }));
}

proof fn lemma_key_repeat_time(val: i32, v: Seq<char>)
    requires
        val == value_or_zero(v),
    ensures
        line_updates("RepeatTime="@ + v) == seq![SettingUpdate::SetEditFixed2 { control: IDC_EDIT_REPEAT_TIME, hundredths: hundredths_or_zero(v) as i64 }],
{
    reveal_strlit("IntervalH");
    reveal_strlit("IntervalM");
    reveal_strlit("IntervalS");
    reveal_strlit("IntervalMs");
    reveal_strlit("RandomCheck");
    reveal_strlit("RandomVal");
    reveal_strlit("MouseBtn");
    reveal_strlit("ClickType");
    reveal_strlit("RepeatCheck");
    reveal_strlit("RepeatCount");
    reveal_strlit("RepeatTimeCheck");
    reveal_strlit("RepeatTime");
    reveal_strlit("RepeatHoldCheck");
    reveal_strlit("PosFixed");
    reveal_strlit("PosX");
    reveal_strlit("PosY");
    reveal_strlit("HotkeyVk");
    reveal_strlit("HotkeyMods");
    reveal_strlit("SuppressAdminPopup");
    reveal_strlit("SafetyDisableEnabled");
    reveal_strlit("RepeatTime=");
    assert("RepeatTime="@ =~= "RepeatTime"@.push('='));
    lemma_line_updates("RepeatTime"@, v);
    assert("RepeatTime"@[0] != "IntervalMs"@[0]);
    assert(key_updates("RepeatTime"@, val, hundredths_or_zero(v) as i64) =~= seq![SettingUpdate::SetEditFixed2 { control: IDC_EDIT_REPEAT_TIME, hundredths: hundredths_or_zero(v) as i64 }]);
}

proof fn lemma_key_repeat_hold_check(val: i32, v: Seq<char>)
    requires
        val == value_or_zero(v),
    ensures
        line_updates("RepeatHoldCheck="@ + v) == (if val != 0 {
            repeat_mode_updates(IDC_RADIO_REPEAT_HOLD)
        } else {
            Seq::<SettingUpdate>::empty()
        }),
{
    reveal_strlit("IntervalH");
    reveal_strlit("IntervalM");
    reveal_strlit("IntervalS");
    reveal_strlit("IntervalMs");
    reveal_strlit("RandomCheck");
    reveal_strlit("RandomVal");
    reveal_strlit("MouseBtn");
    reveal_strlit("ClickType");
    reveal_strlit("RepeatCheck");
    reveal_strlit("RepeatCount");
    reveal_strlit("RepeatTimeCheck");
    reveal_strlit("RepeatTime");
    reveal_strlit("RepeatHoldCheck");
    reveal_strlit("PosFixed");
    reveal_strlit("PosX");
    reveal_strlit("PosY");
    reveal_strlit("HotkeyVk");
    reveal_strlit("HotkeyMods");
    reveal_strlit("SuppressAdminPopup");
    reveal_strlit("SafetyDisableEnabled");
    reveal_strlit("RepeatHoldCheck=");
    assert("RepeatHoldCheck="@ =~= "RepeatHoldCheck"@.push('='));
    lemma_line_updates("RepeatHoldCheck"@, v);
    assert("RepeatHoldCheck"@[6] != "RepeatTimeCheck"@[6]);
    assert(key_updates("RepeatHoldCheck"@, val, hundredths_or_zero(v) as i64) =~= (if val != 0 {
        repeat_mode_updates(IDC_RADIO_REPEAT_HOLD)
    } else {
        Seq::<SettingUpdate>::empty()
    }));
}

proof fn lemma_key_pos_fixed(val: i32, v: Seq<char>)
    requires
        val == value_or_zero(v),
    ensures
        line_updates("PosFixed="@ + v) == seq![
            SettingUpdate::SetCheck { control: IDC_RADIO_POS_CURRENT, checked: val == 0 },
            SettingUpdate::SetCheck { control: IDC_RADIO_POS_PICK, checked: val != 0 },
            SettingUpdate::EnableControl { control: IDC_BTN_PICK_LOC, enabled: val != 0 },
        ],
{
    reveal_strlit("IntervalH");
    reveal_strlit("IntervalM");
    reveal_strlit("IntervalS");
    reveal_strlit("IntervalMs");
    reveal_strlit("RandomCheck");
    reveal_strlit("RandomVal");
    reveal_strlit("MouseBtn");
    reveal_strlit("ClickType");
    reveal_strlit("RepeatCheck");
    reveal_strlit("RepeatCount");
    reveal_strlit("RepeatTimeCheck");
    reveal_strlit("RepeatTime");
    reveal_strlit("RepeatHoldCheck");
    reveal_strlit("PosFixed");
    reveal_strlit("PosX");
    reveal_strlit("PosY");
    reveal_strlit("HotkeyVk");
    reveal_strlit("HotkeyMods");
    reveal_strlit("SuppressAdminPopup");
    reveal_strlit("SafetyDisableEnabled");
    reveal_strlit("PosFixed=");
    assert("PosFixed="@ =~= "PosFixed"@.push('='));
    lemma_line_updates("PosFixed"@, v);
    assert("PosFixed"@[0] != "MouseBtn"@[0]);
    assert(key_updates("PosFixed"@, val, hundredths_or_zero(v) as i64) =~= seq![
            SettingUpdate::SetCheck { control: IDC_RADIO_POS_CURRENT, checked: val == 0 },
            SettingUpdate::SetCheck { control: IDC_RADIO_POS_PICK, checked: val != 0 },
            SettingUpdate::EnableControl { control: IDC_BTN_PICK_LOC, enabled: val != 0 },
        ]);
}

proof fn lemma_key_pos_x(val: i32, v: Seq<char>)
    requires
        val == value_or_zero(v),
    ensures
        line_updates("PosX="@ + v) == seq![SettingUpdate::SetEditInt { control: IDC_EDIT_X, value: val }],
{
    reveal_strlit("IntervalH");
    reveal_strlit("IntervalM");
    reveal_strlit("IntervalS");
    reveal_strlit("IntervalMs");
    reveal_strlit("RandomCheck");
    reveal_strlit("RandomVal");
    reveal_strlit("MouseBtn");
    reveal_strlit("ClickType");
    reveal_strlit("RepeatCheck");
    reveal_strlit("RepeatCount");
    reveal_strlit("RepeatTimeCheck");
    reveal_strlit("RepeatTime");
    reveal_strlit("RepeatHoldCheck");
    reveal_strlit("PosFixed");
    reveal_strlit("PosX");
    reveal_strlit("PosY");
    reveal_strlit("HotkeyVk");
    reveal_strlit("HotkeyMods");
    reveal_strlit("SuppressAdminPopup");
    reveal_strlit("SafetyDisableEnabled");
    reveal_strlit("PosX=");
    assert("PosX="@ =~= "PosX"@.push('='));
    lemma_line_updates("PosX"@, v);
    assert(key_updates("PosX"@, val, hundredths_or_zero(v) as i64) =~= seq![SettingUpdate::SetEditInt { control: IDC_EDIT_X, value: val }]);
}

proof fn lemma_key_pos_y(val: i32, v: Seq<char>)
    requires
        val == value_or_zero(v),
    ensures
        line_updates("PosY="@ + v) == seq![SettingUpdate::SetEditInt { control: IDC_EDIT_Y, value: val }],
{
    reveal_strlit("IntervalH");
    reveal_strlit("IntervalM");
    reveal_strlit("IntervalS");
    reveal_strlit("IntervalMs");
    reveal_strlit("RandomCheck");
    reveal_strlit("RandomVal");
    reveal_strlit("MouseBtn");
    reveal_strlit("ClickType");
    reveal_strlit("RepeatCheck");
    reveal_strlit("RepeatCount");
    reveal_strlit("RepeatTimeCheck");
    reveal_strlit("RepeatTime");
    reveal_strlit("RepeatHoldCheck");
    reveal_strlit("PosFixed");
    reveal_strlit("PosX");
    reveal_strlit("PosY");
    reveal_strlit("HotkeyVk");
    reveal_strlit("HotkeyMods");
    reveal_strlit("SuppressAdminPopup");
    reveal_strlit("SafetyDisableEnabled");
    reveal_strlit("PosY=");
    assert("PosY="@ =~= "PosY"@.push('='));
    lemma_line_updates("PosY"@, v);
    assert("PosY"@[3] != "PosX"@[3]);
    assert(key_updates("PosY"@, val, hundredths_or_zero(v) as i64) =~= seq![SettingUpdate::SetEditInt { control: IDC_EDIT_Y, value: val }]);
}

proof fn lemma_key_hotkey_vk(val: i32, v: Seq<char>)
    requires
        val == value_or_zero(v),
    ensures
        line_updates("HotkeyVk="@ + v) == seq![SettingUpdate::SetHotkeyVk { vk: val as u16 }],
{
    reveal_strlit("IntervalH");
    reveal_strlit("IntervalM");
    reveal_strlit("IntervalS");
    reveal_strlit("IntervalMs");
    reveal_strlit("RandomCheck");
    reveal_strlit("RandomVal");
    reveal_strlit("MouseBtn");
    reveal_strlit("ClickType");
    reveal_strlit("RepeatCheck");
    reveal_strlit("RepeatCount");
    reveal_strlit("RepeatTimeCheck");
    reveal_strlit("RepeatTime");
    reveal_strlit("RepeatHoldCheck");
    reveal_strlit("PosFixed");
    reveal_strlit("PosX");
    reveal_strlit("PosY");
    reveal_strlit("HotkeyVk");
    reveal_strlit("HotkeyMods");
    reveal_strlit("SuppressAdminPopup");
    reveal_strlit("SafetyDisableEnabled");
    reveal_strlit("HotkeyVk=");
    assert("HotkeyVk="@ =~= "HotkeyVk"@.push('='));
    lemma_line_updates("HotkeyVk"@, v);
    assert("HotkeyVk"@[0] != "MouseBtn"@[0]);
    assert("HotkeyVk"@[0] != "PosFixed"@[0]);
    assert(key_updates("HotkeyVk"@, val, hundredths_or_zero(v) as i64) =~= seq![SettingUpdate::SetHotkeyVk { vk: val as u16 }]);
}

proof fn lemma_key_hotkey_mods(val: i32, v: Seq<char>)
    requires
        val == value_or_zero(v),
    ensures
        line_updates("HotkeyMods="@ + v) == seq![SettingUpdate::SetHotkeyModifiers { modifiers: val as u32 }],
{
    reveal_strlit("IntervalH");
    reveal_strlit("IntervalM");
    reveal_strlit("IntervalS");
    reveal_strlit("IntervalMs");
    reveal_strlit("RandomCheck");
    reveal_strlit("RandomVal");
    reveal_strlit("MouseBtn");
    reveal_strlit("ClickType");
    reveal_strlit("RepeatCheck");
    reveal_strlit("RepeatCount");
    reveal_strlit("RepeatTimeCheck");
    reveal_strlit("RepeatTime");
    reveal_strlit("RepeatHoldCheck");
    reveal_strlit("PosFixed");
    reveal_strlit("PosX");
    reveal_strlit("PosY");
    reveal_strlit("HotkeyVk");
    reveal_strlit("HotkeyMods");
    reveal_strlit("SuppressAdminPopup");
    reveal_strlit("SafetyDisableEnabled");
    reveal_strlit("HotkeyMods=");
    assert("HotkeyMods="@ =~= "HotkeyMods"@.push('='));
    lemma_line_updates("HotkeyMods"@, v);
    assert("HotkeyMods"@[0] != "IntervalMs"@[0]);
    assert("HotkeyMods"@[0] != "RepeatTime"@[0]);
    assert(key_updates("HotkeyMods"@, val, hundredths_or_zero(v) as i64) =~= seq![SettingUpdate::SetHotkeyModifiers { modifiers: val as u32 }]);
}

proof fn lemma_key_suppress_admin_popup(val: i32, v: Seq<char>)
    requires
        val == value_or_zero(v),
    ensures
        line_updates("SuppressAdminPopup="@ + v) == seq![SettingUpdate::SetSuppressAdminPopup { suppress: val != 0 }],
{
    reveal_strlit("IntervalH");
    reveal_strlit("IntervalM");
    reveal_strlit("IntervalS");
    reveal_strlit("IntervalMs");
    reveal_strlit("RandomCheck");
    reveal_strlit("RandomVal");
    reveal_strlit("MouseBtn");
    reveal_strlit("ClickType");
    reveal_strlit("RepeatCheck");
    reveal_strlit("RepeatCount");
    reveal_strlit("RepeatTimeCheck");
    reveal_strlit("RepeatTime");
    reveal_strlit("RepeatHoldCheck");
    reveal_strlit("PosFixed");
    reveal_strlit("PosX");
    reveal_strlit("PosY");
    reveal_strlit("HotkeyVk");
    reveal_strlit("HotkeyMods");
    reveal_strlit("SuppressAdminPopup");
    reveal_strlit("SafetyDisableEnabled");
    reveal_strlit("SuppressAdminPopup=");
    assert("SuppressAdminPopup="@ =~= "SuppressAdminPopup"@.push('='));
    lemma_line_updates("SuppressAdminPopup"@, v);
    assert(key_updates("SuppressAdminPopup"@, val, hundredths_or_zero(v) as i64) =~= seq![SettingUpdate::SetSuppressAdminPopup { suppress: val != 0 }]);
}

proof fn lemma_key_safety_disable_enabled(val: i32, v: Seq<char>)
    requires
        val == value_or_zero(v),
    ensures
        line_updates("SafetyDisableEnabled="@ + v) == seq![SettingUpdate::SetSafetyDisable { enabled: val != 0 }],
{
    reveal_strlit("IntervalH");
    reveal_strlit("IntervalM");
    reveal_strlit("IntervalS");
    reveal_strlit("IntervalMs");
    reveal_strlit("RandomCheck");
    reveal_strlit("RandomVal");
    reveal_strlit("MouseBtn");
    reveal_strlit("ClickType");
    reveal_strlit("RepeatCheck");
    reveal_strlit("RepeatCount");
    reveal_strlit("RepeatTimeCheck");
    reveal_strlit("RepeatTime");
    reveal_strlit("RepeatHoldCheck");
    reveal_strlit("PosFixed");
    reveal_strlit("PosX");
    reveal_strlit("PosY");
    reveal_strlit("HotkeyVk");
    reveal_strlit("HotkeyMods");
    reveal_strlit("SuppressAdminPopup");
    reveal_strlit("SafetyDisableEnabled");
    reveal_strlit("SafetyDisableEnabled=");
    assert("SafetyDisableEnabled="@ =~= "SafetyDisableEnabled"@.push('='));
    lemma_line_updates("SafetyDisableEnabled"@, v);
    assert(key_updates("SafetyDisableEnabled"@, val, hundredths_or_zero(v) as i64) =~= seq![SettingUpdate::SetSafetyDisable { enabled: val != 0 }]);
}

proof fn lemma_number_line_plain(key: Seq<char>, v: int)
    requires
        forall|k: int| 0 <= k < key.len() ==> key[k] != '\n',
    ensures
        plain_line(key + decimal_text(v)),
{
    lemma_decimal_text_shape(v);
    let l = key + decimal_text(v);
    assert forall|k: int| 0 <= k < l.len() implies l[k] != '\n' by {
        if k >= key.len() {
            assert(l[k] == decimal_text(v)[k - key.len()]);
            assert(is_digit(decimal_text(v)[k - key.len()]) || decimal_text(v)[k - key.len()] == '-');
        }
    }
    assert(l.last() == decimal_text(v).last());
}

proof fn lemma_apply_none(f: FormModel)
    ensures
        apply_updates(f, Seq::<SettingUpdate>::empty()) == f,
{
}

proof fn lemma_apply_one(f: FormModel, a: SettingUpdate)
    ensures
        apply_updates(f, seq![a]) == apply_update(f, a),
{
    assert(seq![a].drop_first() =~= Seq::<SettingUpdate>::empty());
    assert(seq![a][0] == a);
    assert(apply_updates(apply_update(f, a), Seq::<SettingUpdate>::empty()) == apply_update(f, a));
}

proof fn lemma_apply_two(f: FormModel, a: SettingUpdate, b: SettingUpdate)
    ensures
        apply_updates(f, seq![a, b]) == apply_update(apply_update(f, a), b),
{
    assert(seq![a, b].drop_first() =~= seq![b]);
    assert(seq![a, b][0] == a);
    lemma_apply_one(apply_update(f, a), b);
}

proof fn lemma_apply_three(f: FormModel, a: SettingUpdate, b: SettingUpdate, c: SettingUpdate)
    ensures
        apply_updates(f, seq![a, b, c]) == apply_update(apply_update(apply_update(f, a), b), c),
{
    assert(seq![a, b, c].drop_first() =~= seq![b, c]);
    assert(seq![a, b, c][0] == a);
    lemma_apply_two(apply_update(f, a), b, c);
}

/// The form with only `check` ticked among the repeat-mode radio buttons.
spec fn with_repeat_mode(f: FormModel, check: i32) -> FormModel {
    FormModel {
        checks: f.checks.insert(IDC_RADIO_REPEAT_TIMES, check == IDC_RADIO_REPEAT_TIMES).insert(
            IDC_RADIO_REPEAT_TIME,
            check == IDC_RADIO_REPEAT_TIME,
        ).insert(IDC_RADIO_REPEAT_HOLD, check == IDC_RADIO_REPEAT_HOLD).insert(
            IDC_RADIO_REPEAT_UNTIL,
            check == IDC_RADIO_REPEAT_UNTIL,
        ),
        ..f
    }
}

proof fn lemma_apply_repeat_mode(f: FormModel, check: i32)
    ensures
        apply_updates(f, repeat_mode_updates(check)) == with_repeat_mode(f, check),
{
    let u = repeat_mode_updates(check);
    assert(u =~= seq![u[0], u[1]] + seq![u[2], u[3]]);
    lemma_apply_updates_concat(f, seq![u[0], u[1]], seq![u[2], u[3]]);
    lemma_apply_two(f, u[0], u[1]);
    lemma_apply_two(apply_update(apply_update(f, u[0]), u[1]), u[2], u[3]);
}

/// What loading line `i` of the settings file for `s` does.
spec fn expected_line_updates(s: Settings, i: int) -> Seq<SettingUpdate> {
    if i == 0 {
        seq![SettingUpdate::SetEditInt { control: IDC_EDIT_HOURS, value: s.interval_h }]
    } else if i == 1 {
        seq![SettingUpdate::SetEditInt { control: IDC_EDIT_MINS, value: s.interval_m }]
    } else if i == 2 {
        seq![SettingUpdate::SetEditInt { control: IDC_EDIT_SECS, value: s.interval_s }]
    } else if i == 3 {
        seq![SettingUpdate::SetEditInt { control: IDC_EDIT_MILLIS, value: s.interval_ms }]
    } else if i == 4 {
        seq![SettingUpdate::SetCheck { control: IDC_CHECK_RANDOM, checked: s.random_check }]
    } else if i == 5 {
        seq![SettingUpdate::SetEditInt { control: IDC_EDIT_RANDOM, value: s.random_val }]
    } else if i == 6 {
        seq![SettingUpdate::SetComboSelection { control: IDC_COMBO_MOUSE_BTN, index: s.mouse_btn as usize }]
    } else if i == 7 {
        seq![SettingUpdate::SetComboSelection { control: IDC_COMBO_CLICK_TYPE, index: s.click_type as usize }]
    } else if i == 8 {
        repeat_mode_updates(
            if s.repeat_check { IDC_RADIO_REPEAT_TIMES } else { IDC_RADIO_REPEAT_UNTIL },
        )
    } else if i == 9 {
        seq![SettingUpdate::SetEditInt { control: IDC_EDIT_REPEAT_COUNT, value: s.repeat_count }]
    } else if i == 10 {
        if s.repeat_time_check {
            repeat_mode_updates(IDC_RADIO_REPEAT_TIME)
        } else {
            Seq::<SettingUpdate>::empty()
        }
    } else if i == 11 {
        seq![SettingUpdate::SetEditFixed2 { control: IDC_EDIT_REPEAT_TIME, hundredths: hundredths_or_zero(s.repeat_time@) as i64 }]
    } else if i == 12 {
        if s.repeat_hold_check {
            repeat_mode_updates(IDC_RADIO_REPEAT_HOLD)
        } else {
            Seq::<SettingUpdate>::empty()
        }
    } else if i == 13 {
        seq![
            SettingUpdate::SetCheck { control: IDC_RADIO_POS_CURRENT, checked: !s.pos_fixed },
            SettingUpdate::SetCheck { control: IDC_RADIO_POS_PICK, checked: s.pos_fixed },
            SettingUpdate::EnableControl { control: IDC_BTN_PICK_LOC, enabled: s.pos_fixed },
        ]
    } else if i == 14 {
        seq![SettingUpdate::SetEditInt { control: IDC_EDIT_X, value: s.pos_x }]
    } else if i == 15 {
        seq![SettingUpdate::SetEditInt { control: IDC_EDIT_Y, value: s.pos_y }]
    } else if i == 16 {
        seq![SettingUpdate::SetHotkeyVk { vk: s.hotkey_vk }]
    } else if i == 17 {
        seq![SettingUpdate::SetHotkeyModifiers { modifiers: s.hotkey_mods }]
    } else if i == 18 {
        seq![SettingUpdate::SetSuppressAdminPopup { suppress: s.suppress_admin_popup }]
    } else {
        seq![SettingUpdate::SetSafetyDisable { enabled: s.safety_disable_enabled }]
    }
}

#[verifier::spinoff_prover]
#[verifier::rlimit(40)]
proof fn lemma_setting_line_first_half(s: Settings, i: int)
    requires
        0 <= i < 10,
        i32::MIN <= s.mouse_btn <= i32::MAX,
        i32::MIN <= s.click_type <= i32::MAX,
        s.hotkey_mods <= i32::MAX,
        forall|k: int| 0 <= k < s.repeat_time@.len() ==> s.repeat_time@[k] != '\n',
        s.repeat_time@.len() == 0 || s.repeat_time@.last() != '\r',
    ensures
        line_updates(settings_line(s, i)) == expected_line_updates(s, i),
        plain_line(settings_line(s, i)),
{
    if i == 0 {
        lemma_parse_decimal_text((s.interval_h as int) as i32);
        lemma_key_interval_h(value_or_zero(decimal_text(s.interval_h as int)), decimal_text(s.interval_h as int));
        reveal_strlit("IntervalH=");
        lemma_number_line_plain("IntervalH="@, s.interval_h as int);
    } else if i == 1 {
        lemma_parse_decimal_text((s.interval_m as int) as i32);
        lemma_key_interval_m(value_or_zero(decimal_text(s.interval_m as int)), decimal_text(s.interval_m as int));
        reveal_strlit("IntervalM=");
        lemma_number_line_plain("IntervalM="@, s.interval_m as int);
    } else if i == 2 {
        lemma_parse_decimal_text((s.interval_s as int) as i32);
        lemma_key_interval_s(value_or_zero(decimal_text(s.interval_s as int)), decimal_text(s.interval_s as int));
        reveal_strlit("IntervalS=");
        lemma_number_line_plain("IntervalS="@, s.interval_s as int);
    } else if i == 3 {
        lemma_parse_decimal_text((s.interval_ms as int) as i32);
        lemma_key_interval_ms(value_or_zero(decimal_text(s.interval_ms as int)), decimal_text(s.interval_ms as int));
        reveal_strlit("IntervalMs=");
        lemma_number_line_plain("IntervalMs="@, s.interval_ms as int);
    } else if i == 4 {
        lemma_parse_decimal_text((flag_value(s.random_check)) as i32);
        lemma_key_random_check(value_or_zero(decimal_text(flag_value(s.random_check))), decimal_text(flag_value(s.random_check)));
        reveal_strlit("RandomCheck=");
        lemma_number_line_plain("RandomCheck="@, flag_value(s.random_check));
    } else if i == 5 {
        lemma_parse_decimal_text((s.random_val as int) as i32);
        lemma_key_random_val(value_or_zero(decimal_text(s.random_val as int)), decimal_text(s.random_val as int));
        reveal_strlit("RandomVal=");
        lemma_number_line_plain("RandomVal="@, s.random_val as int);
    } else if i == 6 {
        lemma_parse_decimal_text((s.mouse_btn as int) as i32);
        lemma_key_mouse_btn(value_or_zero(decimal_text(s.mouse_btn as int)), decimal_text(s.mouse_btn as int));
        reveal_strlit("MouseBtn=");
        lemma_number_line_plain("MouseBtn="@, s.mouse_btn as int);
    } else if i == 7 {
        lemma_parse_decimal_text((s.click_type as int) as i32);
        lemma_key_click_type(value_or_zero(decimal_text(s.click_type as int)), decimal_text(s.click_type as int));
        reveal_strlit("ClickType=");
        lemma_number_line_plain("ClickType="@, s.click_type as int);
    } else if i == 8 {
        lemma_parse_decimal_text((flag_value(s.repeat_check)) as i32);
        lemma_key_repeat_check(value_or_zero(decimal_text(flag_value(s.repeat_check))), decimal_text(flag_value(s.repeat_check)));
        reveal_strlit("RepeatCheck=");
        lemma_number_line_plain("RepeatCheck="@, flag_value(s.repeat_check));
    } else if i == 9 {
        lemma_parse_decimal_text((s.repeat_count as int) as i32);
        lemma_key_repeat_count(value_or_zero(decimal_text(s.repeat_count as int)), decimal_text(s.repeat_count as int));
        reveal_strlit("RepeatCount=");
        lemma_number_line_plain("RepeatCount="@, s.repeat_count as int);
    }
}

#[verifier::spinoff_prover]
#[verifier::rlimit(40)]
proof fn lemma_setting_line_second_half(s: Settings, i: int)
    requires
        10 <= i < 20,
        i32::MIN <= s.mouse_btn <= i32::MAX,
        i32::MIN <= s.click_type <= i32::MAX,
        s.hotkey_mods <= i32::MAX,
        forall|k: int| 0 <= k < s.repeat_time@.len() ==> s.repeat_time@[k] != '\n',
        s.repeat_time@.len() == 0 || s.repeat_time@.last() != '\r',
    ensures
        line_updates(settings_line(s, i)) == expected_line_updates(s, i),
        plain_line(settings_line(s, i)),
{
    if i == 10 {
        lemma_parse_decimal_text((flag_value(s.repeat_time_check)) as i32);
        lemma_key_repeat_time_check(value_or_zero(decimal_text(flag_value(s.repeat_time_check))), decimal_text(flag_value(s.repeat_time_check)));
        reveal_strlit("RepeatTimeCheck=");
        lemma_number_line_plain("RepeatTimeCheck="@, flag_value(s.repeat_time_check));
    } else if i == 11 {
        lemma_key_repeat_time(value_or_zero(s.repeat_time@), s.repeat_time@);
    } else if i == 12 {
        lemma_parse_decimal_text((flag_value(s.repeat_hold_check)) as i32);
        lemma_key_repeat_hold_check(value_or_zero(decimal_text(flag_value(s.repeat_hold_check))), decimal_text(flag_value(s.repeat_hold_check)));
        reveal_strlit("RepeatHoldCheck=");
        lemma_number_line_plain("RepeatHoldCheck="@, flag_value(s.repeat_hold_check));
    } else if i == 13 {
        lemma_parse_decimal_text((flag_value(s.pos_fixed)) as i32);
        lemma_key_pos_fixed(value_or_zero(decimal_text(flag_value(s.pos_fixed))), decimal_text(flag_value(s.pos_fixed)));
        reveal_strlit("PosFixed=");
        lemma_number_line_plain("PosFixed="@, flag_value(s.pos_fixed));
    } else if i == 14 {
        lemma_parse_decimal_text((s.pos_x as int) as i32);
        lemma_key_pos_x(value_or_zero(decimal_text(s.pos_x as int)), decimal_text(s.pos_x as int));
        reveal_strlit("PosX=");
        lemma_number_line_plain("PosX="@, s.pos_x as int);
    } else if i == 15 {
        lemma_parse_decimal_text((s.pos_y as int) as i32);
        lemma_key_pos_y(value_or_zero(decimal_text(s.pos_y as int)), decimal_text(s.pos_y as int));
        reveal_strlit("PosY=");
        lemma_number_line_plain("PosY="@, s.pos_y as int);
    } else if i == 16 {
        lemma_parse_decimal_text((s.hotkey_vk as int) as i32);
        lemma_key_hotkey_vk(value_or_zero(decimal_text(s.hotkey_vk as int)), decimal_text(s.hotkey_vk as int));
        reveal_strlit("HotkeyVk=");
        lemma_number_line_plain("HotkeyVk="@, s.hotkey_vk as int);
    } else if i == 17 {
        lemma_parse_decimal_text((s.hotkey_mods as int) as i32);
        lemma_key_hotkey_mods(value_or_zero(decimal_text(s.hotkey_mods as int)), decimal_text(s.hotkey_mods as int));
        reveal_strlit("HotkeyMods=");
        lemma_number_line_plain("HotkeyMods="@, s.hotkey_mods as int);
    } else if i == 18 {
        lemma_parse_decimal_text((flag_value(s.suppress_admin_popup)) as i32);
        lemma_key_suppress_admin_popup(value_or_zero(decimal_text(flag_value(s.suppress_admin_popup))), decimal_text(flag_value(s.suppress_admin_popup)));
        reveal_strlit("SuppressAdminPopup=");
        lemma_number_line_plain("SuppressAdminPopup="@, flag_value(s.suppress_admin_popup));
    } else {
        lemma_parse_decimal_text((flag_value(s.safety_disable_enabled)) as i32);
        lemma_key_safety_disable_enabled(value_or_zero(decimal_text(flag_value(s.safety_disable_enabled))), decimal_text(flag_value(s.safety_disable_enabled)));
        reveal_strlit("SafetyDisableEnabled=");
        lemma_number_line_plain("SafetyDisableEnabled="@, flag_value(s.safety_disable_enabled));
    }
    if i == 11 {
        reveal_strlit("RepeatTime=");
        let l = settings_line(s, i);
        let key = "RepeatTime="@;
        assert forall|j: int| 0 <= j < l.len() implies l[j] != '\n' by {
            if j >= key.len() {
                assert(l[j] == s.repeat_time@[j - key.len()]);
            }
        }
        if s.repeat_time@.len() > 0 {
            assert(l.last() == s.repeat_time@.last());
        }
    }
}

proof fn lemma_setting_line(s: Settings, i: int)
    requires
        0 <= i < 20,
        i32::MIN <= s.mouse_btn <= i32::MAX,
        i32::MIN <= s.click_type <= i32::MAX,
        s.hotkey_mods <= i32::MAX,
        forall|k: int| 0 <= k < s.repeat_time@.len() ==> s.repeat_time@[k] != '\n',
        s.repeat_time@.len() == 0 || s.repeat_time@.last() != '\r',
    ensures
        line_updates(settings_line(s, i)) == expected_line_updates(s, i),
        plain_line(settings_line(s, i)),
{
    if i < 10 {
        lemma_setting_line_first_half(s, i);
    } else {
        lemma_setting_line_second_half(s, i);
    }
}

proof fn lemma_lines_of_joined(ls: Seq<Seq<char>>)
    requires
        forall|i: int| 0 <= i < ls.len() ==> plain_line(#[trigger] ls[i]),
    ensures
        text_lines(joined_lines(ls)) == ls,
    decreases ls.len(),
{
    reveal(joined_lines);
    if ls.len() == 0 {
        assert(text_lines(joined_lines(ls)) =~= ls);
    } else {
        let init = ls.drop_last();
        assert forall|i: int| 0 <= i < init.len() implies plain_line(#[trigger] init[i]) by {
            assert(init[i] == ls[i]);
        }
        lemma_lines_of_joined(init);
        assert(plain_line(ls[ls.len() - 1]));
        let j = joined_lines(init);
        if j.len() > 0 {
            assert(init.len() > 0);
            assert(j.last() == '\n');
        }
        lemma_lines_snoc(j, ls.last());
        assert(init.push(ls.last()) =~= ls);
    }
}

/// At most one repeat mode is ticked, as in the form, whose repeat-mode
/// radio buttons form one group.
pub open spec fn one_repeat_mode(s: Settings) -> bool {
    &&& s.repeat_check ==> !s.repeat_time_check && !s.repeat_hold_check
    &&& s.repeat_time_check ==> !s.repeat_hold_check
}

/// Settings written to the file and read back restore the form: each edit
/// box shows its number again, the check boxes, the position radio buttons,
/// the combo boxes, hotkey and options come back as they were, the
/// repeat-mode radio group comes back with the saved mode ticked ("repeat
/// until stopped" where none of the three others was), and the repeat time
/// comes back, with two decimals, as the hundredths that its text spells (0
/// where it spells none; see `lemma_repeat_time_reads_back`). The combo selections and the hotkey modifiers
/// must fit an `i32`, and the repeat-time text must be a single line.
#[verifier::rlimit(100)]
#[verifier::spinoff_prover]
pub proof fn lemma_settings_round_trip(s: Settings, f: FormModel)
    requires
        i32::MIN <= s.mouse_btn <= i32::MAX,
        i32::MIN <= s.click_type <= i32::MAX,
        s.hotkey_mods <= i32::MAX,
        forall|k: int| 0 <= k < s.repeat_time@.len() ==> s.repeat_time@[k] != '\n',
        s.repeat_time@.len() == 0 || s.repeat_time@.last() != '\r',
    ensures
        ({
            let g = apply_updates(f, settings_updates(settings_text(s)));
            &&& g.edits[IDC_EDIT_HOURS] == decimal_text(s.interval_h as int)
            &&& g.edits[IDC_EDIT_MINS] == decimal_text(s.interval_m as int)
            &&& g.edits[IDC_EDIT_SECS] == decimal_text(s.interval_s as int)
            &&& g.edits[IDC_EDIT_MILLIS] == decimal_text(s.interval_ms as int)
            &&& g.edits[IDC_EDIT_RANDOM] == decimal_text(s.random_val as int)
            &&& g.edits[IDC_EDIT_REPEAT_COUNT] == decimal_text(s.repeat_count as int)
            &&& g.edits[IDC_EDIT_REPEAT_TIME] == fixed2_text(hundredths_or_zero(s.repeat_time@))
            &&& g.edits[IDC_EDIT_X] == decimal_text(s.pos_x as int)
            &&& g.edits[IDC_EDIT_Y] == decimal_text(s.pos_y as int)
            &&& g.checks[IDC_CHECK_RANDOM] == s.random_check
            &&& g.combos[IDC_COMBO_MOUSE_BTN] == s.mouse_btn as usize
            &&& g.combos[IDC_COMBO_CLICK_TYPE] == s.click_type as usize
            &&& one_repeat_mode(s) ==> {
                &&& g.checks[IDC_RADIO_REPEAT_TIMES] == s.repeat_check
                &&& g.checks[IDC_RADIO_REPEAT_TIME] == s.repeat_time_check
                &&& g.checks[IDC_RADIO_REPEAT_HOLD] == s.repeat_hold_check
                &&& g.checks[IDC_RADIO_REPEAT_UNTIL] == !(s.repeat_check || s.repeat_time_check
                    || s.repeat_hold_check)
            }
            &&& g.checks[IDC_RADIO_POS_CURRENT] == !s.pos_fixed
            &&& g.checks[IDC_RADIO_POS_PICK] == s.pos_fixed
            &&& g.enabled[IDC_BTN_PICK_LOC] == s.pos_fixed
            &&& g.hotkey_vk == s.hotkey_vk
            &&& g.hotkey_mods == s.hotkey_mods
            &&& g.suppress_admin_popup == s.suppress_admin_popup
            &&& g.safety_disable_enabled == s.safety_disable_enabled
        }),
{
    let ls = settings_lines(s);
    assert forall|i: int| 0 <= i < ls.len() implies plain_line(#[trigger] ls[i]) by {
        lemma_setting_line(s, i);
    }
    lemma_lines_of_joined(ls);
    assert(ls.take(0) =~= Seq::<Seq<char>>::empty());
    assert(ls.take(20) =~= ls);
    lemma_apply_none(f);
    let st0 = f;
    let st1 = apply_update(st0, SettingUpdate::SetEditInt { control: IDC_EDIT_HOURS, value: s.interval_h });
    assert(apply_updates(f, updates_of_lines(ls.take(1))) == st1) by {
        lemma_apply_next_line(f, ls, 0);
        lemma_setting_line(s, 0);
        lemma_apply_one(st0, SettingUpdate::SetEditInt { control: IDC_EDIT_HOURS, value: s.interval_h });
    }
    let st2 = apply_update(st1, SettingUpdate::SetEditInt { control: IDC_EDIT_MINS, value: s.interval_m });
    assert(apply_updates(f, updates_of_lines(ls.take(2))) == st2) by {
        lemma_apply_next_line(f, ls, 1);
        lemma_setting_line(s, 1);
        lemma_apply_one(st1, SettingUpdate::SetEditInt { control: IDC_EDIT_MINS, value: s.interval_m });
    }
    let st3 = apply_update(st2, SettingUpdate::SetEditInt { control: IDC_EDIT_SECS, value: s.interval_s });
    assert(apply_updates(f, updates_of_lines(ls.take(3))) == st3) by {
        lemma_apply_next_line(f, ls, 2);
        lemma_setting_line(s, 2);
        lemma_apply_one(st2, SettingUpdate::SetEditInt { control: IDC_EDIT_SECS, value: s.interval_s });
    }
    let st4 = apply_update(st3, SettingUpdate::SetEditInt { control: IDC_EDIT_MILLIS, value: s.interval_ms });
    assert(apply_updates(f, updates_of_lines(ls.take(4))) == st4) by {
        lemma_apply_next_line(f, ls, 3);
        lemma_setting_line(s, 3);
        lemma_apply_one(st3, SettingUpdate::SetEditInt { control: IDC_EDIT_MILLIS, value: s.interval_ms });
    }
    let st5 = apply_update(st4, SettingUpdate::SetCheck { control: IDC_CHECK_RANDOM, checked: s.random_check });
    assert(apply_updates(f, updates_of_lines(ls.take(5))) == st5) by {
        lemma_apply_next_line(f, ls, 4);
        lemma_setting_line(s, 4);
        lemma_apply_one(st4, SettingUpdate::SetCheck { control: IDC_CHECK_RANDOM, checked: s.random_check });
    }
    let st6 = apply_update(st5, SettingUpdate::SetEditInt { control: IDC_EDIT_RANDOM, value: s.random_val });
    assert(apply_updates(f, updates_of_lines(ls.take(6))) == st6) by {
        lemma_apply_next_line(f, ls, 5);
        lemma_setting_line(s, 5);
        lemma_apply_one(st5, SettingUpdate::SetEditInt { control: IDC_EDIT_RANDOM, value: s.random_val });
    }
    let st7 = apply_update(st6, SettingUpdate::SetComboSelection { control: IDC_COMBO_MOUSE_BTN, index: s.mouse_btn as usize });
    assert(apply_updates(f, updates_of_lines(ls.take(7))) == st7) by {
        lemma_apply_next_line(f, ls, 6);
        lemma_setting_line(s, 6);
        lemma_apply_one(st6, SettingUpdate::SetComboSelection { control: IDC_COMBO_MOUSE_BTN, index: s.mouse_btn as usize });
    }
    let st8 = apply_update(st7, SettingUpdate::SetComboSelection { control: IDC_COMBO_CLICK_TYPE, index: s.click_type as usize });
    assert(apply_updates(f, updates_of_lines(ls.take(8))) == st8) by {
        lemma_apply_next_line(f, ls, 7);
        lemma_setting_line(s, 7);
        lemma_apply_one(st7, SettingUpdate::SetComboSelection { control: IDC_COMBO_CLICK_TYPE, index: s.click_type as usize });
    }
    let mode9 = if s.repeat_check { IDC_RADIO_REPEAT_TIMES } else { IDC_RADIO_REPEAT_UNTIL };
    let st9 = with_repeat_mode(st8, mode9);
    assert(apply_updates(f, updates_of_lines(ls.take(9))) == st9) by {
        lemma_apply_next_line(f, ls, 8);
        lemma_setting_line(s, 8);
        lemma_apply_repeat_mode(st8, mode9);
    }
    let st10 = apply_update(st9, SettingUpdate::SetEditInt { control: IDC_EDIT_REPEAT_COUNT, value: s.repeat_count });
    assert(apply_updates(f, updates_of_lines(ls.take(10))) == st10) by {
        lemma_apply_next_line(f, ls, 9);
        lemma_setting_line(s, 9);
        lemma_apply_one(st9, SettingUpdate::SetEditInt { control: IDC_EDIT_REPEAT_COUNT, value: s.repeat_count });
    }
    let st11 = if s.repeat_time_check { with_repeat_mode(st10, IDC_RADIO_REPEAT_TIME) } else { st10 };
    assert(apply_updates(f, updates_of_lines(ls.take(11))) == st11) by {
        lemma_apply_next_line(f, ls, 10);
        lemma_setting_line(s, 10);
        lemma_apply_none(st10);
        lemma_apply_repeat_mode(st10, IDC_RADIO_REPEAT_TIME);
    }
    let st12 = apply_update(st11, SettingUpdate::SetEditFixed2 { control: IDC_EDIT_REPEAT_TIME, hundredths: hundredths_or_zero(s.repeat_time@) as i64 });
    assert(apply_updates(f, updates_of_lines(ls.take(12))) == st12) by {
        lemma_apply_next_line(f, ls, 11);
        lemma_setting_line(s, 11);
        lemma_apply_one(st11, SettingUpdate::SetEditFixed2 { control: IDC_EDIT_REPEAT_TIME, hundredths: hundredths_or_zero(s.repeat_time@) as i64 });
    }
    let st13 = if s.repeat_hold_check { with_repeat_mode(st12, IDC_RADIO_REPEAT_HOLD) } else { st12 };
    assert(apply_updates(f, updates_of_lines(ls.take(13))) == st13) by {
        lemma_apply_next_line(f, ls, 12);
        lemma_setting_line(s, 12);
        lemma_apply_none(st12);
        lemma_apply_repeat_mode(st12, IDC_RADIO_REPEAT_HOLD);
    }
    let st14 = apply_update(apply_update(apply_update(st13, SettingUpdate::SetCheck { control: IDC_RADIO_POS_CURRENT, checked: !s.pos_fixed }), SettingUpdate::SetCheck { control: IDC_RADIO_POS_PICK, checked: s.pos_fixed }), SettingUpdate::EnableControl { control: IDC_BTN_PICK_LOC, enabled: s.pos_fixed });
    assert(apply_updates(f, updates_of_lines(ls.take(14))) == st14) by {
        lemma_apply_next_line(f, ls, 13);
        lemma_setting_line(s, 13);
        lemma_apply_three(st13, SettingUpdate::SetCheck { control: IDC_RADIO_POS_CURRENT, checked: !s.pos_fixed }, SettingUpdate::SetCheck { control: IDC_RADIO_POS_PICK, checked: s.pos_fixed }, SettingUpdate::EnableControl { control: IDC_BTN_PICK_LOC, enabled: s.pos_fixed });
    }
    let st15 = apply_update(st14, SettingUpdate::SetEditInt { control: IDC_EDIT_X, value: s.pos_x });
    assert(apply_updates(f, updates_of_lines(ls.take(15))) == st15) by {
        lemma_apply_next_line(f, ls, 14);
        lemma_setting_line(s, 14);
        lemma_apply_one(st14, SettingUpdate::SetEditInt { control: IDC_EDIT_X, value: s.pos_x });
    }
    let st16 = apply_update(st15, SettingUpdate::SetEditInt { control: IDC_EDIT_Y, value: s.pos_y });
    assert(apply_updates(f, updates_of_lines(ls.take(16))) == st16) by {
        lemma_apply_next_line(f, ls, 15);
        lemma_setting_line(s, 15);
        lemma_apply_one(st15, SettingUpdate::SetEditInt { control: IDC_EDIT_Y, value: s.pos_y });
    }
    let st17 = apply_update(st16, SettingUpdate::SetHotkeyVk { vk: s.hotkey_vk });
    assert(apply_updates(f, updates_of_lines(ls.take(17))) == st17) by {
        lemma_apply_next_line(f, ls, 16);
        lemma_setting_line(s, 16);
        lemma_apply_one(st16, SettingUpdate::SetHotkeyVk { vk: s.hotkey_vk });
    }
    let st18 = apply_update(st17, SettingUpdate::SetHotkeyModifiers { modifiers: s.hotkey_mods });
    assert(apply_updates(f, updates_of_lines(ls.take(18))) == st18) by {
        lemma_apply_next_line(f, ls, 17);
        lemma_setting_line(s, 17);
        lemma_apply_one(st17, SettingUpdate::SetHotkeyModifiers { modifiers: s.hotkey_mods });
    }
    let st19 = apply_update(st18, SettingUpdate::SetSuppressAdminPopup { suppress: s.suppress_admin_popup });
    assert(apply_updates(f, updates_of_lines(ls.take(19))) == st19) by {
        lemma_apply_next_line(f, ls, 18);
        lemma_setting_line(s, 18);
        lemma_apply_one(st18, SettingUpdate::SetSuppressAdminPopup { suppress: s.suppress_admin_popup });
    }
    let st20 = apply_update(st19, SettingUpdate::SetSafetyDisable { enabled: s.safety_disable_enabled });
    assert(apply_updates(f, updates_of_lines(ls.take(20))) == st20) by {
        lemma_apply_next_line(f, ls, 19);
        lemma_setting_line(s, 19);
        lemma_apply_one(st19, SettingUpdate::SetSafetyDisable { enabled: s.safety_disable_enabled });
    }
    assert(apply_updates(f, settings_updates(settings_text(s))) == st20);
}

/// The numbers of settings written to the file and read back are read from
/// the edit boxes as the numbers that were saved.
pub proof fn lemma_saved_numbers_read_back(s: Settings, f: FormModel)
    requires
        i32::MIN <= s.mouse_btn <= i32::MAX,
        i32::MIN <= s.click_type <= i32::MAX,
        s.hotkey_mods <= i32::MAX,
        forall|k: int| 0 <= k < s.repeat_time@.len() ==> s.repeat_time@[k] != '\n',
        s.repeat_time@.len() == 0 || s.repeat_time@.last() != '\r',
    ensures
        ({
            let g = apply_updates(f, settings_updates(settings_text(s)));
            &&& edit_int(g.edits[IDC_EDIT_HOURS]) == s.interval_h
            &&& edit_int(g.edits[IDC_EDIT_MINS]) == s.interval_m
            &&& edit_int(g.edits[IDC_EDIT_SECS]) == s.interval_s
            &&& edit_int(g.edits[IDC_EDIT_MILLIS]) == s.interval_ms
            &&& edit_int(g.edits[IDC_EDIT_RANDOM]) == s.random_val
            &&& edit_int(g.edits[IDC_EDIT_REPEAT_COUNT]) == s.repeat_count
            &&& edit_int(g.edits[IDC_EDIT_X]) == s.pos_x
            &&& edit_int(g.edits[IDC_EDIT_Y]) == s.pos_y
        }),
{
    lemma_settings_round_trip(s, f);
    lemma_edit_int_of_decimal_text(s.interval_h);
    lemma_edit_int_of_decimal_text(s.interval_m);
    lemma_edit_int_of_decimal_text(s.interval_s);
    lemma_edit_int_of_decimal_text(s.interval_ms);
    lemma_edit_int_of_decimal_text(s.random_val);
    lemma_edit_int_of_decimal_text(s.repeat_count);
    lemma_edit_int_of_decimal_text(s.pos_x);
    lemma_edit_int_of_decimal_text(s.pos_y);
}

} // verus!
