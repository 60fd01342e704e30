//! Windows backend decisions: decoding the low-level mouse hook's wheel data,
//! what the hook and the tray window do with each message, the tray menu, the
//! keystrokes a volume step becomes, and keeping the live accumulator in step
//! with the live configuration.
use crate::config::{build_accumulator, fresh_state, Config, GeneralConfig, LinuxConfig, WheelConfig};
use crate::text::{decimal, decimal_text, utf16, utf16_units};
use crate::wheel::{repeat_step, VolumeStep, WheelAccumulator, WheelConfigError, WheelState};
use vstd::prelude::*;

verus! {

/// `WHEEL_DELTA`: wheel units per physical notch.
pub const WHEEL_DELTA_UNITS: i32 = 120;

/// The signed high word of `mouseData`.
pub open spec fn signed_high_word(mouse_data: u32) -> int {
    let hi = mouse_data as int / 0x10000;
    if hi >= 0x8000 {
        hi - 0x10000
    } else {
        hi
    }
}

/// `a / b` rounded toward zero, as Rust's integer division does.
pub open spec fn div_toward_zero(a: int, b: int) -> int {
    if a >= 0 {
        a / b
    } else {
        -((-a) / b)
    }
}

/// The wheel delta of a `WM_MOUSEHWHEEL` hook's `mouseData`, in notches
/// (1 == one physical detent); the low word is ignored.
pub open spec fn mouse_data_notches(mouse_data: u32) -> int {
    div_toward_zero(signed_high_word(mouse_data), WHEEL_DELTA_UNITS as int)
}

/// Extracts the signed wheel delta from a `WM_MOUSEHWHEEL` hook's
/// `mouseData`, normalized to notch units.
pub fn decode_notches(mouse_data: u32) -> (notches: i32)
    ensures
        notches == mouse_data_notches(mouse_data),
{
    let high: u32 = mouse_data >> 16;
    assert(high == mouse_data / 0x10000) by (bit_vector)
        requires
            high == mouse_data >> 16,
    ;
    let raw = high as i16 as i32;
    assert(raw == (if high >= 0x8000 { high - 0x10000 } else { high as int })) by (bit_vector)
        requires
            high < 0x10000,
            raw == high as i16 as i32,
    ;
    let notches = raw / WHEEL_DELTA_UNITS;
    assert(notches == div_toward_zero(raw as int, 120));
    notches
}

/// Only the high word of `mouseData` carries the wheel delta: whatever the
/// low word holds (button or extra-info bits some drivers set), the decoded
/// notches are the same.
pub proof fn lemma_low_word_ignored(a: u32, b: u32)
    requires
        a as int / 0x10000 == b as int / 0x10000,
    ensures
        mouse_data_notches(a) == mouse_data_notches(b),
{
}

/// A delta of `k` whole notches (`k * WHEEL_DELTA` in the high word) decodes
/// to exactly `k`, in either direction.
pub proof fn lemma_whole_notches_decode(k: int, low: int)
    requires
        -273 <= k <= 273,
        0 <= low < 0x10000,
    ensures
        ({
            let high = if k >= 0 { k * 120 } else { 0x10000 + k * 120 };
            mouse_data_notches((high * 0x10000 + low) as u32) == k
        }),
{
    let high = if k >= 0 { k * 120 } else { 0x10000 + k * 120 };
    let md = high * 0x10000 + low;
    assert(0 <= high < 0x10000);
    assert(0 <= md < 0x1_0000_0000) by (nonlinear_arith)
        requires md == high * 0x10000 + low, 0 <= high < 0x10000, 0 <= low < 0x10000;
    vstd::arithmetic::div_mod::lemma_fundamental_div_mod_converse(md, 0x10000, high, low);
    assert((md as u32) as int == md);
    assert(signed_high_word(md as u32) == k * 120);
    if k >= 0 {
        vstd::arithmetic::div_mod::lemma_fundamental_div_mod_converse(k * 120, 120, k, 0);
    } else {
        vstd::arithmetic::div_mod::lemma_fundamental_div_mod_converse(-(k * 120), 120, -k, 0);
    }
}

/// `WM_MOUSEHWHEEL`.
pub const WM_MOUSEHWHEEL: u32 = 0x020E;

/// `WM_DESTROY`.
pub const WM_DESTROY: u32 = 0x0002;

/// `WM_COMMAND`.
pub const WM_COMMAND: u32 = 0x0111;

/// `WM_LBUTTONUP`.
pub const WM_LBUTTONUP: u32 = 0x0202;

/// `WM_RBUTTONUP`.
pub const WM_RBUTTONUP: u32 = 0x0205;

/// `WM_APP`, the first message number free for the application.
pub const WM_APP: u32 = 0x8000;

/// Sent by the tray icon; `lparam` is the mouse message that triggered it.
pub const WM_TRAYICON: u32 = WM_APP + 1;

/// Posted by the mouse hook to defer the actual key injection out of the
/// hook callback: `wparam` = 1 for up, 0 for down; `lparam` = step count.
pub const WM_VOLUME_STEPS: u32 = WM_APP + 2;

pub const ID_MENU_RELOAD: usize = 1;

pub const ID_MENU_ABOUT: usize = 2;

pub const ID_MENU_EXIT: usize = 3;

pub const ID_MENU_INVERT: usize = 4;

/// Sensitivity preset `n` (1..=SENSITIVITY_MAX) is menu id `ID_SENSITIVITY_BASE + n`.
pub const ID_SENSITIVITY_BASE: usize = 10;

pub const SENSITIVITY_MAX: i32 = 5;

pub const ID_SENSITIVITY_MIN_ID: usize = 11;

pub const ID_SENSITIVITY_MAX_ID: usize = 15;

/// `VK_VOLUME_DOWN`.
pub const VK_VOLUME_DOWN: u16 = 0xAE;

/// `VK_VOLUME_UP`.
pub const VK_VOLUME_UP: u16 = 0xAF;

/// `KEYEVENTF_KEYUP`.
pub const KEYEVENTF_KEYUP: u32 = 0x0002;

/// Whether the low-level mouse hook handles (and swallows) this event: a
/// horizontal-wheel message with a non-negative hook code. Any other event is
/// passed on to the next hook.
pub fn hook_intercepts(code: i32, wparam: usize) -> (r: bool)
    ensures
        r == (code >= 0 && wparam as u32 == WM_MOUSEHWHEEL),
{
    code >= 0 && wparam as u32 == WM_MOUSEHWHEEL
}

/// Steps for the tray window to send: `count` presses, all up or all down.
#[derive(Debug, Clone, Copy, PartialEq, Eq)]
pub struct StepBatch {
    pub up: bool,
    pub count: usize,
}

/// The batch that stands for `steps`, when there are any.
pub open spec fn batch_of(steps: Seq<VolumeStep>) -> Option<StepBatch> {
    if steps.len() == 0 {
        None
    } else {
        Some(StepBatch { up: steps[0] == VolumeStep::Up, count: steps.len() as usize })
    }
}

/// The direction a batch's `up` flag names.
pub open spec fn batch_step(up: bool) -> VolumeStep {
    if up {
        VolumeStep::Up
    } else {
        VolumeStep::Down
    }
}

/// Feeds the wheel delta of an intercepted hook event to the accumulator and
/// returns the steps to post to the tray window. A delta of zero notches is
/// not fed. The batch stands for every step of the feed, since one feed only
/// ever goes one way.
pub fn wheel_step_batch(acc: &mut WheelAccumulator, mouse_data: u32) -> (batch: Option<StepBatch>)
    ensures
        mouse_data_notches(mouse_data) == 0 ==> batch is None && final(acc)@ == old(acc)@,
        mouse_data_notches(mouse_data) != 0 ==> {
            &&& final(acc)@ == old(acc)@.after(mouse_data_notches(mouse_data))
            &&& batch == batch_of(old(acc)@.steps(mouse_data_notches(mouse_data)))
        },
        batch matches Some(b) ==> old(acc)@.steps(mouse_data_notches(mouse_data)) == repeat_step(
            batch_step(b.up),
            b.count as nat,
        ),
{
    let notches = decode_notches(mouse_data);
    if notches == 0 {
        return None;
    }
    let steps = acc.feed(notches);
    if steps.len() == 0 {
        None
    } else {
        let up = match steps[0] {
            VolumeStep::Up => true,
            VolumeStep::Down => false,
        };
        proof {
            assert(steps@ =~= repeat_step(batch_step(up), steps.len() as nat));
        }
        Some(StepBatch { up, count: steps.len() })
    }
}

/// A tray-menu command.
#[derive(Debug, Clone, Copy, PartialEq, Eq)]
pub enum MenuCommand {
    Reload,
    About,
    ToggleInvert,
    Exit,
    SetSensitivity(i32),
}

/// The command a menu item id stands for.
pub open spec fn command_of_id(id: usize) -> Option<MenuCommand> {
    if id == ID_MENU_RELOAD {
        Some(MenuCommand::Reload)
    } else if id == ID_MENU_ABOUT {
        Some(MenuCommand::About)
    } else if id == ID_MENU_INVERT {
        Some(MenuCommand::ToggleInvert)
    } else if id == ID_MENU_EXIT {
        Some(MenuCommand::Exit)
    } else if ID_SENSITIVITY_MIN_ID <= id <= ID_SENSITIVITY_MAX_ID {
        Some(MenuCommand::SetSensitivity((id - ID_SENSITIVITY_BASE) as i32))
    } else {
        None
    }
}

/// The command of a `WM_COMMAND` message: its item id is the low word of
/// `wparam`.
pub fn menu_command(wparam: usize) -> (r: Option<MenuCommand>)
    ensures
        r == command_of_id(wparam & 0xFFFF),
        wparam & 0xFFFF == 1 ==> r == Some(MenuCommand::Reload),
        wparam & 0xFFFF == 2 ==> r == Some(MenuCommand::About),
        wparam & 0xFFFF == 3 ==> r == Some(MenuCommand::Exit),
        wparam & 0xFFFF == 4 ==> r == Some(MenuCommand::ToggleInvert),
        11 <= wparam & 0xFFFF <= 15 ==> r == Some(
            MenuCommand::SetSensitivity(((wparam & 0xFFFF) - 10) as i32),
        ),
        (wparam & 0xFFFF == 0 || wparam & 0xFFFF > 15 || 5 <= wparam & 0xFFFF <= 10) ==> r is None,
{
    let id = wparam & 0xFFFF;
    if id == ID_MENU_RELOAD {
        Some(MenuCommand::Reload)
    } else if id == ID_MENU_ABOUT {
        Some(MenuCommand::About)
    } else if id == ID_MENU_INVERT {
        Some(MenuCommand::ToggleInvert)
    } else if id == ID_MENU_EXIT {
        Some(MenuCommand::Exit)
    } else if ID_SENSITIVITY_MIN_ID <= id && id <= ID_SENSITIVITY_MAX_ID {
        Some(MenuCommand::SetSensitivity((id - ID_SENSITIVITY_BASE) as i32))
    } else {
        None
    }
}

/// Every item of the sensitivity submenu maps back to its own level: the
/// menu id of preset `level` is the command that sets sensitivity `level`.
pub proof fn lemma_sensitivity_ids_round_trip(level: i32)
    requires
        1 <= level <= SENSITIVITY_MAX,
    ensures
        command_of_id((ID_SENSITIVITY_BASE + level) as usize) == Some(MenuCommand::SetSensitivity(level)),
        command_of_id((10 + level) as usize) == Some(MenuCommand::SetSensitivity(level)),
{
}

/// What the tray window does with a message.
#[derive(Debug, Clone, Copy, PartialEq, Eq)]
pub enum WindowAction {
    /// Pop up the tray menu.
    ShowTrayMenu,
    /// Inject `count` presses of the volume key.
    SendVolumeKeys { step: VolumeStep, count: usize },
    /// Carry out a menu command.
    Command(MenuCommand),
    /// End the message loop.
    PostQuit,
    /// Nothing to do; the message counts as handled.
    Handled,
    /// Leave the message to the default window procedure.
    Default,
}

/// The action for a message, as the tray window's procedure decides it.
pub open spec fn action_of_message(msg: u32, wparam: usize, lparam: isize) -> WindowAction {
    if msg == WM_TRAYICON {
        if lparam as u32 == WM_RBUTTONUP || lparam as u32 == WM_LBUTTONUP {
            WindowAction::ShowTrayMenu
        } else {
            WindowAction::Handled
        }
    } else if msg == WM_VOLUME_STEPS {
        WindowAction::SendVolumeKeys {
            step: if wparam != 0 {
                VolumeStep::Up
            } else {
                VolumeStep::Down
            },
            count: if lparam > 0 {
                lparam as usize
            } else {
                0
            },
        }
    } else if msg == WM_COMMAND {
        match command_of_id(wparam & 0xFFFF) {
            Some(command) => WindowAction::Command(command),
            None => WindowAction::Handled,
        }
    } else if msg == WM_DESTROY {
        WindowAction::PostQuit
    } else {
        WindowAction::Default
    }
}

/// Decides what the tray window does with a message.
pub fn window_action(msg: u32, wparam: usize, lparam: isize) -> (r: WindowAction)
    ensures
        r == action_of_message(msg, wparam, lparam),
        msg == WM_VOLUME_STEPS && lparam > 0 ==> r == (WindowAction::SendVolumeKeys {
            step: if wparam != 0 {
                VolumeStep::Up
            } else {
                VolumeStep::Down
            },
            count: lparam as usize,
        }),
        msg == WM_VOLUME_STEPS && lparam <= 0 ==> (r matches WindowAction::SendVolumeKeys {
            count,
            ..
        } && count == 0),
        msg == WM_DESTROY ==> r == WindowAction::PostQuit,
        msg == WM_TRAYICON ==> (r == WindowAction::ShowTrayMenu <==> (lparam as u32 == 0x0205
            || lparam as u32 == 0x0202)),
        msg == WM_TRAYICON && !(lparam as u32 == 0x0205 || lparam as u32 == 0x0202) ==> r
            == WindowAction::Handled,
        msg == WM_COMMAND ==> (r == WindowAction::Handled || r matches WindowAction::Command(_)),
        msg != WM_TRAYICON && msg != WM_VOLUME_STEPS && msg != WM_COMMAND && msg != WM_DESTROY ==> r
            == WindowAction::Default,
{
    if msg == WM_TRAYICON {
        let mouse_message = lparam as u32;
        if mouse_message == WM_RBUTTONUP || mouse_message == WM_LBUTTONUP {
            WindowAction::ShowTrayMenu
        } else {
            WindowAction::Handled
        }
    } else if msg == WM_VOLUME_STEPS {
        let step = if wparam != 0 {
            VolumeStep::Up
        } else {
            VolumeStep::Down
        };
        let count: usize = if lparam > 0 {
            lparam as usize
        } else {
            0
        };
        WindowAction::SendVolumeKeys { step, count }
    } else if msg == WM_COMMAND {
        match menu_command(wparam) {
            Some(command) => WindowAction::Command(command),
            None => WindowAction::Handled,
        }
    } else if msg == WM_DESTROY {
        WindowAction::PostQuit
    } else {
        WindowAction::Default
    }
}

/// A batch the hook posts (`wparam` = 1 for up, 0 for down; `lparam` = the
/// count) comes back out of the tray window as exactly that many presses in
/// that direction.
pub proof fn lemma_posted_batch_round_trip(batch: StepBatch)
    requires
        batch.count <= isize::MAX,
    ensures
        action_of_message(
            WM_VOLUME_STEPS,
            if batch.up { 1usize } else { 0usize },
            batch.count as isize,
        ) == (WindowAction::SendVolumeKeys { step: batch_step(batch.up), count: batch.count }),
        batch.count > 0 ==> (action_of_message(
            WM_VOLUME_STEPS,
            if batch.up { 1usize } else { 0usize },
            batch.count as isize,
        ) matches WindowAction::SendVolumeKeys { count, .. } && count == batch.count && count > 0),
{
}

/// One keyboard input to inject.
#[derive(Debug, Clone, Copy, PartialEq, Eq)]
pub struct KeyStroke {
    pub virtual_key: u16,
    pub flags: u32,
}

/// The virtual key a volume step is sent as.
pub open spec fn volume_virtual_key(step: VolumeStep) -> u16 {
    match step {
        VolumeStep::Up => VK_VOLUME_UP,
        VolumeStep::Down => VK_VOLUME_DOWN,
    }
}

/// The flags of a key-down (none) or key-up input.
pub fn key_flags(key_up: bool) -> (flags: u32)
    ensures
        flags == (if key_up {
            KEYEVENTF_KEYUP
        } else {
            0
        }),
{
    if key_up {
        KEYEVENTF_KEYUP
    } else {
        0
    }
}

/// The inputs that send one volume step: the volume key down, then up.
pub fn volume_key_strokes(step: VolumeStep) -> (strokes: Vec<KeyStroke>)
    ensures
        strokes@ == seq![
            KeyStroke { virtual_key: volume_virtual_key(step), flags: 0 },
            KeyStroke { virtual_key: volume_virtual_key(step), flags: KEYEVENTF_KEYUP },
        ],
{
    let vk = match step {
        VolumeStep::Up => VK_VOLUME_UP,
        VolumeStep::Down => VK_VOLUME_DOWN,
    };
    let mut strokes = Vec::new();
    strokes.push(KeyStroke { virtual_key: vk, flags: key_flags(false) });
    strokes.push(KeyStroke { virtual_key: vk, flags: key_flags(true) });
    assert(strokes@ =~= seq![
        KeyStroke { virtual_key: volume_virtual_key(step), flags: 0 },
        KeyStroke { virtual_key: volume_virtual_key(step), flags: KEYEVENTF_KEYUP },
    ]);
    strokes
}

/// The autostart `Run` value for an executable: its whole path in quotes,
/// since Windows splits an unquoted value on spaces (CWE-428).
pub fn quote_run_value(exe_path: &str) -> (value: String)
    ensures
        value@ == seq!['"'] + exe_path@ + seq!['"'],
{
    let mut value = String::new();
    value.push('"');
    value.append(exe_path);
    value.push('"');
    assert(value@ =~= seq!['"'] + exe_path@ + seq!['"']);
    value
}

/// One entry of the tray's sensitivity submenu.
#[derive(Debug, Clone, PartialEq, Eq)]
pub struct SensitivityItem {
    pub level: i32,
    pub id: usize,
    pub label: String,
    pub checked: bool,
}

/// The sensitivity submenu: presets 1 to `SENSITIVITY_MAX`, labelled with
/// their number, the current one checked.
pub fn sensitivity_menu_items(current: i32) -> (items: Vec<SensitivityItem>)
    ensures
        items.len() == SENSITIVITY_MAX,
        forall|i: int|
            0 <= i < items.len() ==> {
                &&& #[trigger] items[i].level == i + 1
                &&& items[i].id == ID_SENSITIVITY_BASE + i + 1
                &&& items[i].label@ == decimal(i + 1)
                &&& items[i].checked == (i + 1 == current)
            },
{
    let mut items: Vec<SensitivityItem> = Vec::new();
    let mut level: i32 = 1;
    while level <= SENSITIVITY_MAX
        invariant
            1 <= level <= SENSITIVITY_MAX + 1,
            items.len() == level - 1,
            forall|i: int|
                0 <= i < items.len() ==> {
                    &&& #[trigger] items[i].level == i + 1
                    &&& items[i].id == ID_SENSITIVITY_BASE + i + 1
                    &&& items[i].label@ == decimal(i + 1)
                    &&& items[i].checked == (i + 1 == current)
                },
        decreases SENSITIVITY_MAX + 1 - level,
    {
        items.push(
            SensitivityItem {
                level,
                id: ID_SENSITIVITY_BASE + level as usize,
                label: decimal_text(level),
                checked: level == current,
            },
        );
        level = level + 1;
    }
    items
}

/// One entry of the tray icon's menu.
#[derive(Debug, Clone, PartialEq, Eq)]
pub enum TrayMenuItem {
    /// The sensitivity submenu (see [`sensitivity_menu_items`]).
    Submenu { label: String },
    /// A command item.
    Entry { id: usize, label: String, checked: bool },
    Separator,
}

/// A command item of the tray menu with the given id, label and check mark.
pub open spec fn is_entry(item: TrayMenuItem, id: usize, label: Seq<char>, checked: bool) -> bool {
    item matches TrayMenuItem::Entry { id: i, label: l, checked: c } && i == id && l@ == label
        && c == checked
}

fn entry(id: usize, label: &str) -> (item: TrayMenuItem)
    ensures
        is_entry(item, id, label@, false),
{
    TrayMenuItem::Entry { id, label: String::from_str(label), checked: false }
}

/// The tray menu, top to bottom: the sensitivity submenu, "Invert direction"
/// (checked when inverted), a separator, "Reload", "About", a separator and
/// "Exit".
pub fn tray_menu_items(invert: bool) -> (items: Vec<TrayMenuItem>)
    ensures
        items.len() == 7,
        items[0] matches TrayMenuItem::Submenu { label } && label@ == "Sensitivity"@,
        is_entry(items[1], ID_MENU_INVERT, "Invert direction"@, invert),
        items[2] is Separator,
        is_entry(items[3], ID_MENU_RELOAD, "Reload"@, false),
        is_entry(items[4], ID_MENU_ABOUT, "About"@, false),
        items[5] is Separator,
        is_entry(items[6], ID_MENU_EXIT, "Exit"@, false),
{
    let mut items: Vec<TrayMenuItem> = Vec::new();
    items.push(TrayMenuItem::Submenu { label: String::from_str("Sensitivity") });
    items.push(
        TrayMenuItem::Entry {
            id: ID_MENU_INVERT,
            label: String::from_str("Invert direction"),
            checked: invert,
        },
    );
    items.push(TrayMenuItem::Separator);
    items.push(entry(ID_MENU_RELOAD, "Reload"));
    items.push(entry(ID_MENU_ABOUT, "About"));
    items.push(TrayMenuItem::Separator);
    items.push(entry(ID_MENU_EXIT, "Exit"));
    items
}

/// `s` in UTF-16 with a terminating zero, as Win32 wide-string parameters
/// take it.
pub fn to_wide_null(s: &str) -> (wide: Vec<u16>)
    ensures
        wide@ == utf16(s@).push(0),
{
    let mut wide = utf16_units(s);
    wide.push(0);
    wide
}

/// `s` in UTF-16 in a zero-filled buffer of `n` units, cut to leave at least
/// the last unit zero (for fixed-size fields such as a tray tooltip).
pub fn to_wide_fixed(s: &str, n: usize) -> (buf: Vec<u16>)
    requires
        n >= 1,
    ensures
        buf.len() == n,
        forall|i: int|
            0 <= i < n ==> #[trigger] buf[i] == (if i < n - 1 && i < utf16(s@).len() {
                utf16(s@)[i]
            } else {
                0
            }),
{
    let units = utf16_units(s);
    let mut buf: Vec<u16> = Vec::new();
    let mut i: usize = 0;
    while i < n
        invariant
            i <= n,
            units@ == utf16(s@),
            buf.len() == i,
            forall|k: int|
                0 <= k < i ==> #[trigger] buf[k] == (if k < n - 1 && k < utf16(s@).len() {
                    utf16(s@)[k]
                } else {
                    0
                }),
        decreases n - i,
    {
        if i < n - 1 && i < units.len() {
            buf.push(units[i]);
        } else {
            buf.push(0);
        }
        i = i + 1;
    }
    buf
}

/// The accumulator's settings are those of `wheel`.
pub open spec fn matches_wheel(st: WheelState, wheel: WheelConfig) -> bool {
    &&& st.notches_per_step == wheel.notches_per_step as int
    &&& st.invert == wheel.invert
    &&& st.presses_per_step == wheel.sensitivity as int
}

/// `a` and `b` agree outside the `[wheel]` section.
pub open spec fn same_outside_wheel(a: Config, b: Config) -> bool {
    &&& a.general == b.general
    &&& a.linux.device_path@ == b.linux.device_path@
}

/// A copy of `config`.
fn copy_config(config: &Config) -> (r: Config)
    ensures
        r.wheel == config.wheel,
        same_outside_wheel(r, *config),
{
    let device_path = match &config.linux.device_path {
        Some(path) => Some(path.clone()),
        None => None,
    };
    Config {
        wheel: WheelConfig {
            notches_per_step: config.wheel.notches_per_step,
            invert: config.wheel.invert,
            sensitivity: config.wheel.sensitivity,
        },
        general: GeneralConfig { autostart: config.general.autostart },
        linux: LinuxConfig { device_path },
    }
}

/// The configuration in effect and the accumulator built from it, kept in
/// step: every change to one is followed by a rebuild of the other.
pub struct LiveSettings {
    accumulator: WheelAccumulator,
    config: Config,
}

impl LiveSettings {
    /// The accumulator runs with the current configuration's wheel settings.
    #[verifier::type_invariant]
    spec fn in_sync(self) -> bool {
        &&& self.accumulator@.wf()
        &&& matches_wheel(self.accumulator@, self.config.wheel)
    }

    /// The configuration in effect.
    pub closed spec fn current(&self) -> Config {
        self.config
    }

    /// The state of the accumulator in use.
    pub closed spec fn wheel_state(&self) -> WheelState {
        self.accumulator@
    }

    /// Starts from a configuration; refused when its wheel settings are.
    pub fn new(config: Config) -> (r: Result<LiveSettings, WheelConfigError>)
        ensures
            config.wheel.notches_per_step <= 0 ==> r == Err::<LiveSettings, WheelConfigError>(
                WheelConfigError::InvalidNotchesPerStep(config.wheel.notches_per_step),
            ),
            config.wheel.notches_per_step > 0 && config.wheel.sensitivity <= 0 ==> r == Err::<
                LiveSettings,
                WheelConfigError,
            >(WheelConfigError::InvalidPressesPerStep(config.wheel.sensitivity)),
            config.is_valid() ==> (r matches Ok(live) && live.current() == config
                && live.wheel_state() == fresh_state(config.wheel)),
            r matches Ok(live) ==> live.wheel_state().accumulated == 0,
    {
        match build_accumulator(&config) {
            Ok(accumulator) => Ok(LiveSettings { accumulator, config }),
            Err(e) => Err(e),
        }
    }

    /// The configuration in effect.
    pub fn config(&self) -> (r: &Config)
        ensures
            *r == self.current(),
    {
        &self.config
    }

    /// Makes `config` the one in effect, with a freshly built accumulator.
    /// When its wheel settings are invalid the error is returned and the
    /// previous configuration and accumulator stay untouched.
    pub fn apply_config(&mut self, config: Config) -> (r: Result<(), WheelConfigError>)
        ensures
            config.is_valid() ==> r is Ok && final(self).current() == config
                && final(self).wheel_state() == fresh_state(config.wheel),
            !config.is_valid() ==> r is Err && *final(self) == *old(self),
            config.wheel.notches_per_step <= 0 ==> r == Err::<(), WheelConfigError>(
                WheelConfigError::InvalidNotchesPerStep(config.wheel.notches_per_step),
            ),
            config.wheel.notches_per_step > 0 && config.wheel.sensitivity <= 0 ==> r == Err::<
                (),
                WheelConfigError,
            >(WheelConfigError::InvalidPressesPerStep(config.wheel.sensitivity)),
    {
        match build_accumulator(&config) {
            Ok(accumulator) => {
                *self = LiveSettings { accumulator, config };
                Ok(())
            },
            Err(e) => Err(e),
        }
    }

    /// Applies a new `[wheel]` section on top of the configuration in effect,
    /// as [`LiveSettings::apply_config`] does, and returns the resulting
    /// configuration, to be saved whether or not it could be applied.
    fn update_wheel_config(&mut self, wheel: WheelConfig) -> (r: (Config, Result<(), WheelConfigError>))
        ensures
            r.0.wheel == wheel,
            same_outside_wheel(r.0, old(self).current()),
            r.0.is_valid() ==> r.1 is Ok && final(self).current().wheel == wheel
                && same_outside_wheel(final(self).current(), old(self).current())
                && final(self).wheel_state() == fresh_state(wheel),
            !r.0.is_valid() ==> r.1 is Err && *final(self) == *old(self),
            wheel.notches_per_step <= 0 ==> r.1 == Err::<(), WheelConfigError>(
                WheelConfigError::InvalidNotchesPerStep(wheel.notches_per_step),
            ),
            wheel.notches_per_step > 0 && wheel.sensitivity <= 0 ==> r.1 == Err::<
                (),
                WheelConfigError,
            >(WheelConfigError::InvalidPressesPerStep(wheel.sensitivity)),
    {
        let mut updated = copy_config(&self.config);
        updated.wheel = wheel;
        let saved = copy_config(&updated);
        let applied = self.apply_config(updated);
        (saved, applied)
    }

    /// Flips the direction setting, applies it, and returns the
    /// configuration to save.
    pub fn toggle_invert(&mut self) -> (r: (Config, Result<(), WheelConfigError>))
        ensures
            r.1 is Ok,
            r.0.wheel == (WheelConfig { invert: !old(self).current().wheel.invert, ..old(self).current().wheel }),
            same_outside_wheel(r.0, old(self).current()),
            final(self).current().wheel == r.0.wheel,
            same_outside_wheel(final(self).current(), old(self).current()),
            final(self).wheel_state() == fresh_state(r.0.wheel),
    {
        proof {
            use_type_invariant(&*self);
        }
        let wheel = WheelConfig {
            notches_per_step: self.config.wheel.notches_per_step,
            invert: !self.config.wheel.invert,
            sensitivity: self.config.wheel.sensitivity,
        };
        self.update_wheel_config(wheel)
    }

    /// Sets the number of presses per step, applies it, and returns the
    /// configuration to save. A non-positive level is saved but not applied.
    pub fn set_sensitivity(&mut self, level: i32) -> (r: (Config, Result<(), WheelConfigError>))
        ensures
            r.0.wheel == (WheelConfig { sensitivity: level, ..old(self).current().wheel }),
            same_outside_wheel(r.0, old(self).current()),
            level > 0 ==> r.1 is Ok && final(self).current().wheel == r.0.wheel
                && same_outside_wheel(final(self).current(), old(self).current())
                && final(self).wheel_state() == fresh_state(r.0.wheel),
            level <= 0 ==> r.1 == Err::<(), WheelConfigError>(
                WheelConfigError::InvalidPressesPerStep(level),
            ) && *final(self) == *old(self),
    {
        proof {
            use_type_invariant(&*self);
        }
        let wheel = WheelConfig {
            notches_per_step: self.config.wheel.notches_per_step,
            invert: self.config.wheel.invert,
            sensitivity: level,
        };
        self.update_wheel_config(wheel)
    }

    /// Feeds the wheel data of an intercepted hook event to the accumulator in
    /// use; see [`wheel_step_batch`].
    pub fn wheel_step_batch(&mut self, mouse_data: u32) -> (batch: Option<StepBatch>)
        ensures
            final(self).current() == old(self).current(),
            mouse_data_notches(mouse_data) == 0 ==> batch is None && final(self).wheel_state()
                == old(self).wheel_state(),
            mouse_data_notches(mouse_data) != 0 ==> {
                &&& final(self).wheel_state() == old(self).wheel_state().after(
                    mouse_data_notches(mouse_data),
                )
                &&& batch == batch_of(old(self).wheel_state().steps(mouse_data_notches(mouse_data)))
            },
    {
        proof {
            use_type_invariant(&*self);
        }
        let mut accumulator = self.accumulator.duplicate();
        let batch = wheel_step_batch(&mut accumulator, mouse_data);
        proof {
            crate::wheel::lemma_feed_keeps_wf(old(self).wheel_state(), mouse_data_notches(mouse_data));
        }
        self.accumulator = accumulator;
        batch
    }
}

/// The direction and sensitivity the tray menu shows: those in effect, or
/// not inverted and two presses per step before any configuration is.
pub fn current_wheel_config(settings: Option<&LiveSettings>) -> (r: (bool, i32))
    ensures
        settings matches Some(live) ==> r == (live.current().wheel.invert, live.current().wheel.sensitivity),
        settings is None ==> r == (false, 2i32),
{
    match settings {
        Some(live) => (live.config.wheel.invert, live.config.wheel.sensitivity),
        None => (false, 2),
    }
}

} // verus!
