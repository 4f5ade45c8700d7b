//! The settings dialog: its controls' texts, hotkey capture, the master
//! switch, saving and closing.

use vstd::prelude::*;
use crate::alpha::{STEP_MAX, STEP_MIN};
use crate::config::{save_config, saved_values, ProfileEntry, Settings};
use crate::keys::{
    hotkey_name, hotkey_text, key_name, modifier_name, MOD_ALT, MOD_CONTROL, MOD_SHIFT, MOD_WIN, VK_F1, VK_F24, VK_LSHIFT,
    VK_LWIN, VK_MENU, VK_RMENU, VK_RWIN, VK_SHIFT,
};
use crate::state::{
    register_hotkeys, registrations_spec, unregister_hotkeys, HotkeyRegistration, HotkeySlot, Listen, State,
    ID_HOTKEY_TRANSPARENCY_DOWN, ID_HOTKEY_TRANSPARENCY_UP,
};
use crate::text::{append_signed_decimal, decimal, signed_decimal};
use crate::tracker::{Handle, TransparentWindow};

verus! {

/// Control identifier of the "more transparent" capture button.
pub const IDC_TRANSPARENCY_UP_BUTTON: u32 = 2001;
/// Control identifier of the "less transparent" capture button.
pub const IDC_TRANSPARENCY_DOWN_BUTTON: u32 = 2002;
/// Control identifier of the save button.
pub const IDC_SAVE_BUTTON: u32 = 2006;
/// Control identifier of the step slider.
pub const IDC_TRANSPARENCY_SLIDER: u32 = 2005;
/// Control identifier of the step label.
pub const IDC_TRANSPARENCY_LABEL: u32 = 2007;
/// Control identifier of the "more transparent" hotkey display.
pub const IDC_TRANSPARENCY_UP_DISPLAY: u32 = 2008;
/// Control identifier of the "less transparent" hotkey display.
pub const IDC_TRANSPARENCY_DOWN_DISPLAY: u32 = 2009;
/// Control identifier of the master switch check box.
pub const IDC_TRANSPARENCY_ENABLE: u32 = 2012;
/// The identifier of the dialog's close button (`IDCANCEL`).
pub const IDCANCEL: u32 = 2;
/// How long hotkey capture waits for a key, in milliseconds.
pub const LISTEN_TIMEOUT_MS: u32 = 10000;
/// Width of the settings window.
pub const SETTINGS_WIDTH: i32 = 380;
/// Height of the settings window.
pub const SETTINGS_HEIGHT: i32 = 270;

/// A control of the settings dialog whose text changes.
#[derive(Clone, Copy, Debug, PartialEq, Eq, Structural)]
pub enum Control {
    UpButton,
    UpDisplay,
    DownButton,
    DownDisplay,
}

/// A new text for a control.
pub struct TextUpdate {
    pub control: Control,
    pub text: String,
}

impl View for TextUpdate {
    type V = (Control, Seq<char>);

    open spec fn view(&self) -> (Control, Seq<char>) {
        (self.control, self.text@)
    }
}

/// The views of a list of text updates.
pub open spec fn updates_view(u: Seq<TextUpdate>) -> Seq<(Control, Seq<char>)> {
    u.map_values(|t: TextUpdate| t@)
}

/// The capture button of a hotkey.
pub open spec fn button_of(slot: HotkeySlot) -> Control {
    match slot {
        HotkeySlot::Up => Control::UpButton,
        HotkeySlot::Down => Control::DownButton,
    }
}

/// The display of a hotkey.
pub open spec fn display_of(slot: HotkeySlot) -> Control {
    match slot {
        HotkeySlot::Up => Control::UpDisplay,
        HotkeySlot::Down => Control::DownDisplay,
    }
}

/// The display text of the hotkey in `slot`.
pub open spec fn slot_name(s: Settings, slot: HotkeySlot) -> Seq<char> {
    match slot {
        HotkeySlot::Up => hotkey_name(s.tu_mods, s.tu_key),
        HotkeySlot::Down => hotkey_name(s.td_mods, s.td_key),
    }
}

/// The settings with the hotkey in `slot` replaced.
pub open spec fn with_hotkey(s: Settings, slot: HotkeySlot, mods: u32, key: u32) -> Settings {
    match slot {
        HotkeySlot::Up => Settings { tu_mods: mods, tu_key: key, ..s },
        HotkeySlot::Down => Settings { td_mods: mods, td_key: key, ..s },
    }
}

/// The text of a capture button when idle.
pub open spec fn set_label() -> Seq<char> {
    "设置"@
}

/// The text of a capture button while it waits.
pub open spec fn cancel_label() -> Seq<char> {
    "取消"@
}

/// The text of a hotkey display while it waits.
pub open spec fn prompt_label() -> Seq<char> {
    "请按下组合键..."@
}

/// The text of a hotkey display after a capture timed out.
pub open spec fn timeout_label() -> Seq<char> {
    "监听超时，请重试"@
}

/// The step label's text for a slider position.
pub open spec fn step_label_spec(pos: int) -> Seq<char> {
    "透明度步长: "@ + signed_decimal(pos) + "%"@
}

/// The step label's text for a slider position (`透明度步长: <pos>%`).
pub fn step_label(pos: i32) -> (r: String)
    ensures
        r@ == step_label_spec(pos as int),
{
    let mut s = String::from_str("透明度步长: ");
    append_signed_decimal(&mut s, pos);
    s.append("%");
    s
}

fn update(control: Control, text: &str) -> (r: TextUpdate)
    ensures
        r@ == (control, text@),
{
    TextUpdate { control, text: String::from_str(text) }
}

fn button(slot: HotkeySlot) -> (c: Control)
    ensures
        c == button_of(slot),
{
    match slot {
        HotkeySlot::Up => Control::UpButton,
        HotkeySlot::Down => Control::DownButton,
    }
}

fn display(slot: HotkeySlot) -> (c: Control)
    ensures
        c == display_of(slot),
{
    match slot {
        HotkeySlot::Up => Control::UpDisplay,
        HotkeySlot::Down => Control::DownDisplay,
    }
}

fn slot_text(s: &Settings, slot: HotkeySlot) -> (r: String)
    ensures
        r@ == slot_name(*s, slot),
        slot == HotkeySlot::Up ==> r@ == modifier_name(s.tu_mods) + "+"@ + key_name(s.tu_key),
        slot == HotkeySlot::Down ==> r@ == modifier_name(s.td_mods) + "+"@ + key_name(s.td_key),
{
    match slot {
        HotkeySlot::Up => hotkey_text(s.tu_mods, s.tu_key),
        HotkeySlot::Down => hotkey_text(s.td_mods, s.td_key),
    }
}

/// What a command of the settings dialog is.
#[derive(Clone, Copy, Debug, PartialEq, Eq, Structural)]
pub enum SettingsCommand {
    /// A capture button was clicked.
    HotkeyButton(HotkeySlot),
    /// The master switch check box was clicked.
    EnableToggled,
    /// The save button was clicked.
    Save,
    /// The close button was clicked.
    Cancel,
    /// Anything else.
    Other,
}

/// The command of a control identifier.
pub open spec fn command_spec(id: u32) -> SettingsCommand {
    if id == IDC_TRANSPARENCY_UP_BUTTON {
        SettingsCommand::HotkeyButton(HotkeySlot::Up)
    } else if id == IDC_TRANSPARENCY_DOWN_BUTTON {
        SettingsCommand::HotkeyButton(HotkeySlot::Down)
    } else if id == IDC_TRANSPARENCY_ENABLE {
        SettingsCommand::EnableToggled
    } else if id == IDC_SAVE_BUTTON {
        SettingsCommand::Save
    } else if id == IDCANCEL {
        SettingsCommand::Cancel
    } else {
        SettingsCommand::Other
    }
}

/// The command that a `WM_COMMAND` with control identifier `id` carries.
pub fn settings_command(id: u32) -> (c: SettingsCommand)
    ensures
        c == command_spec(id),
{
    if id == IDC_TRANSPARENCY_UP_BUTTON {
        SettingsCommand::HotkeyButton(HotkeySlot::Up)
    } else if id == IDC_TRANSPARENCY_DOWN_BUTTON {
        SettingsCommand::HotkeyButton(HotkeySlot::Down)
    } else if id == IDC_TRANSPARENCY_ENABLE {
        SettingsCommand::EnableToggled
    } else if id == IDC_SAVE_BUTTON {
        SettingsCommand::Save
    } else if id == IDCANCEL {
        SettingsCommand::Cancel
    } else {
        SettingsCommand::Other
    }
}

/// Whether a key is a modifier on its own (Shift, Ctrl, Alt, the Windows
/// keys and their left and right variants).
pub open spec fn bare_modifier(vk: u32) -> bool {
    (VK_SHIFT <= vk <= VK_MENU) || (VK_LWIN <= vk <= VK_RWIN) || (VK_LSHIFT <= vk <= VK_RMENU)
}

/// Whether a key is one of F1..F24.
pub open spec fn function_key(vk: u32) -> bool {
    VK_F1 <= vk <= VK_F24
}

/// Whether capture takes the key combination: not a bare modifier, and
/// with a modifier unless it is a function key.
pub open spec fn capture_accepts(mods: u32, vk: u32) -> bool {
    !bare_modifier(vk) && (mods != 0 || function_key(vk))
}

/// The modifier set of the keys held down: the sum of their distinct flags.
pub open spec fn modifiers_spec(ctrl: bool, alt: bool, shift: bool, win: bool) -> u32 {
    ((if ctrl { MOD_CONTROL } else { 0u32 }) + (if alt { MOD_ALT } else { 0u32 }) + (if shift { MOD_SHIFT } else {
        0u32
    }) + (if win { MOD_WIN } else { 0u32 })) as u32
}

/// The modifier set of the keys held down.
pub fn modifiers_from_keys(ctrl: bool, alt: bool, shift: bool, win: bool) -> (m: u32)
    ensures
        m == modifiers_spec(ctrl, alt, shift, win),
{
    let mut m: u32 = 0;
    if ctrl {
        m = m + MOD_CONTROL;
    }
    if alt {
        m = m + MOD_ALT;
    }
    if shift {
        m = m + MOD_SHIFT;
    }
    if win {
        m = m + MOD_WIN;
    }
    m
}

/// Division rounding toward zero, as Rust's `/` on integers does.
pub open spec fn div_toward_zero(a: int, b: int) -> int {
    if a >= 0 { a / b } else { -((-a) / b) }
}

/// The top-left corner that centres the settings window on a screen of the
/// given size.
pub fn settings_window_origin(screen_w: i32, screen_h: i32) -> (r: (i32, i32))
    requires
        screen_w >= i32::MIN + SETTINGS_WIDTH,
        screen_h >= i32::MIN + SETTINGS_HEIGHT,
    ensures
        r.0 as int == div_toward_zero(screen_w - SETTINGS_WIDTH, 2),
        r.1 as int == div_toward_zero(screen_h - SETTINGS_HEIGHT, 2),
{
    ((screen_w - SETTINGS_WIDTH) / 2, (screen_h - SETTINGS_HEIGHT) / 2)
}

/// The initial contents of the settings dialog's controls.
pub struct DialogContents {
    /// The hotkeys to unregister while the dialog is open.
    pub unregister: Vec<i32>,
    /// Whether the master switch box is checked.
    pub enabled: bool,
    /// The display of the "more transparent" hotkey.
    pub up_text: String,
    /// The display of the "less transparent" hotkey.
    pub down_text: String,
    /// The step label.
    pub step_text: String,
    /// The slider's range and position.
    pub step_min: i32,
    pub step_max: i32,
    pub step: i32,
}

/// The state change and text updates of a click on a capture button:
/// clicking the button that waits cancels the capture and shows the hotkey
/// again; clicking another one resets the waiting one and starts waiting on
/// the clicked one at tick `now`.
pub open spec fn button_click_spec(s: Settings, listen: Listen, slot: HotkeySlot, now: u32) -> (
    Listen,
    Seq<(Control, Seq<char>)>,
) {
    match listen {
        Listen::Waiting { slot: cur, since } => if cur == slot {
            (Listen::Idle, seq![(button_of(slot), set_label()), (display_of(slot), slot_name(s, slot))])
        } else {
            (
                Listen::Waiting { slot, since: now },
                seq![
                    (button_of(cur), set_label()),
                    (display_of(cur), slot_name(s, cur)),
                    (button_of(slot), cancel_label()),
                    (display_of(slot), prompt_label()),
                ],
            )
        },
        Listen::Idle => (
            Listen::Waiting { slot, since: now },
            seq![(button_of(slot), cancel_label()), (display_of(slot), prompt_label())],
        ),
    }
}

/// What a key press in the settings dialog does: the new settings, the new
/// capture state, and the text updates (`None` when the dialog is not
/// capturing and the key goes to the default processing).
pub open spec fn key_press_spec(s: Settings, listen: Listen, vk: u32, mods: u32, now: u32) -> (
    Settings,
    Listen,
    Option<Seq<(Control, Seq<char>)>>,
) {
    match listen {
        Listen::Idle => (s, Listen::Idle, None),
        Listen::Waiting { slot, since } => if now.wrapping_sub(since) > LISTEN_TIMEOUT_MS {
            (s, Listen::Idle, Some(seq![(button_of(slot), set_label()), (display_of(slot), timeout_label())]))
        } else if !capture_accepts(mods, vk) {
            (s, listen, Some(Seq::empty()))
        } else {
            (
                with_hotkey(s, slot, mods, vk),
                Listen::Idle,
                Some(seq![(display_of(slot), hotkey_name(mods, vk)), (button_of(slot), set_label())]),
            )
        },
    }
}

/// What the settings dialog does with a key press.
pub enum KeyOutcome {
    /// Not capturing: hand the key to the default processing.
    PassOn,
    /// The key was handled; apply these text updates.
    Consumed(Vec<TextUpdate>),
}

/// What saving the settings (with the save button, or on closing the
/// dialog) asks for.
pub struct SaveOutcome {
    /// The profile values to write.
    pub entries: Vec<ProfileEntry>,
    /// The hotkeys to register after unregistering both.
    pub registrations: Vec<HotkeyRegistration>,
}

impl State {
    /// The settings window was created: capture left over from an earlier
    /// window is dropped, the hotkeys are to be unregistered while the
    /// dialog is open, and the controls show the current settings.
    pub fn on_settings_create(&mut self) -> (c: DialogContents)
        requires
            old(self).wf(),
        ensures
            final(self).wf(),
            final(self).listen == Listen::Idle,
            final(self).settings == old(self).settings,
            final(self).windows@ == old(self).windows@,
            final(self).main_wnd == old(self).main_wnd,
            final(self).settings_wnd == old(self).settings_wnd,
            c.unregister@ == seq![ID_HOTKEY_TRANSPARENCY_UP, ID_HOTKEY_TRANSPARENCY_DOWN],
            c.enabled == (old(self).settings.en_trans != 0),
            c.up_text@ == slot_name(old(self).settings, HotkeySlot::Up),
            c.down_text@ == slot_name(old(self).settings, HotkeySlot::Down),
            c.up_text@ == hotkey_name(old(self).settings.tu_mods, old(self).settings.tu_key),
            c.down_text@ == hotkey_name(old(self).settings.td_mods, old(self).settings.td_key),
            c.step_text@ == step_label_spec(old(self).settings.transparency_step as int),
            c.step_min == STEP_MIN,
            c.step_max == STEP_MAX,
            c.step == old(self).settings.transparency_step,
    {
        self.listen = Listen::Idle;
        let s = self.settings;
        DialogContents {
            unregister: unregister_hotkeys(),
            enabled: s.en_trans != 0,
            up_text: slot_text(&s, HotkeySlot::Up),
            down_text: slot_text(&s, HotkeySlot::Down),
            step_text: step_label(s.transparency_step),
            step_min: STEP_MIN,
            step_max: STEP_MAX,
            step: s.transparency_step,
        }
    }

    /// A capture button was clicked at tick `now`.
    pub fn on_hotkey_button(&mut self, slot: HotkeySlot, now: u32) -> (r: Vec<TextUpdate>)
        requires
            old(self).wf(),
        ensures
            final(self).wf(),
            (final(self).listen, updates_view(r@)) == button_click_spec(old(self).settings, old(self).listen, slot, now),
            final(self).settings == old(self).settings,
            final(self).windows@ == old(self).windows@,
            final(self).main_wnd == old(self).main_wnd,
            final(self).settings_wnd == old(self).settings_wnd,
    {
        let s = self.settings;
        let mut r: Vec<TextUpdate> = Vec::new();
        match self.listen {
            Listen::Waiting { slot: cur, since: _ } => {
                if cur == slot {
                    r.push(update(button(slot), "设置"));
                    r.push(TextUpdate { control: display(slot), text: slot_text(&s, slot) });
                    self.listen = Listen::Idle;
                } else {
                    r.push(update(button(cur), "设置"));
                    r.push(TextUpdate { control: display(cur), text: slot_text(&s, cur) });
                    r.push(update(button(slot), "取消"));
                    r.push(update(display(slot), "请按下组合键..."));
                    self.listen = Listen::Waiting { slot, since: now };
                }
            },
            Listen::Idle => {
                r.push(update(button(slot), "取消"));
                r.push(update(display(slot), "请按下组合键..."));
                self.listen = Listen::Waiting { slot, since: now };
            },
        }
        assert(updates_view(r@) =~= button_click_spec(s, old(self).listen, slot, now).1);
        r
    }

    /// A key went down in the settings dialog at tick `now`, with the given
    /// modifier keys held.
    pub fn on_settings_key(&mut self, vk: u32, ctrl: bool, alt: bool, shift: bool, win: bool, now: u32) -> (r: KeyOutcome)
        requires
            old(self).wf(),
        ensures
            final(self).wf(),
            ({
                let (s2, l2, u) = key_press_spec(
                    old(self).settings,
                    old(self).listen,
                    vk,
                    modifiers_spec(ctrl, alt, shift, win),
                    now,
                );
                &&& final(self).settings == s2
                &&& final(self).listen == l2
                &&& match r {
                    KeyOutcome::PassOn => u is None,
                    KeyOutcome::Consumed(v) => u == Some(updates_view(v@)),
                }
            }),
            final(self).windows@ == old(self).windows@,
            final(self).main_wnd == old(self).main_wnd,
            final(self).settings_wnd == old(self).settings_wnd,
    {
        match self.listen {
            Listen::Idle => KeyOutcome::PassOn,
            Listen::Waiting { slot, since } => {
                let mut r: Vec<TextUpdate> = Vec::new();
                if now.wrapping_sub(since) > LISTEN_TIMEOUT_MS {
                    r.push(update(button(slot), "设置"));
                    r.push(update(display(slot), "监听超时，请重试"));
                    self.listen = Listen::Idle;
                    assert(updates_view(r@) =~= seq![(button_of(slot), set_label()), (display_of(slot), timeout_label())]);
                    return KeyOutcome::Consumed(r);
                }
                let mods = modifiers_from_keys(ctrl, alt, shift, win);
                let bare = (VK_SHIFT <= vk && vk <= crate::keys::VK_MENU) || (VK_LWIN <= vk && vk <= VK_RWIN) || (VK_LSHIFT
                    <= vk && vk <= VK_RMENU);
                if bare || (mods == 0 && !(VK_F1 <= vk && vk <= VK_F24)) {
                    assert(updates_view(r@) =~= Seq::<(Control, Seq<char>)>::empty());
                    return KeyOutcome::Consumed(r);
                }
                match slot {
                    HotkeySlot::Up => {
                        self.settings.tu_mods = mods;
                        self.settings.tu_key = vk;
                    },
                    HotkeySlot::Down => {
                        self.settings.td_mods = mods;
                        self.settings.td_key = vk;
                    },
                }
                r.push(TextUpdate { control: display(slot), text: hotkey_text(mods, vk) });
                r.push(update(button(slot), "设置"));
                self.listen = Listen::Idle;
                assert(updates_view(r@) =~= seq![(display_of(slot), hotkey_name(mods, vk)), (button_of(slot), set_label())]);
                KeyOutcome::Consumed(r)
            },
        }
    }

    /// The master switch box was clicked and is now `checked`. Switching off
    /// restores every tracked window: their handles are returned, to be
    /// made opaque, and none stays tracked.
    pub fn on_enable_toggled(&mut self, checked: bool) -> (r: Vec<Handle>)
        requires
            old(self).wf(),
        ensures
            final(self).wf(),
            final(self).settings == (Settings { en_trans: if checked { 1 } else { 0 }, ..old(self).settings }),
            checked ==> r@ == Seq::<Handle>::empty() && final(self).windows@ == old(self).windows@,
            !checked ==> r@ == old(self).windows@.map_values(|tw: TransparentWindow| tw.hwnd)
                && final(self).windows@ == Seq::<TransparentWindow>::empty()
                && final(self).windows.alphas() == Map::<Handle, i32>::empty(),
            final(self).listen == old(self).listen,
            final(self).main_wnd == old(self).main_wnd,
            final(self).settings_wnd == old(self).settings_wnd,
    {
        self.settings.en_trans = if checked { 1 } else { 0 };
        if checked {
            return Vec::new();
        }
        let handles = self.windows.handles();
        let mut i: usize = 0;
        while i < handles.len()
            invariant
                self.wf(),
                self.settings == (Settings { en_trans: 0, ..old(self).settings }),
                self.listen == old(self).listen,
                self.main_wnd == old(self).main_wnd,
                self.settings_wnd == old(self).settings_wnd,
                handles@ == old(self).windows@.map_values(|tw: TransparentWindow| tw.hwnd),
                i <= handles@.len(),
                forall|h: Handle| #[trigger] self.windows.alphas().contains_key(h) ==> !handles@.take(i as int).contains(h),
                forall|h: Handle| #[trigger] self.windows.alphas().contains_key(h) ==> old(self).windows.alphas().contains_key(h),
            decreases handles@.len() - i,
        {
            let h = handles[i];
            self.windows.untrack_window(h);
            proof {
                assert forall|g: Handle| #[trigger] self.windows.alphas().contains_key(g) implies !handles@.take(i + 1).contains(g) by {
                    let after = handles@.take(i + 1);
                    if after.contains(g) {
                        let k = choose|k: int| 0 <= k < after.len() && after[k] == g;
                        if k < i {
                            assert(handles@.take(i as int)[k] == g);
                        }
                    }
                }
            }
            i = i + 1;
        }
        proof {
            let t = self.windows@;
            assert(handles@.take(handles@.len() as int) =~= handles@);
            if t.len() > 0 {
                let w = t[0];
                assert(crate::tracker::has_handle(t, w.hwnd));
                assert(self.windows.alphas().contains_key(w.hwnd));
                let k = choose|k: int| 0 <= k < old(self).windows@.len() && old(self).windows@[k].hwnd == w.hwnd;
                assert(handles@[k] == w.hwnd);
                assert(handles@.contains(w.hwnd));
            }
            assert(self.windows@ =~= Seq::<TransparentWindow>::empty());
            assert(self.windows.alphas() =~= Map::<Handle, i32>::empty());
        }
        handles
    }

    /// The save button was clicked with the slider at `pos`: the step
    /// becomes `pos`, and the settings are written and the hotkeys
    /// registered again.
    pub fn on_save(&mut self, pos: i32) -> (r: SaveOutcome)
        requires
            old(self).wf(),
            STEP_MIN <= pos <= STEP_MAX,
        ensures
            final(self).wf(),
            final(self).settings == (Settings { transparency_step: pos, ..old(self).settings }),
            r.entries@.map_values(|e: ProfileEntry| e@) == saved_values(final(self).settings),
            forall|i: int| 0 <= i < r.entries@.len() ==> #[trigger] r.entries@[i].text@ == decimal(r.entries@[i].value as nat),
            r.registrations@ == registrations_spec(final(self).settings),
            final(self).windows@ == old(self).windows@,
            final(self).listen == old(self).listen,
            final(self).main_wnd == old(self).main_wnd,
            final(self).settings_wnd == old(self).settings_wnd,
    {
        self.settings.transparency_step = pos;
        let entries = save_config(&self.settings);
        assert(entries@.map_values(|e: ProfileEntry| e@) =~= saved_values(self.settings));
        let registrations = register_hotkeys(&self.settings);
        SaveOutcome { entries, registrations }
    }

    /// The settings window is closed (its close box or its close button):
    /// the current settings are written to the profile, so that a switch or
    /// hotkey changed without pressing save is kept, the hotkeys are
    /// registered again, and the window is forgotten.
    pub fn on_settings_close(&mut self) -> (r: SaveOutcome)
        requires
            old(self).wf(),
        ensures
            final(self).wf(),
            r.entries@.map_values(|e: ProfileEntry| e@) == saved_values(old(self).settings),
            forall|i: int| 0 <= i < r.entries@.len() ==> #[trigger] r.entries@[i].text@ == decimal(r.entries@[i].value as nat),
            r.registrations@ == registrations_spec(old(self).settings),
            final(self).settings_wnd == 0,
            final(self).settings == old(self).settings,
            final(self).windows@ == old(self).windows@,
            final(self).listen == old(self).listen,
            final(self).main_wnd == old(self).main_wnd,
    {
        let entries = save_config(&self.settings);
        assert(entries@.map_values(|e: ProfileEntry| e@) =~= saved_values(self.settings));
        let registrations = register_hotkeys(&self.settings);
        self.settings_wnd = 0;
        SaveOutcome { entries, registrations }
    }

    /// The settings window that is open, if any: opening the settings again
    /// brings it to the front instead of making a second one.
    pub fn existing_settings_window(&self) -> (r: Option<Handle>)
        ensures
            r == (if self.settings_wnd == 0 { None } else { Some(self.settings_wnd) }),
    {
        if self.settings_wnd == 0 { None } else { Some(self.settings_wnd) }
    }
}

/// Hotkey capture only ever stores an accepted combination, and only in
/// the hotkey it waits for: a key press either leaves the settings as they
/// were, or replaces the waited-for hotkey by a combination that is not a
/// bare modifier and has a modifier unless it is a function key.
pub proof fn law_capture_stores_only_accepted(s: Settings, listen: Listen, vk: u32, mods: u32, now: u32)
    ensures
        ({
            let s2 = key_press_spec(s, listen, vk, mods, now).0;
            ||| s2 == s
            ||| (listen matches Listen::Waiting { slot, since } && s2 == with_hotkey(s, slot, mods, vk)
                && capture_accepts(mods, vk) && !bare_modifier(vk))
        }),
{
}

/// Within ten seconds of the capture starting, a key pressed with at
/// least one modifier is stored, with those modifiers, in the hotkey that is
/// waited for, unless the key itself is a modifier key (Shift, Ctrl, Alt:
/// 0x10..=0x12; the Windows keys: 0x5B..=0x5C; their left and right forms:
/// 0xA0..=0xA5); the other hotkey, the step and the switch stay, and the
/// capture ends.
pub proof fn law_capture_takes_modified_keys(s: Settings, slot: HotkeySlot, since: u32, vk: u32, mods: u32, now: u32)
    requires
        mods != 0,
        now.wrapping_sub(since) <= 10000,
        !(0x10 <= vk <= 0x12),
        !(0x5B <= vk <= 0x5C),
        !(0xA0 <= vk <= 0xA5),
    ensures
        ({
            let (s2, l2, u) = key_press_spec(s, Listen::Waiting { slot, since }, vk, mods, now);
            &&& l2 == Listen::Idle
            &&& u is Some
            &&& s2.transparency_step == s.transparency_step
            &&& s2.en_trans == s.en_trans
            &&& match slot {
                HotkeySlot::Up => s2.tu_mods == mods && s2.tu_key == vk && s2.td_mods == s.td_mods && s2.td_key
                    == s.td_key,
                HotkeySlot::Down => s2.td_mods == mods && s2.td_key == vk && s2.tu_mods == s.tu_mods && s2.tu_key
                    == s.tu_key,
            }
        }),
{
}

/// Within ten seconds of the capture starting, a modifier key on its own
/// (0x10..=0x12, 0x5B..=0x5C, 0xA0..=0xA5) and a key other than F1..F24
/// (0x70..=0x87) pressed without modifiers are ignored: nothing changes and
/// the capture goes on. F1..F24 alone is stored with no modifiers.
pub proof fn law_capture_ignores(s: Settings, slot: HotkeySlot, since: u32, vk: u32, mods: u32, now: u32)
    requires
        now.wrapping_sub(since) <= 10000,
    ensures
        ((0x10 <= vk <= 0x12) || (0x5B <= vk <= 0x5C) || (0xA0 <= vk <= 0xA5) || (mods == 0 && !(0x70 <= vk
            <= 0x87))) ==> key_press_spec(s, Listen::Waiting { slot, since }, vk, mods, now) == (
            s,
            Listen::Waiting { slot, since },
            Some(Seq::<(Control, Seq<char>)>::empty()),
        ),
        (mods == 0 && 0x70 <= vk <= 0x87) ==> ({
            let s2 = key_press_spec(s, Listen::Waiting { slot, since }, vk, mods, now).0;
            match slot {
                HotkeySlot::Up => s2.tu_mods == 0 && s2.tu_key == vk && s2.td_mods == s.td_mods && s2.td_key
                    == s.td_key,
                HotkeySlot::Down => s2.td_mods == 0 && s2.td_key == vk && s2.tu_mods == s.tu_mods && s2.tu_key
                    == s.tu_key,
            }
        }),
{
}

/// Each hotkey display shows that hotkey and nothing else: the Down text is
/// the name of the Down modifiers, `+`, and the name of the Down key, and it
/// is the same for any two settings with the same Down hotkey (the Up one
/// likewise).
pub proof fn law_slot_texts(s: Settings, t: Settings)
    ensures
        slot_name(s, HotkeySlot::Up) == modifier_name(s.tu_mods) + "+"@ + key_name(s.tu_key),
        slot_name(s, HotkeySlot::Down) == modifier_name(s.td_mods) + "+"@ + key_name(s.td_key),
        (s.tu_mods == t.tu_mods && s.tu_key == t.tu_key) ==> slot_name(s, HotkeySlot::Up) == slot_name(t, HotkeySlot::Up),
        (s.td_mods == t.td_mods && s.td_key == t.td_key) ==> slot_name(s, HotkeySlot::Down) == slot_name(
            t,
            HotkeySlot::Down,
        ),
{
}

/// A key press ends every capture that has waited more than ten seconds,
/// whatever the key, and changes no hotkey.
pub proof fn law_capture_times_out(s: Settings, slot: HotkeySlot, since: u32, vk: u32, mods: u32, now: u32)
    requires
        now.wrapping_sub(since) > LISTEN_TIMEOUT_MS,
    ensures
        key_press_spec(s, Listen::Waiting { slot, since }, vk, mods, now).0 == s,
        key_press_spec(s, Listen::Waiting { slot, since }, vk, mods, now).1 == Listen::Idle,
{
}

/// When the dialog is not capturing, key presses change nothing and go to
/// the default processing (dialog navigation).
pub proof fn law_idle_keys_pass_on(s: Settings, vk: u32, mods: u32, now: u32)
    ensures
        key_press_spec(s, Listen::Idle, vk, mods, now) == (s, Listen::Idle, None::<Seq<(Control, Seq<char>)>>),
{
}

/// A click on a capture button toggles capture for that hotkey: it stops
/// when that hotkey was waited for, and starts (dropping any other wait)
/// otherwise; so two clicks on the same button in a row leave the dialog
/// as idle as it was waiting, or the reverse.
pub proof fn law_button_toggles_capture(s: Settings, listen: Listen, slot: HotkeySlot, t1: u32, t2: u32)
    ensures
        ({
            let l1 = button_click_spec(s, listen, slot, t1).0;
            let l2 = button_click_spec(s, l1, slot, t2).0;
            &&& (l1 == Listen::Idle) == (listen matches Listen::Waiting { slot: cur, since } && cur == slot)
            &&& l1 != Listen::Idle ==> l1 == Listen::Waiting { slot, since: t1 }
            &&& l2 == Listen::Idle <==> l1 != Listen::Idle
        }),
{
}

} // verus!
