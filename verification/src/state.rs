//! The program's state and the decisions of its main window: hotkeys,
//! tray icon, the periodic alpha guard and transparency changes.

use vstd::prelude::*;
use crate::alpha::{
    get_window_transparency, guard_action, guard_action_spec, next_alpha, next_alpha_spec, style_change_spec,
    transparency_style, window_alpha, GuardAction, StyleChange, ALPHA_OPAQUE,
};
use crate::config::{default_settings, Settings};
use crate::tracker::{flag_filter, keep_alive, swap_removed, Handle, TransparentWindow, Tracker};

verus! {

/// The identifier of the "more transparent" hotkey.
pub const ID_HOTKEY_TRANSPARENCY_UP: i32 = 1;
/// The identifier of the "less transparent" hotkey.
pub const ID_HOTKEY_TRANSPARENCY_DOWN: i32 = 2;
/// The identifier of the guard timer.
pub const GUARD_TIMER_ID: usize = 1;
/// The period of the guard timer, in milliseconds.
pub const GUARD_TIMER_MS: u32 = 10;
/// The message that the tray icon sends (`WM_USER + 1`).
pub const WM_TRAYICON: u32 = 0x0401;
/// The mouse message of a right-button release (`WM_RBUTTONUP`).
pub const WM_RBUTTONUP: u32 = 0x0205;
/// The tray menu item that quits.
pub const ID_TRAY_EXIT: u32 = 1001;
/// The tray menu item that opens the settings.
pub const ID_TRAY_SETTINGS: u32 = 1002;
/// The tray icon's identifier.
pub const TRAY_ICON_ID: u32 = 1;
/// The most UTF-16 units of the tray tooltip that are copied.
pub const TRAY_TIP_UNITS: usize = 127;

/// Which of the two hotkeys a settings control is about.
#[derive(Clone, Copy, Debug, PartialEq, Eq, Structural)]
pub enum HotkeySlot {
    /// The "more transparent" hotkey.
    Up,
    /// The "less transparent" hotkey.
    Down,
}

/// Whether the settings dialog waits for a key combination, and for which
/// hotkey and since when (the tick count when it started).
#[derive(Clone, Copy, Debug, PartialEq, Eq, Structural)]
pub enum Listen {
    Idle,
    Waiting { slot: HotkeySlot, since: u32 },
}

/// The program's state.
pub struct State {
    /// The hidden main window (0 before it exists).
    pub main_wnd: Handle,
    /// The settings window (0 while it is closed).
    pub settings_wnd: Handle,
    /// The persistent settings.
    pub settings: Settings,
    /// The windows made translucent.
    pub windows: Tracker,
    /// Hotkey capture in the settings dialog.
    pub listen: Listen,
}

impl State {
    /// The settings are valid and the tracked list has no repeated window.
    pub open spec fn wf(&self) -> bool {
        self.settings.wf() && self.windows.wf()
    }
}

impl Default for State {
    fn default() -> (s: Self)
        ensures
            s.wf(),
            s.main_wnd == 0,
            s.settings_wnd == 0,
            s.settings == default_settings(),
            s.windows@ == Seq::<TransparentWindow>::empty(),
            s.listen == Listen::Idle,
    {
        State {
            main_wnd: 0,
            settings_wnd: 0,
            settings: Settings::default(),
            windows: Tracker::new(),
            listen: Listen::Idle,
        }
    }
}

/// A message to the main window, reduced to what its handling reads.
#[derive(Clone, Copy, Debug, PartialEq, Eq, Structural)]
pub enum MainEvent {
    Create,
    /// A timer fired, with its identifier.
    Timer(usize),
    /// A hotkey was pressed, with its identifier.
    Hotkey(i32),
    /// The tray icon reported a mouse message.
    TrayIcon(u32),
    /// A menu command, with its identifier.
    Command(u32),
    Destroy,
    /// Any other message.
    Other,
}

/// What the main window does with a message.
#[derive(Clone, Copy, Debug, PartialEq, Eq, Structural)]
pub enum MainAction {
    /// Start the guard timer.
    StartGuardTimer,
    /// Re-apply the alpha of every tracked window.
    RunGuard,
    /// Change the alpha of the foreground window.
    AdjustForeground { more_transparent: bool },
    /// Show the tray menu.
    ShowTrayMenu,
    /// Open the settings window.
    OpenSettings,
    /// Leave the message loop.
    Quit,
    /// Stop the guard timer and leave the message loop.
    StopAndQuit,
    /// Nothing; the message is handled.
    Nothing,
    /// Hand the message to the default window procedure.
    DefaultProcessing,
}

/// The main window's action for each message.
pub open spec fn main_action_spec(e: MainEvent) -> MainAction {
    match e {
        MainEvent::Create => MainAction::StartGuardTimer,
        MainEvent::Timer(id) => if id == GUARD_TIMER_ID { MainAction::RunGuard } else { MainAction::Nothing },
        MainEvent::Hotkey(id) => if id == ID_HOTKEY_TRANSPARENCY_UP {
            MainAction::AdjustForeground { more_transparent: true }
        } else if id == ID_HOTKEY_TRANSPARENCY_DOWN {
            MainAction::AdjustForeground { more_transparent: false }
        } else {
            MainAction::Nothing
        },
        MainEvent::TrayIcon(m) => if m == WM_RBUTTONUP { MainAction::ShowTrayMenu } else { MainAction::Nothing },
        MainEvent::Command(id) => if id == ID_TRAY_SETTINGS {
            MainAction::OpenSettings
        } else if id == ID_TRAY_EXIT {
            MainAction::Quit
        } else {
            MainAction::Nothing
        },
        MainEvent::Destroy => MainAction::StopAndQuit,
        MainEvent::Other => MainAction::DefaultProcessing,
    }
}

/// What the main window procedure does with a message: start the guard
/// timer on creation, run the guard on its timer, change the foreground
/// window's alpha on a hotkey, show the menu on a right click of the tray
/// icon, open the settings or quit from the menu, and quit on destruction.
pub fn window_proc(e: MainEvent) -> (a: MainAction)
    ensures
        a == main_action_spec(e),
{
    match e {
        MainEvent::Create => MainAction::StartGuardTimer,
        MainEvent::Timer(id) => if id == GUARD_TIMER_ID { MainAction::RunGuard } else { MainAction::Nothing },
        MainEvent::Hotkey(id) => if id == ID_HOTKEY_TRANSPARENCY_UP {
            MainAction::AdjustForeground { more_transparent: true }
        } else if id == ID_HOTKEY_TRANSPARENCY_DOWN {
            MainAction::AdjustForeground { more_transparent: false }
        } else {
            MainAction::Nothing
        },
        MainEvent::TrayIcon(m) => if m == WM_RBUTTONUP { MainAction::ShowTrayMenu } else { MainAction::Nothing },
        MainEvent::Command(id) => if id == ID_TRAY_SETTINGS {
            MainAction::OpenSettings
        } else if id == ID_TRAY_EXIT {
            MainAction::Quit
        } else {
            MainAction::Nothing
        },
        MainEvent::Destroy => MainAction::StopAndQuit,
        MainEvent::Other => MainAction::DefaultProcessing,
    }
}

/// The window whose alpha a hotkey changes: the foreground window, or the
/// first child of the desktop when there is no foreground window (0).
pub fn get_topmost_window(foreground: Handle, first_desktop_child: Handle) -> (h: Handle)
    ensures
        h == (if foreground == 0 { first_desktop_child } else { foreground }),
{
    if foreground == 0 { first_desktop_child } else { foreground }
}

/// A hotkey to register: its identifier, modifiers and key.
#[derive(Clone, Copy, Debug, PartialEq, Eq, Structural)]
pub struct HotkeyRegistration {
    pub id: i32,
    pub mods: u32,
    pub key: u32,
}

/// The hotkeys registered for `s`: both when the switch is on, none when off.
pub open spec fn registrations_spec(s: Settings) -> Seq<HotkeyRegistration> {
    if s.en_trans != 0 {
        seq![
            HotkeyRegistration { id: ID_HOTKEY_TRANSPARENCY_UP, mods: s.tu_mods, key: s.tu_key },
            HotkeyRegistration { id: ID_HOTKEY_TRANSPARENCY_DOWN, mods: s.td_mods, key: s.td_key },
        ]
    } else {
        Seq::empty()
    }
}

/// With the switch on, each hotkey is registered under its own identifier
/// (1: more transparent, 2: less transparent) with exactly the modifiers and
/// key configured for it, and no other registration is made; so the
/// registration of one hotkey is the same for any two settings that agree
/// on that hotkey. With the switch off nothing is registered.
pub proof fn law_registrations_per_hotkey(s: Settings, t: Settings)
    ensures
        s.en_trans == 0 ==> registrations_spec(s).len() == 0,
        s.en_trans != 0 ==> registrations_spec(s).len() == 2,
        forall|i: int|
            0 <= i < registrations_spec(s).len() && #[trigger] registrations_spec(s)[i].id == 1 ==> registrations_spec(s)[i].mods
                == s.tu_mods && registrations_spec(s)[i].key == s.tu_key,
        forall|i: int|
            0 <= i < registrations_spec(s).len() && #[trigger] registrations_spec(s)[i].id == 2 ==> registrations_spec(s)[i].mods
                == s.td_mods && registrations_spec(s)[i].key == s.td_key,
        s.en_trans != 0 ==> registrations_spec(s)[0].id == 1 && registrations_spec(s)[1].id == 2,
        (s.en_trans != 0 && t.en_trans != 0 && s.td_mods == t.td_mods && s.td_key == t.td_key)
            ==> registrations_spec(s)[1] == registrations_spec(t)[1],
        (s.en_trans != 0 && t.en_trans != 0 && s.tu_mods == t.tu_mods && s.tu_key == t.tu_key)
            ==> registrations_spec(s)[0] == registrations_spec(t)[0],
{
}

/// The hotkeys to register after both are unregistered.
pub fn register_hotkeys(s: &Settings) -> (r: Vec<HotkeyRegistration>)
    ensures
        r@ == registrations_spec(*s),
        s.en_trans == 0 ==> r@.len() == 0,
        s.en_trans != 0 ==> r@.len() == 2 && r@[0].id == 1 && r@[0].mods == s.tu_mods && r@[0].key == s.tu_key
            && r@[1].id == 2 && r@[1].mods == s.td_mods && r@[1].key == s.td_key,
{
    let mut r: Vec<HotkeyRegistration> = Vec::new();
    if s.en_trans != 0 {
        r.push(HotkeyRegistration { id: ID_HOTKEY_TRANSPARENCY_UP, mods: s.tu_mods, key: s.tu_key });
        r.push(HotkeyRegistration { id: ID_HOTKEY_TRANSPARENCY_DOWN, mods: s.td_mods, key: s.td_key });
    }
    r
}

/// The hotkey identifiers to unregister.
pub fn unregister_hotkeys() -> (r: Vec<i32>)
    ensures
        r@ == seq![ID_HOTKEY_TRANSPARENCY_UP, ID_HOTKEY_TRANSPARENCY_DOWN],
{
    let mut r: Vec<i32> = Vec::new();
    r.push(ID_HOTKEY_TRANSPARENCY_UP);
    r.push(ID_HOTKEY_TRANSPARENCY_DOWN);
    r
}

/// The first units of the tray tooltip that fit its buffer.
pub fn tray_tip(tip: &Vec<u16>) -> (r: Vec<u16>)
    ensures
        r@ == tip@.take(if tip@.len() < TRAY_TIP_UNITS { tip@.len() as int } else { TRAY_TIP_UNITS as int }),
{
    let n = if tip.len() < TRAY_TIP_UNITS { tip.len() } else { TRAY_TIP_UNITS };
    let mut r: Vec<u16> = Vec::new();
    let mut i: usize = 0;
    while i < n
        invariant
            n <= tip@.len(),
            i <= n,
            r@ == tip@.take(i as int),
        decreases n - i,
    {
        r.push(tip[i]);
        i = i + 1;
        assert(r@ =~= tip@.take(i as int));
    }
    r
}

impl State {
    /// Whether a hotkey may change the alpha of `hwnd`: not when there is no
    /// window, nor for this program's own windows.
    pub open spec fn may_adjust_spec(&self, hwnd: Handle) -> bool {
        hwnd != 0 && hwnd != self.main_wnd && hwnd != self.settings_wnd
    }

    /// Whether a hotkey may change the alpha of `hwnd`.
    pub fn may_adjust(&self, hwnd: Handle) -> (r: bool)
        ensures
            r == self.may_adjust_spec(hwnd),
    {
        hwnd != 0 && hwnd != self.main_wnd && hwnd != self.settings_wnd
    }

    /// The alpha that one press gives a window whose alpha is `cur`, with
    /// the configured step.
    pub fn adjusted_alpha(&self, cur: i32, increase: bool) -> (r: i32)
        requires
            self.wf(),
            0 <= cur <= ALPHA_OPAQUE,
        ensures
            r == next_alpha_spec(cur as int, self.settings.transparency_step as int, increase),
            0 <= r <= ALPHA_OPAQUE,
    {
        next_alpha(cur, self.settings.transparency_step, increase)
    }

    /// Gives `hwnd`, whose extended style is `ex_style`, the alpha `alpha`:
    /// returns the style change to apply, and tracks the window when it stays
    /// translucent or stops tracking it when it becomes opaque.
    pub fn set_window_transparency(&mut self, hwnd: Handle, ex_style: i32, alpha: i32) -> (c: StyleChange)
        requires
            old(self).wf(),
        ensures
            final(self).wf(),
            c == style_change_spec(ex_style, alpha),
            alpha < ALPHA_OPAQUE ==> match old(self).windows.position_spec(hwnd) {
                Some(i) => final(self).windows@ == old(self).windows@.update(i, TransparentWindow { hwnd, alpha }),
                None => final(self).windows@ == old(self).windows@.push(TransparentWindow { hwnd, alpha }),
            },
            alpha >= ALPHA_OPAQUE ==> match old(self).windows.position_spec(hwnd) {
                Some(i) => final(self).windows@ == swap_removed(old(self).windows@, i),
                None => final(self).windows@ == old(self).windows@,
            },
            final(self).windows.alphas() == (if alpha < ALPHA_OPAQUE {
                old(self).windows.alphas().insert(hwnd, alpha)
            } else {
                old(self).windows.alphas().remove(hwnd)
            }),
            final(self).settings == old(self).settings,
            final(self).listen == old(self).listen,
            final(self).main_wnd == old(self).main_wnd,
            final(self).settings_wnd == old(self).settings_wnd,
    {
        let c = transparency_style(ex_style, alpha);
        if alpha < ALPHA_OPAQUE {
            self.windows.track_window(hwnd, alpha);
        } else {
            self.windows.untrack_window(hwnd);
        }
        c
    }

    /// The window that a transparency hotkey acts on: the foreground window
    /// (or the first child of the desktop when there is none), unless it is
    /// no window or one of this program's own.
    pub fn adjust_target(&self, foreground: Handle, first_desktop_child: Handle) -> (r: Option<Handle>)
        ensures
            ({
                let h = if foreground == 0 { first_desktop_child } else { foreground };
                r == (if self.may_adjust_spec(h) { Some(h) } else { None })
            }),
    {
        let h = get_topmost_window(foreground, first_desktop_child);
        if self.may_adjust(h) { Some(h) } else { None }
    }

    /// One press of a transparency hotkey on `hwnd`, whose extended style is
    /// `ex_style` and for which `GetLayeredWindowAttributes` reported
    /// `reported`: the window's alpha is read from those, moved by one step,
    /// and given to the window as `set_window_transparency` does.
    pub fn adjust_transparency(
        &mut self,
        hwnd: Handle,
        ex_style: i32,
        reported: Option<u8>,
        more_transparent: bool,
    ) -> (c: StyleChange)
        requires
            old(self).wf(),
        ensures
            final(self).wf(),
            ({
                let a = next_alpha_spec(
                    window_alpha(ex_style, reported),
                    old(self).settings.transparency_step as int,
                    more_transparent,
                );
                &&& c == style_change_spec(ex_style, a as i32)
                &&& final(self).windows.alphas() == (if a < ALPHA_OPAQUE {
                    old(self).windows.alphas().insert(hwnd, a as i32)
                } else {
                    old(self).windows.alphas().remove(hwnd)
                })
                &&& a < ALPHA_OPAQUE ==> match old(self).windows.position_spec(hwnd) {
                    Some(i) => final(self).windows@ == old(self).windows@.update(i, TransparentWindow { hwnd, alpha: a as i32 }),
                    None => final(self).windows@ == old(self).windows@.push(TransparentWindow { hwnd, alpha: a as i32 }),
                }
                &&& a >= ALPHA_OPAQUE ==> match old(self).windows.position_spec(hwnd) {
                    Some(i) => final(self).windows@ == swap_removed(old(self).windows@, i),
                    None => final(self).windows@ == old(self).windows@,
                }
            }),
            final(self).settings == old(self).settings,
            final(self).listen == old(self).listen,
            final(self).main_wnd == old(self).main_wnd,
            final(self).settings_wnd == old(self).settings_wnd,
    {
        let cur = get_window_transparency(ex_style, reported);
        let alpha = self.adjusted_alpha(cur, more_transparent);
        self.set_window_transparency(hwnd, ex_style, alpha)
    }

    /// One run of the guard timer over the tracked windows, given for each
    /// of them (in order) whether it still exists and its extended style:
    /// the windows that are gone stop being tracked, order kept, and each
    /// window gets the action of `guard_action`.
    pub fn run_guard(&mut self, alive: &Vec<bool>, styles: &Vec<i32>) -> (r: Vec<GuardAction>)
        requires
            old(self).wf(),
            alive@.len() == old(self).windows@.len(),
            styles@.len() == old(self).windows@.len(),
        ensures
            final(self).wf(),
            r@.len() == old(self).windows@.len(),
            forall|i: int| 0 <= i < r@.len() ==> #[trigger] r@[i] == guard_action_spec(
                alive@[i],
                styles@[i],
                old(self).windows@[i].alpha,
            ),
            final(self).windows@ == keep_alive(old(self).windows@, alive@),
            final(self).windows@ == flag_filter(old(self).windows@, alive@),
            forall|i: int| 0 <= i < old(self).windows@.len() ==> (#[trigger] final(self).windows@.contains(
                old(self).windows@[i],
            ) <==> alive@[i]),
            final(self).settings == old(self).settings,
            final(self).listen == old(self).listen,
            final(self).main_wnd == old(self).main_wnd,
            final(self).settings_wnd == old(self).settings_wnd,
    {
        let snapshot = self.windows.snapshot();
        let mut r: Vec<GuardAction> = Vec::new();
        let mut i: usize = 0;
        while i < snapshot.len()
            invariant
                snapshot@ == old(self).windows@,
                alive@.len() == snapshot@.len(),
                styles@.len() == snapshot@.len(),
                i <= snapshot@.len(),
                r@.len() == i,
                forall|j: int| 0 <= j < i ==> #[trigger] r@[j] == guard_action_spec(alive@[j], styles@[j], snapshot@[j].alpha),
            decreases snapshot@.len() - i,
        {
            r.push(guard_action(alive[i], styles[i], snapshot[i].alpha));
            i = i + 1;
        }
        self.windows.retain_alive(alive);
        r
    }

    /// Stops tracking the windows of `dead`, which no longer exist.
    pub fn forget_windows(&mut self, dead: &Vec<Handle>)
        requires
            old(self).wf(),
        ensures
            final(self).wf(),
            final(self).windows@ == old(self).windows@.filter(|tw: TransparentWindow| !dead@.contains(tw.hwnd)),
            final(self).settings == old(self).settings,
            final(self).listen == old(self).listen,
            final(self).main_wnd == old(self).main_wnd,
            final(self).settings_wnd == old(self).settings_wnd,
    {
        self.windows.remove_dead(dead);
    }
}

} // verus!
