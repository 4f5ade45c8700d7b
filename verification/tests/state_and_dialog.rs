use window2clear::alpha::{GuardAction, StyleChange, WS_EX_LAYERED};
use window2clear::tracker::TransparentWindow;
use window2clear::config::Settings;
use window2clear::dialog::{
    modifiers_from_keys, settings_command, settings_window_origin, step_label, Control, KeyOutcome, SettingsCommand,
    TextUpdate,
};
use window2clear::state::{
    get_topmost_window, register_hotkeys, tray_tip, unregister_hotkeys, window_proc, HotkeyRegistration, HotkeySlot,
    Listen, MainAction, MainEvent, State,
};

fn texts(v: &[TextUpdate]) -> Vec<(Control, String)> {
    v.iter().map(|u| (u.control, u.text.clone())).collect()
}

fn t(c: Control, s: &str) -> (Control, String) {
    (c, s.to_string())
}

fn consumed(o: KeyOutcome) -> Vec<(Control, String)> {
    match o {
        KeyOutcome::Consumed(v) => texts(&v),
        KeyOutcome::PassOn => panic!("key was passed on"),
    }
}

#[test]
fn default_state() {
    let s = State::default();
    assert_eq!(s.main_wnd, 0);
    assert_eq!(s.settings_wnd, 0);
    assert_eq!(s.settings, Settings::default());
    assert_eq!(s.windows.len(), 0);
    assert_eq!(s.listen, Listen::Idle);
}

#[test]
fn main_window_messages() {
    assert_eq!(window_proc(MainEvent::Create), MainAction::StartGuardTimer);
    assert_eq!(window_proc(MainEvent::Timer(1)), MainAction::RunGuard);
    assert_eq!(window_proc(MainEvent::Timer(2)), MainAction::Nothing);
    assert_eq!(window_proc(MainEvent::Hotkey(1)), MainAction::AdjustForeground { more_transparent: true });
    assert_eq!(window_proc(MainEvent::Hotkey(2)), MainAction::AdjustForeground { more_transparent: false });
    assert_eq!(window_proc(MainEvent::Hotkey(3)), MainAction::Nothing);
    assert_eq!(window_proc(MainEvent::TrayIcon(0x0205)), MainAction::ShowTrayMenu);
    assert_eq!(window_proc(MainEvent::TrayIcon(0x0202)), MainAction::Nothing);
    assert_eq!(window_proc(MainEvent::Command(1002)), MainAction::OpenSettings);
    assert_eq!(window_proc(MainEvent::Command(1001)), MainAction::Quit);
    assert_eq!(window_proc(MainEvent::Command(5)), MainAction::Nothing);
    assert_eq!(window_proc(MainEvent::Destroy), MainAction::StopAndQuit);
    assert_eq!(window_proc(MainEvent::Other), MainAction::DefaultProcessing);
}

#[test]
fn foreground_or_desktop_child() {
    assert_eq!(get_topmost_window(0, 77), 77);
    assert_eq!(get_topmost_window(5, 77), 5);
}

#[test]
fn own_windows_are_not_adjusted() {
    let mut s = State::default();
    s.main_wnd = 100;
    s.settings_wnd = 200;
    assert!(!s.may_adjust(0));
    assert!(!s.may_adjust(100));
    assert!(!s.may_adjust(200));
    assert!(s.may_adjust(300));
    assert_eq!(s.adjusted_alpha(255, true), 230);
}

#[test]
fn hotkey_press_scenario() {
    let mut s = State::default();
    // Alt+Left on an opaque window: one step (25) more transparent, tracked.
    let c = s.set_window_transparency(42, 0x100, s.adjusted_alpha(255, true));
    assert_eq!(c, StyleChange { ex_style: 0x100 | WS_EX_LAYERED, layered_alpha: Some(230) });
    assert_eq!(s.windows.position(42), Some(0));
    // Alt+Right back to opaque: the layered bit goes and tracking stops.
    let c = s.set_window_transparency(42, 0x100 | WS_EX_LAYERED, s.adjusted_alpha(230, false));
    assert_eq!(c, StyleChange { ex_style: 0x100, layered_alpha: None });
    assert_eq!(s.windows.position(42), None);
}

#[test]
fn forget_windows_that_are_gone() {
    let mut s = State::default();
    s.set_window_transparency(1, 0, 100);
    s.set_window_transparency(2, 0, 120);
    s.forget_windows(&vec![1]);
    assert_eq!(s.windows.handles(), vec![2]);
}

#[test]
fn registrations_follow_the_switch() {
    let mut st = Settings::default();
    assert_eq!(
        register_hotkeys(&st),
        vec![HotkeyRegistration { id: 1, mods: 1, key: 0x25 }, HotkeyRegistration { id: 2, mods: 1, key: 0x27 }]
    );
    st.en_trans = 0;
    assert_eq!(register_hotkeys(&st), vec![]);
    assert_eq!(unregister_hotkeys(), vec![1, 2]);
}

#[test]
fn tray_tip_is_cut_to_127_units() {
    let long: Vec<u16> = (0..300u16).collect();
    assert_eq!(tray_tip(&long), (0..127u16).collect::<Vec<u16>>());
    assert_eq!(tray_tip(&vec![1, 2, 0]), vec![1, 2, 0]);
}

#[test]
fn commands_of_the_settings_dialog() {
    assert_eq!(settings_command(2001), SettingsCommand::HotkeyButton(HotkeySlot::Up));
    assert_eq!(settings_command(2002), SettingsCommand::HotkeyButton(HotkeySlot::Down));
    assert_eq!(settings_command(2012), SettingsCommand::EnableToggled);
    assert_eq!(settings_command(2006), SettingsCommand::Save);
    assert_eq!(settings_command(2), SettingsCommand::Cancel);
    assert_eq!(settings_command(2005), SettingsCommand::Other);
}

#[test]
fn step_labels() {
    assert_eq!(step_label(10), "透明度步长: 10%");
    assert_eq!(step_label(1), "透明度步长: 1%");
    assert_eq!(step_label(-3), "透明度步长: -3%");
}

#[test]
fn settings_window_is_centred() {
    assert_eq!(settings_window_origin(1920, 1080), (770, 405));
    assert_eq!(settings_window_origin(300, 200), (-40, -35));
    assert_eq!(settings_window_origin(381, 271), (0, 0));
}

#[test]
fn modifiers_of_held_keys() {
    assert_eq!(modifiers_from_keys(false, false, false, false), 0);
    assert_eq!(modifiers_from_keys(true, true, false, false), 3);
    assert_eq!(modifiers_from_keys(false, false, true, true), 12);
}

#[test]
fn create_resets_a_stale_capture() {
    let mut s = State::default();
    s.on_hotkey_button(HotkeySlot::Up, 5);
    assert_ne!(s.listen, Listen::Idle);
    let c = s.on_settings_create();
    assert_eq!(s.listen, Listen::Idle);
    assert_eq!(c.unregister, vec![1, 2]);
    assert!(c.enabled);
    assert_eq!(c.up_text, "ALT+LEFT");
    assert_eq!(c.down_text, "ALT+RIGHT");
    assert_eq!(c.step_text, "透明度步长: 10%");
    assert_eq!((c.step_min, c.step_max, c.step), (1, 50, 10));
}

#[test]
fn capture_a_new_hotkey() {
    let mut s = State::default();
    let u = s.on_hotkey_button(HotkeySlot::Down, 1000);
    assert_eq!(texts(&u), vec![t(Control::DownButton, "取消"), t(Control::DownDisplay, "请按下组合键...")]);
    // A bare modifier and an unmodified letter are ignored.
    assert_eq!(consumed(s.on_settings_key(0x11, true, false, false, false, 1100)), vec![]);
    assert_eq!(consumed(s.on_settings_key(0x41, false, false, false, false, 1200)), vec![]);
    assert_eq!(s.listen, Listen::Waiting { slot: HotkeySlot::Down, since: 1000 });
    // Ctrl+Shift+D is taken.
    let u = consumed(s.on_settings_key(0x44, true, false, true, false, 1300));
    assert_eq!(u, vec![t(Control::DownDisplay, "CTRL+SHIFT+D"), t(Control::DownButton, "设置")]);
    assert_eq!((s.settings.td_mods, s.settings.td_key), (6, 0x44));
    assert_eq!((s.settings.tu_mods, s.settings.tu_key), (1, 0x25));
    assert_eq!(s.listen, Listen::Idle);
    // Not capturing: keys go to default processing.
    assert!(matches!(s.on_settings_key(0x09, false, false, false, false, 1400), KeyOutcome::PassOn));
}

#[test]
fn function_keys_need_no_modifier() {
    let mut s = State::default();
    s.on_hotkey_button(HotkeySlot::Up, 0);
    let u = consumed(s.on_settings_key(0x80, false, false, false, false, 10));
    assert_eq!(u, vec![t(Control::UpDisplay, "+KEY128"), t(Control::UpButton, "设置")]);
    assert_eq!((s.settings.tu_mods, s.settings.tu_key), (0, 0x80));
}

#[test]
fn capture_times_out_after_ten_seconds() {
    let mut s = State::default();
    s.on_hotkey_button(HotkeySlot::Up, u32::MAX - 5000);
    // 10 001 ms later, across the tick counter's wrap-around.
    let u = consumed(s.on_settings_key(0x41, true, false, false, false, 5001));
    assert_eq!(u, vec![t(Control::UpButton, "设置"), t(Control::UpDisplay, "监听超时，请重试")]);
    assert_eq!(s.settings, Settings::default());
    assert_eq!(s.listen, Listen::Idle);
    // Exactly 10 000 ms is still in time.
    s.on_hotkey_button(HotkeySlot::Up, 0);
    let u = consumed(s.on_settings_key(0x41, true, false, false, false, 10000));
    assert_eq!(u, vec![t(Control::UpDisplay, "CTRL+A"), t(Control::UpButton, "设置")]);
}

#[test]
fn buttons_toggle_and_switch_capture() {
    let mut s = State::default();
    s.on_hotkey_button(HotkeySlot::Up, 1);
    let u = s.on_hotkey_button(HotkeySlot::Down, 2);
    assert_eq!(
        texts(&u),
        vec![
            t(Control::UpButton, "设置"),
            t(Control::UpDisplay, "ALT+LEFT"),
            t(Control::DownButton, "取消"),
            t(Control::DownDisplay, "请按下组合键..."),
        ]
    );
    assert_eq!(s.listen, Listen::Waiting { slot: HotkeySlot::Down, since: 2 });
    let u = s.on_hotkey_button(HotkeySlot::Down, 3);
    assert_eq!(texts(&u), vec![t(Control::DownButton, "设置"), t(Control::DownDisplay, "ALT+RIGHT")]);
    assert_eq!(s.listen, Listen::Idle);
}

#[test]
fn switching_off_restores_every_window() {
    let mut s = State::default();
    s.set_window_transparency(7, 0, 100);
    s.set_window_transparency(8, 0, 200);
    s.set_window_transparency(9, 0, 50);
    assert_eq!(s.on_enable_toggled(true), vec![]);
    assert_eq!(s.windows.len(), 3);
    assert_eq!(s.on_enable_toggled(false), vec![7, 8, 9]);
    assert_eq!(s.windows.len(), 0);
    assert_eq!(s.settings.en_trans, 0);
    assert_eq!(s.on_enable_toggled(true), vec![]);
    assert_eq!(s.settings.en_trans, 1);
}

#[test]
fn save_and_close() {
    let mut s = State::default();
    s.settings_wnd = 9;
    let out = s.on_save(30);
    assert_eq!(s.settings.transparency_step, 30);
    assert_eq!(out.entries[0].text, "30");
    assert_eq!(out.registrations.len(), 2);
    s.on_enable_toggled(false);
    assert_eq!(s.existing_settings_window(), Some(9));
    let r = s.on_settings_close();
    assert_eq!(r.registrations, vec![]);
    // The switch turned off without saving is written on closing.
    assert_eq!(r.entries.len(), 6);
    assert_eq!(r.entries[0].text, "30");
    assert_eq!(r.entries[5].key, "EnableTransparency");
    assert_eq!(r.entries[5].text, "0");
    assert_eq!(s.settings_wnd, 0);
    assert_eq!(s.existing_settings_window(), None);
}

#[test]
fn adjust_target_skips_own_windows() {
    let mut s = State::default();
    s.main_wnd = 100;
    s.settings_wnd = 200;
    assert_eq!(s.adjust_target(300, 5), Some(300));
    assert_eq!(s.adjust_target(0, 5), Some(5));
    assert_eq!(s.adjust_target(100, 5), None);
    assert_eq!(s.adjust_target(0, 200), None);
    assert_eq!(s.adjust_target(0, 0), None);
}

#[test]
fn adjust_reads_steps_and_tracks() {
    let mut s = State::default();
    // Not layered: the reported alpha is ignored and the window counts as opaque.
    let c = s.adjust_transparency(42, 0x100, Some(10), true);
    assert_eq!(c, StyleChange { ex_style: 0x100 | WS_EX_LAYERED, layered_alpha: Some(230) });
    assert_eq!(s.windows.snapshot(), vec![TransparentWindow { hwnd: 42, alpha: 230 }]);
    // Layered at 230: one step less transparent gives 255, untracked.
    let c = s.adjust_transparency(42, 0x100 | WS_EX_LAYERED, Some(230), false);
    assert_eq!(c, StyleChange { ex_style: 0x100, layered_alpha: None });
    assert_eq!(s.windows.len(), 0);
    // Layered with no report: opaque, made more transparent.
    let c = s.adjust_transparency(7, WS_EX_LAYERED, None, true);
    assert_eq!(c, StyleChange { ex_style: WS_EX_LAYERED, layered_alpha: Some(230) });
}

#[test]
fn guard_run_drops_dead_and_refreshes_live() {
    let mut s = State::default();
    s.set_window_transparency(1, 0, 100);
    s.set_window_transparency(2, 0, 120);
    s.set_window_transparency(3, 0, 140);
    let actions = s.run_guard(&vec![true, false, true], &vec![WS_EX_LAYERED, 0, 0x10]);
    assert_eq!(
        actions,
        vec![
            GuardAction::Refresh { ex_style: None, alpha: 100 },
            GuardAction::Forget,
            GuardAction::Refresh { ex_style: Some(0x10 | WS_EX_LAYERED), alpha: 140 },
        ]
    );
    assert_eq!(
        s.windows.snapshot(),
        vec![TransparentWindow { hwnd: 1, alpha: 100 }, TransparentWindow { hwnd: 3, alpha: 140 }]
    );
}
