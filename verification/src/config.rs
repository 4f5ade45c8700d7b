//! The persistent settings: defaults, the profile (INI) keys they are kept
//! under, reading them back and the path of the profile file.

use vstd::prelude::*;
use crate::alpha::{STEP_MAX, STEP_MIN};
use crate::keys::{MOD_ALT, VK_LEFT, VK_RIGHT};
use crate::text::{decimal, decimal_string, wide, wide_spec};

verus! {

/// The settings the program keeps in its profile file.
#[derive(Clone, Copy, Debug, PartialEq, Eq, Structural)]
pub struct Settings {
    /// Percent of full opacity that one hotkey press changes.
    pub transparency_step: i32,
    /// Modifiers of the "more transparent" hotkey.
    pub tu_mods: u32,
    /// Key of the "more transparent" hotkey.
    pub tu_key: u32,
    /// Modifiers of the "less transparent" hotkey.
    pub td_mods: u32,
    /// Key of the "less transparent" hotkey.
    pub td_key: u32,
    /// The master switch of both hotkeys (a Win32 `BOOL`: nonzero is on).
    pub en_trans: i32,
}

/// The settings before any profile is read: a 10% step, Alt+Left and
/// Alt+Right, switched on.
pub open spec fn default_settings() -> Settings {
    Settings {
        transparency_step: 10,
        tu_mods: MOD_ALT,
        tu_key: VK_LEFT,
        td_mods: MOD_ALT,
        td_key: VK_RIGHT,
        en_trans: 1,
    }
}

impl Settings {
    /// The step is one that the settings dialog's slider offers.
    pub open spec fn wf(&self) -> bool {
        STEP_MIN <= self.transparency_step <= STEP_MAX
    }

    /// The same settings with the switch written as 0 or 1.
    pub open spec fn normalized(&self) -> Settings {
        Settings { en_trans: if self.en_trans != 0 { 1 } else { 0 }, ..*self }
    }
}

impl Default for Settings {
    fn default() -> (s: Self)
        ensures
            s == default_settings(),
    {
        Settings {
            transparency_step: 10,
            tu_mods: MOD_ALT,
            tu_key: VK_LEFT,
            td_mods: MOD_ALT,
            td_key: VK_RIGHT,
            en_trans: 1,
        }
    }
}

/// An integer to read from the profile: section, key, and the default that
/// `GetPrivateProfileIntW` returns when the key is missing.
pub struct ProfileRequest {
    pub section: String,
    pub key: String,
    pub default: i32,
}

impl View for ProfileRequest {
    type V = (Seq<char>, Seq<char>, i32);

    open spec fn view(&self) -> (Seq<char>, Seq<char>, i32) {
        (self.section@, self.key@, self.default)
    }
}

/// A value to write to the profile: section, key, the number and its text.
pub struct ProfileEntry {
    pub section: String,
    pub key: String,
    pub value: u32,
    pub text: String,
}

impl View for ProfileEntry {
    type V = (Seq<char>, Seq<char>, u32);

    open spec fn view(&self) -> (Seq<char>, Seq<char>, u32) {
        (self.section@, self.key@, self.value)
    }
}

/// Position of the step in the list of profile reads.
pub const READ_STEP: usize = 0;
/// Position of the "more transparent" modifiers.
pub const READ_UP_MODS: usize = 1;
/// Position of the "more transparent" key.
pub const READ_UP_KEY: usize = 2;
/// Position of the "less transparent" modifiers.
pub const READ_DOWN_MODS: usize = 3;
/// Position of the "less transparent" key.
pub const READ_DOWN_KEY: usize = 4;
/// Position of the master switch.
pub const READ_ENABLE: usize = 5;
/// Position of the switch under the key of older versions.
pub const READ_ENABLE_LEGACY: usize = 6;
/// The number of profile reads.
pub const READ_COUNT: usize = 7;

/// The profile reads, in order: section, key, default.
pub open spec fn profile_requests() -> Seq<(Seq<char>, Seq<char>, i32)> {
    seq![
        ("Settings"@, "TransparencyStep"@, 10i32),
        ("Hotkeys"@, "TransparencyUpModifiers"@, MOD_ALT as i32),
        ("Hotkeys"@, "TransparencyUpKey"@, VK_LEFT as i32),
        ("Hotkeys"@, "TransparencyDownModifiers"@, MOD_ALT as i32),
        ("Hotkeys"@, "TransparencyDownKey"@, VK_RIGHT as i32),
        ("Switches"@, "EnableTransparency"@, -1i32),
        ("Switches"@, "EnableTransparencyUp"@, 1i32),
    ]
}

fn request(section: &str, key: &str, default: i32) -> (r: ProfileRequest)
    ensures
        r@ == (section@, key@, default),
{
    ProfileRequest { section: String::from_str(section), key: String::from_str(key), default }
}

/// The integers to read from the profile to load the settings. The last
/// one is the switch under the key that older versions used.
pub fn load_requests() -> (r: Vec<ProfileRequest>)
    ensures
        r@.len() == READ_COUNT,
        forall|i: int| 0 <= i < r@.len() ==> #[trigger] r@[i]@ == profile_requests()[i],
{
    let mut r: Vec<ProfileRequest> = Vec::new();
    r.push(request("Settings", "TransparencyStep", 10));
    r.push(request("Hotkeys", "TransparencyUpModifiers", MOD_ALT as i32));
    r.push(request("Hotkeys", "TransparencyUpKey", VK_LEFT as i32));
    r.push(request("Hotkeys", "TransparencyDownModifiers", MOD_ALT as i32));
    r.push(request("Hotkeys", "TransparencyDownKey", VK_RIGHT as i32));
    r.push(request("Switches", "EnableTransparency", -1));
    r.push(request("Switches", "EnableTransparencyUp", 1));
    r
}

/// `x` clamped into `[lo, hi]`.
pub open spec fn clamp_spec(x: int, lo: int, hi: int) -> int {
    if x < lo { lo } else if x > hi { hi } else { x }
}

/// The settings from the integers read for `profile_requests()`: the step
/// clamped to 1..=50, the hotkeys as read, and the switch from its key, or
/// from the key of older versions when its key is missing (read as -1).
pub open spec fn settings_from_profile(v: Seq<u32>) -> Settings {
    let en = v[READ_ENABLE as int] as i32;
    Settings {
        transparency_step: clamp_spec((v[READ_STEP as int] as i32) as int, STEP_MIN as int, STEP_MAX as int) as i32,
        tu_mods: v[READ_UP_MODS as int],
        tu_key: v[READ_UP_KEY as int],
        td_mods: v[READ_DOWN_MODS as int],
        td_key: v[READ_DOWN_KEY as int],
        en_trans: if en == -1 { v[READ_ENABLE_LEGACY as int] as i32 } else { en },
    }
}

/// The settings from the values `GetPrivateProfileIntW` returned for the
/// requests of `load_requests()`, in the same order.
pub fn load_config(values: &Vec<u32>) -> (s: Settings)
    requires
        values@.len() == READ_COUNT,
    ensures
        s == settings_from_profile(values@),
        s.wf(),
{
    let raw_step = values[READ_STEP] as i32;
    let step = if raw_step < STEP_MIN {
        STEP_MIN
    } else if raw_step > STEP_MAX {
        STEP_MAX
    } else {
        raw_step
    };
    let raw_en = values[READ_ENABLE] as i32;
    let en = if raw_en == -1 { values[READ_ENABLE_LEGACY] as i32 } else { raw_en };
    Settings {
        transparency_step: step,
        tu_mods: values[READ_UP_MODS],
        tu_key: values[READ_UP_KEY],
        td_mods: values[READ_DOWN_MODS],
        td_key: values[READ_DOWN_KEY],
        en_trans: en,
    }
}

/// The values that saving writes, in order: section, key, number.
pub open spec fn saved_values(s: Settings) -> Seq<(Seq<char>, Seq<char>, u32)> {
    seq![
        ("Settings"@, "TransparencyStep"@, s.transparency_step as u32),
        ("Hotkeys"@, "TransparencyUpModifiers"@, s.tu_mods),
        ("Hotkeys"@, "TransparencyUpKey"@, s.tu_key),
        ("Hotkeys"@, "TransparencyDownModifiers"@, s.td_mods),
        ("Hotkeys"@, "TransparencyDownKey"@, s.td_key),
        ("Switches"@, "EnableTransparency"@, if s.en_trans != 0 { 1u32 } else { 0u32 }),
    ]
}

fn entry(section: &str, key: &str, value: u32) -> (r: ProfileEntry)
    ensures
        r@ == (section@, key@, value),
        r.text@ == decimal(value as nat),
{
    ProfileEntry {
        section: String::from_str(section),
        key: String::from_str(key),
        value,
        text: decimal_string(value),
    }
}

/// The profile values that store `s`, each with its decimal text; the
/// switch is written as 1 or 0.
pub fn save_config(s: &Settings) -> (r: Vec<ProfileEntry>)
    requires
        s.wf(),
    ensures
        r@.len() == saved_values(*s).len(),
        forall|i: int| 0 <= i < r@.len() ==> #[trigger] r@[i]@ == saved_values(*s)[i],
        forall|i: int| 0 <= i < r@.len() ==> #[trigger] r@[i].text@ == decimal(r@[i].value as nat),
{
    let mut r: Vec<ProfileEntry> = Vec::new();
    r.push(entry("Settings", "TransparencyStep", s.transparency_step as u32));
    r.push(entry("Hotkeys", "TransparencyUpModifiers", s.tu_mods));
    r.push(entry("Hotkeys", "TransparencyUpKey", s.tu_key));
    r.push(entry("Hotkeys", "TransparencyDownModifiers", s.td_mods));
    r.push(entry("Hotkeys", "TransparencyDownKey", s.td_key));
    r.push(entry("Switches", "EnableTransparency", if s.en_trans != 0 { 1 } else { 0 }));
    r
}

/// What reading `(section, key)` with `default` gives from a profile that
/// holds exactly `entries`: the first matching value, else the default as
/// the unsigned integer the call returns. `GetPrivateProfileIntW` reads the
/// text as a signed integer, so this holds for written values up to
/// `i32::MAX`; `law_save_then_load` asks no more of it.
pub open spec fn profile_read(
    entries: Seq<(Seq<char>, Seq<char>, u32)>,
    section: Seq<char>,
    key: Seq<char>,
    default: i32,
) -> u32
    decreases entries.len(),
{
    if entries.len() == 0 {
        default as u32
    } else if entries[0].0 == section && entries[0].1 == key {
        entries[0].2
    } else {
        profile_read(entries.drop_first(), section, key, default)
    }
}

/// The integers that the requests of `profile_requests()` read from a
/// profile holding exactly `entries`.
pub open spec fn read_back(entries: Seq<(Seq<char>, Seq<char>, u32)>) -> Seq<u32> {
    profile_requests().map_values(|r: (Seq<char>, Seq<char>, i32)| profile_read(entries, r.0, r.1, r.2))
}

/// Saving then loading gives back the same settings, with the switch as 0
/// or 1: reading each key of a profile written from `s` yields the value
/// written for it. The hotkey values are those a signed read gives back
/// (up to `i32::MAX`; real modifier sets and key codes are far below).
pub proof fn law_save_then_load(s: Settings)
    requires
        s.wf(),
        s.tu_mods <= i32::MAX,
        s.tu_key <= i32::MAX,
        s.td_mods <= i32::MAX,
        s.td_key <= i32::MAX,
    ensures
        settings_from_profile(read_back(saved_values(s))) == s.normalized(),
{
    reveal_strlit("Settings");
    reveal_strlit("Hotkeys");
    reveal_strlit("Switches");
    reveal_strlit("TransparencyStep");
    reveal_strlit("TransparencyUpModifiers");
    reveal_strlit("TransparencyUpKey");
    reveal_strlit("TransparencyDownModifiers");
    reveal_strlit("TransparencyDownKey");
    reveal_strlit("EnableTransparency");
    reveal_strlit("EnableTransparencyUp");
    let e = saved_values(s);
    let v = read_back(e);
    reveal_with_fuel(profile_read, 7);
    let e1 = e.drop_first();
    let e2 = e1.drop_first();
    assert(e1[0] == e[1]);
    assert(e2[0] == e[2]);
    assert("Settings"@[0] != "Hotkeys"@[0]);
    assert("Settings"@[1] != "Switches"@[1]);
    assert("Hotkeys"@.len() != "Switches"@.len());
    assert("TransparencyStep"@.len() == 16);
    assert("TransparencyUpModifiers"@.len() == 23);
    assert("TransparencyUpKey"@.len() == 17);
    assert("TransparencyDownModifiers"@.len() == 25);
    assert("TransparencyDownKey"@.len() == 19);
    assert("EnableTransparency"@.len() == 18);
    assert("EnableTransparencyUp"@.len() == 20);
    let e3 = e2.drop_first();
    let e4 = e3.drop_first();
    let e5 = e4.drop_first();
    assert(e3[0] == e[3]);
    assert(e4[0] == e[4]);
    assert(e5[0] == e[5]);
    assert(v[0] == s.transparency_step as u32);
    assert(v[1] == s.tu_mods);
    assert(v[2] == s.tu_key);
    assert(v[3] == s.td_mods);
    assert(v[4] == s.td_key);
    assert(v[5] == (if s.en_trans != 0 { 1u32 } else { 0u32 }));
    assert((v[0] as i32) == s.transparency_step);
}

/// The code unit of `\` in UTF-16.
pub const BACKSLASH: u16 = 0x5C;

/// The length of the directory part of a path: up to and including its
/// last backslash, or 0 when it has none.
pub open spec fn dir_len(p: Seq<u16>) -> int
    decreases p.len(),
{
    if p.len() == 0 {
        0
    } else if p.last() == BACKSLASH {
        p.len() as int
    } else {
        dir_len(p.drop_last())
    }
}

/// The profile path: `config.ini` in the directory of the program's file,
/// whose path is the first `len` units of `module` as
/// `GetModuleFileNameW` filled it; `.\config.ini` when that call failed
/// (0) or filled the whole buffer (the path may be cut).
pub open spec fn config_path_spec(module: Seq<u16>, len: int) -> Seq<u16> {
    if len == 0 || len >= module.len() {
        wide_spec(".\\config.ini"@)
    } else {
        module.take(dir_len(module.take(len))) + wide_spec("config.ini"@)
    }
}

/// The null-terminated path of the profile file next to the program.
pub fn config_path(module: &Vec<u16>, len: u32) -> (r: Vec<u16>)
    ensures
        r@ == config_path_spec(module@, len as int),
{
    if len == 0 || len as usize >= module.len() {
        return wide(".\\config.ini");
    }
    let n = len as usize;
    let mut last: usize = 0;
    let mut i: usize = 0;
    while i < n
        invariant
            n < module@.len(),
            i <= n,
            last as int == dir_len(module@.take(i as int)),
            last <= i,
        decreases n - i,
    {
        assert(module@.take(i + 1).drop_last() =~= module@.take(i as int));
        if module[i] == BACKSLASH {
            last = i + 1;
        }
        i = i + 1;
    }
    let mut path: Vec<u16> = Vec::new();
    let mut k: usize = 0;
    while k < last
        invariant
            last <= n < module@.len(),
            k <= last,
            path@ == module@.take(k as int),
        decreases last - k,
    {
        path.push(module[k]);
        k = k + 1;
        assert(path@ =~= module@.take(k as int));
    }
    let mut tail = wide("config.ini");
    path.append(&mut tail);
    path
}

} // verus!
