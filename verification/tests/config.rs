use window2clear::config::{config_path, load_config, load_requests, save_config, Settings, READ_COUNT};
use window2clear::text::wide;

fn w(s: &str) -> Vec<u16> {
    s.encode_utf16().collect()
}

#[test]
fn defaults() {
    let s = Settings::default();
    assert_eq!(s, Settings { transparency_step: 10, tu_mods: 1, tu_key: 0x25, td_mods: 1, td_key: 0x27, en_trans: 1 });
}

#[test]
fn requests_name_sections_keys_and_defaults() {
    let r = load_requests();
    assert_eq!(r.len(), READ_COUNT);
    let got: Vec<(String, String, i32)> = r.into_iter().map(|q| (q.section, q.key, q.default)).collect();
    let want: Vec<(String, String, i32)> = vec![
        ("Settings", "TransparencyStep", 10),
        ("Hotkeys", "TransparencyUpModifiers", 1),
        ("Hotkeys", "TransparencyUpKey", 0x25),
        ("Hotkeys", "TransparencyDownModifiers", 1),
        ("Hotkeys", "TransparencyDownKey", 0x27),
        ("Switches", "EnableTransparency", -1),
        ("Switches", "EnableTransparencyUp", 1),
    ]
    .into_iter()
    .map(|(a, b, c)| (a.to_string(), b.to_string(), c))
    .collect();
    assert_eq!(got, want);
}

#[test]
fn load_clamps_the_step() {
    let s = load_config(&vec![0, 2, 0x41, 4, 0x42, 1, 1]);
    assert_eq!(s.transparency_step, 1);
    assert_eq!((s.tu_mods, s.tu_key, s.td_mods, s.td_key), (2, 0x41, 4, 0x42));
    assert_eq!(load_config(&vec![99, 1, 1, 1, 1, 1, 1]).transparency_step, 50);
    assert_eq!(load_config(&vec![u32::MAX, 1, 1, 1, 1, 1, 1]).transparency_step, 1);
    assert_eq!(load_config(&vec![33, 1, 1, 1, 1, 1, 1]).transparency_step, 33);
}

#[test]
fn load_falls_back_to_the_legacy_switch() {
    // The new key is missing: the call returns the default -1 as an unsigned value.
    let missing = (-1i32) as u32;
    assert_eq!(load_config(&vec![10, 1, 0x25, 1, 0x27, missing, 0]).en_trans, 0);
    assert_eq!(load_config(&vec![10, 1, 0x25, 1, 0x27, missing, 1]).en_trans, 1);
    assert_eq!(load_config(&vec![10, 1, 0x25, 1, 0x27, 0, 1]).en_trans, 0);
    assert_eq!(load_config(&vec![10, 1, 0x25, 1, 0x27, 1, 0]).en_trans, 1);
}

#[test]
fn save_writes_decimal_values() {
    let s = Settings { transparency_step: 25, tu_mods: 3, tu_key: 0x70, td_mods: 8, td_key: 0x41, en_trans: 7 };
    let e = save_config(&s);
    let got: Vec<(String, String, u32, String)> = e.into_iter().map(|x| (x.section, x.key, x.value, x.text)).collect();
    let want: Vec<(String, String, u32, String)> = vec![
        ("Settings", "TransparencyStep", 25, "25"),
        ("Hotkeys", "TransparencyUpModifiers", 3, "3"),
        ("Hotkeys", "TransparencyUpKey", 0x70, "112"),
        ("Hotkeys", "TransparencyDownModifiers", 8, "8"),
        ("Hotkeys", "TransparencyDownKey", 0x41, "65"),
        ("Switches", "EnableTransparency", 1, "1"),
    ]
    .into_iter()
    .map(|(a, b, c, d)| (a.to_string(), b.to_string(), c, d.to_string()))
    .collect();
    assert_eq!(got, want);
    let off = Settings { en_trans: 0, ..s };
    assert_eq!(save_config(&off)[5].text, "0");
}

#[test]
fn save_then_load_round_trip() {
    let s = Settings { transparency_step: 42, tu_mods: 6, tu_key: 0x5A, td_mods: 2, td_key: 0x7B, en_trans: 5 };
    let entries = save_config(&s);
    let values: Vec<u32> = load_requests()
        .iter()
        .map(|r| {
            entries
                .iter()
                .find(|e| e.section == r.section && e.key == r.key)
                .map(|e| e.text.parse::<u32>().unwrap())
                .unwrap_or(r.default as u32)
        })
        .collect();
    assert_eq!(load_config(&values), Settings { en_trans: 1, ..s });
}

#[test]
fn config_path_next_to_the_program() {
    let mut buf = vec![0u16; 260];
    let exe = w("C:\\Tools\\W2C\\window2clear.exe");
    buf[..exe.len()].copy_from_slice(&exe);
    let p = config_path(&buf, exe.len() as u32);
    assert_eq!(p, wide("C:\\Tools\\W2C\\config.ini"));
}

#[test]
fn config_path_fallbacks() {
    let buf = vec![0u16; 260];
    assert_eq!(config_path(&buf, 0), wide(".\\config.ini"));
    assert_eq!(config_path(&buf, 260), wide(".\\config.ini"));
    let mut b2 = vec![0u16; 260];
    let exe = w("window2clear.exe");
    b2[..exe.len()].copy_from_slice(&exe);
    assert_eq!(config_path(&b2, exe.len() as u32), wide("config.ini"));
}
