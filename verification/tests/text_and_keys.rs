use window2clear::keys::{
    get_key_name, get_modifier_name, hotkey_text, MOD_ALT, MOD_CONTROL, MOD_SHIFT, MOD_WIN, VK_DOWN, VK_F1,
    VK_F12, VK_LEFT, VK_NUMPAD0, VK_NUMPAD9, VK_RIGHT,
};
use window2clear::text::{decimal_string, wide};

#[test]
fn decimal_renders_numbers() {
    assert_eq!(decimal_string(0), "0");
    assert_eq!(decimal_string(7), "7");
    assert_eq!(decimal_string(10), "10");
    assert_eq!(decimal_string(4096), "4096");
    assert_eq!(decimal_string(u32::MAX), "4294967295");
}

#[test]
fn wide_is_null_terminated_utf16() {
    assert_eq!(wide(""), vec![0u16]);
    assert_eq!(wide("config.ini"), "config.ini".encode_utf16().chain(std::iter::once(0)).collect::<Vec<u16>>());
    assert_eq!(wide("设置"), vec![0x8bbe, 0x7f6e, 0]);
    assert_eq!(wide("a\u{1F600}"), vec![0x61, 0xD83D, 0xDE00, 0]);
}

#[test]
fn modifier_names_are_joined_in_order() {
    assert_eq!(get_modifier_name(0), "");
    assert_eq!(get_modifier_name(MOD_ALT), "ALT");
    assert_eq!(get_modifier_name(MOD_CONTROL | MOD_ALT), "CTRL+ALT");
    assert_eq!(get_modifier_name(MOD_SHIFT | MOD_WIN), "SHIFT+WIN");
    assert_eq!(get_modifier_name(MOD_CONTROL | MOD_ALT | MOD_SHIFT | MOD_WIN), "CTRL+ALT+SHIFT+WIN");
    assert_eq!(get_modifier_name(0x10), "");
}

#[test]
fn key_names() {
    assert_eq!(get_key_name(VK_F1), "F1");
    assert_eq!(get_key_name(VK_F12), "F12");
    assert_eq!(get_key_name(VK_LEFT), "LEFT");
    assert_eq!(get_key_name(VK_RIGHT), "RIGHT");
    assert_eq!(get_key_name(0x26), "UP");
    assert_eq!(get_key_name(VK_DOWN), "DOWN");
    assert_eq!(get_key_name(VK_NUMPAD0), "NUM0");
    assert_eq!(get_key_name(VK_NUMPAD9), "NUM9");
    assert_eq!(get_key_name(0x2D), "INSERT");
    assert_eq!(get_key_name(0x2E), "DELETE");
    assert_eq!(get_key_name(0x24), "HOME");
    assert_eq!(get_key_name(0x23), "END");
    assert_eq!(get_key_name(0x21), "PAGEUP");
    assert_eq!(get_key_name(0x22), "PAGEDOWN");
    assert_eq!(get_key_name(0x20), "SPACE");
    assert_eq!(get_key_name(0x09), "TAB");
    assert_eq!(get_key_name(0x0D), "ENTER");
    assert_eq!(get_key_name(0x1B), "ESC");
    assert_eq!(get_key_name(0x41), "A");
    assert_eq!(get_key_name(0x5A), "Z");
    assert_eq!(get_key_name(0x30), "0");
    assert_eq!(get_key_name(0x39), "9");
    assert_eq!(get_key_name(0x7C), "KEY124");
    assert_eq!(get_key_name(0xC0), "KEY192");
    assert_eq!(get_key_name(u32::MAX), "KEY4294967295");
}

#[test]
fn hotkey_texts() {
    assert_eq!(hotkey_text(MOD_ALT, VK_LEFT), "ALT+LEFT");
    assert_eq!(hotkey_text(MOD_ALT, VK_RIGHT), "ALT+RIGHT");
    assert_eq!(hotkey_text(MOD_CONTROL | MOD_SHIFT, 0x41), "CTRL+SHIFT+A");
    assert_eq!(hotkey_text(0, 0x75), "+F6");
}

#[test]
fn key_names_are_distinct() {
    let names: Vec<String> = (0u32..0x200).map(get_key_name).collect();
    let mut sorted = names.clone();
    sorted.sort();
    sorted.dedup();
    assert_eq!(sorted.len(), names.len());
}
