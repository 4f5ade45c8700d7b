//! Hotkey modifiers, virtual-key codes and their display names.

use vstd::prelude::*;
use crate::text::{append_decimal, decimal, lemma_decimal_injective, lemma_decimal_len};

verus! {

/// Modifier flag of the Alt key, as `RegisterHotKey` takes it.
pub const MOD_ALT: u32 = 0x0001;
/// Modifier flag of the Ctrl key.
pub const MOD_CONTROL: u32 = 0x0002;
/// Modifier flag of the Shift key.
pub const MOD_SHIFT: u32 = 0x0004;
/// Modifier flag of the Windows key.
pub const MOD_WIN: u32 = 0x0008;

pub const VK_TAB: u32 = 0x09;
pub const VK_RETURN: u32 = 0x0D;
pub const VK_SHIFT: u32 = 0x10;
pub const VK_CONTROL: u32 = 0x11;
pub const VK_MENU: u32 = 0x12;
pub const VK_ESCAPE: u32 = 0x1B;
pub const VK_SPACE: u32 = 0x20;
pub const VK_PRIOR: u32 = 0x21;
pub const VK_NEXT: u32 = 0x22;
pub const VK_END: u32 = 0x23;
pub const VK_HOME: u32 = 0x24;
pub const VK_LEFT: u32 = 0x25;
pub const VK_UP: u32 = 0x26;
pub const VK_RIGHT: u32 = 0x27;
pub const VK_DOWN: u32 = 0x28;
pub const VK_INSERT: u32 = 0x2D;
pub const VK_DELETE: u32 = 0x2E;
pub const VK_LWIN: u32 = 0x5B;
pub const VK_RWIN: u32 = 0x5C;
pub const VK_NUMPAD0: u32 = 0x60;
pub const VK_NUMPAD9: u32 = 0x69;
pub const VK_F1: u32 = 0x70;
pub const VK_F12: u32 = 0x7B;
pub const VK_F24: u32 = 0x87;
pub const VK_LSHIFT: u32 = 0xA0;
pub const VK_RMENU: u32 = 0xA5;

/// Joins the parts with `+` between them, as `[..].join("+")` does.
pub open spec fn join_plus(parts: Seq<Seq<char>>) -> Seq<char>
    decreases parts.len(),
{
    if parts.len() == 0 {
        Seq::empty()
    } else if parts.len() == 1 {
        parts[0]
    } else {
        join_plus(parts.drop_last()) + "+"@ + parts.last()
    }
}

/// `parts` followed by `name` when `present` holds.
pub open spec fn with_part(parts: Seq<Seq<char>>, present: bool, name: Seq<char>) -> Seq<Seq<char>> {
    if present { parts.push(name) } else { parts }
}

/// The names of the modifiers set in `mods`, in the order Ctrl, Alt, Shift, Win.
pub open spec fn modifier_parts(mods: u32) -> Seq<Seq<char>> {
    with_part(
        with_part(
            with_part(with_part(Seq::empty(), mods & MOD_CONTROL != 0, "CTRL"@), mods & MOD_ALT != 0, "ALT"@),
            mods & MOD_SHIFT != 0,
            "SHIFT"@,
        ),
        mods & MOD_WIN != 0,
        "WIN"@,
    )
}

/// The display name of a modifier set, such as `CTRL+ALT`.
pub open spec fn modifier_name(mods: u32) -> Seq<char> {
    join_plus(modifier_parts(mods))
}

/// The display name of a virtual-key code.
pub open spec fn key_name(vk: u32) -> Seq<char> {
    if VK_F1 <= vk <= VK_F12 {
        "F"@ + decimal((vk - VK_F1 + 1) as nat)
    } else if vk == VK_LEFT {
        "LEFT"@
    } else if vk == VK_RIGHT {
        "RIGHT"@
    } else if vk == VK_UP {
        "UP"@
    } else if vk == VK_DOWN {
        "DOWN"@
    } else if VK_NUMPAD0 <= vk <= VK_NUMPAD9 {
        "NUM"@ + decimal((vk - VK_NUMPAD0) as nat)
    } else if vk == VK_INSERT {
        "INSERT"@
    } else if vk == VK_DELETE {
        "DELETE"@
    } else if vk == VK_HOME {
        "HOME"@
    } else if vk == VK_END {
        "END"@
    } else if vk == VK_PRIOR {
        "PAGEUP"@
    } else if vk == VK_NEXT {
        "PAGEDOWN"@
    } else if vk == VK_SPACE {
        "SPACE"@
    } else if vk == VK_TAB {
        "TAB"@
    } else if vk == VK_RETURN {
        "ENTER"@
    } else if vk == VK_ESCAPE {
        "ESC"@
    } else if (0x41 <= vk <= 0x5A) || (0x30 <= vk <= 0x39) {
        seq![(vk as u8) as char]
    } else {
        "KEY"@ + decimal(vk as nat)
    }
}

/// The display name of a hotkey: the modifier name, `+`, the key name.
pub open spec fn hotkey_name(mods: u32, key: u32) -> Seq<char> {
    modifier_name(mods) + "+"@ + key_name(key)
}

proof fn lemma_same_prefix(p: Seq<char>, d1: Seq<char>, d2: Seq<char>)
    requires
        p + d1 == p + d2,
    ensures
        d1 == d2,
{
    assert((p + d1).subrange(p.len() as int, (p + d1).len() as int) =~= d1);
    assert((p + d2).subrange(p.len() as int, (p + d2).len() as int) =~= d2);
}

/// The number of a key name of the form `<prefix><decimal>`, when both
/// names have that form.
proof fn lemma_numbered(p: Seq<char>, x: nat, y: nat)
    requires
        p + decimal(x) == p + decimal(y),
    ensures
        x == y,
{
    lemma_same_prefix(p, decimal(x), decimal(y));
    lemma_decimal_injective(x, y);
}

/// Distinct virtual-key codes are shown by distinct names, so a displayed
/// hotkey never leaves its key in doubt.
pub proof fn law_key_names_distinct(a: u32, b: u32)
    requires
        key_name(a) == key_name(b),
    ensures
        a == b,
{
    reveal_strlit("F");
    reveal_strlit("NUM");
    reveal_strlit("KEY");
    reveal_strlit("LEFT");
    reveal_strlit("RIGHT");
    reveal_strlit("UP");
    reveal_strlit("DOWN");
    reveal_strlit("INSERT");
    reveal_strlit("DELETE");
    reveal_strlit("HOME");
    reveal_strlit("END");
    reveal_strlit("PAGEUP");
    reveal_strlit("PAGEDOWN");
    reveal_strlit("SPACE");
    reveal_strlit("TAB");
    reveal_strlit("ENTER");
    reveal_strlit("ESC");
    lemma_decimal_len((a - VK_F1 + 1) as nat);
    lemma_decimal_len((b - VK_F1 + 1) as nat);
    lemma_decimal_len((a - VK_NUMPAD0) as nat);
    lemma_decimal_len((b - VK_NUMPAD0) as nat);
    lemma_decimal_len(a as nat);
    lemma_decimal_len(b as nat);
    let na = key_name(a);
    let nb = key_name(b);
    if VK_F1 <= a <= VK_F12 && VK_F1 <= b <= VK_F12 {
        lemma_numbered("F"@, (a - VK_F1 + 1) as nat, (b - VK_F1 + 1) as nat);
    } else if VK_NUMPAD0 <= a <= VK_NUMPAD9 && VK_NUMPAD0 <= b <= VK_NUMPAD9 {
        lemma_numbered("NUM"@, (a - VK_NUMPAD0) as nat, (b - VK_NUMPAD0) as nat);
    } else {
        assert(na.len() == nb.len());
        assert(na[0] == nb[0]);
        if na.len() > 1 {
            assert(na[1] == nb[1]);
        }
        if na.len() > 2 {
            assert(na[2] == nb[2]);
        }
        if na.len() > 3 && na[0] == 'K' && nb[0] == 'K' {
            lemma_numbered("KEY"@, a as nat, b as nat);
        }
    }
}

fn append_part(s: &mut String, Ghost(parts): Ghost<Seq<Seq<char>>>, empty: bool, present: bool, name: &str) -> (now_empty: bool)
    requires
        old(s)@ == join_plus(parts),
        empty == (parts.len() == 0),
    ensures
        final(s)@ == join_plus(with_part(parts, present, name@)),
        now_empty == (with_part(parts, present, name@).len() == 0),
{
    if present {
        let ghost pushed = parts.push(name@);
        assert(pushed.drop_last() =~= parts);
        if !empty {
            s.append("+");
        }
        s.append(name);
        if empty {
            assert(s@ =~= join_plus(pushed));
        }
        false
    } else {
        empty
    }
}

/// The names of the modifiers in `mods` joined by `+`; empty for no modifier.
pub fn get_modifier_name(mods: u32) -> (r: String)
    ensures
        r@ == modifier_name(mods),
{
    let mut s = String::new();
    let ghost p0: Seq<Seq<char>> = Seq::empty();
    assert(s@ =~= join_plus(p0));
    let e = append_part(&mut s, Ghost(p0), true, mods & MOD_CONTROL != 0, "CTRL");
    let ghost p1 = with_part(p0, mods & MOD_CONTROL != 0, "CTRL"@);
    let e = append_part(&mut s, Ghost(p1), e, mods & MOD_ALT != 0, "ALT");
    let ghost p2 = with_part(p1, mods & MOD_ALT != 0, "ALT"@);
    let e = append_part(&mut s, Ghost(p2), e, mods & MOD_SHIFT != 0, "SHIFT");
    let ghost p3 = with_part(p2, mods & MOD_SHIFT != 0, "SHIFT"@);
    let _ = append_part(&mut s, Ghost(p3), e, mods & MOD_WIN != 0, "WIN");
    s
}

fn prefixed_decimal(prefix: &str, n: u32) -> (r: String)
    ensures
        r@ == prefix@ + decimal(n as nat),
{
    let mut s = String::from_str(prefix);
    append_decimal(&mut s, n);
    s
}

/// The display name of a virtual-key code: `F1`..`F12`, arrow and editing
/// keys by name, `NUM0`..`NUM9`, letters and digits as themselves, and
/// `KEY<code>` for every other code.
pub fn get_key_name(vk: u32) -> (r: String)
    ensures
        r@ == key_name(vk),
{
    if VK_F1 <= vk && vk <= VK_F12 {
        prefixed_decimal("F", vk - VK_F1 + 1)
    } else if vk == VK_LEFT {
        String::from_str("LEFT")
    } else if vk == VK_RIGHT {
        String::from_str("RIGHT")
    } else if vk == VK_UP {
        String::from_str("UP")
    } else if vk == VK_DOWN {
        String::from_str("DOWN")
    } else if VK_NUMPAD0 <= vk && vk <= VK_NUMPAD9 {
        prefixed_decimal("NUM", vk - VK_NUMPAD0)
    } else if vk == VK_INSERT {
        String::from_str("INSERT")
    } else if vk == VK_DELETE {
        String::from_str("DELETE")
    } else if vk == VK_HOME {
        String::from_str("HOME")
    } else if vk == VK_END {
        String::from_str("END")
    } else if vk == VK_PRIOR {
        String::from_str("PAGEUP")
    } else if vk == VK_NEXT {
        String::from_str("PAGEDOWN")
    } else if vk == VK_SPACE {
        String::from_str("SPACE")
    } else if vk == VK_TAB {
        String::from_str("TAB")
    } else if vk == VK_RETURN {
        String::from_str("ENTER")
    } else if vk == VK_ESCAPE {
        String::from_str("ESC")
    } else if (0x41 <= vk && vk <= 0x5A) || (0x30 <= vk && vk <= 0x39) {
        let mut s = String::new();
        crate::text::push_char(&mut s, (vk as u8) as char);
        assert(s@ =~= seq![(vk as u8) as char]);
        s
    } else {
        prefixed_decimal("KEY", vk)
    }
}

/// The display text of a hotkey, such as `ALT+LEFT`.
pub fn hotkey_text(mods: u32, key: u32) -> (r: String)
    ensures
        r@ == hotkey_name(mods, key),
{
    let mut s = get_modifier_name(mods);
    s.append("+");
    let k = get_key_name(key);
    s.append(k.as_str());
    s
}

} // verus!
