//! Window alpha arithmetic and the extended-style changes that carry it.

use vstd::prelude::*;

verus! {

/// The layered-window extended style bit (`WS_EX_LAYERED`).
pub const WS_EX_LAYERED: i32 = 0x00080000;
/// The alpha of an opaque window.
pub const ALPHA_OPAQUE: i32 = 255;
/// The lowest alpha that the transparency hotkey goes down to.
pub const ALPHA_FLOOR: i32 = 25;
/// The smallest transparency step, in percent.
pub const STEP_MIN: i32 = 1;
/// The largest transparency step, in percent.
pub const STEP_MAX: i32 = 50;

/// Whether an extended style has the layered bit.
pub open spec fn layered(ex_style: i32) -> bool {
    ex_style & WS_EX_LAYERED != 0
}

/// The alpha change of one hotkey press: `step` percent of 255, rounded down.
pub open spec fn step_delta(step: int) -> int {
    255 * step / 100
}

/// The alpha after one press: lowered by the step down to the floor when
/// `increase` (more transparent), else raised by the step up to opaque.
pub open spec fn next_alpha_spec(cur: int, step: int, increase: bool) -> int {
    let d = step_delta(step);
    if increase {
        if cur - d > ALPHA_FLOOR { cur - d } else { ALPHA_FLOOR as int }
    } else {
        if cur + d < ALPHA_OPAQUE { cur + d } else { ALPHA_OPAQUE as int }
    }
}

/// The alpha after `n` presses in the same direction.
pub open spec fn repeat_alpha(cur: int, step: int, increase: bool, n: nat) -> int
    decreases n,
{
    if n == 0 {
        cur
    } else {
        next_alpha_spec(repeat_alpha(cur, step, increase, (n - 1) as nat), step, increase)
    }
}

/// The current alpha of a window: what `GetLayeredWindowAttributes`
/// reported when the window is layered and the call succeeded, else opaque.
pub open spec fn window_alpha(ex_style: i32, reported: Option<u8>) -> int {
    if layered(ex_style) {
        match reported {
            Some(a) => a as int,
            None => ALPHA_OPAQUE as int,
        }
    } else {
        ALPHA_OPAQUE as int
    }
}

/// Whether an extended style has the layered bit, so that its alpha can be
/// asked for.
pub fn is_layered(ex_style: i32) -> (r: bool)
    ensures
        r == layered(ex_style),
{
    ex_style & WS_EX_LAYERED != 0
}

/// The alpha of a window, from its extended style and what
/// `GetLayeredWindowAttributes` reported (`None` when it failed or was not
/// asked): opaque unless the window is layered and an alpha was reported.
pub fn get_window_transparency(ex_style: i32, reported: Option<u8>) -> (r: i32)
    ensures
        r == window_alpha(ex_style, reported),
        (ex_style & 0x00080000i32 != 0 && reported is Some) ==> r == reported->0 as i32,
        (ex_style & 0x00080000i32 == 0 || reported is None) ==> r == 255,
        0 <= r <= ALPHA_OPAQUE,
{
    if ex_style & WS_EX_LAYERED != 0 {
        match reported {
            Some(a) => a as i32,
            None => ALPHA_OPAQUE,
        }
    } else {
        ALPHA_OPAQUE
    }
}

/// The alpha after one hotkey press.
pub fn next_alpha(cur: i32, step: i32, increase: bool) -> (r: i32)
    requires
        0 <= cur <= ALPHA_OPAQUE,
        STEP_MIN <= step <= STEP_MAX,
    ensures
        r == next_alpha_spec(cur as int, step as int, increase),
        0 <= r <= ALPHA_OPAQUE,
{
    assert(0 <= 255 * step <= 255 * 50) by (nonlinear_arith)
        requires
            1 <= step <= 50,
    ;
    let delta = 255 * step / 100;
    if increase {
        let v = cur - delta;
        if v > ALPHA_FLOOR { v } else { ALPHA_FLOOR }
    } else {
        let v = cur + delta;
        if v < ALPHA_OPAQUE { v } else { ALPHA_OPAQUE }
    }
}

/// What `set_window_transparency` does to a window: its new extended style,
/// and the alpha to apply with `LWA_ALPHA` when it stays layered.
#[derive(Clone, Copy, Debug, PartialEq, Eq, Structural)]
pub struct StyleChange {
    pub ex_style: i32,
    pub layered_alpha: Option<u8>,
}

/// The style change that gives a window `alpha`: below opaque the layered
/// bit is set and the alpha applied; at or above opaque the bit is cleared.
pub open spec fn style_change_spec(ex_style: i32, alpha: i32) -> StyleChange {
    if alpha < ALPHA_OPAQUE {
        StyleChange { ex_style: ex_style | WS_EX_LAYERED, layered_alpha: Some(alpha as u8) }
    } else {
        StyleChange { ex_style: ex_style & !WS_EX_LAYERED, layered_alpha: None }
    }
}

/// The style change that gives a window with style `ex_style` the alpha `alpha`.
pub fn transparency_style(ex_style: i32, alpha: i32) -> (r: StyleChange)
    ensures
        r == style_change_spec(ex_style, alpha),
{
    if alpha < ALPHA_OPAQUE {
        StyleChange { ex_style: ex_style | WS_EX_LAYERED, layered_alpha: Some(alpha as u8) }
    } else {
        StyleChange { ex_style: ex_style & !WS_EX_LAYERED, layered_alpha: None }
    }
}

/// What the periodic guard does for one tracked window.
#[derive(Clone, Copy, Debug, PartialEq, Eq, Structural)]
pub enum GuardAction {
    /// The window is gone: stop tracking it.
    Forget,
    /// Set the style when it is given (the layered bit was lost), then
    /// apply the alpha again, whatever the window reports.
    Refresh { ex_style: Option<i32>, alpha: u8 },
}

/// The guard's action for a tracked window with alpha `alpha`.
pub open spec fn guard_action_spec(alive: bool, ex_style: i32, alpha: i32) -> GuardAction {
    if !alive {
        GuardAction::Forget
    } else if layered(ex_style) {
        GuardAction::Refresh { ex_style: None, alpha: alpha as u8 }
    } else {
        GuardAction::Refresh { ex_style: Some(ex_style | WS_EX_LAYERED), alpha: alpha as u8 }
    }
}

/// The guard's action for one tracked window: forget it when it no longer
/// exists, else restore the layered bit if it was lost and apply its alpha.
pub fn guard_action(alive: bool, ex_style: i32, alpha: i32) -> (r: GuardAction)
    ensures
        r == guard_action_spec(alive, ex_style, alpha),
{
    if !alive {
        GuardAction::Forget
    } else if ex_style & WS_EX_LAYERED != 0 {
        GuardAction::Refresh { ex_style: None, alpha: alpha as u8 }
    } else {
        GuardAction::Refresh { ex_style: Some(ex_style | WS_EX_LAYERED), alpha: alpha as u8 }
    }
}

/// The alpha read from a window is what it reported whenever its style has
/// the layered bit (bit 19), whatever its other style bits, and opaque
/// otherwise or when nothing was reported; two styles that agree on the
/// layered bit read the same alpha.
pub proof fn law_read_alpha(ex_style: i32, other: i32, reported: Option<u8>)
    ensures
        (ex_style & 0x00080000i32 != 0 && reported is Some) ==> window_alpha(ex_style, reported) == reported->0 as int,
        (ex_style & 0x00080000i32 == 0 || reported is None) ==> window_alpha(ex_style, reported) == 255,
        ((ex_style & 0x00080000i32 != 0) == (other & 0x00080000i32 != 0)) ==> window_alpha(ex_style, reported)
            == window_alpha(other, reported),
{
}

/// A window that one press made translucent is read back at that alpha and
/// the next press goes one step further: whatever the other style bits, a
/// layered window that reports `a` becomes `a - step_delta(step)` (not
/// below the floor) when made more transparent, and `a + step_delta(step)`
/// (not above opaque) when made less transparent.
pub proof fn law_press_from_reported(ex_style: i32, a: u8, step: int)
    requires
        ex_style & 0x00080000i32 != 0,
        STEP_MIN <= step <= STEP_MAX,
    ensures
        next_alpha_spec(window_alpha(ex_style, Some(a)), step, true) == (if a - step_delta(step) > 25 {
            a - step_delta(step)
        } else {
            25
        }),
        next_alpha_spec(window_alpha(ex_style, Some(a)), step, false) == (if a + step_delta(step) < 255 {
            a + step_delta(step)
        } else {
            255
        }),
{
}

/// Giving a window an alpha below opaque leaves it layered; giving it the
/// opaque alpha (or more) leaves it not layered. Other style bits stay.
pub proof fn law_style_change_layering(ex_style: i32, alpha: i32)
    ensures
        alpha < ALPHA_OPAQUE ==> layered(style_change_spec(ex_style, alpha).ex_style),
        alpha >= ALPHA_OPAQUE ==> !layered(style_change_spec(ex_style, alpha).ex_style),
        (style_change_spec(ex_style, alpha).ex_style | WS_EX_LAYERED) == (ex_style | WS_EX_LAYERED),
{
    assert((ex_style | 0x00080000i32) & 0x00080000i32 != 0) by (bit_vector);
    assert((ex_style & !0x00080000i32) & 0x00080000i32 == 0) by (bit_vector);
    assert(((ex_style & !0x00080000i32) | 0x00080000i32) == (ex_style | 0x00080000i32)) by (bit_vector);
    assert(((ex_style | 0x00080000i32) | 0x00080000i32) == (ex_style | 0x00080000i32)) by (bit_vector);
}

/// The guard re-applies the tracked alpha to every window that still
/// exists, whether or not it looks layered, and leaves it layered.
pub proof fn law_guard_reapplies(ex_style: i32, alpha: i32)
    ensures
        guard_action_spec(true, ex_style, alpha) matches GuardAction::Refresh { ex_style: s, alpha: a }
            && a == alpha as u8 && layered(match s {
            Some(x) => x,
            None => ex_style,
        }),
        guard_action_spec(false, ex_style, alpha) == GuardAction::Forget,
{
    assert((ex_style | 0x00080000i32) & 0x00080000i32 != 0) by (bit_vector);
}

proof fn lemma_delta_bounds(step: int)
    requires
        STEP_MIN <= step <= STEP_MAX,
    ensures
        2 <= step_delta(step) <= 127,
{
    assert(255 <= 255 * step <= 12750) by (nonlinear_arith)
        requires
            1 <= step <= 50,
    ;
}

/// One press keeps the alpha within bounds: making a window more
/// transparent never goes below the floor nor raises its alpha above
/// where it was (or the floor), and making it less transparent never lowers
/// its alpha nor goes above opaque.
pub proof fn law_press_bounds(cur: int, step: int)
    requires
        0 <= cur <= ALPHA_OPAQUE,
        STEP_MIN <= step <= STEP_MAX,
    ensures
        ALPHA_FLOOR <= next_alpha_spec(cur, step, true) <= (if cur > ALPHA_FLOOR { cur } else { ALPHA_FLOOR as int }),
        next_alpha_spec(cur, step, true) < cur || cur <= ALPHA_FLOOR,
        cur <= next_alpha_spec(cur, step, false) <= ALPHA_OPAQUE,
        next_alpha_spec(cur, step, false) > cur || cur == ALPHA_OPAQUE,
{
    lemma_delta_bounds(step);
}

proof fn lemma_repeat_decrease(cur: int, step: int, n: nat)
    requires
        0 <= cur <= ALPHA_OPAQUE,
        STEP_MIN <= step <= STEP_MAX,
    ensures
        repeat_alpha(cur, step, false, n) <= ALPHA_OPAQUE,
        repeat_alpha(cur, step, false, n) >= (if cur + 2 * n < ALPHA_OPAQUE { cur + 2 * n } else { ALPHA_OPAQUE as int }),
    decreases n,
{
    lemma_delta_bounds(step);
    if n > 0 {
        lemma_repeat_decrease(cur, step, (n - 1) as nat);
    }
}

proof fn lemma_repeat_increase(cur: int, step: int, n: nat)
    requires
        0 <= cur <= ALPHA_OPAQUE,
        STEP_MIN <= step <= STEP_MAX,
    ensures
        n > 0 ==> repeat_alpha(cur, step, true, n) >= ALPHA_FLOOR,
        repeat_alpha(cur, step, true, n) <= (if cur - 2 * n > ALPHA_FLOOR { cur - 2 * n } else { ALPHA_FLOOR as int })
            || (n == 0),
        repeat_alpha(cur, step, true, n) <= ALPHA_OPAQUE,
    decreases n,
{
    lemma_delta_bounds(step);
    if n > 0 {
        lemma_repeat_increase(cur, step, (n - 1) as nat);
    }
}

/// Holding the less-transparent hotkey raises the alpha by exactly one step
/// per press until it reaches opaque, and then it stays opaque: after `n`
/// presses the alpha is `cur + n * step_delta(step)`, capped at 255. So
/// opaque is reached exactly when `n * step_delta(step) >= 255 - cur`.
pub proof fn law_presses_to_opaque(cur: int, step: int, n: nat)
    requires
        0 <= cur <= ALPHA_OPAQUE,
        STEP_MIN <= step <= STEP_MAX,
    ensures
        repeat_alpha(cur, step, false, n) == (if cur + n * step_delta(step) < ALPHA_OPAQUE {
            cur + n * step_delta(step)
        } else {
            ALPHA_OPAQUE as int
        }),
        (repeat_alpha(cur, step, false, n) == ALPHA_OPAQUE) <==> (n * step_delta(step) >= ALPHA_OPAQUE - cur),
    decreases n,
{
    lemma_delta_bounds(step);
    let d = step_delta(step);
    if n == 0 {
        assert(n * d == 0);
    } else {
        let m = (n - 1) as nat;
        law_presses_to_opaque(cur, step, m);
        let r = repeat_alpha(cur, step, false, m);
        assert(repeat_alpha(cur, step, false, n) == next_alpha_spec(r, step, false));
        assert(m * d + d == n * d) by (nonlinear_arith)
            requires
                m + 1 == n,
        ;
        assert(m * d >= 0) by (nonlinear_arith)
            requires
                d >= 0,
        ;
    }
}

/// Holding the more-transparent hotkey lowers the alpha by exactly one step
/// per press until it reaches the floor, and then it stays there: after
/// `n >= 1` presses the alpha is `cur - n * step_delta(step)`, but not
/// below 25. So the floor is reached exactly when
/// `n * step_delta(step) >= cur - 25`.
pub proof fn law_presses_to_floor(cur: int, step: int, n: nat)
    requires
        0 <= cur <= ALPHA_OPAQUE,
        STEP_MIN <= step <= STEP_MAX,
        n >= 1,
    ensures
        repeat_alpha(cur, step, true, n) == (if cur - n * step_delta(step) > ALPHA_FLOOR {
            cur - n * step_delta(step)
        } else {
            ALPHA_FLOOR as int
        }),
        (repeat_alpha(cur, step, true, n) == ALPHA_FLOOR) <==> (n * step_delta(step) >= cur - ALPHA_FLOOR),
    decreases n,
{
    lemma_delta_bounds(step);
    let d = step_delta(step);
    let m = (n - 1) as nat;
    let r = repeat_alpha(cur, step, true, m);
    assert(repeat_alpha(cur, step, true, n) == next_alpha_spec(r, step, true));
    assert(m * d + d == n * d) by (nonlinear_arith)
        requires
            m + 1 == n,
    ;
    if n > 1 {
        law_presses_to_floor(cur, step, m);
        assert(m * d >= 0) by (nonlinear_arith)
            requires
                d >= 0,
        ;
    } else {
        assert(m == 0);
        assert(r == cur);
        assert(n * d == d);
    }
}

/// Holding the less-transparent hotkey brings any window back to opaque:
/// after 128 presses or more the alpha is 255, whatever it was and
/// whatever the step.
pub proof fn law_repeated_decrease_reaches_opaque(cur: int, step: int, n: nat)
    requires
        0 <= cur <= ALPHA_OPAQUE,
        STEP_MIN <= step <= STEP_MAX,
        n >= 128,
    ensures
        repeat_alpha(cur, step, false, n) == ALPHA_OPAQUE,
{
    lemma_repeat_decrease(cur, step, n);
}

/// Holding the more-transparent hotkey brings any window to the floor:
/// after 128 presses or more the alpha is 25, whatever it was and
/// whatever the step.
pub proof fn law_repeated_increase_reaches_floor(cur: int, step: int, n: nat)
    requires
        0 <= cur <= ALPHA_OPAQUE,
        STEP_MIN <= step <= STEP_MAX,
        n >= 128,
    ensures
        repeat_alpha(cur, step, true, n) == ALPHA_FLOOR,
{
    lemma_repeat_increase(cur, step, n);
}

} // verus!
