use window2clear::alpha::{
    get_window_transparency, guard_action, is_layered, next_alpha, transparency_style, GuardAction, StyleChange,
    WS_EX_LAYERED,
};

#[test]
fn window_alpha_from_style_and_report() {
    assert_eq!(get_window_transparency(0, None), 255);
    assert_eq!(get_window_transparency(0, Some(40)), 255);
    assert_eq!(get_window_transparency(WS_EX_LAYERED, Some(40)), 40);
    assert_eq!(get_window_transparency(WS_EX_LAYERED | 0x100, None), 255);
    assert!(is_layered(WS_EX_LAYERED | 8));
    assert!(!is_layered(8));
}

#[test]
fn one_press_moves_by_the_step() {
    // 10% of 255 is 25 (rounded down).
    assert_eq!(next_alpha(255, 10, true), 230);
    assert_eq!(next_alpha(230, 10, false), 255);
    assert_eq!(next_alpha(100, 1, true), 98);
    assert_eq!(next_alpha(100, 50, false), 227);
    assert_eq!(next_alpha(40, 10, true), 25);
    assert_eq!(next_alpha(25, 10, true), 25);
    assert_eq!(next_alpha(0, 10, true), 25);
    assert_eq!(next_alpha(0, 1, false), 2);
    assert_eq!(next_alpha(250, 10, false), 255);
}

#[test]
fn holding_the_keys_reaches_the_ends() {
    for step in 1..=50 {
        for start in [0, 25, 100, 254, 255] {
            let mut a = start;
            for _ in 0..128 {
                a = next_alpha(a, step, false);
            }
            assert_eq!(a, 255);
            let mut b = start;
            for _ in 0..128 {
                b = next_alpha(b, step, true);
            }
            assert_eq!(b, 25);
        }
    }
}

#[test]
fn style_changes() {
    assert_eq!(transparency_style(0x10, 100), StyleChange { ex_style: 0x10 | WS_EX_LAYERED, layered_alpha: Some(100) });
    assert_eq!(transparency_style(0x10 | WS_EX_LAYERED, 255), StyleChange { ex_style: 0x10, layered_alpha: None });
    assert_eq!(transparency_style(0, 300), StyleChange { ex_style: 0, layered_alpha: None });
}

#[test]
fn guard_reapplies_alpha() {
    assert_eq!(guard_action(false, WS_EX_LAYERED, 100), GuardAction::Forget);
    assert_eq!(guard_action(true, WS_EX_LAYERED, 100), GuardAction::Refresh { ex_style: None, alpha: 100 });
    assert_eq!(guard_action(true, 4, 60), GuardAction::Refresh { ex_style: Some(4 | WS_EX_LAYERED), alpha: 60 });
}

#[test]
fn press_counts_to_the_ends() {
    // Step 10: 25 per press. From 100, three presses reach 175, 150 more to go:
    // ceil(155 / 25) = 7 presses reach opaque, six do not.
    let mut a = 100;
    for _ in 0..6 {
        a = next_alpha(a, 10, false);
    }
    assert_eq!(a, 250);
    assert_eq!(next_alpha(a, 10, false), 255);
    // From 255 down: ceil(230 / 25) = 10 presses reach the floor, nine give 30.
    let mut b = 255;
    for _ in 0..9 {
        b = next_alpha(b, 10, true);
    }
    assert_eq!(b, 30);
    assert_eq!(next_alpha(b, 10, true), 25);
}
