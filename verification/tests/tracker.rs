use window2clear::tracker::{TransparentWindow, Tracker};

fn tw(hwnd: usize, alpha: i32) -> TransparentWindow {
    TransparentWindow { hwnd, alpha }
}

#[test]
fn track_appends_then_updates_in_place() {
    let mut t = Tracker::new();
    assert_eq!(t.len(), 0);
    t.track_window(10, 200);
    t.track_window(20, 150);
    t.track_window(10, 100);
    assert_eq!(t.snapshot(), vec![tw(10, 100), tw(20, 150)]);
    assert_eq!(t.position(20), Some(1));
    assert_eq!(t.position(30), None);
}

#[test]
fn untrack_swaps_the_last_entry_in() {
    let mut t = Tracker::new();
    t.track_window(1, 10);
    t.track_window(2, 20);
    t.track_window(3, 30);
    t.untrack_window(1);
    assert_eq!(t.snapshot(), vec![tw(3, 30), tw(2, 20)]);
    t.untrack_window(99);
    assert_eq!(t.snapshot(), vec![tw(3, 30), tw(2, 20)]);
    t.untrack_window(2);
    t.untrack_window(3);
    assert_eq!(t.len(), 0);
}

#[test]
fn track_then_untrack_forgets() {
    let mut t = Tracker::new();
    t.track_window(5, 50);
    t.untrack_window(5);
    assert_eq!(t.position(5), None);
}

#[test]
fn remove_dead_keeps_order() {
    let mut t = Tracker::new();
    for h in 1..=5usize {
        t.track_window(h, h as i32 * 10);
    }
    t.remove_dead(&vec![2, 4, 77]);
    assert_eq!(t.snapshot(), vec![tw(1, 10), tw(3, 30), tw(5, 50)]);
    assert_eq!(t.handles(), vec![1, 3, 5]);
    t.remove_dead(&vec![]);
    assert_eq!(t.handles(), vec![1, 3, 5]);
}
