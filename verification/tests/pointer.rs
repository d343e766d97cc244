use hdr_widget::pointer::{Point, PointerTracker, Rect, SAMPLE_INTERVAL_MS};

const WINDOW: Rect = Rect { left: 100, top: 50, right: 260, bottom: 110 };
const INSIDE: Point = Point { x: 120, y: 60 };
const OUTSIDE: Point = Point { x: 300, y: 60 };

#[test]
fn rect_contains_its_edges() {
    let r = Rect { left: 10, top: 20, right: 170, bottom: 80 };
    assert!(r.contains(Point { x: 10, y: 20 }));
    assert!(r.contains(Point { x: 170, y: 80 }));
    assert!(r.contains(Point { x: 10, y: 80 }));
    assert!(r.contains(Point { x: 90, y: 50 }));
    assert!(!r.contains(Point { x: 171, y: 80 }));
    assert!(!r.contains(Point { x: 9, y: 20 }));
    assert!(!r.contains(Point { x: 10, y: 19 }));
    assert!(!r.contains(Point { x: 10, y: 81 }));
}

#[test]
fn rect_with_negative_coordinates() {
    let r = Rect { left: -1920, top: -200, right: -1760, bottom: -140 };
    assert!(r.contains(Point { x: -1800, y: -150 }));
    assert!(!r.contains(Point { x: 0, y: 0 }));
    assert!(!r.contains(Point { x: i32::MIN, y: -150 }));
}

#[test]
fn tracker_starts_outside() {
    assert_eq!(PointerTracker::new(), PointerTracker { was_inside: false });
    assert_eq!(SAMPLE_INTERVAL_MS, 50);
}

#[test]
fn leaving_announces_once() {
    let mut t = PointerTracker::new();
    assert!(!t.observe(Some(INSIDE), Some(WINDOW)));
    assert!(t.was_inside);
    assert!(t.observe(Some(OUTSIDE), Some(WINDOW)));
    assert!(!t.was_inside);
    assert!(!t.observe(Some(OUTSIDE), Some(WINDOW)));
    assert!(!t.observe(Some(OUTSIDE), Some(WINDOW)));
}

#[test]
fn entering_and_staying_announce_nothing() {
    let mut t = PointerTracker::new();
    assert!(!t.observe(Some(OUTSIDE), Some(WINDOW)));
    assert!(!t.observe(Some(OUTSIDE), Some(WINDOW)));
    assert!(!t.observe(Some(INSIDE), Some(WINDOW)));
    assert!(!t.observe(Some(INSIDE), Some(WINDOW)));
    assert!(!t.observe(Some(Point { x: 100, y: 50 }), Some(WINDOW)));
}

#[test]
fn each_visit_ends_with_one_announcement() {
    let mut t = PointerTracker::new();
    let mut announced = 0;
    for round in 0..5 {
        for p in [INSIDE, INSIDE, OUTSIDE, OUTSIDE, OUTSIDE] {
            if t.observe(Some(p), Some(WINDOW)) {
                announced += 1;
            }
        }
        assert_eq!(announced, round + 1);
    }
}

#[test]
fn incomplete_samples_change_nothing() {
    let mut t = PointerTracker::new();
    assert!(!t.observe(Some(INSIDE), Some(WINDOW)));
    assert!(!t.observe(None, Some(WINDOW)));
    assert!(t.was_inside);
    assert!(!t.observe(Some(OUTSIDE), None));
    assert!(t.was_inside);
    assert!(!t.observe(None, None));
    assert!(t.was_inside);
    assert!(t.observe(Some(OUTSIDE), Some(WINDOW)));
}

#[test]
fn a_moving_window_can_leave_the_cursor_behind() {
    let mut t = PointerTracker::new();
    assert!(!t.observe(Some(INSIDE), Some(WINDOW)));
    let moved = Rect { left: 1000, top: 50, right: 1160, bottom: 110 };
    assert!(t.observe(Some(INSIDE), Some(moved)));
}
