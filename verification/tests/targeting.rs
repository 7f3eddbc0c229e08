use monitor_hop::geometry::{Monitor, Point};
use monitor_hop::keys::Gesture;
use monitor_hop::targeting::{cycle_target, gesture_target, select_target};

fn row(count: i32) -> Vec<Monitor> {
    let mut monitors = Vec::new();
    let mut i: i32 = 0;
    while i < count {
        monitors.push(Monitor { x: i * 1000, y: 0, width: 1000, height: 1000 });
        i += 1;
    }
    monitors
}

#[test]
fn cycle_goes_to_the_next_monitor() {
    let monitors = row(3);
    assert_eq!(cycle_target(&monitors, Point { x: 500, y: 500 }), Some(1));
    assert_eq!(cycle_target(&monitors, Point { x: 1500, y: 500 }), Some(2));
}

#[test]
fn cycle_wraps_after_the_last_monitor() {
    let monitors = row(3);
    assert_eq!(cycle_target(&monitors, Point { x: 2500, y: 500 }), Some(0));
}

#[test]
fn cycle_with_one_monitor_stays_on_it() {
    let monitors = row(1);
    assert_eq!(cycle_target(&monitors, Point { x: 500, y: 500 }), Some(0));
}

#[test]
fn cycle_from_outside_every_monitor_counts_from_the_first() {
    let monitors = row(3);
    assert_eq!(cycle_target(&monitors, Point { x: -7, y: -7 }), Some(1));
}

#[test]
fn cycle_without_monitors_has_no_target() {
    let monitors: Vec<Monitor> = Vec::new();
    assert_eq!(cycle_target(&monitors, Point { x: 0, y: 0 }), None);
}

#[test]
fn digit_selects_the_monitor_before_its_number() {
    assert_eq!(select_target(1, 2), Some(0));
    assert_eq!(select_target(2, 2), Some(1));
    assert_eq!(select_target(9, 9), Some(8));
    assert_eq!(select_target(9, 20), Some(8));
}

#[test]
fn digit_beyond_the_monitor_count_is_ignored() {
    assert_eq!(select_target(3, 2), None);
    assert_eq!(select_target(1, 0), None);
    assert_eq!(select_target(9, 8), None);
}

#[test]
fn digits_outside_one_to_nine_select_nothing() {
    assert_eq!(select_target(0, 5), None);
    assert_eq!(select_target(10, 50), None);
    assert_eq!(select_target(255, 1000), None);
}

#[test]
fn gesture_target_follows_the_gesture() {
    let monitors = row(4);
    let pointer = Point { x: 3500, y: 10 };
    assert_eq!(gesture_target(Gesture::Cycle, &monitors, pointer), Some(0));
    assert_eq!(gesture_target(Gesture::Select(4), &monitors, pointer), Some(3));
    assert_eq!(gesture_target(Gesture::Select(5), &monitors, pointer), None);
}
