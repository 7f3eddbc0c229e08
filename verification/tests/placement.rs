use monitor_hop::geometry::{Monitor, Point, WindowExtent};
use monitor_hop::placement::{plan_pointer_target, plan_window_target};

#[test]
fn pointer_goes_to_the_center() {
    let m = Monitor { x: 1920, y: 0, width: 1920, height: 1080 };
    assert_eq!(plan_pointer_target(m), Point { x: 2880, y: 540 });
}

#[test]
fn pointer_center_truncates_odd_dimensions() {
    let m = Monitor { x: 10, y: 20, width: 1921, height: 1081 };
    assert_eq!(plan_pointer_target(m), Point { x: 970, y: 560 });
    let one = Monitor { x: 10, y: 20, width: 1, height: 1 };
    assert_eq!(plan_pointer_target(one), Point { x: 10, y: 20 });
}

#[test]
fn pointer_center_of_a_monitor_with_negative_origin() {
    let m = Monitor { x: -1280, y: -1024, width: 1280, height: 1024 };
    assert_eq!(plan_pointer_target(m), Point { x: -640, y: -512 });
}

#[test]
fn pointer_center_needs_no_room_in_32_bits() {
    let m = Monitor { x: i32::MAX, y: i32::MAX, width: i32::MAX, height: i32::MAX };
    let expected: i64 = i32::MAX as i64 + (i32::MAX / 2) as i64;
    assert_eq!(plan_pointer_target(m), Point { x: expected, y: expected });
}

#[test]
fn window_is_centered_in_the_monitor() {
    let m = Monitor { x: 1920, y: 0, width: 1920, height: 1080 };
    let e = WindowExtent { width: 800, height: 600 };
    assert_eq!(plan_window_target(m, e), Point { x: 2480, y: 240 });
}

#[test]
fn window_larger_than_the_monitor_is_not_clamped() {
    let m = Monitor { x: 0, y: 0, width: 800, height: 600 };
    let e = WindowExtent { width: 1000, height: 1000 };
    assert_eq!(plan_window_target(m, e), Point { x: -100, y: -200 });
}

#[test]
fn negative_gap_is_halved_toward_zero() {
    let m = Monitor { x: 0, y: 0, width: 800, height: 600 };
    let e = WindowExtent { width: 1921, height: 603 };
    assert_eq!(plan_window_target(m, e), Point { x: -560, y: -1 });
}

#[test]
fn window_the_size_of_the_monitor_sits_on_its_origin() {
    let m = Monitor { x: -40, y: 30, width: 1280, height: 1024 };
    let e = WindowExtent { width: 1280, height: 1024 };
    assert_eq!(plan_window_target(m, e), Point { x: -40, y: 30 });
}

#[test]
fn window_target_at_the_limits_of_32_bits() {
    let m = Monitor { x: i32::MIN, y: i32::MIN, width: 0, height: 0 };
    let e = WindowExtent { width: i32::MAX, height: i32::MAX };
    let expected: i64 = i32::MIN as i64 - (i32::MAX / 2) as i64;
    assert_eq!(plan_window_target(m, e), Point { x: expected, y: expected });
}

#[test]
fn centered_window_has_the_monitor_center_when_halves_recombine() {
    let m = Monitor { x: 1920, y: 0, width: 1920, height: 1081 };
    let e = WindowExtent { width: 800, height: 601 };
    let top_left = plan_window_target(m, e);
    let center = plan_pointer_target(m);
    assert_eq!(top_left.x + (e.width / 2) as i64, center.x);
    assert_eq!(top_left.y + (e.height / 2) as i64, center.y);
}

#[test]
fn odd_window_in_even_monitor_misses_the_center_by_one() {
    let m = Monitor { x: 0, y: 0, width: 1920, height: 1080 };
    let e = WindowExtent { width: 801, height: 600 };
    let top_left = plan_window_target(m, e);
    let center = plan_pointer_target(m);
    assert_eq!(top_left, Point { x: 559, y: 240 });
    assert_eq!(top_left.x + (e.width / 2) as i64, center.x - 1);
    assert_eq!(top_left.y + (e.height / 2) as i64, center.y);
}

#[test]
fn planning_twice_gives_the_same_targets() {
    let m = Monitor { x: 1920, y: 0, width: 1920, height: 1080 };
    let e = WindowExtent { width: 801, height: 333 };
    assert_eq!(plan_pointer_target(m), plan_pointer_target(m));
    assert_eq!(plan_window_target(m, e), plan_window_target(m, e));
}
