use monitor_hop::geometry::{resolve_monitor_index, Monitor, Point, WindowExtent};

fn side_by_side() -> Vec<Monitor> {
    vec![
        Monitor { x: 0, y: 0, width: 1920, height: 1080 },
        Monitor { x: 1920, y: 0, width: 1920, height: 1080 },
        Monitor { x: 0, y: 1080, width: 3840, height: 1080 },
    ]
}

#[test]
fn point_inside_a_monitor_resolves_to_it() {
    let monitors = side_by_side();
    assert_eq!(resolve_monitor_index(&monitors, Point { x: 100, y: 100 }), 0);
    assert_eq!(resolve_monitor_index(&monitors, Point { x: 2000, y: 500 }), 1);
    assert_eq!(resolve_monitor_index(&monitors, Point { x: 3000, y: 2000 }), 2);
}

#[test]
fn left_and_top_edges_belong_to_the_monitor() {
    let monitors = side_by_side();
    assert_eq!(resolve_monitor_index(&monitors, Point { x: 1920, y: 0 }), 1);
    assert_eq!(resolve_monitor_index(&monitors, Point { x: 0, y: 1080 }), 2);
    assert!(monitors[1].contains(Point { x: 1920, y: 0 }));
}

#[test]
fn right_and_bottom_edges_do_not_belong_to_the_monitor() {
    let monitors = side_by_side();
    assert_eq!(resolve_monitor_index(&monitors, Point { x: 1919, y: 1079 }), 0);
    assert!(!monitors[0].contains(Point { x: 1920, y: 500 }));
    assert!(!monitors[0].contains(Point { x: 500, y: 1080 }));
    assert!(monitors[0].contains(Point { x: 1919, y: 1079 }));
}

#[test]
fn overlapping_monitors_resolve_to_the_first() {
    let monitors = vec![
        Monitor { x: 500, y: 500, width: 100, height: 100 },
        Monitor { x: 0, y: 0, width: 1920, height: 1080 },
        Monitor { x: 0, y: 0, width: 1920, height: 1080 },
    ];
    assert_eq!(resolve_monitor_index(&monitors, Point { x: 550, y: 550 }), 0);
    assert_eq!(resolve_monitor_index(&monitors, Point { x: 10, y: 10 }), 1);
}

#[test]
fn point_outside_every_monitor_resolves_to_zero() {
    let monitors = side_by_side();
    assert_eq!(resolve_monitor_index(&monitors, Point { x: -1, y: 0 }), 0);
    assert_eq!(resolve_monitor_index(&monitors, Point { x: 5000, y: 5000 }), 0);
}

#[test]
fn empty_layout_resolves_to_zero() {
    let monitors: Vec<Monitor> = Vec::new();
    assert_eq!(resolve_monitor_index(&monitors, Point { x: 0, y: 0 }), 0);
}

#[test]
fn zero_area_monitor_contains_nothing() {
    let monitors = vec![
        Monitor { x: 0, y: 0, width: 0, height: 1080 },
        Monitor { x: 0, y: 0, width: 1920, height: 0 },
        Monitor { x: 0, y: 0, width: 1920, height: 1080 },
    ];
    assert!(!monitors[0].contains(Point { x: 0, y: 0 }));
    assert!(!monitors[1].contains(Point { x: 0, y: 0 }));
    assert_eq!(resolve_monitor_index(&monitors, Point { x: 0, y: 0 }), 2);
}

#[test]
fn monitors_left_of_and_above_the_origin() {
    let monitors = vec![
        Monitor { x: 0, y: 0, width: 1920, height: 1080 },
        Monitor { x: -1280, y: -1024, width: 1280, height: 1024 },
    ];
    assert_eq!(resolve_monitor_index(&monitors, Point { x: -1, y: -1 }), 1);
    assert_eq!(resolve_monitor_index(&monitors, Point { x: -1280, y: -1024 }), 1);
    assert_eq!(resolve_monitor_index(&monitors, Point { x: -1281, y: -1024 }), 0);
}

#[test]
fn containment_at_the_limits_of_the_coordinate_space() {
    let far = Monitor { x: i32::MAX, y: i32::MAX, width: i32::MAX, height: i32::MAX };
    let inside = Point { x: i32::MAX as i64 + 5, y: i32::MAX as i64 + 5 };
    assert!(far.contains(inside));
    assert!(!far.contains(Point { x: 2 * (i32::MAX as i64), y: i32::MAX as i64 }));
    let low = Monitor { x: i32::MIN, y: i32::MIN, width: 1, height: 1 };
    assert!(low.contains(Point { x: i32::MIN as i64, y: i32::MIN as i64 }));
    assert!(!low.contains(Point { x: i32::MIN as i64 - 1, y: i32::MIN as i64 }));
}

#[test]
fn monitor_new_accepts_non_negative_dimensions() {
    assert_eq!(
        Monitor::new(-5, 7, 1920, 1080),
        Some(Monitor { x: -5, y: 7, width: 1920, height: 1080 })
    );
    assert_eq!(Monitor::new(0, 0, 0, 0), Some(Monitor { x: 0, y: 0, width: 0, height: 0 }));
}

#[test]
fn monitor_new_refuses_negative_dimensions() {
    assert_eq!(Monitor::new(0, 0, -1, 1080), None);
    assert_eq!(Monitor::new(0, 0, 1920, -1), None);
}

#[test]
fn extents_compare_by_fields() {
    assert_eq!(WindowExtent { width: 3, height: 4 }, WindowExtent { width: 3, height: 4 });
    assert_ne!(WindowExtent { width: 3, height: 4 }, WindowExtent { width: 4, height: 3 });
}
