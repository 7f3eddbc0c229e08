//! Where the pointer and the focused window go on a target monitor.

use crate::geometry::{Monitor, Point, WindowExtent};
use vstd::prelude::*;

verus! {

/// Half of `a`, rounded toward zero.
pub open spec fn half_toward_zero(a: int) -> int {
    if a >= 0 {
        a / 2
    } else {
        -((-a) / 2)
    }
}

/// Column of a monitor's center.
pub open spec fn center_x(m: Monitor) -> int {
    m.x + half_toward_zero(m.width as int)
}

/// Row of a monitor's center.
pub open spec fn center_y(m: Monitor) -> int {
    m.y + half_toward_zero(m.height as int)
}

/// Left column of a window of the given extent centered in the monitor.
pub open spec fn centered_left(m: Monitor, extent: WindowExtent) -> int {
    m.x + half_toward_zero(m.width - extent.width)
}

/// Top row of a window of the given extent centered in the monitor.
pub open spec fn centered_top(m: Monitor, extent: WindowExtent) -> int {
    m.y + half_toward_zero(m.height - extent.height)
}

/// The pointer's destination on a monitor: its center.
pub open spec fn pointer_target(m: Monitor) -> Point {
    Point { x: center_x(m) as i64, y: center_y(m) as i64 }
}

/// The top-left corner that centers a window of the given extent in the
/// monitor.
pub open spec fn window_target(m: Monitor, extent: WindowExtent) -> Point {
    Point { x: centered_left(m, extent) as i64, y: centered_top(m, extent) as i64 }
}

/// Halving the gap and halving the extent lose together exactly what halving
/// the span loses: `half(span - extent) + half(extent) == half(span)`, all
/// three rounded toward zero. With an even extent this asks that an odd span
/// keeps its sign when the extent is taken from it; with an odd extent and an
/// even span, that the gap and the extent have opposite signs; with both odd,
/// that they have the same sign.
pub open spec fn halves_recombine(span: int, extent: int) -> bool {
    if extent % 2 == 0 {
        span % 2 == 0 || (span > 0 <==> span > extent)
    } else if span % 2 == 0 {
        extent > 0 <==> span < extent
    } else {
        extent > 0 <==> span > 0
    }
}

/// Computes the pointer's destination on `monitor`: the geometric center
/// `(x + width / 2, y + height / 2)`, each half rounded toward zero.
pub fn plan_pointer_target(monitor: Monitor) -> (target: Point)
    ensures
        target == pointer_target(monitor),
        target.x == center_x(monitor),
        target.y == center_y(monitor),
{
    let x: i64 = monitor.x as i64 + (monitor.width as i64) / 2;
    let y: i64 = monitor.y as i64 + (monitor.height as i64) / 2;
    Point { x, y }
}

/// Computes the top-left corner that centers a window of the given extent in
/// `monitor`: `(x + (width - extent.width) / 2, y + (height - extent.height) / 2)`,
/// each half rounded toward zero. Nothing is clamped: for a window larger
/// than the monitor the corner lies left of or above the monitor's origin.
pub fn plan_window_target(monitor: Monitor, extent: WindowExtent) -> (top_left: Point)
    ensures
        top_left == window_target(monitor, extent),
        top_left.x == centered_left(monitor, extent),
        top_left.y == centered_top(monitor, extent),
{
    let x: i64 = monitor.x as i64 + (monitor.width as i64 - extent.width as i64) / 2;
    let y: i64 = monitor.y as i64 + (monitor.height as i64 - extent.height as i64) / 2;
    Point { x, y }
}

/// On one axis, the centered window's own center is the monitor's center
/// exactly when the halves recombine, and is one off otherwise.
pub proof fn lemma_half_gap_plus_half_extent(span: int, extent: int)
    ensures
        halves_recombine(span, extent) <==> half_toward_zero(span - extent) + half_toward_zero(extent)
            == half_toward_zero(span),
        -1 <= half_toward_zero(span - extent) + half_toward_zero(extent) - half_toward_zero(span) <= 1,
{
}

/// For a window that fits in the monitor the halves recombine unless the
/// span is even and the extent odd.
pub proof fn lemma_recombine_within_monitor(span: int, extent: int)
    requires
        0 <= extent <= span,
    ensures
        halves_recombine(span, extent) <==> span % 2 == 1 || extent % 2 == 0,
{
}

/// The pointer's target lies in the monitor that it is planned for, unless
/// that monitor has no area.
pub proof fn lemma_pointer_target_is_inside(m: Monitor)
    requires
        m.width > 0,
        m.height > 0,
    ensures
        m.contains_point(pointer_target(m)),
{
}

/// A window centered in a monitor has its own center on the monitor's center:
/// the planned top-left corner plus half the extent, rounded toward zero as
/// the pointer's target is, gives the pointer's target. This holds on each
/// axis where the halves recombine.
pub proof fn lemma_window_center_is_monitor_center(m: Monitor, extent: WindowExtent)
    requires
        halves_recombine(m.width as int, extent.width as int),
        halves_recombine(m.height as int, extent.height as int),
    ensures
        window_target(m, extent).x + half_toward_zero(extent.width as int) == pointer_target(m).x,
        window_target(m, extent).y + half_toward_zero(extent.height as int) == pointer_target(m).y,
{
    lemma_half_gap_plus_half_extent(m.width as int, extent.width as int);
    lemma_half_gap_plus_half_extent(m.height as int, extent.height as int);
}

/// Where the halves do not recombine on the horizontal axis, the centered
/// window's center misses the monitor's center by exactly one column; the
/// same holds of rows on the vertical axis.
pub proof fn lemma_window_center_off_by_one(m: Monitor, extent: WindowExtent)
    ensures
        !halves_recombine(m.width as int, extent.width as int) ==> {
            let reached = window_target(m, extent).x + half_toward_zero(extent.width as int);
            reached == pointer_target(m).x - 1 || reached == pointer_target(m).x + 1
        },
        !halves_recombine(m.height as int, extent.height as int) ==> {
            let reached = window_target(m, extent).y + half_toward_zero(extent.height as int);
            reached == pointer_target(m).y - 1 || reached == pointer_target(m).y + 1
        },
{
    lemma_half_gap_plus_half_extent(m.width as int, extent.width as int);
    lemma_half_gap_plus_half_extent(m.height as int, extent.height as int);
}

} // verus!
