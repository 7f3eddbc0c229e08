//! Which monitor a gesture sends the pointer and the focused window to.

use crate::geometry::{resolve_monitor_index, resolved_index, Monitor, Point};
use crate::keys::{Gesture, LAST_DIGIT};
use vstd::prelude::*;

verus! {

/// The monitor after the pointer's own, wrapping around after the last; none
/// when there are no monitors.
pub open spec fn cycle_index(monitors: Seq<Monitor>, pointer: Point) -> Option<int> {
    if monitors.len() == 0 {
        None
    } else {
        Some((resolved_index(monitors, pointer) + 1) % (monitors.len() as int))
    }
}

/// Digit `d` of `1..=9` names monitor `d - 1`, when there are that many
/// monitors; any other digit names none.
pub open spec fn select_index(digit: int, count: int) -> Option<int> {
    if 1 <= digit <= LAST_DIGIT && digit - 1 < count {
        Some(digit - 1)
    } else {
        None
    }
}

/// The monitor that a gesture is dispatched to in a given layout, if any.
pub open spec fn target_index(gesture: Gesture, monitors: Seq<Monitor>, pointer: Point) -> Option<int> {
    match gesture {
        Gesture::Cycle => cycle_index(monitors, pointer),
        Gesture::Select(digit) => select_index(digit as int, monitors.len() as int),
    }
}

/// A target, where a gesture has one, is a monitor of the layout.
pub proof fn lemma_target_in_layout(gesture: Gesture, monitors: Seq<Monitor>, pointer: Point)
    ensures
        target_index(gesture, monitors, pointer) matches Some(i) ==> 0 <= i < monitors.len(),
{
    if monitors.len() > 0 {
        let n = monitors.len() as int;
        let k = resolved_index(monitors, pointer) + 1;
        assert(0 <= k % n < n) by (nonlinear_arith)
            requires
                n > 0,
        ;
    }
}

/// Target of the cycle gesture: with `N >= 1` monitors and the pointer on
/// monitor `k`, monitor `(k + 1) mod N`. With no monitors there is no
/// target, and nothing is divided or indexed.
pub fn cycle_target(monitors: &[Monitor], pointer: Point) -> (target: Option<usize>)
    ensures
        match target {
            Some(next) => cycle_index(monitors@, pointer) == Some(next as int),
            None => cycle_index(monitors@, pointer) is None,
        },
        target matches Some(next) ==> next < monitors@.len() && next == (resolved_index(monitors@, pointer)
            + 1) % (monitors@.len() as int),
        target is None <==> monitors@.len() == 0,
{
    let count: usize = monitors.len();
    if count == 0 {
        return None;
    }
    let current: usize = resolve_monitor_index(monitors, pointer);
    proof {
        lemma_target_in_layout(Gesture::Cycle, monitors@, pointer);
    }
    Some((current + 1) % count)
}

/// Target of a direct selection: digit `d` of `1..=9` selects monitor
/// `d - 1` if and only if `d - 1 < count`; otherwise the digit is ignored.
pub fn select_target(digit: u8, count: usize) -> (target: Option<usize>)
    ensures
        match target {
            Some(index) => select_index(digit as int, count as int) == Some(index as int),
            None => select_index(digit as int, count as int) is None,
        },
        target matches Some(index) ==> index == digit - 1 && index < count,
        target is Some <==> 1 <= digit <= LAST_DIGIT && digit - 1 < count,
{
    if 1 <= digit && digit <= LAST_DIGIT && ((digit - 1) as usize) < count {
        Some((digit - 1) as usize)
    } else {
        None
    }
}

/// Target of any gesture in the given layout.
pub fn gesture_target(gesture: Gesture, monitors: &[Monitor], pointer: Point) -> (target: Option<usize>)
    ensures
        match target {
            Some(index) => target_index(gesture, monitors@, pointer) == Some(index as int),
            None => target_index(gesture, monitors@, pointer) is None,
        },
        target matches Some(index) ==> index < monitors@.len(),
{
    match gesture {
        Gesture::Cycle => cycle_target(monitors, pointer),
        Gesture::Select(digit) => select_target(digit, monitors.len()),
    }
}

} // verus!
