//! Monitors as rectangles of the virtual screen, and the question of which
//! monitor a point belongs to.

use vstd::prelude::*;

verus! {

/// A position in the virtual screen coordinate space.
#[derive(Clone, Copy, Debug, PartialEq, Eq, Structural)]
pub struct Point {
    pub x: i64,
    pub y: i64,
}

/// One display: the rectangle `[x, x + width) x [y, y + height)` of the
/// virtual screen. Coordinates may be negative for monitors left of or above
/// the primary origin.
#[derive(Clone, Copy, Debug, PartialEq, Eq, Structural)]
pub struct Monitor {
    pub x: i32,
    pub y: i32,
    pub width: i32,
    pub height: i32,
}

/// Width and height of a window.
#[derive(Clone, Copy, Debug, PartialEq, Eq, Structural)]
pub struct WindowExtent {
    pub width: i32,
    pub height: i32,
}

impl Monitor {
    /// A monitor is well formed when neither dimension is negative. A
    /// dimension of zero is allowed: such a monitor contains no point.
    pub open spec fn wf(self) -> bool {
        self.width >= 0 && self.height >= 0
    }

    /// The first column right of the monitor.
    pub open spec fn right(self) -> int {
        self.x + self.width
    }

    /// The first row below the monitor.
    pub open spec fn bottom(self) -> int {
        self.y + self.height
    }

    /// Membership with half-open bounds: the left and top edges belong to the
    /// monitor, the right and bottom edges do not.
    pub open spec fn contains_point(self, p: Point) -> bool {
        self.x <= p.x < self.right() && self.y <= p.y < self.bottom()
    }

    /// The point lies inside the monitor and on none of its four edges.
    pub open spec fn strictly_contains(self, p: Point) -> bool {
        self.x < p.x < self.right() && self.y < p.y < self.bottom()
    }

    /// Two monitors overlap when some point belongs to both.
    pub open spec fn overlaps(self, other: Monitor) -> bool {
        &&& self.x < other.right()
        &&& other.x < self.right()
        &&& self.x < self.right()
        &&& other.x < other.right()
        &&& self.y < other.bottom()
        &&& other.y < self.bottom()
        &&& self.y < self.bottom()
        &&& other.y < other.bottom()
    }

    /// Builds a monitor, refusing a negative width or height.
    pub fn new(x: i32, y: i32, width: i32, height: i32) -> (made: Option<Monitor>)
        ensures
            made == if width >= 0 && height >= 0 {
                Some(Monitor { x, y, width, height })
            } else {
                None
            },
            made matches Some(m) ==> m.wf(),
    {
        if width >= 0 && height >= 0 {
            Some(Monitor { x, y, width, height })
        } else {
            None
        }
    }

    /// Whether `p` belongs to this monitor.
    #[verifier::when_used_as_spec(contains_point)]
    pub fn contains(self, p: Point) -> (inside: bool)
        ensures
            inside == self.contains_point(p),
    {
        let left: i64 = self.x as i64;
        let top: i64 = self.y as i64;
        let right: i64 = left + self.width as i64;
        let bottom: i64 = top + self.height as i64;
        left <= p.x && p.x < right && top <= p.y && p.y < bottom
    }
}

/// `i` is the first monitor of the sequence that contains `p`.
pub open spec fn is_first_match(monitors: Seq<Monitor>, p: Point, i: int) -> bool {
    &&& 0 <= i < monitors.len()
    &&& monitors[i].contains_point(p)
    &&& forall|j: int| 0 <= j < i ==> !(#[trigger] monitors[j]).contains_point(p)
}

/// Some monitor of the sequence contains `p`.
pub open spec fn some_contains(monitors: Seq<Monitor>, p: Point) -> bool {
    exists|i: int| 0 <= i < monitors.len() && (#[trigger] monitors[i]).contains_point(p)
}

/// The index that a point resolves to: the first monitor in enumeration order
/// that contains it, and `0` when none does.
pub open spec fn resolved_index(monitors: Seq<Monitor>, p: Point) -> int {
    if exists|i: int| is_first_match(monitors, p, i) {
        choose|i: int| is_first_match(monitors, p, i)
    } else {
        0
    }
}

/// No two distinct monitors of the sequence share a point.
pub open spec fn pairwise_disjoint(monitors: Seq<Monitor>) -> bool {
    forall|i: int, j: int|
        0 <= i < monitors.len() && 0 <= j < monitors.len() && i != j ==> !(#[trigger] monitors[i]).overlaps(
            #[trigger] monitors[j],
        )
}

/// A first match, where there is one, is the resolved index.
pub proof fn lemma_first_match_is_resolved(monitors: Seq<Monitor>, p: Point, i: int)
    requires
        is_first_match(monitors, p, i),
    ensures
        resolved_index(monitors, p) == i,
{
}

/// A point inside no monitor resolves to the fallback `0`, and so does every
/// point when the sequence is empty.
pub proof fn lemma_no_match_resolves_to_zero(monitors: Seq<Monitor>, p: Point)
    requires
        !some_contains(monitors, p),
    ensures
        resolved_index(monitors, p) == 0,
{
}

/// Two monitors overlap exactly when some point belongs to both.
pub proof fn lemma_overlap_is_shared_point(a: Monitor, b: Monitor)
    ensures
        a.overlaps(b) <==> exists|p: Point| a.contains_point(p) && b.contains_point(p),
{
    if a.overlaps(b) {
        let x: i64 = if a.x >= b.x { a.x as i64 } else { b.x as i64 };
        let y: i64 = if a.y >= b.y { a.y as i64 } else { b.y as i64 };
        let p = Point { x, y };
        assert(a.contains_point(p) && b.contains_point(p));
    }
}

/// First match wins: whenever monitor `i` contains the point, the point
/// resolves to the lowest index among all the monitors that contain it. That
/// index is `i` itself unless an earlier monitor overlaps monitor `i` there.
pub proof fn lemma_resolves_to_lowest_match(monitors: Seq<Monitor>, p: Point, i: int)
    requires
        0 <= i < monitors.len(),
        monitors[i].contains_point(p),
    ensures
        0 <= resolved_index(monitors, p) <= i,
        is_first_match(monitors, p, resolved_index(monitors, p)),
    decreases i,
{
    if forall|j: int| 0 <= j < i ==> !(#[trigger] monitors[j]).contains_point(p) {
        lemma_first_match_is_resolved(monitors, p, i);
    } else {
        let j = choose|j: int| 0 <= j < i && (#[trigger] monitors[j]).contains_point(p);
        lemma_resolves_to_lowest_match(monitors, p, j);
    }
}

/// In a layout whose monitors do not overlap, a point strictly inside
/// monitor `k` resolves to `k`.
pub proof fn lemma_disjoint_layout_resolves_exactly(monitors: Seq<Monitor>, p: Point, k: int)
    requires
        pairwise_disjoint(monitors),
        0 <= k < monitors.len(),
        monitors[k].strictly_contains(p),
    ensures
        resolved_index(monitors, p) == k,
{
    lemma_resolves_to_lowest_match(monitors, p, k);
    let r = resolved_index(monitors, p);
    if r != k {
        lemma_overlap_is_shared_point(monitors[r], monitors[k]);
    }
}

/// Finds the monitor that `point` belongs to: the index of the first monitor,
/// in enumeration order, whose rectangle contains the point. Where monitors
/// overlap the earlier one wins. A point inside no monitor, and any point
/// when there are no monitors at all, resolves to `0`; the caller has to
/// check for an empty sequence before indexing with the result.
pub fn resolve_monitor_index(monitors: &[Monitor], point: Point) -> (index: usize)
    ensures
        index == resolved_index(monitors@, point),
        some_contains(monitors@, point) ==> is_first_match(monitors@, point, index as int),
        !some_contains(monitors@, point) ==> index == 0,
        monitors@.len() > 0 ==> index < monitors@.len(),
{
    let mut i: usize = 0;
    while i < monitors.len()
        invariant
            i <= monitors@.len(),
            forall|j: int| 0 <= j < i ==> !(#[trigger] monitors@[j]).contains_point(point),
        decreases monitors@.len() - i,
    {
        if monitors[i].contains(point) {
            proof {
                lemma_first_match_is_resolved(monitors@, point, i as int);
            }
            return i;
        }
        i += 1;
    }
    proof {
        lemma_no_match_resolves_to_zero(monitors@, point);
    }
    0
}

} // verus!
