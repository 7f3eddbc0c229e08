//! What the hotkey machine does over whole sequences of events: which
//! monitor a dispatch goes to, that its coordinates depend on nothing but the
//! layout and the window, and that a held key is dispatched once.

use crate::geometry::{resolved_index, Monitor, Point, WindowExtent};
use crate::hotkeys::{
    quiet, scan_model, step_model, window_effect, Directive, Effect, Event, EventModel, HotkeyState, Request,
    StateModel, RELEASE_POLL_MS,
};
use crate::keys::{Gesture, Key, LAST_DIGIT};
use crate::placement::pointer_target;
use crate::targeting::{lemma_target_in_layout, target_index};
use vstd::prelude::*;

verus! {

/// The state reached from `state` after the events, taken in order.
pub open spec fn run(state: StateModel, events: Seq<EventModel>) -> StateModel
    decreases events.len(),
{
    if events.len() == 0 {
        state
    } else {
        step_model(run(state, events.drop_last()), events.last()).0
    }
}

/// The directive that answers event number `i` of a run from `state`.
pub open spec fn directive_at(state: StateModel, events: Seq<EventModel>, i: int) -> Directive {
    step_model(run(state, events.take(i)), events[i]).1
}

/// Every snapshot among the events shows `key` down: no release is
/// observed.
pub open spec fn held_throughout(events: Seq<EventModel>, key: Key) -> bool {
    forall|i: int|
        0 <= i < events.len() ==> (#[trigger] events[i] matches EventModel::Keys(pressed) ==> pressed.contains(
            key,
        ))
}

/// Event number `i` is the first that reports on the focused window.
pub open spec fn first_focus_report(events: Seq<EventModel>, i: int) -> bool {
    &&& 0 <= i < events.len()
    &&& events[i] is Focus
    &&& forall|j: int| 0 <= j < i ==> !(#[trigger] events[j] is Focus)
}

/// The models of a sequence of events, in order.
pub open spec fn models(events: Seq<Event>) -> Seq<EventModel> {
    events.map_values(|event: Event| event@)
}

/// Feeds a script of events to the machine, one after the other, and
/// collects the directive that answers each. With this a host can be stood
/// in for by a list of recorded or invented events, without keyboard, screen
/// or clock.
pub fn replay(state: HotkeyState, events: Vec<Event>) -> (end: (HotkeyState, Vec<Directive>))
    ensures
        end.0@ == run(state@, models(events@)),
        end.1@.len() == events@.len(),
        forall|i: int| 0 <= i < events@.len() ==> end.1@[i] == directive_at(state@, models(events@), i),
{
    let ghost start = state@;
    let ghost script = models(events@);
    let mut state = state;
    let mut directives: Vec<Directive> = Vec::new();
    for event in it: events.into_iter()
        invariant
            script == models(it.seq()),
            state@ == run(start, script.take(it.index() as int)),
            directives@.len() == it.index(),
            forall|i: int| 0 <= i < it.index() ==> directives@[i] == directive_at(start, script, i),
    {
        let ghost done = it.index() as int;
        assert(script.take(done + 1).drop_last() == script.take(done));
        let (next, directive) = state.step(event);
        state = next;
        directives.push(directive);
    }
    assert(script.take(script.len() as int) == script);
    (state, directives)
}

/// The cycle gesture goes to the monitor after the pointer's: with `N >= 1`
/// monitors and the pointer on monitor `k`, the pointer is sent to the center
/// of monitor `(k + 1) mod N`. With no monitors nothing is dispatched and
/// the tick goes on behind the cycle gesture.
pub proof fn lemma_cycle_goes_to_next_monitor(tick: Set<Key>, monitors: Seq<Monitor>, pointer: Point)
    ensures
        monitors.len() >= 1 ==> {
            let next = (resolved_index(monitors, pointer) + 1) % (monitors.len() as int);
            &&& 0 <= next < monitors.len()
            &&& step_model(
                StateModel::Resolving { tick, gesture: Gesture::Cycle },
                EventModel::Layout { monitors, pointer },
            ) == (
                StateModel::Placing { tick, gesture: Gesture::Cycle, target: monitors[next] },
                Directive {
                    effect: Effect::MovePointer(pointer_target(monitors[next])),
                    request: Request::Focus,
                },
            )
        },
        monitors.len() == 0 ==> step_model(
            StateModel::Resolving { tick, gesture: Gesture::Cycle },
            EventModel::Layout { monitors, pointer },
        ) == scan_model(tick, 1),
        scan_model(tick, 1).1.effect == Effect::Nothing,
{
    lemma_target_in_layout(Gesture::Cycle, monitors, pointer);
}

/// Digit `d` of `1..=9` goes to monitor `d - 1` if and only if there are more
/// than `d - 1` monitors. Otherwise nothing is dispatched and the tick goes
/// on behind the digit.
pub proof fn lemma_digit_goes_to_its_monitor(
    tick: Set<Key>,
    digit: u8,
    monitors: Seq<Monitor>,
    pointer: Point,
)
    requires
        1 <= digit <= LAST_DIGIT,
    ensures
        digit - 1 < monitors.len() ==> step_model(
            StateModel::Resolving { tick, gesture: Gesture::Select(digit) },
            EventModel::Layout { monitors, pointer },
        ) == (
            StateModel::Placing { tick, gesture: Gesture::Select(digit), target: monitors[digit - 1] },
            Directive {
                effect: Effect::MovePointer(pointer_target(monitors[digit - 1])),
                request: Request::Focus,
            },
        ),
        digit - 1 >= monitors.len() ==> step_model(
            StateModel::Resolving { tick, gesture: Gesture::Select(digit) },
            EventModel::Layout { monitors, pointer },
        ) == scan_model(tick, digit + 1),
        scan_model(tick, digit + 1).1.effect == Effect::Nothing,
{
}

/// A dispatch has no hidden input. Whatever else two machines remember, the
/// same gesture under the same layout moves the pointer to the same place,
/// and, with the same window focused, moves that window to the same place:
/// the places that the target monitor and the window's extent alone
/// determine.
pub proof fn lemma_dispatch_is_repeatable(
    tick_a: Set<Key>,
    tick_b: Set<Key>,
    gesture: Gesture,
    monitors: Seq<Monitor>,
    pointer: Point,
    focused: Option<WindowExtent>,
)
    ensures
        ({
            let layout = EventModel::Layout { monitors, pointer };
            let focus = EventModel::Focus(focused);
            let a = step_model(StateModel::Resolving { tick: tick_a, gesture }, layout);
            let b = step_model(StateModel::Resolving { tick: tick_b, gesture }, layout);
            &&& a.1.effect == b.1.effect
            &&& step_model(a.0, focus).1.effect == step_model(b.0, focus).1.effect
            &&& target_index(gesture, monitors, pointer) matches Some(index) ==> {
                &&& a.1.effect == Effect::MovePointer(pointer_target(monitors[index]))
                &&& step_model(a.0, focus).1.effect == window_effect(monitors[index], focused)
            }
        }),
{
}

/// Once a gesture has been dispatched, its key is suppressed: as long as no
/// snapshot shows the trigger key released, however many events arrive, the
/// machine stays where it is and every answer is to do nothing and to
/// sample the keys again after the short interval.
pub proof fn lemma_suppression_holds(tick: Set<Key>, gesture: Gesture, events: Seq<EventModel>)
    requires
        held_throughout(events, gesture.trigger()),
    ensures
        run(StateModel::Suppressed { tick, gesture }, events) == (StateModel::Suppressed { tick, gesture }),
        forall|i: int|
            0 <= i < events.len() ==> #[trigger] directive_at(StateModel::Suppressed { tick, gesture }, events, i)
                == quiet(Request::Keys { delay_ms: RELEASE_POLL_MS }),
    decreases events.len(),
{
    let suppressed = StateModel::Suppressed { tick, gesture };
    if events.len() > 0 {
        lemma_suppression_holds(tick, gesture, events.drop_last());
    }
    assert forall|i: int| 0 <= i < events.len() implies #[trigger] directive_at(suppressed, events, i)
        == quiet(Request::Keys { delay_ms: RELEASE_POLL_MS }) by {
        lemma_suppression_holds(tick, gesture, events.take(i));
    }
}

/// The first snapshot without the trigger key ends the suppression: the
/// machine goes on with its tick behind the gesture's slot.
pub proof fn lemma_release_ends_suppression(tick: Set<Key>, gesture: Gesture, pressed: Set<Key>)
    requires
        !pressed.contains(gesture.trigger()),
    ensures
        step_model(StateModel::Suppressed { tick, gesture }, EventModel::Keys(pressed)) == scan_model(
            tick,
            gesture.slot() + 1,
        ),
        !(step_model(StateModel::Suppressed { tick, gesture }, EventModel::Keys(pressed)).0 is Suppressed),
{
}

/// From the moment the pointer has been sent to its target, one press gives
/// one dispatch. As long as no snapshot shows the trigger key released the
/// machine only waits, first for the focused window, then for the release;
/// the pointer is never moved again, and the one effect there can be is this
/// dispatch's own window placement, in answer to the first report on the
/// focused window.
pub proof fn lemma_one_dispatch_per_press(
    tick: Set<Key>,
    gesture: Gesture,
    target: Monitor,
    events: Seq<EventModel>,
)
    requires
        held_throughout(events, gesture.trigger()),
    ensures
        ({
            let placing = StateModel::Placing { tick, gesture, target };
            let end = run(placing, events);
            &&& end == placing || end == (StateModel::Suppressed { tick, gesture })
            &&& end == placing <==> forall|j: int| 0 <= j < events.len() ==> !(#[trigger] events[j] is Focus)
            &&& forall|i: int|
                0 <= i < events.len() ==> #[trigger] directive_at(placing, events, i).effect == if first_focus_report(
                    events,
                    i,
                ) {
                    window_effect(target, events[i]->Focus_0)
                } else {
                    Effect::Nothing
                }
        }),
    decreases events.len(),
{
    let placing = StateModel::Placing { tick, gesture, target };
    if events.len() > 0 {
        let before = events.drop_last();
        lemma_one_dispatch_per_press(tick, gesture, target, before);
        assert(forall|j: int| 0 <= j < before.len() ==> before[j] == events[j]);
    }
    assert forall|i: int| 0 <= i < events.len() implies #[trigger] directive_at(placing, events, i).effect
        == if first_focus_report(events, i) {
        window_effect(target, events[i]->Focus_0)
    } else {
        Effect::Nothing
    } by {
        lemma_one_dispatch_per_press(tick, gesture, target, events.take(i));
    }
}

} // verus!
