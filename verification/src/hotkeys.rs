//! The hotkey state machine: from the machine's state and the answer to its
//! last request, to the next state, an effect to apply and the next request.
//!
//! A host drives the machine. It answers each [`Request`] with the matching
//! [`Event`], applies the [`Effect`] that comes back, and goes on with the
//! new request. The machine itself touches neither keyboard nor screen.

use crate::geometry::{Monitor, Point, WindowExtent};
use crate::keys::{next_shown, Gesture, Key, KeySnapshot, LAST_DIGIT};
use crate::placement::{plan_pointer_target, plan_window_target, pointer_target, window_target};
use crate::targeting::{gesture_target, target_index};
use vstd::prelude::*;

verus! {

/// Milliseconds between two snapshots while no key is suppressed.
pub const IDLE_POLL_MS: u64 = 100;

/// Milliseconds between two snapshots while waiting for a key's release.
pub const RELEASE_POLL_MS: u64 = 50;

/// Something for the host to do to the screen, with no answer expected.
#[derive(Clone, Copy, Debug, PartialEq, Eq, Structural)]
pub enum Effect {
    /// Leave everything as it is.
    Nothing,
    /// Put the pointer at this position.
    MovePointer(Point),
    /// Put the top-left corner of the window that the last focus report was
    /// about at `top_left`, keeping its extent.
    MoveWindow { top_left: Point, extent: WindowExtent },
}

/// What the machine needs to know next.
#[derive(Clone, Copy, Debug, PartialEq, Eq, Structural)]
pub enum Request {
    /// Wait `delay_ms` milliseconds, then sample the pressed keys; answered
    /// by [`Event::Keys`].
    Keys { delay_ms: u64 },
    /// List the monitors and read the pointer's position; answered by
    /// [`Event::Layout`].
    Layout,
    /// Look up the focused window and its extent; answered by
    /// [`Event::Focus`].
    Focus,
}

/// One answer of the machine: apply `effect`, then fulfil `request`.
#[derive(Clone, Copy, Debug, PartialEq, Eq, Structural)]
pub struct Directive {
    pub effect: Effect,
    pub request: Request,
}

/// What the host reports back.
#[derive(Debug, PartialEq, Eq)]
pub enum Event {
    /// The keys that are down right now.
    Keys(KeySnapshot),
    /// The monitors, in enumeration order, and the pointer's position.
    Layout { monitors: Vec<Monitor>, pointer: Point },
    /// The extent of the focused window, or `None` without a focused
    /// window.
    Focus(Option<WindowExtent>),
}

/// The state of the hotkey machine. `Idle` and `Suppressed` are the states
/// it rests in between ticks; `Resolving` and `Placing` are passed through
/// within one dispatch. Each state but `Idle` remembers the snapshot of the
/// tick that it belongs to, to go on with that tick's remaining gestures.
#[derive(Debug, PartialEq, Eq)]
pub enum HotkeyState {
    /// No key is suppressed; the next snapshot starts a tick.
    Idle,
    /// `gesture` was recognised; the layout has been asked for.
    Resolving { tick: KeySnapshot, gesture: Gesture },
    /// The pointer was sent to `target`; the focused window has been asked
    /// for.
    Placing { tick: KeySnapshot, gesture: Gesture, target: Monitor },
    /// `gesture` was dispatched; its trigger key has to be released before
    /// anything else happens. The wait has no timeout: a key that is never
    /// seen released keeps the machine here for good.
    Suppressed { tick: KeySnapshot, gesture: Gesture },
}

/// Mathematical model of an [`Event`].
pub enum EventModel {
    Keys(Set<Key>),
    Layout { monitors: Seq<Monitor>, pointer: Point },
    Focus(Option<WindowExtent>),
}

/// Mathematical model of a [`HotkeyState`].
pub enum StateModel {
    Idle,
    Resolving { tick: Set<Key>, gesture: Gesture },
    Placing { tick: Set<Key>, gesture: Gesture, target: Monitor },
    Suppressed { tick: Set<Key>, gesture: Gesture },
}

impl View for Event {
    type V = EventModel;

    open spec fn view(&self) -> EventModel {
        match *self {
            Event::Keys(pressed) => EventModel::Keys(pressed@),
            Event::Layout { monitors, pointer } => EventModel::Layout { monitors: monitors@, pointer },
            Event::Focus(extent) => EventModel::Focus(extent),
        }
    }
}

impl View for HotkeyState {
    type V = StateModel;

    open spec fn view(&self) -> StateModel {
        match *self {
            HotkeyState::Idle => StateModel::Idle,
            HotkeyState::Resolving { tick, gesture } => StateModel::Resolving { tick: tick@, gesture },
            HotkeyState::Placing { tick, gesture, target } => StateModel::Placing {
                tick: tick@,
                gesture,
                target,
            },
            HotkeyState::Suppressed { tick, gesture } => StateModel::Suppressed { tick: tick@, gesture },
        }
    }
}

/// A directive that changes nothing on screen.
pub open spec fn quiet(request: Request) -> Directive {
    Directive { effect: Effect::Nothing, request }
}

/// What a state is waiting for. An event of another kind is answered by
/// asking for this again.
pub open spec fn awaited(state: StateModel) -> Request {
    match state {
        StateModel::Idle => Request::Keys { delay_ms: IDLE_POLL_MS },
        StateModel::Resolving { .. } => Request::Layout,
        StateModel::Placing { .. } => Request::Focus,
        StateModel::Suppressed { .. } => Request::Keys { delay_ms: RELEASE_POLL_MS },
    }
}

/// Goes on with a tick at slot `from`: the next gesture that the tick's
/// snapshot shows is taken up by asking for the layout; when none is left
/// the tick is over and the machine idles until the next snapshot.
pub open spec fn scan_model(tick: Set<Key>, from: int) -> (StateModel, Directive) {
    match next_shown(tick, from) {
        Some(gesture) => (StateModel::Resolving { tick, gesture }, quiet(Request::Layout)),
        None => (StateModel::Idle, quiet(Request::Keys { delay_ms: IDLE_POLL_MS })),
    }
}

/// The effect on the focused window of a dispatch to `target`: centered
/// there when there is a focused window, nothing otherwise.
pub open spec fn window_effect(target: Monitor, focused: Option<WindowExtent>) -> Effect {
    match focused {
        Some(extent) => Effect::MoveWindow { top_left: window_target(target, extent), extent },
        None => Effect::Nothing,
    }
}

/// The transition table.
///
/// * `Idle`, on a snapshot: start a tick at the first slot.
/// * `Resolving`, on a layout: with a target monitor, send the pointer to
///   its center and ask for the focused window; without one, skip the
///   gesture and go on with the tick.
/// * `Placing`, on the focused window: center it in the target, if there is
///   one, and sample the keys at once.
/// * `Suppressed`, on a snapshot: while the trigger key is down, do nothing
///   and sample again after the short interval; once it is up, go on with
///   the tick.
/// * Any state, on an event that it did not ask for: stay, and ask again.
pub open spec fn step_model(state: StateModel, event: EventModel) -> (StateModel, Directive) {
    match (state, event) {
        (StateModel::Idle, EventModel::Keys(pressed)) => scan_model(pressed, 0),
        (StateModel::Resolving { tick, gesture }, EventModel::Layout { monitors, pointer }) => {
            match target_index(gesture, monitors, pointer) {
                Some(index) => (
                    StateModel::Placing { tick, gesture, target: monitors[index] },
                    Directive {
                        effect: Effect::MovePointer(pointer_target(monitors[index])),
                        request: Request::Focus,
                    },
                ),
                None => scan_model(tick, gesture.slot() + 1),
            }
        },
        (StateModel::Placing { tick, gesture, target }, EventModel::Focus(focused)) => (
            StateModel::Suppressed { tick, gesture },
            Directive { effect: window_effect(target, focused), request: Request::Keys { delay_ms: 0 } },
        ),
        (StateModel::Suppressed { tick, gesture }, EventModel::Keys(pressed)) => {
            if pressed.contains(gesture.trigger()) {
                (state, quiet(Request::Keys { delay_ms: RELEASE_POLL_MS }))
            } else {
                scan_model(tick, gesture.slot() + 1)
            }
        },
        _ => (state, quiet(awaited(state))),
    }
}

/// Goes on with a tick from slot `from`.
fn scan(tick: KeySnapshot, from: u8) -> (next: (HotkeyState, Directive))
    ensures
        (next.0@, next.1) == scan_model(tick@, from as int),
{
    match tick.next_gesture(from) {
        Some(gesture) => (
            HotkeyState::Resolving { tick, gesture },
            Directive { effect: Effect::Nothing, request: Request::Layout },
        ),
        None => (
            HotkeyState::Idle,
            Directive { effect: Effect::Nothing, request: Request::Keys { delay_ms: IDLE_POLL_MS } },
        ),
    }
}

/// Goes on with a tick behind the slot of `gesture`.
fn resume(tick: KeySnapshot, gesture: Gesture) -> (next: (HotkeyState, Directive))
    ensures
        (next.0@, next.1) == scan_model(tick@, gesture.slot() + 1),
{
    match gesture {
        Gesture::Cycle => scan(tick, 1),
        Gesture::Select(digit) => {
            if digit < LAST_DIGIT {
                scan(tick, digit + 1)
            } else {
                (
                    HotkeyState::Idle,
                    Directive { effect: Effect::Nothing, request: Request::Keys { delay_ms: IDLE_POLL_MS } },
                )
            }
        },
    }
}

impl HotkeyState {
    /// The machine before its first tick, and the request to begin with: a
    /// snapshot of the keys, taken at once.
    pub fn start() -> (begin: (HotkeyState, Directive))
        ensures
            begin.0@ == StateModel::Idle,
            begin.1 == quiet(Request::Keys { delay_ms: 0 }),
    {
        (HotkeyState::Idle, Directive { effect: Effect::Nothing, request: Request::Keys { delay_ms: 0 } })
    }

    /// The request that this state is waiting for.
    pub fn awaits(&self) -> (request: Request)
        ensures
            request == awaited(self@),
    {
        match self {
            HotkeyState::Idle => Request::Keys { delay_ms: IDLE_POLL_MS },
            HotkeyState::Resolving { .. } => Request::Layout,
            HotkeyState::Placing { .. } => Request::Focus,
            HotkeyState::Suppressed { .. } => Request::Keys { delay_ms: RELEASE_POLL_MS },
        }
    }

    /// Takes one event and gives the next state with the directive for the
    /// host, as the transition table has it.
    pub fn step(self, event: Event) -> (next: (HotkeyState, Directive))
        ensures
            (next.0@, next.1) == step_model(self@, event@),
    {
        match self {
            HotkeyState::Idle => match event {
                Event::Keys(pressed) => scan(pressed, 0),
                _ => (
                    HotkeyState::Idle,
                    Directive { effect: Effect::Nothing, request: Request::Keys { delay_ms: IDLE_POLL_MS } },
                ),
            },
            HotkeyState::Resolving { tick, gesture } => match event {
                Event::Layout { monitors, pointer } => {
                    match gesture_target(gesture, monitors.as_slice(), pointer) {
                        Some(index) => {
                            let target = monitors[index];
                            (
                                HotkeyState::Placing { tick, gesture, target },
                                Directive {
                                    effect: Effect::MovePointer(plan_pointer_target(target)),
                                    request: Request::Focus,
                                },
                            )
                        },
                        None => resume(tick, gesture),
                    }
                },
                _ => (
                    HotkeyState::Resolving { tick, gesture },
                    Directive { effect: Effect::Nothing, request: Request::Layout },
                ),
            },
            HotkeyState::Placing { tick, gesture, target } => match event {
                Event::Focus(focused) => {
                    let effect = match focused {
                        Some(extent) => Effect::MoveWindow {
                            top_left: plan_window_target(target, extent),
                            extent,
                        },
                        None => Effect::Nothing,
                    };
                    (
                        HotkeyState::Suppressed { tick, gesture },
                        Directive { effect, request: Request::Keys { delay_ms: 0 } },
                    )
                },
                _ => (
                    HotkeyState::Placing { tick, gesture, target },
                    Directive { effect: Effect::Nothing, request: Request::Focus },
                ),
            },
            HotkeyState::Suppressed { tick, gesture } => match event {
                Event::Keys(pressed) => {
                    if pressed.contains(gesture.trigger_key()) {
                        (
                            HotkeyState::Suppressed { tick, gesture },
                            Directive {
                                effect: Effect::Nothing,
                                request: Request::Keys { delay_ms: RELEASE_POLL_MS },
                            },
                        )
                    } else {
                        resume(tick, gesture)
                    }
                },
                _ => (
                    HotkeyState::Suppressed { tick, gesture },
                    Directive {
                        effect: Effect::Nothing,
                        request: Request::Keys { delay_ms: RELEASE_POLL_MS },
                    },
                ),
            },
        }
    }
}

} // verus!
