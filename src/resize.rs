//! The live-resize and full-screen state machine of the window-control
//! buttons. A transition that starts while the buttons are visible hides
//! them and marks the window dirty; the end of a transition moves the buttons
//! back into place only when that is owed, then shows them again.
use vstd::prelude::*;
use crate::registry::{dirty_in, DirtyRegistry};

verus! {

/// A window notification that the state machine reacts to.
#[derive(Clone, Copy, Debug, PartialEq, Eq, Structural)]
pub enum ResizeEvent {
    WillStartLiveResize,
    DidEndLiveResize,
    DidEnterFullScreen,
    DidExitFullScreen,
}

/// What the caller must do to the buttons, in this order: hide them, move
/// them by the configured offset, show them.
#[derive(Clone, Copy, Debug, PartialEq, Eq, Structural)]
pub struct ButtonCommands {
    pub hide: bool,
    pub reposition: bool,
    pub show: bool,
}

/// The state of one window's buttons: whether they are hidden, and whether
/// a reposition is owed before they are shown again.
#[derive(Clone, Copy, Debug, PartialEq, Eq, Structural)]
pub struct ButtonState {
    pub transparent: bool,
    pub dirty: bool,
}

/// The next state and the commands that one event produces.
#[derive(Clone, Copy, Debug, PartialEq, Eq, Structural)]
pub struct Transition {
    pub next: ButtonState,
    pub commands: ButtonCommands,
}

/// Whether the event starts a transition (live resize or entering full
/// screen); the other two end one.
pub open spec fn starts_transition(e: ResizeEvent) -> bool {
    e == ResizeEvent::WillStartLiveResize || e == ResizeEvent::DidEnterFullScreen
}

pub open spec fn step(s: ButtonState, e: ResizeEvent) -> Transition {
    if starts_transition(e) {
        if s.transparent {
            Transition {
                next: s,
                commands: ButtonCommands { hide: false, reposition: false, show: false },
            }
        } else {
            Transition {
                next: ButtonState { transparent: true, dirty: true },
                commands: ButtonCommands { hide: true, reposition: false, show: false },
            }
        }
    } else {
        Transition {
            next: ButtonState { transparent: false, dirty: false },
            commands: ButtonCommands { hide: false, reposition: s.dirty, show: true },
        }
    }
}

/// The state after a sequence of events.
pub open spec fn run(s: ButtonState, events: Seq<ResizeEvent>) -> ButtonState
    decreases events.len(),
{
    if events.len() == 0 {
        s
    } else {
        step(run(s, events.drop_last()), events.last()).next
    }
}

/// How many repositions a sequence of events orders.
pub open spec fn repositions(s: ButtonState, events: Seq<ResizeEvent>) -> nat
    decreases events.len(),
{
    if events.len() == 0 {
        0
    } else {
        repositions(s, events.drop_last()) + if step(
            run(s, events.drop_last()),
            events.last(),
        ).commands.reposition {
            1nat
        } else {
            0nat
        }
    }
}

/// The state once decoration has been applied: buttons visible and in place.
pub open spec fn initial_state() -> ButtonState {
    ButtonState { transparent: false, dirty: false }
}

/// Decides what one event does to the buttons of the window labelled
/// `window_label`, whose hidden state is `transparent` and whose dirty flag
/// lives in `registry`. The flag is written only when it changes.
pub fn handle_resize_event(
    registry: &mut DirtyRegistry,
    window_label: &str,
    transparent: &mut bool,
    event: ResizeEvent,
) -> (r: ButtonCommands)
    requires
        old(registry).wf(),
    ensures
        final(registry).wf(),
        ({
            let s = ButtonState {
                transparent: *old(transparent),
                dirty: dirty_in(old(registry)@, window_label@),
            };
            let t = step(s, event);
            &&& r == t.commands
            &&& *final(transparent) == t.next.transparent
            &&& final(registry)@ == if t.next.dirty != s.dirty {
                old(registry)@.insert(window_label@, t.next.dirty)
            } else {
                old(registry)@
            }
        }),
{
    let dirty = registry.get(window_label);
    match event {
        ResizeEvent::WillStartLiveResize | ResizeEvent::DidEnterFullScreen => {
            if *transparent {
                ButtonCommands { hide: false, reposition: false, show: false }
            } else {
                *transparent = true;
                if !dirty {
                    registry.set(window_label, true);
                }
                ButtonCommands { hide: true, reposition: false, show: false }
            }
        },
        ResizeEvent::DidEndLiveResize | ResizeEvent::DidExitFullScreen => {
            *transparent = false;
            if dirty {
                registry.set(window_label, false);
            }
            ButtonCommands { hide: false, reposition: dirty, show: true }
        },
    }
}

/// Starts tracking the window labelled `window_label`: its buttons are
/// visible and no reposition is owed.
pub fn install_resize_tracking(registry: &mut DirtyRegistry, window_label: &str) -> (transparent: bool)
    requires
        old(registry).wf(),
    ensures
        final(registry).wf(),
        final(registry)@ == old(registry)@.insert(window_label@, false),
        transparent == initial_state().transparent,
{
    registry.set(window_label, false);
    false
}

/// The delayed adjustment after the window first opens: the buttons are moved
/// into place and the window is marked clean.
pub fn initial_adjustment(registry: &mut DirtyRegistry, window_label: &str) -> (r: ButtonCommands)
    requires
        old(registry).wf(),
    ensures
        final(registry).wf(),
        final(registry)@ == old(registry)@.insert(window_label@, false),
        r == (ButtonCommands { hide: false, reposition: true, show: false }),
{
    registry.set(window_label, false);
    ButtonCommands { hide: false, reposition: true, show: false }
}

/// After any event that ends a transition, no reposition is owed.
pub proof fn lemma_end_clears_dirty(s: ButtonState, events: Seq<ResizeEvent>)
    requires
        events.len() > 0,
        !starts_transition(events.last()),
    ensures
        !run(s, events).dirty,
        !run(s, events).transparent,
{
}

/// Events that start no transition order at most one reposition between
/// them, and none once one has ended a transition.
pub proof fn lemma_single_reposition_per_transition(s: ButtonState, events: Seq<ResizeEvent>)
    requires
        forall|i: int| 0 <= i < events.len() ==> !starts_transition(#[trigger] events[i]),
    ensures
        repositions(s, events) <= 1,
        events.len() > 0 ==> !run(s, events).dirty,
    decreases events.len(),
{
    if events.len() > 0 {
        let prefix = events.drop_last();
        assert forall|i: int| 0 <= i < prefix.len() implies !starts_transition(#[trigger] prefix[i]) by {
            assert(prefix[i] == events[i]);
        }
        lemma_single_reposition_per_transition(s, prefix);
        assert(!starts_transition(events[events.len() - 1]));
    }
}

/// A second end of a transition, with no start between, does not move the
/// buttons again.
pub proof fn lemma_repeated_end_does_not_reposition(s: ButtonState, first: ResizeEvent, second: ResizeEvent)
    requires
        !starts_transition(first),
        !starts_transition(second),
    ensures
        !step(step(s, first).next, second).commands.reposition,
{
}

/// From the initial state, the buttons are hidden exactly when a reposition
/// is owed, whatever the events.
pub proof fn lemma_hidden_iff_owed(events: Seq<ResizeEvent>)
    ensures
        run(initial_state(), events).transparent == run(initial_state(), events).dirty,
    decreases events.len(),
{
    if events.len() > 0 {
        lemma_hidden_iff_owed(events.drop_last());
    }
}

} // verus!
