//! The quiet-period variant of resize handling, for event sources that only
//! deliver continuous "resized" ticks. The first tick of a burst hides the
//! buttons; once no tick has arrived for the quiet period, the buttons are
//! moved into place and shown, once per burst.
use vstd::prelude::*;

verus! {

/// How long no tick may arrive before a burst counts as over, in
/// milliseconds.
pub const QUIET_PERIOD_MS: u64 = 80;

/// An input of the waiter: a resize tick, or a check of the clock after a
/// wait; both carry the time in milliseconds.
#[derive(Clone, Copy, Debug, PartialEq, Eq, Structural)]
pub enum DebounceEvent {
    Tick(u64),
    Poll(u64),
}

/// What the caller must do: hide the buttons, or move them into place and
/// show them.
#[derive(Clone, Copy, Debug, PartialEq, Eq, Structural)]
pub struct DebounceAction {
    pub hide: bool,
    pub reposition_and_restore: bool,
}

/// Whether a burst is in progress, and when its latest tick came.
#[derive(Clone, Copy, Debug, PartialEq, Eq, Structural)]
pub struct Debouncer {
    pub pending: bool,
    pub last_tick_ms: u64,
}

pub open spec fn event_time(e: DebounceEvent) -> u64 {
    match e {
        DebounceEvent::Tick(t) => t,
        DebounceEvent::Poll(t) => t,
    }
}

pub open spec fn debounce_step(s: Debouncer, e: DebounceEvent) -> (Debouncer, DebounceAction) {
    match e {
        DebounceEvent::Tick(t) => (
            Debouncer { pending: true, last_tick_ms: t },
            DebounceAction { hide: !s.pending, reposition_and_restore: false },
        ),
        DebounceEvent::Poll(t) => if s.pending && t >= s.last_tick_ms + QUIET_PERIOD_MS {
            (
                Debouncer { pending: false, last_tick_ms: s.last_tick_ms },
                DebounceAction { hide: false, reposition_and_restore: true },
            )
        } else {
            (s, DebounceAction { hide: false, reposition_and_restore: false })
        },
    }
}

/// The waiter's state after a sequence of events.
pub open spec fn debounce_run(s: Debouncer, events: Seq<DebounceEvent>) -> Debouncer
    decreases events.len(),
{
    if events.len() == 0 {
        s
    } else {
        debounce_step(debounce_run(s, events.drop_last()), events.last()).0
    }
}

/// The actions that a sequence of events produces, in order.
pub open spec fn debounce_actions(s: Debouncer, events: Seq<DebounceEvent>) -> Seq<DebounceAction>
    decreases events.len(),
{
    if events.len() == 0 {
        Seq::empty()
    } else {
        debounce_actions(s, events.drop_last()).push(
            debounce_step(debounce_run(s, events.drop_last()), events.last()).1,
        )
    }
}

/// How many of the actions move and show the buttons.
pub open spec fn restore_count(actions: Seq<DebounceAction>) -> nat
    decreases actions.len(),
{
    if actions.len() == 0 {
        0
    } else {
        restore_count(actions.drop_last()) + if actions.last().reposition_and_restore {
            1nat
        } else {
            0nat
        }
    }
}

/// How many of the actions hide the buttons.
pub open spec fn hide_count(actions: Seq<DebounceAction>) -> nat
    decreases actions.len(),
{
    if actions.len() == 0 {
        0
    } else {
        hide_count(actions.drop_last()) + if actions.last().hide {
            1nat
        } else {
            0nat
        }
    }
}

/// The time of the latest tick among the events, if any.
pub open spec fn latest_tick(events: Seq<DebounceEvent>) -> Option<u64>
    decreases events.len(),
{
    if events.len() == 0 {
        None
    } else {
        match events.last() {
            DebounceEvent::Tick(t) => Some(t),
            DebounceEvent::Poll(_) => latest_tick(events.drop_last()),
        }
    }
}

/// A burst: it opens with a tick, and every later event comes less than the
/// quiet period after the latest tick before it.
pub open spec fn is_burst(events: Seq<DebounceEvent>) -> bool {
    &&& events.len() > 0
    &&& events[0] is Tick
    &&& forall|i: int|
        #![trigger events[i]]
        0 < i < events.len() ==> latest_tick(events.take(i)) is Some && event_time(events[i])
            < latest_tick(events.take(i))->Some_0 + QUIET_PERIOD_MS
}

/// The waiter before any tick.
pub open spec fn idle() -> Debouncer {
    Debouncer { pending: false, last_tick_ms: 0 }
}

impl Debouncer {
    /// A waiter with no burst in progress.
    pub fn new() -> (r: Debouncer)
        ensures
            r == idle(),
    {
        Debouncer { pending: false, last_tick_ms: 0 }
    }

    /// Takes one event and says what to do to the buttons.
    pub fn handle(&mut self, event: DebounceEvent) -> (r: DebounceAction)
        ensures
            (*final(self), r) == debounce_step(*old(self), event),
    {
        match event {
            DebounceEvent::Tick(now_ms) => {
                let hide = !self.pending;
                self.pending = true;
                self.last_tick_ms = now_ms;
                DebounceAction { hide, reposition_and_restore: false }
            },
            DebounceEvent::Poll(now_ms) => {
                if self.pending && now_ms >= self.last_tick_ms && now_ms - self.last_tick_ms
                    >= QUIET_PERIOD_MS {
                    self.pending = false;
                    DebounceAction { hide: false, reposition_and_restore: true }
                } else {
                    DebounceAction { hide: false, reposition_and_restore: false }
                }
            },
        }
    }
}

proof fn lemma_burst_prefix(events: Seq<DebounceEvent>)
    requires
        is_burst(events),
        events.len() > 1,
    ensures
        is_burst(events.drop_last()),
{
    let prefix = events.drop_last();
    assert(prefix[0] == events[0]);
    assert forall|i: int| #![trigger prefix[i]] 0 < i < prefix.len() implies latest_tick(
        prefix.take(i),
    ) is Some && event_time(prefix[i]) < latest_tick(prefix.take(i))->Some_0 + QUIET_PERIOD_MS by {
        assert(prefix[i] == events[i]);
        assert(prefix.take(i) =~= events.take(i));
    }
}

proof fn lemma_burst_state(events: Seq<DebounceEvent>)
    requires
        is_burst(events),
    ensures
        latest_tick(events) is Some,
        debounce_run(idle(), events) == (Debouncer {
            pending: true,
            last_tick_ms: latest_tick(events)->Some_0,
        }),
        restore_count(debounce_actions(idle(), events)) == 0,
        hide_count(debounce_actions(idle(), events)) == 1,
    decreases events.len(),
{
    let prefix = events.drop_last();
    let n = events.len() as int;
    let acts = debounce_actions(idle(), events);
    assert(acts == debounce_actions(idle(), prefix).push(
        debounce_step(debounce_run(idle(), prefix), events.last()).1,
    ));
    assert(acts.drop_last() =~= debounce_actions(idle(), prefix));
    assert(acts.last() == debounce_step(debounce_run(idle(), prefix), events.last()).1);
    assert(restore_count(acts) == restore_count(debounce_actions(idle(), prefix)) + if acts.last().reposition_and_restore {
        1nat
    } else {
        0nat
    });
    assert(hide_count(acts) == hide_count(debounce_actions(idle(), prefix)) + if acts.last().hide {
        1nat
    } else {
        0nat
    });
    if n == 1 {
        assert(prefix.len() == 0);
        assert(events.last() == events[0]);
    } else {
        lemma_burst_prefix(events);
        lemma_burst_state(prefix);
        let s = debounce_run(idle(), prefix);
        let e = events[n - 1];
        assert(events.take(n - 1) =~= prefix);
        assert(events.last() == e);
        assert(event_time(e) < latest_tick(prefix)->Some_0 + QUIET_PERIOD_MS);
    }
}

/// A burst of ticks, each less than the quiet period after the one before,
/// with any waits between them, followed by a wait that ends at least the
/// quiet period after its latest tick, hides the buttons once and moves and
/// shows them once; the waiter is then idle again.
pub proof fn lemma_burst_restores_once(burst: Seq<DebounceEvent>, quiet_at: u64)
    requires
        is_burst(burst),
        quiet_at >= latest_tick(burst)->Some_0 + QUIET_PERIOD_MS,
    ensures
        restore_count(debounce_actions(idle(), burst.push(DebounceEvent::Poll(quiet_at)))) == 1,
        hide_count(debounce_actions(idle(), burst.push(DebounceEvent::Poll(quiet_at)))) == 1,
        !debounce_run(idle(), burst.push(DebounceEvent::Poll(quiet_at))).pending,
{
    lemma_burst_state(burst);
    let all = burst.push(DebounceEvent::Poll(quiet_at));
    assert(all.drop_last() =~= burst);
    let acts = debounce_actions(idle(), all);
    assert(acts == debounce_actions(idle(), burst).push(
        debounce_step(debounce_run(idle(), burst), all.last()).1,
    ));
    assert(acts.drop_last() =~= debounce_actions(idle(), burst));
}

} // verus!
