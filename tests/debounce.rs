use window_chrome::debounce::DebounceEvent::{Poll, Tick};
use window_chrome::debounce::{DebounceAction, DebounceEvent, Debouncer, QUIET_PERIOD_MS};

fn run(d: &mut Debouncer, events: &[DebounceEvent]) -> (u32, u32) {
    let mut hides = 0;
    let mut restores = 0;
    for e in events {
        let a = d.handle(*e);
        if a.hide {
            hides += 1;
        }
        if a.reposition_and_restore {
            restores += 1;
        }
    }
    (hides, restores)
}

#[test]
fn burst_restores_exactly_once() {
    let mut d = Debouncer::new();
    let mut events = Vec::new();
    let mut t = 1000u64;
    for _ in 0..10 {
        events.push(Tick(t));
        events.push(Poll(t + 40));
        t += 79;
    }
    let last = t - 79;
    events.push(Poll(last + 79));
    events.push(Poll(last + QUIET_PERIOD_MS));
    events.push(Poll(last + 500));
    assert_eq!(run(&mut d, &events), (1, 1));
    assert!(!d.pending);
}

#[test]
fn first_tick_hides_immediately() {
    let mut d = Debouncer::new();
    assert_eq!(d.handle(DebounceEvent::Tick(5)), DebounceAction { hide: true, reposition_and_restore: false });
    assert_eq!(d.handle(DebounceEvent::Tick(6)), DebounceAction { hide: false, reposition_and_restore: false });
}

#[test]
fn separate_bursts_restore_separately() {
    let mut d = Debouncer::new();
    let events = [Tick(0), Tick(50), Poll(130), Tick(200), Poll(279), Poll(280)];
    assert_eq!(run(&mut d, &events), (2, 2));
}

#[test]
fn poll_without_burst_does_nothing() {
    let mut d = Debouncer::new();
    assert_eq!(d.handle(DebounceEvent::Poll(10_000)), DebounceAction { hide: false, reposition_and_restore: false });
}

#[test]
fn poll_before_last_tick_does_not_fire() {
    let mut d = Debouncer::new();
    d.handle(DebounceEvent::Tick(500));
    assert!(!d.handle(DebounceEvent::Poll(100)).reposition_and_restore);
    assert!(d.pending);
}
