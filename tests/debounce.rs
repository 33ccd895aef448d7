use notch_capsule::config::NotchConfig;
use notch_capsule::debounce::DebounceState;
use notch_capsule::geometry::{Point, Rect};

const OPEN: u64 = 250;
const CLOSE: u64 = 150;

fn feed(s: &mut DebounceState, samples: &[(bool, u64)]) -> Vec<(bool, u64)> {
    let mut events = Vec::new();
    for &(inside, t) in samples {
        if let Some(v) = s.observe(inside, t, OPEN, CLOSE) {
            events.push((v, t));
        }
    }
    events
}

#[test]
fn short_excursion_emits_nothing() {
    let mut s = DebounceState::new(0);
    let events = feed(&mut s, &[(true, 0), (false, 30), (false, 100), (false, 400), (false, 2000)]);
    assert!(events.is_empty());
    assert!(!s.inside);
}

#[test]
fn staying_inside_emits_exactly_one_enter_at_the_open_delay() {
    let mut s = DebounceState::new(0);
    let events = feed(&mut s, &[(true, 0), (true, 250), (true, 300), (true, 1000)]);
    assert_eq!(events, vec![(true, 250)]);
    assert!(s.inside);
    assert_eq!(s.last_transition, 250);
}

#[test]
fn unconfirmed_flip_restarts_the_wait() {
    let mut s = DebounceState::new(0);
    assert_eq!(s.observe(true, 200, OPEN, CLOSE), None);
    assert_eq!(s.last_transition, 200);
    assert_eq!(s.observe(true, 449, OPEN, CLOSE), None);
    assert_eq!(s.last_transition, 449);
    assert_eq!(s.observe(true, 699, OPEN, CLOSE), Some(true));
}

#[test]
fn agreeing_sample_changes_nothing() {
    let mut s = DebounceState::new(10);
    assert_eq!(s.observe(false, 5000, OPEN, CLOSE), None);
    assert_eq!(s, DebounceState { inside: false, last_transition: 10 });
}

#[test]
fn leaving_uses_the_close_delay() {
    let mut s = DebounceState { inside: true, last_transition: 1000 };
    assert_eq!(s.observe(false, 1149, OPEN, CLOSE), None);
    assert_eq!(s.observe(false, 1299, OPEN, CLOSE), Some(false));
    assert!(!s.inside);
}

#[test]
fn clock_going_back_counts_as_no_time() {
    let mut s = DebounceState { inside: false, last_transition: 1000 };
    assert_eq!(s.observe(true, 10, OPEN, CLOSE), None);
    assert_eq!(s.last_transition, 10);
    let mut z = DebounceState { inside: false, last_transition: 1000 };
    assert_eq!(z.observe(true, 10, 0, 0), Some(true));
}

#[test]
fn events_alternate_and_wait_their_delays() {
    let mut s = DebounceState::new(0);
    let mut samples = Vec::new();
    let pattern = [true, true, false, true, false, false, false, true, true, true, true, false, false, false];
    let mut t = 0u64;
    for i in 0..60 {
        samples.push((pattern[i % pattern.len()], t));
        t += 40 + (i as u64 * 37) % 300;
    }
    let events = feed(&mut s, &samples);
    assert!(!events.is_empty());
    assert!(events[0].0);
    let mut prev = 0u64;
    for (i, &(v, at)) in events.iter().enumerate() {
        if i > 0 {
            assert_ne!(v, events[i - 1].0);
        }
        let delay = if v { OPEN } else { CLOSE };
        assert!(at - prev >= delay);
        prev = at;
    }
}

#[test]
fn pointer_samples_go_through_zone_and_config_delays() {
    let cfg = NotchConfig::default();
    let displays = vec![Rect { x: 0, y: 0, width: 1_512_000, height: 982_000 }];
    let mut s = DebounceState::new(0);
    let inside = Point { x: 756_000, y: 970_000 };
    let outside = Point { x: 756_000, y: 100_000 };
    assert_eq!(s.handle_pointer(inside, false, &displays, &cfg.hover, 0), None);
    assert_eq!(s.handle_pointer(inside, false, &displays, &cfg.hover, 250), Some(true));
    assert_eq!(s.handle_pointer(outside, true, &displays, &cfg.hover, 300), None);
    assert_eq!(s.handle_pointer(outside, true, &displays, &cfg.hover, 450), Some(false));
}
