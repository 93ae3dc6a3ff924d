use duckboard::debounce::{EdgeEvent, KeyState, DEBOUNCE_MASK, DEBOUNCE_WIDTH};

fn feed(key: &mut KeyState, samples: &[bool]) -> Vec<EdgeEvent> {
    samples.iter().map(|&raw| key.observe(raw)).collect()
}

#[test]
fn press_fires_on_fourth_consecutive_one_and_not_before() {
    let mut key = KeyState::new();
    let events = feed(&mut key, &[true, true, true, true]);
    assert_eq!(
        events,
        vec![
            EdgeEvent::NoEdge,
            EdgeEvent::NoEdge,
            EdgeEvent::NoEdge,
            EdgeEvent::PressedEdge
        ]
    );
    assert!(key.stable);
}

#[test]
fn long_run_of_ones_fires_exactly_once() {
    let mut key = KeyState::new();
    let events = feed(&mut key, &[true; 12]);
    let presses = events
        .iter()
        .filter(|&&e| e == EdgeEvent::PressedEdge)
        .count();
    assert_eq!(presses, 1);
    assert_eq!(events[3], EdgeEvent::PressedEdge);
    assert!(events[..3].iter().all(|&e| e == EdgeEvent::NoEdge));
    assert!(events[4..].iter().all(|&e| e == EdgeEvent::NoEdge));
}

#[test]
fn spurious_zero_resets_the_consecutive_count() {
    // Two ones, a bounce, then ones again: the press may only fire once four
    // fresh ones have accumulated after the bounce.
    let mut key = KeyState::new();
    let events = feed(&mut key, &[true, true, false, true, true, true, true]);
    assert_eq!(events[..6], vec![EdgeEvent::NoEdge; 6][..]);
    assert_eq!(events[6], EdgeEvent::PressedEdge);
}

#[test]
fn bounce_with_too_few_ones_after_it_fires_nothing() {
    let mut key = KeyState::new();
    let events = feed(&mut key, &[true, true, true, false, true, true, true]);
    assert!(events.iter().all(|&e| e == EdgeEvent::NoEdge));
    assert!(!key.stable);
}

#[test]
fn held_key_reports_no_further_edges() {
    let mut key = KeyState::new();
    feed(&mut key, &[true, true, true, true]);
    assert!(key.stable);
    let events = feed(&mut key, &[true; 20]);
    assert!(events.iter().all(|&e| e == EdgeEvent::NoEdge));
    assert!(key.stable);
}

#[test]
fn released_key_reports_no_further_edges() {
    let mut key = KeyState::new();
    let events = feed(&mut key, &[false; 20]);
    assert!(events.iter().all(|&e| e == EdgeEvent::NoEdge));
    assert!(!key.stable);
}

#[test]
fn release_fires_on_fourth_consecutive_zero() {
    let mut key = KeyState::new();
    feed(&mut key, &[true, true, true, true]);
    let events = feed(&mut key, &[false, false, false, false]);
    assert_eq!(
        events,
        vec![
            EdgeEvent::NoEdge,
            EdgeEvent::NoEdge,
            EdgeEvent::NoEdge,
            EdgeEvent::ReleasedEdge
        ]
    );
    assert!(!key.stable);
}

#[test]
fn short_zero_run_does_not_release_a_pressed_key() {
    let mut key = KeyState::new();
    feed(&mut key, &[true, true, true, true]);
    let events = feed(&mut key, &[false, false, false, true]);
    assert!(events.iter().all(|&e| e == EdgeEvent::NoEdge));
    assert!(key.stable);
}

#[test]
fn debounce_constants_are_consistent() {
    assert_eq!(DEBOUNCE_WIDTH, 4);
    assert_eq!(DEBOUNCE_MASK, (1u32 << DEBOUNCE_WIDTH) - 1);
}

#[test]
fn new_key_starts_released_with_empty_history() {
    let key = KeyState::new();
    assert_eq!(key.history, 0);
    assert!(!key.stable);
}
