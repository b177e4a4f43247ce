use alchemist::encoder::{EncoderState, Event};
use alchemist::keyprobe;

fn cw_cycle(s: &mut EncoderState, a0: bool, b0: bool) -> Vec<Option<Event>> {
    // One full clockwise Gray cycle from (a0, b0).
    let steps = [(false, true), (true, true), (true, false), (false, false)];
    let mut i = steps.iter().position(|&p| p == cw_next(a0, b0)).unwrap();
    let mut out = Vec::new();
    for _ in 0..4 {
        let (a, b) = steps[i];
        out.push(s.step(a, b));
        i = (i + 1) % 4;
    }
    out
}

fn cw_next(a: bool, b: bool) -> (bool, bool) {
    if !a && !b {
        (false, true)
    } else if !a && b {
        (true, true)
    } else if a && b {
        (true, false)
    } else {
        (false, false)
    }
}

#[test]
fn one_detent_per_four_cw_transitions() {
    let mut s = EncoderState::new(false, false);
    let events = cw_cycle(&mut s, false, false);
    assert_eq!(events, vec![None, None, None, Some(Event::Cw)]);
    // A second full cycle gives exactly one more detent.
    let events = cw_cycle(&mut s, false, false);
    assert_eq!(events, vec![None, None, None, Some(Event::Cw)]);
}

#[test]
fn one_detent_per_four_ccw_transitions() {
    let mut s = EncoderState::new(false, false);
    // Counter-clockwise Gray sequence from (false, false).
    let steps = [(true, false), (true, true), (false, true), (false, false)];
    let mut events = Vec::new();
    for (a, b) in steps {
        events.push(s.step(a, b));
    }
    assert_eq!(events, vec![None, None, None, Some(Event::Ccw)]);
}

#[test]
fn invalid_transition_is_ignored() {
    let mut s = EncoderState::new(false, false);
    // Both pins flipping at once is not a Gray step.
    assert_eq!(s.step(true, true), None);
    // The decoder state is untouched: a clean clockwise cycle from the old
    // levels still yields exactly one detent.
    let events = cw_cycle(&mut s, false, false);
    assert_eq!(events, vec![None, None, None, Some(Event::Cw)]);
}

#[test]
fn direction_reversal_snaps_accumulator() {
    let mut s = EncoderState::new(false, false);
    // Two clockwise steps...
    assert_eq!(s.step(false, true), None);
    assert_eq!(s.step(true, true), None);
    // ...then four counter-clockwise steps: the reversal resets the
    // accumulator, so the detent comes after a full reverse cycle.
    assert_eq!(s.step(false, true), None);
    assert_eq!(s.step(false, false), None);
    assert_eq!(s.step(true, false), None);
    assert_eq!(s.step(true, true), Some(Event::Ccw));
}

#[test]
fn debounce_press_needs_seven_highs() {
    let mut counters = [0u8; 30];
    for i in 0..7 {
        let ev = keyprobe::probe_sample(&mut counters, 2, 3, true);
        if i < 6 {
            assert!(ev.is_none());
        } else {
            assert!(matches!(ev, Some(keyprobe::Event::Down(2, 3))));
        }
    }
    // Saturated: further highs report nothing.
    assert!(keyprobe::probe_sample(&mut counters, 2, 3, true).is_none());
    for i in 0..7 {
        let ev = keyprobe::probe_sample(&mut counters, 2, 3, false);
        if i < 6 {
            assert!(ev.is_none());
        } else {
            assert!(matches!(ev, Some(keyprobe::Event::Up(2, 3))));
        }
    }
}

#[test]
fn short_burst_reports_no_press() {
    let mut counters = [0u8; 30];
    for _ in 0..6 {
        let ev = keyprobe::probe_sample(&mut counters, 0, 0, true);
        assert!(!matches!(ev, Some(keyprobe::Event::Down(_, _))));
    }
    for _ in 0..10 {
        let ev = keyprobe::probe_sample(&mut counters, 0, 0, false);
        assert!(!matches!(ev, Some(keyprobe::Event::Down(_, _))));
    }
}

#[test]
fn cells_debounce_independently() {
    let mut counters = [0u8; 30];
    for _ in 0..7 {
        keyprobe::probe_sample(&mut counters, 0, 0, true);
    }
    // A different cell is still at zero: no release edge from its first low.
    assert!(keyprobe::probe_sample(&mut counters, 5, 4, false).is_none());
    assert!(keyprobe::probe_sample(&mut counters, 5, 4, true).is_none());
}
