use process_watch::debouncer::{next, PresenceState, TransitionEvent};

fn feed(start: PresenceState, samples: &[bool]) -> (PresenceState, Vec<bool>) {
    let mut state = start;
    let mut emits = Vec::new();
    for &sampled in samples {
        let (after, emit) = next(state, sampled);
        state = after;
        emits.push(emit);
    }
    (state, emits)
}

fn value_changes(previous: bool, samples: &[bool]) -> usize {
    let mut before = previous;
    let mut changes = 0;
    for &sampled in samples {
        if sampled != before {
            changes += 1;
        }
        before = sampled;
    }
    changes
}

#[test]
fn next_covers_all_four_cases() {
    assert_eq!(next(PresenceState::Off, false), (PresenceState::Off, false));
    assert_eq!(next(PresenceState::Off, true), (PresenceState::On, true));
    assert_eq!(next(PresenceState::On, true), (PresenceState::On, false));
    assert_eq!(next(PresenceState::On, false), (PresenceState::Off, true));
}

#[test]
fn state_and_sample_conversions() {
    assert_eq!(PresenceState::from_sample(true), PresenceState::On);
    assert_eq!(PresenceState::from_sample(false), PresenceState::Off);
    assert!(PresenceState::On.is_on());
    assert!(!PresenceState::Off.is_on());
    assert_ne!(TransitionEvent { turned_on: true }, TransitionEvent { turned_on: false });
}

#[test]
fn repeated_sample_emits_only_once() {
    for start in [PresenceState::Off, PresenceState::On] {
        for sampled in [false, true] {
            let (state, emits) = feed(start, &[sampled; 6]);
            assert_eq!(state, PresenceState::from_sample(sampled));
            assert_eq!(emits[0], sampled != start.is_on());
            assert!(emits[1..].iter().all(|emit| !emit));
        }
    }
}

#[test]
fn emits_equal_value_changes() {
    let series: [&[bool]; 5] = [
        &[],
        &[true, false, true, false, true],
        &[false, false, true, true, false],
        &[true, true, true],
        &[false, true, true, false, false, true, false],
    ];
    for samples in series {
        for start in [PresenceState::Off, PresenceState::On] {
            let (_, emits) = feed(start, samples);
            let emitted = emits.iter().filter(|emit| **emit).count();
            assert_eq!(emitted, value_changes(start.is_on(), samples));
        }
    }
    let (_, emits) = feed(PresenceState::Off, &[true, false, true, false, true]);
    assert_eq!(emits, vec![true, true, true, true, true]);
    let (_, emits) = feed(PresenceState::Off, &[false, false, true, true, false]);
    assert_eq!(emits, vec![false, false, true, false, true]);
}
