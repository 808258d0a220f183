//! Turns repeated presence samples into a stable on/off state.
//!
//! A sample only produces a transition when it differs from the state held so
//! far, so a remote endpoint hears of each change once, however often the
//! process table is polled.

use vstd::prelude::*;

verus! {

/// Whether the watched program is currently taken to be running.
#[derive(Clone, Copy, Debug, PartialEq, Eq, Structural)]
pub enum PresenceState {
    Off,
    On,
}

impl PresenceState {
    /// The state that a sample stands for.
    pub open spec fn of(sampled: bool) -> PresenceState {
        if sampled {
            PresenceState::On
        } else {
            PresenceState::Off
        }
    }

    /// `true` exactly for `On`.
    pub open spec fn on(self) -> bool {
        self == PresenceState::On
    }

    /// The state that a sample stands for: `On` for `true`, `Off` for `false`.
    pub fn from_sample(sampled: bool) -> (state: PresenceState)
        ensures
            state == PresenceState::of(sampled),
    {
        if sampled {
            PresenceState::On
        } else {
            PresenceState::Off
        }
    }

    /// `true` exactly for `On`.
    pub fn is_on(self) -> (flag: bool)
        ensures
            flag == self.on(),
    {
        match self {
            PresenceState::On => true,
            PresenceState::Off => false,
        }
    }
}

/// The signal produced when presence changes: the program appeared
/// (`turned_on`) or went away.
#[derive(Clone, Copy, Debug, PartialEq, Eq, Structural)]
pub struct TransitionEvent {
    pub turned_on: bool,
}

/// The state after a sample, and whether the sample changed it.
pub open spec fn next_spec(state: PresenceState, sampled: bool) -> (PresenceState, bool) {
    if sampled == state.on() {
        (state, false)
    } else {
        (PresenceState::of(sampled), true)
    }
}

/// Feeds one sample to the debouncer.
///
/// Returns the state after the sample and whether a transition is to be
/// announced. A sample that agrees with `state` changes nothing.
pub fn next(state: PresenceState, sampled: bool) -> (result: (PresenceState, bool))
    ensures
        result == next_spec(state, sampled),
{
    if sampled == state.is_on() {
        (state, false)
    } else {
        (PresenceState::from_sample(sampled), true)
    }
}

/// The state after a series of samples, fed one by one from `state`.
pub open spec fn settle(state: PresenceState, samples: Seq<bool>) -> PresenceState
    decreases samples.len(),
{
    if samples.len() == 0 {
        state
    } else {
        next_spec(settle(state, samples.drop_last()), samples.last()).0
    }
}

/// For each sample of a series fed from `state`, whether it was announced.
pub open spec fn emits(state: PresenceState, samples: Seq<bool>) -> Seq<bool>
    decreases samples.len(),
{
    if samples.len() == 0 {
        Seq::empty()
    } else {
        emits(state, samples.drop_last()).push(
            next_spec(settle(state, samples.drop_last()), samples.last()).1,
        )
    }
}

/// How many of the flags are set.
pub open spec fn count(flags: Seq<bool>) -> nat
    decreases flags.len(),
{
    if flags.len() == 0 {
        0
    } else {
        count(flags.drop_last()) + if flags.last() {
            1nat
        } else {
            0nat
        }
    }
}

/// The value that stands before position `i` of a series that follows on
/// `previous`.
pub open spec fn before(previous: bool, samples: Seq<bool>, i: int) -> bool {
    if i == 0 {
        previous
    } else {
        samples[i - 1]
    }
}

/// How often the value changes along a series that follows on `previous`:
/// the number of samples that differ from the value before them.
pub open spec fn changes(previous: bool, samples: Seq<bool>) -> nat
    decreases samples.len(),
{
    if samples.len() == 0 {
        0
    } else {
        changes(previous, samples.drop_last()) + if samples.last() != before(
            previous,
            samples,
            samples.len() - 1,
        ) {
            1nat
        } else {
            0nat
        }
    }
}

/// After any sample the state says what the sample said.
pub proof fn lemma_state_follows_sample(state: PresenceState, sampled: bool)
    ensures
        next_spec(state, sampled).0.on() == sampled,
        next_spec(state, sampled).1 == (sampled != state.on()),
{
}

/// After a series of samples the state says what the last sample said, and
/// stays as it was where there was none.
pub proof fn lemma_settle_follows_last(state: PresenceState, samples: Seq<bool>)
    ensures
        settle(state, samples).on() == before(state.on(), samples, samples.len() as int),
{
}

/// Every sample gets its flag.
pub proof fn lemma_emits_length(state: PresenceState, samples: Seq<bool>)
    ensures
        emits(state, samples).len() == samples.len(),
    decreases samples.len(),
{
    if samples.len() > 0 {
        lemma_emits_length(state, samples.drop_last());
    }
}

/// A sample is announced exactly when it differs from the value before it,
/// the first one from the state that the series started in.
pub proof fn lemma_emit_marks_change(state: PresenceState, samples: Seq<bool>, i: int)
    requires
        0 <= i < samples.len(),
    ensures
        emits(state, samples).len() == samples.len(),
        emits(state, samples)[i] == (samples[i] != before(state.on(), samples, i)),
    decreases samples.len(),
{
    let front = samples.drop_last();
    lemma_emits_length(state, samples);
    if i == samples.len() - 1 {
        lemma_emits_length(state, front);
        lemma_settle_follows_last(state, front);
    } else {
        lemma_emit_marks_change(state, front, i);
    }
}

/// Feeding the same sample a second time announces nothing and changes
/// nothing.
pub proof fn lemma_repeated_sample_is_silent(state: PresenceState, sampled: bool)
    ensures
        next_spec(next_spec(state, sampled).0, sampled) == (next_spec(state, sampled).0, false),
{
}

/// In a series that repeats one value, no sample after the first is
/// announced, and the first one only if it differs from the starting state.
pub proof fn lemma_constant_series_emits_at_most_once(
    state: PresenceState,
    samples: Seq<bool>,
    sampled: bool,
)
    requires
        forall|i: int| 0 <= i < samples.len() ==> samples[i] == sampled,
    ensures
        emits(state, samples).len() == samples.len(),
        forall|i: int| 1 <= i < samples.len() ==> !emits(state, samples)[i],
        samples.len() > 0 ==> emits(state, samples)[0] == (sampled != state.on()),
        count(emits(state, samples)) <= 1,
        count(emits(state, samples)) == if samples.len() > 0 && sampled != state.on() {
            1nat
        } else {
            0nat
        },
    decreases samples.len(),
{
    lemma_emits_length(state, samples);
    assert forall|i: int| 0 <= i < samples.len() implies emits(state, samples)[i] == (i == 0
        && sampled != state.on()) by {
        lemma_emit_marks_change(state, samples, i);
    }
    if samples.len() > 0 {
        let front = samples.drop_last();
        lemma_constant_series_emits_at_most_once(state, front, sampled);
        assert(emits(state, samples).drop_last() =~= emits(state, front));
    }
}

/// Over any series of samples, the number of announcements equals the number
/// of changes of value along the series, whatever its length.
pub proof fn lemma_emits_count_changes(state: PresenceState, samples: Seq<bool>)
    ensures
        count(emits(state, samples)) == changes(state.on(), samples),
    decreases samples.len(),
{
    if samples.len() > 0 {
        let front = samples.drop_last();
        lemma_emits_count_changes(state, front);
        lemma_settle_follows_last(state, front);
        assert(emits(state, samples).drop_last() =~= emits(state, front));
        assert(before(state.on(), front, front.len() as int) == before(
            state.on(),
            samples,
            samples.len() - 1,
        ));
    }
}

/// Whether each sample but the first differs from the one before it.
pub open spec fn alternates(samples: Seq<bool>) -> bool {
    forall|i: int|
        1 <= i < samples.len() ==> samples[i] != #[trigger] before(samples[0], samples, i)
}

/// In a series that alternates, every sample is a change but possibly the
/// first: the announcements number one less than the samples where the
/// series opens with the value that the state already had, and as many as
/// the samples otherwise.
pub proof fn lemma_alternating_series_emits_each_change(
    state: PresenceState,
    samples: Seq<bool>,
)
    requires
        alternates(samples),
    ensures
        count(emits(state, samples)) == changes(state.on(), samples),
        changes(state.on(), samples) == if samples.len() > 0 && samples[0] == state.on() {
            samples.len() - 1
        } else {
            samples.len() as int
        },
    decreases samples.len(),
{
    lemma_emits_count_changes(state, samples);
    if samples.len() > 0 {
        let front = samples.drop_last();
        assert forall|i: int| 1 <= i < front.len() implies front[i] != #[trigger] before(
            front[0],
            front,
            i,
        ) by {
            assert(samples[i] != before(samples[0], samples, i));
        }
        lemma_alternating_series_emits_each_change(state, front);
        if samples.len() > 1 {
            assert(samples.last() != before(samples[0], samples, samples.len() - 1));
        }
    }
}

} // verus!
