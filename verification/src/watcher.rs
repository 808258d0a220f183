//! The watch loop as a state machine.
//!
//! A [`Watcher`] never touches the outside world. It names the next thing to
//! do as an [`Action`]; the caller does it and reports back with an
//! [`Event`]. One watch cycle takes a snapshot, debounces it, announces a
//! transition if there was one, and sleeps for the poll interval. A failed
//! announcement ends the cycle: after a fixed cooldown a new cycle begins
//! with no memory of the old one.

use crate::config::{Config, ConfigView};
use crate::debouncer::{next, next_spec, PresenceState, TransitionEvent};
use crate::matcher::{any_satisfies, snapshot, ProcessInfo, ProcessInfoView};
use crate::notifier::{get_address, target};
use vstd::prelude::*;

verus! {

/// Seconds to wait after a failed notification before a new cycle begins.
pub const COOLDOWN_SECONDS: u64 = 60;

/// What a watcher is waiting for.
#[derive(Clone, Copy, Debug, PartialEq, Eq, Structural)]
pub enum Phase {
    /// The startup announcement is on its way.
    Announcing,
    /// A snapshot of the process table is due.
    Sampling,
    /// The announcement of a transition is on its way.
    Notifying,
    /// The poll interval is running.
    Sleeping,
    /// The cooldown after a failed announcement is running.
    CoolingDown,
}

/// What the caller reports back after carrying out an [`Action`].
#[derive(Debug)]
pub enum Event {
    /// The processes that were running when [`Action::Sample`] was carried out.
    Snapshot(Vec<ProcessInfo>),
    /// The request of [`Action::Notify`] got a response, whatever its status.
    Delivered,
    /// The request of [`Action::Notify`] failed in transport.
    TransportFailed,
    /// The time of [`Action::Sleep`] has passed.
    Woke,
}

/// An [`Event`] as plain values.
pub enum EventView {
    Snapshot(Seq<ProcessInfoView>),
    Delivered,
    TransportFailed,
    Woke,
}

impl View for Event {
    type V = EventView;

    open spec fn view(&self) -> EventView {
        match self {
            Event::Snapshot(processes) => EventView::Snapshot(snapshot(processes@)),
            Event::Delivered => EventView::Delivered,
            Event::TransportFailed => EventView::TransportFailed,
            Event::Woke => EventView::Woke,
        }
    }
}

/// What the caller is to do next.
#[derive(Debug, PartialEq, Eq)]
pub enum Action {
    /// List the running processes and report [`Event::Snapshot`].
    Sample,
    /// Send a GET request to `url`, which tells of `transition`, and report
    /// [`Event::Delivered`] or [`Event::TransportFailed`].
    Notify { url: String, transition: TransitionEvent },
    /// Wait for `seconds` and report [`Event::Woke`].
    Sleep { seconds: u64 },
}

/// An [`Action`] as plain values.
pub enum ActionView {
    Sample,
    Notify { url: Seq<char>, transition: TransitionEvent },
    Sleep { seconds: u64 },
}

impl View for Action {
    type V = ActionView;

    open spec fn view(&self) -> ActionView {
        match self {
            Action::Sample => ActionView::Sample,
            Action::Notify { url, transition } => ActionView::Notify {
                url: url@,
                transition: *transition,
            },
            Action::Sleep { seconds } => ActionView::Sleep { seconds: *seconds },
        }
    }
}

/// The state of a watcher as plain values.
pub struct WatcherView {
    pub config: ConfigView,
    pub presence: PresenceState,
    pub phase: Phase,
}

impl WatcherView {
    /// What holds of every state that a watcher can be in: while the startup
    /// announcement is out or a cooldown runs, nothing is known of the
    /// program, and the startup announcement is only made where it was asked
    /// for.
    pub open spec fn well_formed(self) -> bool {
        &&& self.phase is Announcing ==> self.presence is Off && self.config.notify_on_start
        &&& self.phase is CoolingDown ==> self.presence is Off
    }
}

/// The state in which every watch cycle begins: the program is taken to be
/// absent, and the first thing to do is the startup announcement where the
/// configuration asks for one, a snapshot otherwise.
pub open spec fn begin(config: ConfigView) -> WatcherView {
    WatcherView {
        config,
        presence: PresenceState::Off,
        phase: if config.notify_on_start {
            Phase::Announcing
        } else {
            Phase::Sampling
        },
    }
}

/// The action that a watcher in state `w` is waiting on.
pub open spec fn pending(w: WatcherView) -> ActionView {
    match w.phase {
        Phase::Announcing => ActionView::Notify {
            url: target(w.config.remote, false),
            transition: TransitionEvent { turned_on: false },
        },
        Phase::Sampling => ActionView::Sample,
        Phase::Notifying => ActionView::Notify {
            url: target(w.config.remote, w.presence.on()),
            transition: TransitionEvent { turned_on: w.presence.on() },
        },
        Phase::Sleeping => ActionView::Sleep { seconds: w.config.poll_interval_seconds },
        Phase::CoolingDown => ActionView::Sleep { seconds: COOLDOWN_SECONDS },
    }
}

/// Whether `event` is a report on the action that `w` is waiting on.
pub open spec fn answers(w: WatcherView, event: EventView) -> bool {
    match w.phase {
        Phase::Sampling => event is Snapshot,
        Phase::Announcing | Phase::Notifying => event is Delivered || event is TransportFailed,
        Phase::Sleeping | Phase::CoolingDown => event is Woke,
    }
}

/// The state after `event`.
///
/// - A snapshot is matched and debounced; a transition leads to its
///   announcement, anything else to the poll sleep.
/// - A delivered announcement leads to the poll sleep, the startup one
///   straight to the first snapshot.
/// - A failed announcement forgets the presence and leads to the cooldown.
/// - Waking from the poll sleep leads to the next snapshot, waking from the
///   cooldown to a fresh cycle.
/// - An event that does not answer the pending action changes nothing.
pub open spec fn step_spec(w: WatcherView, event: EventView) -> WatcherView {
    match (w.phase, event) {
        (Phase::Sampling, EventView::Snapshot(processes)) => {
            let (presence, emit) = next_spec(w.presence, any_satisfies(processes, w.config.process));
            WatcherView {
                config: w.config,
                presence,
                phase: if emit {
                    Phase::Notifying
                } else {
                    Phase::Sleeping
                },
            }
        },
        (Phase::Announcing, EventView::Delivered) => WatcherView { phase: Phase::Sampling, ..w },
        (Phase::Notifying, EventView::Delivered) => WatcherView { phase: Phase::Sleeping, ..w },
        (Phase::Announcing, EventView::TransportFailed)
        | (Phase::Notifying, EventView::TransportFailed) => WatcherView {
            config: w.config,
            presence: PresenceState::Off,
            phase: Phase::CoolingDown,
        },
        (Phase::Sleeping, EventView::Woke) => WatcherView { phase: Phase::Sampling, ..w },
        (Phase::CoolingDown, EventView::Woke) => begin(w.config),
        _ => w,
    }
}

/// The state after a series of events, taken in one by one from `w`.
pub open spec fn run(w: WatcherView, events: Seq<EventView>) -> WatcherView
    decreases events.len(),
{
    if events.len() == 0 {
        w
    } else {
        step_spec(run(w, events.drop_last()), events.last())
    }
}

/// Whether `event` reports to `w` that an announcement failed.
pub open spec fn fails(w: WatcherView, event: EventView) -> bool {
    (w.phase is Announcing || w.phase is Notifying) && event is TransportFailed
}

/// Whether `event` makes `w` begin a new cycle.
pub open spec fn restarts(w: WatcherView, event: EventView) -> bool {
    w.phase is CoolingDown && event is Woke
}

/// How many announcements failed along a series of events taken in from `w`.
pub open spec fn failure_count(w: WatcherView, events: Seq<EventView>) -> nat
    decreases events.len(),
{
    if events.len() == 0 {
        0
    } else {
        failure_count(w, events.drop_last()) + if fails(
            run(w, events.drop_last()),
            events.last(),
        ) {
            1nat
        } else {
            0nat
        }
    }
}

/// How many new cycles began along a series of events taken in from `w`.
pub open spec fn restart_count(w: WatcherView, events: Seq<EventView>) -> nat
    decreases events.len(),
{
    if events.len() == 0 {
        0
    } else {
        restart_count(w, events.drop_last()) + if restarts(
            run(w, events.drop_last()),
            events.last(),
        ) {
            1nat
        } else {
            0nat
        }
    }
}

/// One while a cooldown runs, that is, while a failure still waits for its
/// restart; zero otherwise.
pub open spec fn owed_restarts(w: WatcherView) -> nat {
    if w.phase is CoolingDown {
        1
    } else {
        0
    }
}

/// Every cycle begins in a well-formed state, with the program taken to be
/// absent.
pub proof fn lemma_begin_is_well_formed(config: ConfigView)
    ensures
        begin(config).well_formed(),
        begin(config).presence is Off,
        begin(config).config == config,
{
}

/// No event leads out of the well-formed states, and none changes the
/// configuration.
pub proof fn lemma_step_keeps_well_formed(w: WatcherView, event: EventView)
    requires
        w.well_formed(),
    ensures
        step_spec(w, event).well_formed(),
        step_spec(w, event).config == w.config,
{
}

/// An event that does not answer the pending action changes nothing.
pub proof fn lemma_stray_event_is_ignored(w: WatcherView, event: EventView)
    requires
        !answers(w, event),
    ensures
        step_spec(w, event) == w,
{
}

/// A notification is only ever asked for at the start of a cycle that
/// announces itself, or for a snapshot that changed the debounced presence;
/// it then tells the new presence, at the URL for it.
pub proof fn lemma_notification_follows_transition(w: WatcherView, event: EventView)
    requires
        w.well_formed(),
        answers(w, event),
        step_spec(w, event).phase is Notifying || step_spec(w, event).phase is Announcing,
    ensures
        step_spec(w, event).phase is Announcing ==> restarts(w, event) && w.config.notify_on_start,
        step_spec(w, event).phase is Notifying ==> {
            &&& w.phase is Sampling
            &&& event matches EventView::Snapshot(processes)
            &&& any_satisfies(processes, w.config.process) != w.presence.on()
            &&& step_spec(w, event).presence.on() == any_satisfies(processes, w.config.process)
        },
        pending(step_spec(w, event)) == (ActionView::Notify {
            url: target(w.config.remote, step_spec(w, event).presence.on()),
            transition: TransitionEvent { turned_on: step_spec(w, event).presence.on() },
        }),
{
}

/// A failed announcement ends the cycle: the watcher asks for the cooldown,
/// ignores everything until it has passed, and then stands where a new
/// watcher under the same configuration stands, with the program taken to be
/// absent.
pub proof fn lemma_failure_restarts_cycle(w: WatcherView)
    requires
        w.phase is Announcing || w.phase is Notifying,
    ensures
        step_spec(w, EventView::TransportFailed).phase is CoolingDown,
        pending(step_spec(w, EventView::TransportFailed)) == (ActionView::Sleep {
            seconds: COOLDOWN_SECONDS,
        }),
        forall|event: EventView|
            !(event is Woke) ==> #[trigger] step_spec(
                step_spec(w, EventView::TransportFailed),
                event,
            ) == step_spec(w, EventView::TransportFailed),
        step_spec(step_spec(w, EventView::TransportFailed), EventView::Woke) == begin(w.config),
        begin(w.config).presence is Off,
{
}

/// Along any series of events, every failed announcement is followed by
/// exactly one restart: the failures so far are the restarts so far, plus
/// the one restart still owed while a cooldown runs.
pub proof fn lemma_one_restart_per_failure(w: WatcherView, events: Seq<EventView>)
    ensures
        failure_count(w, events) + owed_restarts(w) == restart_count(w, events) + owed_restarts(
            run(w, events),
        ),
    decreases events.len(),
{
    if events.len() > 0 {
        lemma_one_restart_per_failure(w, events.drop_last());
    }
}

/// Along any series of events taken in by a new watcher, there are as many
/// restarts as failures, or one less while the last failure's cooldown runs.
pub proof fn lemma_restarts_match_failures(config: ConfigView, events: Seq<EventView>)
    ensures
        restart_count(begin(config), events) <= failure_count(begin(config), events),
        failure_count(begin(config), events) <= restart_count(begin(config), events) + 1,
        !(run(begin(config), events).phase is CoolingDown) ==> restart_count(
            begin(config),
            events,
        ) == failure_count(begin(config), events),
        run(begin(config), events).well_formed(),
        run(begin(config), events).config == config,
{
    lemma_one_restart_per_failure(begin(config), events);
    lemma_run_keeps_well_formed(begin(config), events);
}

/// No series of events leads out of the well-formed states, and none changes
/// the configuration.
pub proof fn lemma_run_keeps_well_formed(w: WatcherView, events: Seq<EventView>)
    requires
        w.well_formed(),
    ensures
        run(w, events).well_formed(),
        run(w, events).config == w.config,
    decreases events.len(),
{
    if events.len() > 0 {
        lemma_run_keeps_well_formed(w, events.drop_last());
        lemma_step_keeps_well_formed(run(w, events.drop_last()), events.last());
    }
}

/// Drives one watch over the process table: holds the configuration and the
/// debounced presence, and knows what it is waiting for.
#[derive(Debug)]
pub struct Watcher {
    config: Config,
    presence: PresenceState,
    phase: Phase,
}

impl View for Watcher {
    type V = WatcherView;

    closed spec fn view(&self) -> WatcherView {
        WatcherView { config: self.config@, presence: self.presence, phase: self.phase }
    }
}

impl Watcher {
    #[verifier::type_invariant]
    spec fn consistent(self) -> bool {
        self@.well_formed()
    }

    /// A watcher at the beginning of its first cycle.
    pub fn new(config: Config) -> (watcher: Watcher)
        ensures
            watcher@ == begin(config@),
    {
        let phase = if config.notify_on_start {
            Phase::Announcing
        } else {
            Phase::Sampling
        };
        Watcher { config, presence: PresenceState::Off, phase }
    }

    /// The configuration that the watcher runs under.
    pub fn config(&self) -> (config: &Config)
        ensures
            config@ == self@.config,
    {
        &self.config
    }

    /// The debounced presence of the watched program.
    pub fn presence(&self) -> (presence: PresenceState)
        ensures
            presence == self@.presence,
            self@.well_formed(),
    {
        proof {
            use_type_invariant(self);
        }
        self.presence
    }

    /// What the watcher is waiting for.
    pub fn phase(&self) -> (phase: Phase)
        ensures
            phase == self@.phase,
            self@.well_formed(),
    {
        proof {
            use_type_invariant(self);
        }
        self.phase
    }

    /// The action that the watcher is waiting on. Asking again gives the same
    /// action; only [`Watcher::step`] moves on.
    pub fn pending_action(&self) -> (action: Action)
        ensures
            action@ == pending(self@),
    {
        match self.phase {
            Phase::Announcing => Action::Notify {
                url: get_address(&self.config, false),
                transition: TransitionEvent { turned_on: false },
            },
            Phase::Sampling => Action::Sample,
            Phase::Notifying => {
                let turned_on = self.presence.is_on();
                Action::Notify {
                    url: get_address(&self.config, turned_on),
                    transition: TransitionEvent { turned_on },
                }
            },
            Phase::Sleeping => Action::Sleep { seconds: self.config.poll_interval_seconds },
            Phase::CoolingDown => Action::Sleep { seconds: COOLDOWN_SECONDS },
        }
    }

    /// Takes in the report on the pending action and returns the action to
    /// carry out next.
    ///
    /// A report that does not answer the pending action is ignored: the state
    /// stays as it is and the pending action is returned again.
    pub fn step(&mut self, event: Event) -> (action: Action)
        ensures
            final(self)@ == step_spec(old(self)@, event@),
            action@ == pending(final(self)@),
            final(self)@.well_formed(),
    {
        proof {
            use_type_invariant(&*self);
        }
        match self.phase {
            Phase::Sampling => {
                if let Event::Snapshot(processes) = event {
                    let sampled = crate::matcher::matches(&processes, &self.config.process);
                    let (presence, emit) = next(self.presence, sampled);
                    self.presence = presence;
                    self.phase = if emit {
                        Phase::Notifying
                    } else {
                        Phase::Sleeping
                    };
                }
            },
            Phase::Announcing => {
                match event {
                    Event::Delivered => {
                        self.phase = Phase::Sampling;
                    },
                    Event::TransportFailed => {
                        self.phase = Phase::CoolingDown;
                    },
                    _ => {},
                }
            },
            Phase::Notifying => {
                match event {
                    Event::Delivered => {
                        self.phase = Phase::Sleeping;
                    },
                    Event::TransportFailed => {
                        self.presence = PresenceState::Off;
                        self.phase = Phase::CoolingDown;
                    },
                    _ => {},
                }
            },
            Phase::Sleeping => {
                if let Event::Woke = event {
                    self.phase = Phase::Sampling;
                }
            },
            Phase::CoolingDown => {
                if let Event::Woke = event {
                    self.phase = if self.config.notify_on_start {
                        Phase::Announcing
                    } else {
                        Phase::Sampling
                    };
                }
            },
        }
        self.pending_action()
    }
}

} // verus!
