//! The per-tick order of the two calls, as a state machine that the caller
//! feeds with timer ticks and call completions.
use vstd::prelude::*;
use crate::config::EndpointConfig;
use crate::outcome::OutcomeKind;
use crate::request::{AdminRequest, Trigger};

verus! {

/// Seconds between two ticks.
pub const TICK_PERIOD_SECS: u64 = 600;

/// Where the scheduler stands within a tick.
#[derive(Clone, Copy, Debug, PartialEq, Eq, Structural)]
pub enum Phase {
    /// Between ticks: nothing in flight.
    AwaitingTick,
    /// The deletion call is in flight.
    Deleting,
    /// The transfer call is in flight.
    Transferring,
}

/// What the caller reports to the scheduler.
#[derive(Clone, Copy, Debug, PartialEq, Eq, Structural)]
pub enum Event {
    /// The timer fired.
    Tick,
    /// The call in flight ended, in the given way.
    Completed(OutcomeKind),
}

/// What the caller is to do next.
#[derive(Debug)]
pub enum Action {
    /// Wait for the next tick.
    AwaitTick,
    /// Keep waiting for the call in flight.
    AwaitCompletion,
    /// Make this call and report its completion.
    Call { trigger: Trigger, request: AdminRequest },
}

/// Abstract state: the phase, the ticks accepted so far and every call
/// issued so far, in order.
pub struct SchedulerView {
    pub phase: Phase,
    pub ticks: nat,
    pub calls: Seq<Trigger>,
}

pub open spec fn initial() -> SchedulerView {
    SchedulerView { phase: Phase::AwaitingTick, ticks: 0, calls: Seq::empty() }
}

/// Whether an event is the one the phase waits for.
pub open spec fn accepts(phase: Phase, e: Event) -> bool {
    match e {
        Event::Tick => phase == Phase::AwaitingTick,
        Event::Completed(_) => phase != Phase::AwaitingTick,
    }
}

/// The call in flight in a phase.
pub open spec fn in_flight(phase: Phase) -> Option<Trigger> {
    match phase {
        Phase::AwaitingTick => None,
        Phase::Deleting => Some(Trigger::Deletion),
        Phase::Transferring => Some(Trigger::Transfer),
    }
}

/// One transition. A tick starts the deletion call; its completion, however
/// it ended, starts the transfer call; the transfer's completion closes the
/// tick. An event the phase does not wait for changes nothing.
pub open spec fn step_spec(s: SchedulerView, e: Event) -> SchedulerView {
    if !accepts(s.phase, e) {
        s
    } else {
        match s.phase {
            Phase::AwaitingTick => SchedulerView {
                phase: Phase::Deleting,
                ticks: s.ticks + 1,
                calls: s.calls.push(Trigger::Deletion),
            },
            Phase::Deleting => SchedulerView {
                phase: Phase::Transferring,
                calls: s.calls.push(Trigger::Transfer),
                ..s
            },
            Phase::Transferring => SchedulerView { phase: Phase::AwaitingTick, ..s },
        }
    }
}

/// The state after a run of events.
pub open spec fn run(s: SchedulerView, events: Seq<Event>) -> SchedulerView
    decreases events.len(),
{
    if events.len() == 0 {
        s
    } else {
        step_spec(run(s, events.drop_last()), events.last())
    }
}

/// The calls of `n` complete ticks: a deletion then a transfer, `n` times.
pub open spec fn rounds(n: nat) -> Seq<Trigger>
    decreases n,
{
    if n == 0 {
        Seq::empty()
    } else {
        rounds((n - 1) as nat).push(Trigger::Deletion).push(Trigger::Transfer)
    }
}

/// The calls issued are always the rounds of the ticks accepted, the last
/// one cut after its deletion while that deletion is in flight.
pub open spec fn consistent(s: SchedulerView) -> bool {
    match s.phase {
        Phase::AwaitingTick => s.calls == rounds(s.ticks),
        Phase::Deleting => s.ticks > 0 && s.calls == rounds((s.ticks - 1) as nat).push(
            Trigger::Deletion,
        ),
        Phase::Transferring => s.ticks > 0 && s.calls == rounds(s.ticks),
    }
}

/// Drives the two calls of each tick, one after the other.
pub struct Scheduler {
    config: EndpointConfig,
    phase: Phase,
    ticks: Ghost<nat>,
    calls: Ghost<Seq<Trigger>>,
}

impl View for Scheduler {
    type V = SchedulerView;

    closed spec fn view(&self) -> SchedulerView {
        SchedulerView { phase: self.phase, ticks: self.ticks@, calls: self.calls@ }
    }
}

impl Scheduler {
    pub closed spec fn spec_config(&self) -> EndpointConfig {
        self.config
    }

    pub fn new(config: EndpointConfig) -> (r: Scheduler)
        ensures
            r@ == initial(),
            r.spec_config() == config,
    {
        Scheduler { config, phase: Phase::AwaitingTick, ticks: Ghost(0), calls: Ghost(Seq::empty()) }
    }

    pub fn phase(&self) -> (r: Phase)
        ensures
            r == self@.phase,
    {
        self.phase
    }

    pub fn config(&self) -> (r: &EndpointConfig)
        ensures
            *r == self.spec_config(),
    {
        &self.config
    }

    /// Feeds one event and says what to do next: the call that is now in
    /// flight, planned from the configuration, or what to wait for.
    pub fn step(&mut self, e: Event) -> (action: Action)
        ensures
            final(self)@ == step_spec(old(self)@, e),
            final(self).spec_config() == old(self).spec_config(),
            accepts(old(self)@.phase, e) ==> match in_flight(final(self)@.phase) {
                Some(t) => action matches Action::Call { trigger, request } && trigger == t
                    && request.plans(old(self).spec_config(), t),
                None => action is AwaitTick,
            },
            !accepts(old(self)@.phase, e) ==> (if old(self)@.phase == Phase::AwaitingTick {
                action is AwaitTick
            } else {
                action is AwaitCompletion
            }),
    {
        match (self.phase, e) {
            (Phase::AwaitingTick, Event::Tick) => {
                self.phase = Phase::Deleting;
                self.ticks = Ghost(self.ticks@ + 1);
                self.calls = Ghost(self.calls@.push(Trigger::Deletion));
                Action::Call {
                    trigger: Trigger::Deletion,
                    request: self.config.request_for(Trigger::Deletion),
                }
            },
            (Phase::Deleting, Event::Completed(_)) => {
                self.phase = Phase::Transferring;
                self.calls = Ghost(self.calls@.push(Trigger::Transfer));
                Action::Call {
                    trigger: Trigger::Transfer,
                    request: self.config.request_for(Trigger::Transfer),
                }
            },
            (Phase::Transferring, Event::Completed(_)) => {
                self.phase = Phase::AwaitingTick;
                Action::AwaitTick
            },
            (Phase::AwaitingTick, Event::Completed(_)) => Action::AwaitTick,
            (_, Event::Tick) => Action::AwaitCompletion,
        }
    }
}

/// How many times `t` occurs in `calls`.
pub open spec fn count_of(calls: Seq<Trigger>, t: Trigger) -> nat
    decreases calls.len(),
{
    if calls.len() == 0 {
        0
    } else {
        count_of(calls.drop_last(), t) + if calls.last() == t {
            1nat
        } else {
            0nat
        }
    }
}

proof fn lemma_count_push(calls: Seq<Trigger>, c: Trigger, t: Trigger)
    ensures
        count_of(calls.push(c), t) == count_of(calls, t) + if c == t {
            1nat
        } else {
            0nat
        },
{
    assert(calls.push(c).drop_last() =~= calls);
}

proof fn lemma_rounds_shape(n: nat)
    ensures
        rounds(n).len() == 2 * n,
        count_of(rounds(n), Trigger::Deletion) == n,
        count_of(rounds(n), Trigger::Transfer) == n,
        forall|i: int|
            0 <= i < n ==> #[trigger] rounds(n)[2 * i] == Trigger::Deletion && rounds(n)[2 * i
                + 1] == Trigger::Transfer,
    decreases n,
{
    if n > 0 {
        let m = (n - 1) as nat;
        lemma_rounds_shape(m);
        let a = rounds(m).push(Trigger::Deletion);
        lemma_count_push(rounds(m), Trigger::Deletion, Trigger::Deletion);
        lemma_count_push(rounds(m), Trigger::Deletion, Trigger::Transfer);
        lemma_count_push(a, Trigger::Transfer, Trigger::Deletion);
        lemma_count_push(a, Trigger::Transfer, Trigger::Transfer);
        assert forall|i: int| 0 <= i < n implies #[trigger] rounds(n)[2 * i] == Trigger::Deletion
            && rounds(n)[2 * i + 1] == Trigger::Transfer by {
            if i < m {
                assert(rounds(m)[2 * i] == Trigger::Deletion);
            }
        }
    }
}

/// Every transition keeps the calls issued in step with the ticks accepted.
pub proof fn lemma_step_consistent(s: SchedulerView, e: Event)
    requires
        consistent(s),
    ensures
        consistent(step_spec(s, e)),
{
    if accepts(s.phase, e) && s.phase == Phase::Deleting {
        assert(rounds(s.ticks) == rounds((s.ticks - 1) as nat).push(Trigger::Deletion).push(
            Trigger::Transfer,
        ));
    }
}

/// From a fresh scheduler, every run of events leaves it consistent.
pub proof fn lemma_run_consistent(events: Seq<Event>)
    ensures
        consistent(run(initial(), events)),
    decreases events.len(),
{
    if events.len() > 0 {
        lemma_run_consistent(events.drop_last());
        lemma_step_consistent(run(initial(), events.drop_last()), events.last());
    }
}

/// Over any run from a fresh scheduler, as many deletion calls are issued
/// as ticks were accepted, and as many transfer calls, but for a deletion
/// still in flight. Between ticks the calls are exactly one deletion then
/// one transfer per tick, with no two ticks' calls interleaved.
pub proof fn lemma_one_pair_per_tick(events: Seq<Event>)
    ensures
        ({
            let s = run(initial(), events);
            &&& count_of(s.calls, Trigger::Deletion) == s.ticks
            &&& count_of(s.calls, Trigger::Transfer) + (if s.phase == Phase::Deleting {
                1nat
            } else {
                0nat
            }) == s.ticks
            &&& s.phase == Phase::AwaitingTick ==> {
                &&& s.calls.len() == 2 * s.ticks
                &&& forall|i: int|
                    0 <= i < s.ticks ==> #[trigger] s.calls[2 * i] == Trigger::Deletion
                        && s.calls[2 * i + 1] == Trigger::Transfer
            }
        }),
{
    let s = run(initial(), events);
    lemma_run_consistent(events);
    if s.phase == Phase::Deleting {
        let m = (s.ticks - 1) as nat;
        lemma_rounds_shape(m);
        lemma_count_push(rounds(m), Trigger::Deletion, Trigger::Deletion);
        lemma_count_push(rounds(m), Trigger::Deletion, Trigger::Transfer);
    } else {
        lemma_rounds_shape(s.ticks);
    }
}

/// However the deletion call ended, its completion puts the transfer call
/// in flight.
pub proof fn lemma_transfer_follows_deletion(s: SchedulerView, k: OutcomeKind)
    requires
        s.phase == Phase::Deleting,
    ensures
        in_flight(step_spec(s, Event::Completed(k)).phase) == Some(Trigger::Transfer),
        step_spec(s, Event::Completed(k)).calls == s.calls.push(Trigger::Transfer),
{
}

} // verus!
