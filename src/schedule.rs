use vstd::prelude::*;
use crate::clock::{
    boundary_of, current_boundary, lemma_next_boundary, remaining_of, remaining_to_next_boundary,
    PERIOD_SECS,
};

verus! {

/// Why the background unit stopped before its listeners were dropped.
#[derive(Clone, Copy, Debug, PartialEq, Eq, Structural)]
pub enum TimerError {
    /// The lock around the registry was poisoned by a panic in another holder.
    Lock,
    /// The system clock reported a time before the epoch.
    Clock,
}

/// Where the background unit stands in its life.
#[derive(Clone, Copy, Debug, PartialEq, Eq, Structural)]
pub enum Phase {
    /// Started, and waiting for the first boundary.
    Aligning,
    /// Ticking once per boundary.
    Running,
    /// Stopped for good; a stopped unit never ticks again.
    Terminated,
}

/// What the background unit saw when it woke up.
#[derive(Clone, Copy, Debug)]
pub struct Observation {
    /// Number of attached listeners, or `None` where the registry's lock was poisoned.
    pub listeners: Option<usize>,
    /// Seconds since the epoch, or `None` where the clock read before the epoch.
    pub now: Option<u64>,
}

/// What the background unit does next.
#[derive(Clone, Copy, Debug)]
pub enum Action {
    /// Sleep for `secs` seconds, then wake again.
    Sleep { secs: u64 },
    /// Hand `timestamp` to every attached listener, then sleep for `secs` seconds.
    Deliver { timestamp: u64, secs: u64 },
    /// Leave the loop with `result`.
    Exit { result: Result<(), TimerError> },
    /// Nothing: the unit has already stopped.
    Halt,
}

/// The decision of the background unit in `phase` on waking to `obs`.
///
/// The first wake aligns to the next boundary. After that, each wake stops the unit
/// when the registry is empty or cannot be read, and otherwise delivers the boundary
/// just crossed and sleeps until the next one, measured again from the clock.
pub open spec fn next_spec(phase: Phase, obs: Observation) -> (Phase, Action) {
    match phase {
        Phase::Aligning => match obs.now {
            None => (Phase::Terminated, Action::Exit { result: Err(TimerError::Clock) }),
            Some(t) => (Phase::Running, Action::Sleep { secs: remaining_of(t as nat) as u64 }),
        },
        Phase::Running => match obs.listeners {
            None => (Phase::Terminated, Action::Exit { result: Err(TimerError::Lock) }),
            Some(n) => if n == 0 {
                (Phase::Terminated, Action::Exit { result: Ok(()) })
            } else {
                match obs.now {
                    None => (Phase::Terminated, Action::Exit { result: Err(TimerError::Clock) }),
                    Some(t) => (
                        Phase::Running,
                        Action::Deliver {
                            timestamp: boundary_of(t as nat) as u64,
                            secs: remaining_of(t as nat) as u64,
                        },
                    ),
                }
            },
        },
        Phase::Terminated => (Phase::Terminated, Action::Halt),
    }
}

/// Computes the background unit's next phase and action; see `next_spec`.
pub fn next(phase: Phase, obs: Observation) -> (r: (Phase, Action))
    ensures
        r == next_spec(phase, obs),
{
    match phase {
        Phase::Aligning => match obs.now {
            None => (Phase::Terminated, Action::Exit { result: Err(TimerError::Clock) }),
            Some(t) => (Phase::Running, Action::Sleep { secs: remaining_to_next_boundary(t) }),
        },
        Phase::Running => match obs.listeners {
            None => (Phase::Terminated, Action::Exit { result: Err(TimerError::Lock) }),
            Some(n) => if n == 0 {
                (Phase::Terminated, Action::Exit { result: Ok(()) })
            } else {
                match obs.now {
                    None => (Phase::Terminated, Action::Exit { result: Err(TimerError::Clock) }),
                    Some(t) => (
                        Phase::Running,
                        Action::Deliver {
                            timestamp: current_boundary(t),
                            secs: remaining_to_next_boundary(t),
                        },
                    ),
                }
            },
        },
        Phase::Terminated => (Phase::Terminated, Action::Halt),
    }
}

/// The actions the background unit takes, starting in `phase`, on waking to each of
/// `events` in turn.
pub open spec fn run_spec(phase: Phase, events: Seq<Observation>) -> Seq<Action>
    decreases events.len(),
{
    if events.len() == 0 {
        Seq::empty()
    } else {
        let (p, a) = next_spec(phase, events[0]);
        seq![a] + run_spec(p, events.drop_first())
    }
}


/// A terminated unit stays terminated: whatever it observes afterwards, listeners
/// attached since included, it never delivers again.
pub proof fn lemma_terminated_never_delivers(events: Seq<Observation>)
    ensures
        run_spec(Phase::Terminated, events).len() == events.len(),
        forall|i: int|
            0 <= i < events.len() ==> #[trigger] run_spec(Phase::Terminated, events)[i]
                == Action::Halt,
    decreases events.len(),
{
    if events.len() > 0 {
        lemma_terminated_never_delivers(events.drop_first());
        let rest = run_spec(Phase::Terminated, events.drop_first());
        assert(run_spec(Phase::Terminated, events) == seq![Action::Halt] + rest);
        assert forall|i: int| 0 <= i < events.len() implies #[trigger] run_spec(
            Phase::Terminated,
            events,
        )[i] == Action::Halt by {
            if i > 0 {
                assert(run_spec(Phase::Terminated, events)[i] == rest[i - 1]);
            }
        }
    }
}

/// A running unit never sleeps longer than one period, and the first wake that
/// finds the registry empty ends it normally. So once the listeners are dropped,
/// and none is attached again, it stops within one period.
pub proof fn lemma_empty_registry_stops_within_period(phase: Phase, obs: Observation)
    ensures
        next_spec(phase, obs).1 matches Action::Sleep { secs } ==> 1 <= secs <= PERIOD_SECS,
        next_spec(phase, obs).1 matches Action::Deliver { secs, .. } ==> 1 <= secs <= PERIOD_SECS,
        phase == Phase::Running && obs.listeners == Some(0usize) ==> next_spec(phase, obs) == (
        Phase::Terminated,
        Action::Exit { result: Ok(()) },
        ),
{
}

/// Waking on time after a delivery (no sooner than the sleep it asked for, and less
/// than one period later) delivers a timestamp exactly one period after the last.
/// The same holds of the first delivery after the alignment wait, measured from the
/// boundary before the unit started.
pub proof fn lemma_consecutive_deliveries(phase: Phase, t1: u64, n1: usize, t2: u64, n2: usize)
    requires
        phase == Phase::Aligning || phase == Phase::Running,
        n1 > 0,
        n2 > 0,
        t1 + remaining_of(t1 as nat) <= t2 < t1 + remaining_of(t1 as nat) + PERIOD_SECS,
    ensures
        ({
            let (p1, a1) = next_spec(phase, Observation { listeners: Some(n1), now: Some(t1) });
            let (p2, a2) = next_spec(p1, Observation { listeners: Some(n2), now: Some(t2) });
            &&& p1 == Phase::Running
            &&& a1 matches Action::Sleep { secs } ==> t1 + secs == boundary_of(t1 as nat)
                + PERIOD_SECS
            &&& a1 matches Action::Deliver { timestamp, secs } ==> timestamp == boundary_of(
                t1 as nat,
            ) && t1 + secs == timestamp + PERIOD_SECS
            &&& a2 matches Action::Deliver { timestamp, .. } && timestamp == boundary_of(t1 as nat)
                + PERIOD_SECS
        }),
{
    lemma_next_boundary(t1 as nat, t2 as nat);
}

} // verus!
