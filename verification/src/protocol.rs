//! One measurement as a state machine.
//!
//! The machine never touches a line or a clock. In every phase it names the
//! one thing to be done next, an [`Action`]; whoever drives the hardware does
//! it and reports what came of it as an [`Event`], and [`step`] moves on.
//!
//! A measurement runs through the trigger pulse (low, hold, high, hold, low),
//! subscribes to the edges of the echo line, waits for the rising edge and
//! then for the falling edge, and ends as `Computed` or `Failed`. Falling
//! edges that come before the rising edge are noise: they are passed over
//! for as long as anything is left of the budget. Nothing is tried twice.

use crate::error::HcSr04Error;
use crate::resolver::{echo_picometres, resolve_distance};
use crate::timing::{elapsed, elapsed_between, remaining, remaining_budget};
use crate::units::DistanceUnit;
use vstd::prelude::*;

verus! {

/// Microseconds for which the trigger line rests low before the pulse.
pub const TRIGGER_SETTLE_MICROSECS: u64 = 2;

/// Microseconds for which the trigger line is held high.
pub const TRIGGER_PULSE_MICROSECS: u64 = 10;

/// A level of the trigger line.
#[derive(Clone, Copy, Debug, PartialEq, Eq)]
pub enum Level {
    Low,
    High,
}

/// The direction of a transition of the echo line.
#[derive(Clone, Copy, Debug, PartialEq, Eq)]
pub enum Edge {
    Rising,
    Falling,
}

/// What is to be done next on the hardware.
#[derive(Clone, Copy, Debug, PartialEq, Eq)]
pub enum Action {
    /// Drive the trigger line to this level.
    SetLevel(Level),
    /// Let this many microseconds pass.
    Hold(u64),
    /// Ask for the events of both edges of the echo line, and read the clock.
    Subscribe,
    /// Block for the next event of the echo line, this many nanoseconds at
    /// most, and read the clock when it has come.
    AwaitEdge(u128),
    /// Nothing: no measurement is under way.
    Finish,
}

/// What came of the last action.
#[derive(Clone, Copy, Debug, PartialEq, Eq)]
pub enum Event {
    /// The trigger line took the level.
    LevelSet,
    /// The trigger line could not be driven.
    LevelRefused,
    /// The time to hold has passed.
    Held,
    /// The echo line now reports its edges; the clock stood at `at`.
    Subscribed { at: u64 },
    /// The echo line did not grant the subscription.
    SubscriptionRefused,
    /// An edge came in time; the clock stood at `at` when it was read.
    Edge { edge: Edge, at: u64 },
    /// Something came in time, but no edge could be read from it; the clock
    /// stood at `at`.
    Unreadable { at: u64 },
    /// The time to wait ran out and nothing came.
    TimedOut,
    /// The wait itself failed, which is no running out of time.
    WaitFailed,
}

/// Where a measurement stands.
#[derive(Clone, Copy, Debug, PartialEq, Eq)]
pub enum Phase {
    /// No measurement has been begun.
    Idle,
    /// The trigger line is being driven low before the pulse.
    Lowering,
    /// The trigger line rests low.
    SettlingLow,
    /// The trigger line is being driven high.
    Raising,
    /// The trigger line is held high.
    HoldingHigh,
    /// The trigger line is being driven low again, which ends the pulse.
    Releasing,
    /// The edges of the echo line are being subscribed to.
    Subscribing,
    /// The rising edge is awaited for `remaining` nanoseconds; the clock
    /// stood at `start` when the subscription was granted.
    AwaitingRisingEdge { start: u64, remaining: u128 },
    /// The rising edge was read at `rise`, and the event after it is awaited
    /// for `remaining` nanoseconds.
    AwaitingFallingEdge { rise: u64, remaining: u128 },
    /// The rising edge and the event after it came. `distance` is the
    /// distance of the target where that event was a falling edge, and
    /// nothing where it was another rising edge.
    Computed { distance: Option<DistanceUnit> },
    /// The measurement was given up.
    Failed { error: HcSr04Error },
}

impl Level {
    /// The level as the number that a GPIO line takes.
    pub open spec fn bit(self) -> u8 {
        match self {
            Level::Low => 0,
            Level::High => 1,
        }
    }

    /// The level as the number that a GPIO line takes: 0 for low, 1 for high.
    pub fn value(&self) -> (bit: u8)
        ensures
            bit == self.bit(),
    {
        match self {
            Level::Low => 0,
            Level::High => 1,
        }
    }
}

/// The action that a phase waits on.
pub open spec fn pending_action(phase: Phase) -> Action {
    match phase {
        Phase::Lowering => Action::SetLevel(Level::Low),
        Phase::SettlingLow => Action::Hold(TRIGGER_SETTLE_MICROSECS),
        Phase::Raising => Action::SetLevel(Level::High),
        Phase::HoldingHigh => Action::Hold(TRIGGER_PULSE_MICROSECS),
        Phase::Releasing => Action::SetLevel(Level::Low),
        Phase::Subscribing => Action::Subscribe,
        Phase::AwaitingRisingEdge { remaining, .. } => Action::AwaitEdge(remaining),
        Phase::AwaitingFallingEdge { remaining, .. } => Action::AwaitEdge(remaining),
        Phase::Idle => Action::Finish,
        Phase::Computed { .. } => Action::Finish,
        Phase::Failed { .. } => Action::Finish,
    }
}

/// Whether a measurement is under way in this phase.
pub open spec fn in_progress(phase: Phase) -> bool {
    !(phase is Idle || phase is Computed || phase is Failed)
}

/// Whether the wait that a phase asks for is no longer than the budget.
pub open spec fn within_budget(budget: u128, phase: Phase) -> bool {
    match phase {
        Phase::AwaitingRisingEdge { remaining, .. } => remaining <= budget,
        Phase::AwaitingFallingEdge { remaining, .. } => remaining <= budget,
        _ => true,
    }
}

/// Whether `event` reports on the action that `phase` waits on, well or
/// badly.
pub open spec fn answers(phase: Phase, event: Event) -> bool {
    match pending_action(phase) {
        Action::SetLevel(_) => event is LevelSet || event is LevelRefused,
        Action::Hold(_) => event is Held,
        Action::Subscribe => event is Subscribed || event is SubscriptionRefused,
        Action::AwaitEdge(_) => event is Edge || event is Unreadable || event is TimedOut
            || event is WaitFailed,
        Action::Finish => false,
    }
}

/// The error with which an event ends a measurement, if it ends it whatever
/// the phase: a level that the line refused, a wait that failed and an event
/// that could not be read are `Io`, a refused subscription is
/// `LineEventHandleRequest`, and a wait that ran out is `PollFd`.
pub open spec fn failure_of(event: Event) -> Option<HcSr04Error> {
    match event {
        Event::LevelRefused => Some(HcSr04Error::Io),
        Event::SubscriptionRefused => Some(HcSr04Error::LineEventHandleRequest),
        Event::TimedOut => Some(HcSr04Error::PollFd),
        Event::WaitFailed => Some(HcSr04Error::Io),
        Event::Unreadable { .. } => Some(HcSr04Error::Io),
        _ => None,
    }
}

/// Whether `event` is noise that `phase` passes over: a falling edge that
/// comes while the rising edge is awaited and something is left of the
/// budget.
pub open spec fn passed_over(budget: u128, phase: Phase, event: Event) -> bool {
    phase matches Phase::AwaitingRisingEdge { start, .. } && event matches Event::Edge {
        edge: Edge::Falling,
        at,
    } && remaining_budget(budget, start, at) > 0
}

/// The phase after an edge that was read at `at` while the rising edge was
/// awaited. A rising edge starts the echo pulse. A falling edge starts
/// nothing: the rising edge stays awaited for what is left of the budget, and
/// where nothing is left the time has run out.
pub open spec fn after_edge_before_rise(budget: u128, start: u64, edge: Edge, at: u64) -> Phase {
    let left = remaining_budget(budget, start, at) as u128;
    match edge {
        Edge::Rising => Phase::AwaitingFallingEdge { rise: at, remaining: left },
        Edge::Falling => if left == 0 {
            Phase::Failed { error: HcSr04Error::PollFd }
        } else {
            Phase::AwaitingRisingEdge { start, remaining: left }
        },
    }
}

/// The phase after an edge that was read at `at` when the echo pulse had
/// risen at `rise`. A falling edge ends the pulse and gives the distance;
/// another rising edge gives none.
pub open spec fn after_edge_past_rise(rise: u64, edge: Edge, at: u64) -> Phase {
    Phase::Computed {
        distance: match edge {
            Edge::Falling => Some(
                DistanceUnit::Cm(echo_picometres(elapsed_between(rise, at)) as u128),
            ),
            Edge::Rising => None,
        },
    }
}

/// The phase to which a good answer takes a measurement.
pub open spec fn onward(budget: u128, phase: Phase, event: Event) -> Phase {
    match phase {
        Phase::Lowering => Phase::SettlingLow,
        Phase::SettlingLow => Phase::Raising,
        Phase::Raising => Phase::HoldingHigh,
        Phase::HoldingHigh => Phase::Releasing,
        Phase::Releasing => Phase::Subscribing,
        Phase::Subscribing => match event {
            Event::Subscribed { at } => Phase::AwaitingRisingEdge { start: at, remaining: budget },
            _ => phase,
        },
        Phase::AwaitingRisingEdge { start, .. } => match event {
            Event::Edge { edge, at } => after_edge_before_rise(budget, start, edge, at),
            _ => phase,
        },
        Phase::AwaitingFallingEdge { rise, .. } => match event {
            Event::Edge { edge, at } => after_edge_past_rise(rise, edge, at),
            _ => phase,
        },
        _ => phase,
    }
}

/// The phase that follows `phase` when `event` is reported.
///
/// Where no measurement is under way nothing changes. An event that does not
/// report on the pending action ends the measurement with `Io`, a bad answer
/// with the error of [`failure_of`], and a good answer takes it
/// [`onward`].
pub open spec fn next_phase(budget: u128, phase: Phase, event: Event) -> Phase {
    if !in_progress(phase) {
        phase
    } else if !answers(phase, event) {
        Phase::Failed { error: HcSr04Error::Io }
    } else {
        match failure_of(event) {
            Some(error) => Phase::Failed { error },
            None => onward(budget, phase, event),
        }
    }
}

/// The phase reached from `phase` by the first `n` of `events`.
pub open spec fn phase_after(budget: u128, phase: Phase, events: Seq<Event>, n: nat) -> Phase
    decreases n,
{
    if n == 0 {
        phase
    } else {
        next_phase(budget, phase_after(budget, phase, events, (n - 1) as nat), events[n - 1])
    }
}

/// The phase reached from `phase` by all of `events`.
pub open spec fn run(budget: u128, phase: Phase, events: Seq<Event>) -> Phase {
    phase_after(budget, phase, events, events.len())
}

/// The action that `phase` waits on.
pub fn action_for(phase: &Phase) -> (action: Action)
    ensures
        action == pending_action(*phase),
{
    match phase {
        Phase::Lowering => Action::SetLevel(Level::Low),
        Phase::SettlingLow => Action::Hold(TRIGGER_SETTLE_MICROSECS),
        Phase::Raising => Action::SetLevel(Level::High),
        Phase::HoldingHigh => Action::Hold(TRIGGER_PULSE_MICROSECS),
        Phase::Releasing => Action::SetLevel(Level::Low),
        Phase::Subscribing => Action::Subscribe,
        Phase::AwaitingRisingEdge { remaining, .. } => Action::AwaitEdge(*remaining),
        Phase::AwaitingFallingEdge { remaining, .. } => Action::AwaitEdge(*remaining),
        _ => Action::Finish,
    }
}

/// Takes a measurement from `phase` over `event` and says what is to be done
/// next. A wait that is asked for is no longer than the budget.
pub fn step(budget: u128, phase: Phase, event: Event) -> (next: (Phase, Action))
    ensures
        next.0 == next_phase(budget, phase, event),
        next.1 == pending_action(next.0),
        within_budget(budget, next.0),
        next.1 matches Action::AwaitEdge(wait) ==> wait <= budget,
{
    let io = Phase::Failed { error: HcSr04Error::Io };
    let timeout = Phase::Failed { error: HcSr04Error::PollFd };
    let reached = match phase {
        Phase::Idle => phase,
        Phase::Computed { .. } => phase,
        Phase::Failed { .. } => phase,
        Phase::Lowering => match event {
            Event::LevelSet => Phase::SettlingLow,
            _ => io,
        },
        Phase::SettlingLow => match event {
            Event::Held => Phase::Raising,
            _ => io,
        },
        Phase::Raising => match event {
            Event::LevelSet => Phase::HoldingHigh,
            _ => io,
        },
        Phase::HoldingHigh => match event {
            Event::Held => Phase::Releasing,
            _ => io,
        },
        Phase::Releasing => match event {
            Event::LevelSet => Phase::Subscribing,
            _ => io,
        },
        Phase::Subscribing => match event {
            Event::Subscribed { at } => Phase::AwaitingRisingEdge { start: at, remaining: budget },
            Event::SubscriptionRefused => Phase::Failed {
                error: HcSr04Error::LineEventHandleRequest,
            },
            _ => io,
        },
        Phase::AwaitingRisingEdge { start, .. } => match event {
            Event::Edge { edge: Edge::Rising, at } => Phase::AwaitingFallingEdge {
                rise: at,
                remaining: remaining(budget, start, at),
            },
            Event::Edge { edge: Edge::Falling, at } => {
                let left: u128 = remaining(budget, start, at);
                if left == 0 {
                    timeout
                } else {
                    Phase::AwaitingRisingEdge { start, remaining: left }
                }
            },
            Event::TimedOut => timeout,
            _ => io,
        },
        Phase::AwaitingFallingEdge { rise, .. } => match event {
            Event::Edge { edge: Edge::Falling, at } => Phase::Computed {
                distance: Some(resolve_distance(elapsed(rise, at))),
            },
            Event::Edge { edge: Edge::Rising, .. } => Phase::Computed { distance: None },
            Event::TimedOut => timeout,
            _ => io,
        },
    };
    let action = action_for(&reached);
    (reached, action)
}

} // verus!
